pub mod device_dto;

pub use device_dto::{
    BuildRequest, CommandResponse, DeviceCreateRequest, DeviceResponse, InitProjectRequest,
    UploadRequest,
};
