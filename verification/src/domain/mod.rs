pub mod device;
pub mod device_id;

pub use device::{Device, DeviceView};
