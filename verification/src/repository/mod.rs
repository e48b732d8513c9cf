pub mod device_repository;
pub mod store_laws;

pub use device_repository::{DeviceRepository, StoreError};
