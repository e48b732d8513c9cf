pub mod device_service;
pub mod platformio_service;
pub mod toolchain_io;
pub mod toolchain_laws;
pub mod toolchain_job;

pub use device_service::DeviceService;
pub use platformio_service::PlatformIOService;
