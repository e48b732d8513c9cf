pub mod in_memory_device_repo;

pub use in_memory_device_repo::InMemoryDeviceRepository;
