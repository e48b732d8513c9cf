pub mod device_handler;
pub mod esp32_handler;
pub mod reply;

pub use device_handler::{create_device, get_device, list_devices};
pub use esp32_handler::{
    build_firmware, clean_project, create_basic_main, init_project, upload_firmware,
};
pub use reply::{HttpReply, ReplyBody};
