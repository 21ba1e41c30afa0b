pub mod device_info;
pub mod errors;
