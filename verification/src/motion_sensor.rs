pub mod errors;
pub mod motion_sensor;
