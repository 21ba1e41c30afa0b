pub mod cpu_ctrl;
pub mod errors;
