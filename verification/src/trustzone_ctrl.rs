pub mod errors;
pub mod trust_ctrl;
