pub mod display;
pub mod errors;
