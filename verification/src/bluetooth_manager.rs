pub mod bluetooth;
pub mod errors;
