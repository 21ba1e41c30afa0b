pub mod errors;
pub mod led;
