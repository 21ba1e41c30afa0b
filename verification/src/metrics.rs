pub mod errors;
pub mod metrics;
