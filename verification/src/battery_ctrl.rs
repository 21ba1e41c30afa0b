pub mod errors;
pub mod power_supply;
