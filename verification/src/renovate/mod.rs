pub mod client;
pub mod errors;
pub mod manager;
