pub mod models;
pub mod rolling;
