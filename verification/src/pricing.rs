pub mod candles;
pub mod controller;
pub mod models;
pub mod quotemulti;
pub mod quotes;
pub mod symbols;
pub mod times;
pub mod utils;
pub mod volume;
