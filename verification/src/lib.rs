pub mod cache;
pub mod dao;
pub mod datetime;
pub mod default_value;
pub mod discovery;
pub mod divide0;
pub mod error;
pub mod ids;
pub mod load_balance;
pub mod model;
pub mod models;
pub mod nacos;
pub mod request_to_internal_service;
pub mod text;
