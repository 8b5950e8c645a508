pub mod request_models;
pub mod response_models;
