pub mod qa;
pub mod request;
pub mod response;
pub mod qa_cache;
pub mod sku;
