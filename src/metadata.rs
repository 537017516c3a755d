pub mod encryption_method;
pub mod endpoint;
