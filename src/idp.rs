pub mod error;
pub mod verified_request;
