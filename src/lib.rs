//! Core of a SAML 2.0 library: message model, attribute queries, signature
//! typestate, condition checks and binding encoders.

pub mod attribute;
pub mod binding;
pub mod encoding;
pub mod idp;
pub mod key_info;
pub mod metadata;
pub mod schema;
pub mod service_provider;
pub mod signature;
pub mod utils;
