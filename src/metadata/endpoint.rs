use vstd::prelude::*;

verus! {

/// A metadata endpoint: a protocol binding and the location that serves it.
#[derive(Clone, Debug, Default, PartialEq, Eq)]
pub struct Endpoint {
    pub binding: String,
    pub location: String,
    pub response_location: Option<String>,
}

/// A metadata endpoint with an index, as used for assertion consumer services.
#[derive(Clone, Debug, Default, PartialEq, Eq)]
pub struct IndexedEndpoint {
    pub binding: String,
    pub location: String,
    pub response_location: Option<String>,
    pub index: u16,
    pub is_default: Option<bool>,
}

} // verus!
