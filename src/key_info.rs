use vstd::prelude::*;

verus! {

/// An XML-DSig `KeyInfo` element.
#[derive(Clone, Debug, Default, PartialEq, Eq)]
pub struct KeyInfo {
    pub id: Option<String>,
    pub x509_data: Option<X509Data>,
}

/// An XML-DSig `X509Data` element: base64-encoded certificates.
#[derive(Clone, Debug, Default, PartialEq, Eq)]
pub struct X509Data {
    pub certificates: Vec<String>,
}

} // verus!
