use vstd::prelude::*;
use crate::key_info::KeyInfo;

verus! {

/// An XML-DSig `Signature` element, reduced to the key material it carries.
#[derive(Clone, Debug, Default, PartialEq, Eq)]
pub struct Signature {
    pub id: Option<String>,
    pub key_info: Vec<KeyInfo>,
}

} // verus!
