use vstd::prelude::*;

verus! {

/// A metadata `EncryptionMethod` element.
#[derive(Clone, Debug, Default, PartialEq, Eq)]
pub struct EncryptionMethod {
    pub algorithm: String,
}

} // verus!
