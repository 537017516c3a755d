use vstd::prelude::*;

verus! {

/// The `NameIDPolicy` of an authentication request.
#[derive(Clone, Debug, Default, PartialEq, Eq)]
pub struct NameIdPolicy {
    pub format: Option<String>,
    pub sp_name_qualifier: Option<String>,
    pub allow_create: Option<bool>,
}

} // verus!
