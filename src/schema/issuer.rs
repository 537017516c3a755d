use vstd::prelude::*;

verus! {

/// The `Issuer` of a protocol message: the entity that produced it.
#[derive(Clone, Debug, Default, PartialEq, Eq)]
pub struct Issuer {
    pub name_qualifier: Option<String>,
    pub sp_name_qualifier: Option<String>,
    pub format: Option<String>,
    pub sp_provided_id: Option<String>,
    pub value: Option<String>,
}

} // verus!
