use vstd::prelude::*;
use crate::utils::UtcDateTime;

verus! {

/// An `AudienceRestriction`: the entities that may accept the assertion.
#[derive(Clone, Debug, Default, PartialEq, Eq)]
pub struct AudienceRestriction {
    pub audiences: Vec<String>,
}

/// The `Conditions` of an assertion: its validity window and audience restrictions.
#[derive(Clone, Debug, Default, PartialEq, Eq)]
pub struct Conditions {
    pub not_before: Option<UtcDateTime>,
    pub not_on_or_after: Option<UtcDateTime>,
    pub audience_restrictions: Vec<AudienceRestriction>,
}

} // verus!
