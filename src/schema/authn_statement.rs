use vstd::prelude::*;
use crate::utils::UtcDateTime;

verus! {

/// An `AuthnStatement`: when and in which session the subject authenticated.
#[derive(Clone, Debug, Default, PartialEq, Eq)]
pub struct AuthnStatement {
    pub authn_instant: Option<UtcDateTime>,
    pub session_index: Option<String>,
    pub session_not_on_or_after: Option<UtcDateTime>,
}

} // verus!
