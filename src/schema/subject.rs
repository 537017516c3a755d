use vstd::prelude::*;

verus! {

/// The `NameID` of a subject.
#[derive(Clone, Debug, Default, PartialEq, Eq)]
pub struct SubjectNameId {
    pub format: Option<String>,
    pub value: String,
}

/// The `Subject` of an assertion.
#[derive(Clone, Debug, Default, PartialEq, Eq)]
pub struct Subject {
    pub name_id: Option<SubjectNameId>,
}

} // verus!
