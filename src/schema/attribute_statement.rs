use vstd::prelude::*;
use crate::attribute::Attribute;

verus! {

/// An `AttributeStatement`: the attributes an assertion states about its subject.
#[derive(Clone, Debug, Default, PartialEq, Eq)]
pub struct AttributeStatement {
    pub attributes: Vec<Attribute>,
}

} // verus!
