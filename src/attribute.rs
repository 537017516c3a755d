use vstd::prelude::*;

verus! {

/// One value of an attribute, with its optional XML Schema type tag.
#[derive(Clone, Debug, Default, PartialEq, Eq)]
pub struct AttributeValue {
    pub attribute_type: Option<String>,
    pub value: Option<String>,
}

/// A named attribute carrying an ordered list of values.
#[derive(Clone, Debug, Default, PartialEq, Eq)]
pub struct Attribute {
    pub friendly_name: Option<String>,
    pub name: Option<String>,
    pub name_format: Option<String>,
    pub values: Vec<AttributeValue>,
}

/// The standard "uri" attribute name format.
pub const NAME_FORMAT_URI: &'static str = "urn:oasis:names:tc:SAML:2.0:attrname-format:uri";

pub const SUBJECT_ID_URI: &'static str = "urn:oasis:names:tc:SAML:attribute:subject-id";

pub const UID_URI: &'static str = "urn:oid:0.9.2342.19200300.100.1.1";

pub const TELEPHONE_NUMBER_URI: &'static str = "urn:oid:2.5.4.20";

pub const MAIL_URI: &'static str = "urn:oid:0.9.2342.19200300.100.1.3";

pub const SURNAME_URI: &'static str = "urn:oid:2.5.4.4";

pub const DISPLAY_NAME_URI: &'static str = "urn:oid:2.16.840.1.113730.3.1.241";

pub const GIVEN_NAME_URI: &'static str = "urn:oid:2.5.4.42";

pub const EDU_PERSON_ENTITLEMENT_URI: &'static str = "urn:oid:1.3.6.1.4.1.5923.1.1.1.7";

/// The type tag of a plain string value.
pub const XS_STRING: &'static str = "XSString";

/// A value is a string value when it has no type tag or is tagged as a string.
pub open spec fn is_string_typed(v: AttributeValue) -> bool {
    match v.attribute_type {
        None => true,
        Some(t) => t@ == XS_STRING@,
    }
}

impl AttributeValue {
    /// Whether this value counts as a string value.
    pub fn is_string_typed(&self) -> (r: bool)
        ensures
            r == is_string_typed(*self),
    {
        match &self.attribute_type {
            None => true,
            Some(t) => {
                let s = XS_STRING.to_owned();
                *t == s
            },
        }
    }
}

} // verus!
