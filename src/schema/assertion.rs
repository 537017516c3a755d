use vstd::prelude::*;
use crate::attribute::{is_string_typed, Attribute, AttributeValue, NAME_FORMAT_URI};
use crate::schema::attribute_statement::AttributeStatement;
use crate::schema::authn_statement::AuthnStatement;
use crate::schema::conditions::Conditions;
use crate::schema::issuer::Issuer;
use crate::schema::subject::Subject;
use crate::signature::Signature;
use crate::utils::UtcDateTime;

verus! {

/// A statement about a subject issued by an identity provider.
#[derive(Clone, Debug, Default, PartialEq, Eq)]
pub struct Assertion {
    pub id: String,
    pub issue_instant: UtcDateTime,
    pub version: String,
    pub issuer: Issuer,
    pub signature: Option<Signature>,
    pub subject: Option<Subject>,
    pub conditions: Option<Conditions>,
    pub authn_statements: Vec<AuthnStatement>,
    pub attribute_statements: Vec<AttributeStatement>,
}

/// An optional text that is present and equal to `s`.
pub open spec fn is_text(o: Option<String>, s: Seq<char>) -> bool {
    match o {
        Some(t) => t@ == s,
        None => false,
    }
}

/// An attribute with exactly this name and name format.
pub open spec fn attribute_matches(a: Attribute, name: Seq<char>, format: Seq<char>) -> bool {
    is_text(a.name_format, format) && is_text(a.name, name)
}

/// The attributes of `attrs` with this name and format, in order.
pub open spec fn matching_attributes(attrs: Seq<Attribute>, name: Seq<char>, format: Seq<char>) -> Seq<Attribute>
    decreases attrs.len(),
{
    if attrs.len() == 0 {
        Seq::empty()
    } else {
        let rest = matching_attributes(attrs.drop_last(), name, format);
        if attribute_matches(attrs.last(), name, format) {
            rest.push(attrs.last())
        } else {
            rest
        }
    }
}

/// The attributes of all statements with this name and format, statement by statement.
pub open spec fn matching_in_statements(
    stmts: Seq<AttributeStatement>,
    name: Seq<char>,
    format: Seq<char>,
) -> Seq<Attribute>
    decreases stmts.len(),
{
    if stmts.len() == 0 {
        Seq::empty()
    } else {
        matching_in_statements(stmts.drop_last(), name, format) + matching_attributes(
            stmts.last().attributes@,
            name,
            format,
        )
    }
}

/// The texts of the string values among `vals`, in order.
pub open spec fn string_values(vals: Seq<AttributeValue>) -> Seq<Seq<char>>
    decreases vals.len(),
{
    if vals.len() == 0 {
        Seq::empty()
    } else {
        let rest = string_values(vals.drop_last());
        let v = vals.last();
        if is_string_typed(v) && v.value is Some {
            rest.push(v.value->0@)
        } else {
            rest
        }
    }
}

/// The texts of the string values of all `attrs`, attribute by attribute.
pub open spec fn values_of_attributes(attrs: Seq<Attribute>) -> Seq<Seq<char>>
    decreases attrs.len(),
{
    if attrs.len() == 0 {
        Seq::empty()
    } else {
        values_of_attributes(attrs.drop_last()) + string_values(attrs.last().values@)
    }
}

impl Assertion {
    /// The attributes with this name and name format.
    pub open spec fn spec_attributes_by_name_and_format(self, name: Seq<char>, format: Seq<char>) -> Seq<Attribute> {
        matching_in_statements(self.attribute_statements@, name, format)
    }

    /// The string values of the attributes named by `uri` in the "uri" name format.
    pub open spec fn spec_attribute_values(self, uri: Seq<char>) -> Seq<Seq<char>> {
        values_of_attributes(self.spec_attributes_by_name_and_format(uri, NAME_FORMAT_URI@))
    }

    /// Every attribute, over all statements, whose name and name format are exactly these.
    pub fn attributes_by_name_and_format(&self, name: &str, name_format: &str) -> (r: Vec<&Attribute>)
        ensures
            r@.len() == self.spec_attributes_by_name_and_format(name@, name_format@).len(),
            forall|i: int|
                0 <= i < r@.len() ==> *r@[i] == #[trigger] self.spec_attributes_by_name_and_format(
                    name@,
                    name_format@,
                )[i],
    {
        let name_s = name.to_owned();
        let format_s = name_format.to_owned();
        let ghost stmts = self.attribute_statements@;
        let mut r: Vec<&Attribute> = Vec::new();
        let mut i: usize = 0;
        while i < self.attribute_statements.len()
            invariant
                i <= stmts.len(),
                stmts == self.attribute_statements@,
                name_s@ == name@,
                format_s@ == name_format@,
                r@.len() == matching_in_statements(stmts.take(i as int), name@, name_format@).len(),
                forall|k: int|
                    0 <= k < r@.len() ==> *r@[k] == #[trigger] matching_in_statements(
                        stmts.take(i as int),
                        name@,
                        name_format@,
                    )[k],
            decreases stmts.len() - i,
        {
            let attrs = &self.attribute_statements[i].attributes;
            let ghost before = matching_in_statements(stmts.take(i as int), name@, name_format@);
            let mut j: usize = 0;
            while j < attrs.len()
                invariant
                    j <= attrs@.len(),
                    name_s@ == name@,
                    format_s@ == name_format@,
                    r@.len() == before.len() + matching_attributes(
                        attrs@.take(j as int),
                        name@,
                        name_format@,
                    ).len(),
                    forall|k: int|
                        0 <= k < r@.len() ==> *r@[k] == #[trigger] (before + matching_attributes(
                            attrs@.take(j as int),
                            name@,
                            name_format@,
                        ))[k],
                decreases attrs@.len() - j,
            {
                let a = &attrs[j];
                assert(attrs@.take(j + 1).drop_last() =~= attrs@.take(j as int));
                let format_ok = match &a.name_format {
                    Some(f) => *f == format_s,
                    None => false,
                };
                let name_ok = match &a.name {
                    Some(n) => *n == name_s,
                    None => false,
                };
                let ghost old_r = r@;
                let ghost old_m = before + matching_attributes(attrs@.take(j as int), name@, name_format@);
                let ghost new_m = before + matching_attributes(attrs@.take(j + 1), name@, name_format@);
                assert(attrs@.take(j + 1).last() == attrs@[j as int]);
                if format_ok && name_ok {
                    r.push(a);
                    assert(new_m =~= old_m.push(attrs@[j as int]));
                } else {
                    assert(new_m =~= old_m);
                }
                assert forall|k: int| 0 <= k < r@.len() implies *r@[k] == #[trigger] new_m[k] by {
                    if k < old_r.len() {
                        assert(r@[k] == old_r[k]);
                        assert(*old_r[k] == old_m[k]);
                    }
                }
                j = j + 1;
            }
            assert(attrs@.take(j as int) =~= attrs@);
            assert(stmts.take(i + 1).drop_last() =~= stmts.take(i as int));
            i = i + 1;
        }
        assert(stmts.take(i as int) =~= stmts);
        r
    }

    /// Every attribute named by `uri` in the standard "uri" name format.
    pub fn attributes_by_uri(&self, uri: &str) -> (r: Vec<&Attribute>)
        ensures
            r@.len() == self.spec_attributes_by_name_and_format(uri@, NAME_FORMAT_URI@).len(),
            forall|i: int|
                0 <= i < r@.len() ==> *r@[i] == #[trigger] self.spec_attributes_by_name_and_format(
                    uri@,
                    NAME_FORMAT_URI@,
                )[i],
    {
        self.attributes_by_name_and_format(uri, NAME_FORMAT_URI)
    }

    /// The string values (untyped or typed as string) of the attributes named by `uri`,
    /// attribute by attribute and in statement order.
    pub fn attribute_values(&self, uri: &str) -> (r: Vec<&str>)
        ensures
            r@.len() == self.spec_attribute_values(uri@).len(),
            forall|i: int| 0 <= i < r@.len() ==> r@[i]@ == #[trigger] self.spec_attribute_values(uri@)[i],
    {
        let attrs = self.attributes_by_uri(uri);
        let ghost m = self.spec_attributes_by_name_and_format(uri@, NAME_FORMAT_URI@);
        let mut r: Vec<&str> = Vec::new();
        let mut i: usize = 0;
        while i < attrs.len()
            invariant
                i <= attrs@.len(),
                attrs@.len() == m.len(),
                forall|k: int| 0 <= k < attrs@.len() ==> *attrs@[k] == #[trigger] m[k],
                r@.len() == values_of_attributes(m.take(i as int)).len(),
                forall|k: int|
                    0 <= k < r@.len() ==> r@[k]@ == #[trigger] values_of_attributes(m.take(i as int))[k],
            decreases attrs@.len() - i,
        {
            let vals = &attrs[i].values;
            assert(*attrs@[i as int] == m[i as int]);
            let ghost before = values_of_attributes(m.take(i as int));
            let mut j: usize = 0;
            while j < vals.len()
                invariant
                    j <= vals@.len(),
                    r@.len() == (before + string_values(vals@.take(j as int))).len(),
                    forall|k: int|
                        0 <= k < r@.len() ==> r@[k]@ == #[trigger] (before + string_values(
                            vals@.take(j as int),
                        ))[k],
                decreases vals@.len() - j,
            {
                let v = &vals[j];
                let ghost old_r = r@;
                let ghost old_m = before + string_values(vals@.take(j as int));
                let ghost new_m = before + string_values(vals@.take(j + 1));
                assert(vals@.take(j + 1).drop_last() =~= vals@.take(j as int));
                assert(vals@.take(j + 1).last() == vals@[j as int]);
                let keep = v.is_string_typed();
                match &v.value {
                    Some(text) => {
                        if keep {
                            r.push(text.as_str());
                            assert(new_m =~= old_m.push(text@));
                        } else {
                            assert(new_m =~= old_m);
                        }
                    },
                    None => {
                        assert(new_m =~= old_m);
                    },
                }
                assert forall|k: int| 0 <= k < r@.len() implies r@[k]@ == #[trigger] new_m[k] by {
                    if k < old_r.len() {
                        assert(r@[k] == old_r[k]);
                        assert(old_r[k]@ == old_m[k]);
                    }
                }
                j = j + 1;
            }
            assert(vals@.take(j as int) =~= vals@);
            assert(m.take(i + 1).drop_last() =~= m.take(i as int));
            i = i + 1;
        }
        assert(m.take(i as int) =~= m);
        r
    }

    /// The single string value of the attributes named by `uri`: `NotFound` when there is
    /// none, `NotUnique` with the count when there are several.
    pub fn attribute_value(&self, uri: &str) -> (r: Result<&str, Error>)
        ensures
            self.spec_attribute_values(uri@).len() == 1 ==> (r matches Ok(v) && v@
                == self.spec_attribute_values(uri@)[0]),
            self.spec_attribute_values(uri@).len() == 0 ==> (r matches Err(Error::NotFound { uri: u })
                && u@ == uri@),
            self.spec_attribute_values(uri@).len() > 1 ==> (r matches Err(
                Error::NotUnique { uri: u, count },
            ) && u@ == uri@ && count == self.spec_attribute_values(uri@).len()),
    {
        let values = self.attribute_values(uri);
        let n = values.len();
        if n == 1 {
            Ok(values[0])
        } else if n == 0 {
            Err(Error::NotFound { uri: uri.to_owned() })
        } else {
            Err(Error::NotUnique { uri: uri.to_owned(), count: n })
        }
    }
}

/// Why an attribute lookup found no single value.
#[derive(Debug)]
pub enum Error {
    NotFound { uri: String },
    NotUnique { uri: String, count: usize },
}

} // verus!
