use vstd::prelude::*;

verus! {

/// The earliest instant that chrono can represent, in milliseconds since the Unix epoch
/// (-262143-01-01T00:00:00Z).
pub const MIN_TIMESTAMP_MILLIS: i64 = -8334601228800000;

/// The latest instant that chrono can represent, in milliseconds since the Unix epoch
/// (+262142-12-31T23:59:59.999Z).
pub const MAX_TIMESTAMP_MILLIS: i64 = 8210266876799999;

pub open spec fn representable(millis: int) -> bool {
    MIN_TIMESTAMP_MILLIS <= millis <= MAX_TIMESTAMP_MILLIS
}

/// The instant that chrono reads from an RFC 3339 text, in milliseconds since the epoch.
pub uninterp spec fn parsed_rfc3339_millis(s: Seq<char>) -> Option<i64>;

/// The RFC 3339 text (millisecond precision, `Z` suffix) that chrono writes for an instant.
pub uninterp spec fn rfc3339_text_of(millis: int) -> Seq<char>;

/// Relies on `<chrono::DateTime<Utc> as FromStr>::from_str` and `DateTime::timestamp_millis`:
/// the text is read as an instant.
#[verifier::external_body]
fn parse_rfc3339_millis(s: &str) -> (r: Option<i64>)
    ensures
        r == parsed_rfc3339_millis(s@),
{
    match s.parse::<chrono::DateTime<chrono::Utc>>() {
        Ok(d) => Some(d.timestamp_millis()),
        Err(_) => None,
    }
}

/// Relies on `chrono::DateTime::from_timestamp_millis`, which accepts every instant in
/// chrono's range, and `DateTime::to_rfc3339_opts` with millisecond precision and `Z`,
/// whose text (with an explicit sign for years outside 0000-9999) chrono's parser reads back.
#[verifier::external_body]
fn format_rfc3339_millis(millis: i64) -> (r: String)
    requires
        representable(millis as int),
    ensures
        r@ == rfc3339_text_of(millis as int),
        parsed_rfc3339_millis(r@) == Some(millis),
{
    chrono::DateTime::from_timestamp_millis(millis).unwrap().to_rfc3339_opts(
        chrono::SecondsFormat::Millis,
        true,
    )
}

/// Relies on `chrono::Utc::now` and `DateTime::timestamp_millis`: the wall clock, read as an
/// instant in chrono's range.
#[verifier::external_body]
fn system_now_millis() -> (r: i64)
    ensures
        representable(r as int),
{
    chrono::Utc::now().timestamp_millis()
}

/// A UTC instant with millisecond precision.
#[derive(Clone, Copy, Debug, PartialEq, Eq, Hash, PartialOrd, Ord)]
pub struct UtcDateTime {
    millis: i64,
}

impl View for UtcDateTime {
    type V = int;

    /// Milliseconds since 1970-01-01T00:00:00Z.
    closed spec fn view(&self) -> int {
        self.millis as int
    }
}

impl UtcDateTime {
    #[verifier::type_invariant]
    spec fn inv(self) -> bool {
        representable(self.millis as int)
    }

    /// The instant the given number of milliseconds after the epoch, if chrono can represent it.
    pub fn from_timestamp_millis(millis: i64) -> (r: Option<UtcDateTime>)
        ensures
            r is Some <==> representable(millis as int),
            r matches Some(t) ==> t@ == millis as int,
    {
        if MIN_TIMESTAMP_MILLIS <= millis && millis <= MAX_TIMESTAMP_MILLIS {
            Some(UtcDateTime { millis })
        } else {
            None
        }
    }

    /// Milliseconds since the epoch.
    pub fn timestamp_millis(&self) -> (r: i64)
        ensures
            r as int == self@,
            representable(self@),
    {
        proof {
            use_type_invariant(self);
        }
        self.millis
    }

    /// The current wall-clock instant.
    pub fn now() -> (r: UtcDateTime)
        ensures
            representable(r@),
    {
        UtcDateTime { millis: system_now_millis() }
    }

    /// Reads an RFC 3339 timestamp; `None` where the text is no timestamp or names an
    /// instant outside chrono's range.
    pub fn parse_rfc3339(s: &str) -> (r: Option<UtcDateTime>)
        ensures
            match parsed_rfc3339_millis(s@) {
                Some(m) => if representable(m as int) {
                    r matches Some(t) && t@ == m as int
                } else {
                    r is None
                },
                None => r is None,
            },
    {
        match parse_rfc3339_millis(s) {
            Some(m) => UtcDateTime::from_timestamp_millis(m),
            None => None,
        }
    }

    /// Writes the instant as RFC 3339 with millisecond precision and a `Z` suffix; the text
    /// reads back as the same instant.
    pub fn to_rfc3339(&self) -> (r: String)
        ensures
            r@ == rfc3339_text_of(self@),
            parsed_rfc3339_millis(r@) == Some(self@ as i64),
    {
        proof {
            use_type_invariant(self);
        }
        format_rfc3339_millis(self.millis)
    }

    /// The instant `millis` milliseconds later (earlier, if negative), if chrono can represent it.
    pub fn checked_add_millis(&self, millis: i64) -> (r: Option<UtcDateTime>)
        ensures
            r is Some <==> representable(self@ + millis),
            r matches Some(t) ==> t@ == self@ + millis,
    {
        proof {
            use_type_invariant(self);
        }
        match self.millis.checked_add(millis) {
            Some(sum) => UtcDateTime::from_timestamp_millis(sum),
            None => None,
        }
    }
}

impl Default for UtcDateTime {
    /// The current wall-clock instant.
    fn default() -> (r: UtcDateTime)
        ensures
            representable(r@),
    {
        UtcDateTime::now()
    }
}

/// Where "now" comes from: the wall clock, or an instant fixed by the caller (for tests and
/// replays).
#[derive(Clone, Copy, Debug)]
pub enum Clock {
    System,
    Fixed(UtcDateTime),
}

impl Clock {
    /// The current instant of this clock.
    pub fn now(&self) -> (r: UtcDateTime)
        ensures
            self matches Clock::Fixed(t) ==> r == t,
            representable(r@),
    {
        match self {
            Clock::System => UtcDateTime::now(),
            Clock::Fixed(t) => {
                proof {
                    use_type_invariant(t);
                }
                *t
            },
        }
    }
}

/// Relies on `uuid::Uuid::new_v4` and its `Display`, which writes the hyphenated lower-case
/// form of 36 characters.
#[verifier::external_body]
fn new_uuid_v4() -> (r: String)
    ensures
        r@.len() == 36,
{
    uuid::Uuid::new_v4().to_string()
}

/// `prefix` followed by `uuid`.
pub fn prefixed_id(prefix: &str, uuid: &str) -> (r: String)
    ensures
        r@ == prefix@ + uuid@,
{
    let mut id = prefix.to_owned();
    id.append(uuid);
    id
}

/// The identifier of a response for a given UUID text: `id` followed by it.
pub fn saml_response_id(uuid: &str) -> (r: String)
    ensures
        r@ == "id"@ + uuid@,
{
    prefixed_id("id", uuid)
}

/// The identifier of an assertion for a given UUID text: `_` followed by it.
pub fn saml_assertion_id(uuid: &str) -> (r: String)
    ensures
        r@ == "_"@ + uuid@,
{
    prefixed_id("_", uuid)
}

/// A fresh identifier for a response: `id` followed by a random UUID.
pub fn gen_saml_response_id() -> (r: String)
    ensures
        r@.len() == 38,
        r@.take(2) == "id"@,
        exists|u: Seq<char>| u.len() == 36 && r@ == "id"@ + u,
{
    let u = new_uuid_v4();
    let id = saml_response_id(u.as_str());
    proof {
        reveal_strlit("id");
        assert(id@.take(2) =~= "id"@);
    }
    id
}

/// A fresh identifier for an assertion: `_` followed by a random UUID.
pub fn gen_saml_assertion_id() -> (r: String)
    ensures
        r@.len() == 37,
        r@.take(1) == "_"@,
        exists|u: Seq<char>| u.len() == 36 && r@ == "_"@ + u,
{
    let u = new_uuid_v4();
    let id = saml_assertion_id(u.as_str());
    proof {
        reveal_strlit("_");
        assert(id@.take(1) =~= "_"@);
    }
    id
}

} // verus!
