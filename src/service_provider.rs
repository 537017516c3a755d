use vstd::prelude::*;
use crate::schema::assertion::Assertion;
use crate::schema::conditions::{AudienceRestriction, Conditions};
use crate::schema::response::Response;
use crate::utils::UtcDateTime;

verus! {

/// Why an authenticated response or assertion is not accepted.
#[derive(Clone, Copy, Debug, PartialEq, Eq, Structural)]
pub enum Error {
    SignatureVerificationFailed,
    AssertionExpired,
    AudienceMismatch,
    UnsolicitedResponse,
}

/// `now` lies in the half-open window `[not_before, not_on_or_after)`; a missing bound
/// imposes nothing.
pub open spec fn within_window(c: Conditions, now: int) -> bool {
    (c.not_before matches Some(nb) ==> nb@ <= now) && (c.not_on_or_after matches Some(na) ==> now
        < na@)
}

/// One audience restriction names `entity_id`.
pub open spec fn names_audience(r: AudienceRestriction, entity_id: Seq<char>) -> bool {
    exists|j: int| 0 <= j < r.audiences@.len() && (#[trigger] r.audiences@[j])@ == entity_id
}

/// No audience restriction is present, or at least one names `entity_id`.
pub open spec fn audience_allows(c: Conditions, entity_id: Seq<char>) -> bool {
    c.audience_restrictions@.len() == 0 || exists|i: int|
        0 <= i < c.audience_restrictions@.len() && names_audience(
            #[trigger] c.audience_restrictions@[i],
            entity_id,
        )
}

/// The outcome of checking conditions at `now` for `entity_id`: the window first, then the
/// audience.
pub open spec fn conditions_outcome(c: Conditions, now: int, entity_id: Seq<char>) -> Result<(), Error> {
    if !within_window(c, now) {
        Err(Error::AssertionExpired)
    } else if !audience_allows(c, entity_id) {
        Err(Error::AudienceMismatch)
    } else {
        Ok(())
    }
}

/// The outcome of checking an assertion: one without conditions is not restricted.
pub open spec fn assertion_outcome(a: Assertion, now: int, entity_id: Seq<char>) -> Result<(), Error> {
    match a.conditions {
        Some(c) => conditions_outcome(c, now, entity_id),
        None => Ok(()),
    }
}

/// The outcome of checking assertions in order: the first rejection, if any.
pub open spec fn assertions_outcome(s: Seq<Assertion>, now: int, entity_id: Seq<char>) -> Result<(), Error>
    decreases s.len(),
{
    if s.len() == 0 {
        Ok(())
    } else {
        match assertion_outcome(s[0], now, entity_id) {
            Ok(()) => assertions_outcome(s.drop_first(), now, entity_id),
            Err(e) => Err(e),
        }
    }
}

/// The outcome of checking a response: its correlation first, then its assertions.
pub open spec fn response_outcome(
    response: Response,
    possible_request_ids: Seq<String>,
    allow_idp_initiated: bool,
    now: int,
    entity_id: Seq<char>,
) -> Result<(), Error> {
    match correlation_outcome(response.in_response_to, possible_request_ids, allow_idp_initiated) {
        Ok(()) => assertions_outcome(response.assertions@, now, entity_id),
        Err(e) => Err(e),
    }
}

/// The outcome of correlating a response with the outstanding request ids.
pub open spec fn correlation_outcome(
    in_response_to: Option<String>,
    outstanding: Seq<String>,
    allow_idp_initiated: bool,
) -> Result<(), Error> {
    match in_response_to {
        Some(id) => if exists|i: int| 0 <= i < outstanding.len() && (#[trigger] outstanding[i])@ == id@ {
            Ok(())
        } else {
            Err(Error::UnsolicitedResponse)
        },
        None => if allow_idp_initiated {
            Ok(())
        } else {
            Err(Error::UnsolicitedResponse)
        },
    }
}

/// Whether some element of `xs` equals `x`.
fn contains_text(xs: &Vec<String>, x: &String) -> (r: bool)
    ensures
        r == exists|i: int| 0 <= i < xs@.len() && (#[trigger] xs@[i])@ == x@,
{
    let mut i: usize = 0;
    while i < xs.len()
        invariant
            i <= xs@.len(),
            forall|k: int| 0 <= k < i ==> (#[trigger] xs@[k])@ != x@,
        decreases xs@.len() - i,
    {
        if xs[i] == *x {
            return true;
        }
        i = i + 1;
    }
    false
}

/// Checks the validity window and audience restrictions of `conditions` at `now`.
pub fn validate_conditions(conditions: &Conditions, now: &UtcDateTime, entity_id: &str) -> (r: Result<(), Error>)
    ensures
        r == conditions_outcome(*conditions, now@, entity_id@),
{
    let t = now.timestamp_millis();
    match &conditions.not_before {
        Some(nb) => {
            if t < nb.timestamp_millis() {
                return Err(Error::AssertionExpired);
            }
        },
        None => {},
    }
    match &conditions.not_on_or_after {
        Some(na) => {
            if t >= na.timestamp_millis() {
                return Err(Error::AssertionExpired);
            }
        },
        None => {},
    }
    let n = conditions.audience_restrictions.len();
    if n == 0 {
        return Ok(());
    }
    let entity = entity_id.to_owned();
    let mut i: usize = 0;
    while i < n
        invariant
            n == conditions.audience_restrictions@.len(),
            i <= n,
            within_window(*conditions, now@),
            entity@ == entity_id@,
            forall|k: int|
                0 <= k < i ==> !names_audience(
                    #[trigger] conditions.audience_restrictions@[k],
                    entity_id@,
                ),
        decreases n - i,
    {
        if contains_text(&conditions.audience_restrictions[i].audiences, &entity) {
            assert(names_audience(conditions.audience_restrictions@[i as int], entity_id@));
            return Ok(());
        }
        i = i + 1;
    }
    Err(Error::AudienceMismatch)
}

/// Checks an assertion's conditions at `now`; an assertion without conditions passes.
pub fn validate_assertion(assertion: &Assertion, now: &UtcDateTime, entity_id: &str) -> (r: Result<(), Error>)
    ensures
        r == assertion_outcome(*assertion, now@, entity_id@),
{
    match &assertion.conditions {
        Some(c) => validate_conditions(c, now, entity_id),
        None => Ok(()),
    }
}

/// Checks that a response answers one of the outstanding requests, or, where the
/// identity provider may start the exchange, that it answers none.
pub fn check_in_response_to(
    in_response_to: &Option<String>,
    possible_request_ids: &Vec<String>,
    allow_idp_initiated: bool,
) -> (r: Result<(), Error>)
    ensures
        r == correlation_outcome(*in_response_to, possible_request_ids@, allow_idp_initiated),
{
    match in_response_to {
        Some(id) => {
            if contains_text(possible_request_ids, id) {
                Ok(())
            } else {
                Err(Error::UnsolicitedResponse)
            }
        },
        None => {
            if allow_idp_initiated {
                Ok(())
            } else {
                Err(Error::UnsolicitedResponse)
            }
        },
    }
}

/// A parsed response whose signature has not been checked. It gives out only the text it
/// was read from.
pub struct UnverifiedResponse {
    response: Response,
    xml: String,
}

impl View for UnverifiedResponse {
    type V = (Response, Seq<char>);

    /// The parsed response and the text it was read from.
    closed spec fn view(&self) -> (Response, Seq<char>) {
        (self.response, self.xml@)
    }
}

/// A response whose signature has been checked.
pub struct VerifiedResponse(Response);

impl View for VerifiedResponse {
    type V = Response;

    closed spec fn view(&self) -> Response {
        self.0
    }
}

impl VerifiedResponse {
    /// The verified response.
    pub fn response(&self) -> (r: &Response)
        ensures
            *r == self@,
    {
        &self.0
    }
}

impl UnverifiedResponse {
    /// Wraps the outcome of reading `xml` as a response. `parsed` must be the outcome of
    /// parsing exactly this `xml`: the signature is later checked over `xml`.
    pub fn from_xml(xml: &str, parsed: Result<Response, String>) -> (r: Result<UnverifiedResponse, String>)
        ensures
            match parsed {
                Ok(resp) => r matches Ok(u) && u@ == (resp, xml@),
                Err(e) => r == Err::<UnverifiedResponse, String>(e),
            },
    {
        match parsed {
            Ok(response) => Ok(UnverifiedResponse { response, xml: xml.to_owned() }),
            Err(e) => Err(e),
        }
    }

    /// The text the response was read from, over which its signature is checked.
    pub fn xml(&self) -> (r: &str)
        ensures
            r@ == self@.1,
    {
        self.xml.as_str()
    }

    /// Accepts the response when its signature verifies under the identity provider's
    /// certificate; `signature_valid` is that verdict.
    pub fn try_verify_with_cert(self, signature_valid: bool) -> (r: Result<VerifiedResponse, Error>)
        ensures
            signature_valid ==> (r matches Ok(v) && v@ == self@.0),
            !signature_valid ==> r == Err::<VerifiedResponse, Error>(Error::SignatureVerificationFailed),
    {
        if signature_valid {
            Ok(VerifiedResponse(self.response))
        } else {
            Err(Error::SignatureVerificationFailed)
        }
    }
}

/// The policy a service provider applies to authenticated responses.
pub struct ServiceProvider {
    pub entity_id: String,
    pub allow_idp_initiated: bool,
}

impl ServiceProvider {
    /// Accepts a response when it answers an outstanding request (or may be unsolicited)
    /// and every assertion it carries is valid at `now` for this entity.
    pub fn validate_response(
        &self,
        response: &Response,
        possible_request_ids: &Vec<String>,
        now: &UtcDateTime,
    ) -> (r: Result<(), Error>)
        ensures
            r == response_outcome(
                *response,
                possible_request_ids@,
                self.allow_idp_initiated,
                now@,
                self.entity_id@,
            ),
    {
        match check_in_response_to(&response.in_response_to, possible_request_ids, self.allow_idp_initiated) {
            Ok(()) => {},
            Err(e) => return Err(e),
        }
        let ghost all = response.assertions@;
        assert(all.subrange(0, all.len() as int) =~= all);
        let mut i: usize = 0;
        while i < response.assertions.len()
            invariant
                i <= all.len(),
                all == response.assertions@,
                correlation_outcome(response.in_response_to, possible_request_ids@, self.allow_idp_initiated) is Ok,
                assertions_outcome(all, now@, self.entity_id@) == assertions_outcome(
                    all.subrange(i as int, all.len() as int),
                    now@,
                    self.entity_id@,
                ),
            decreases all.len() - i,
        {
            let ghost rest = all.subrange(i as int, all.len() as int);
            assert(rest[0] == all[i as int]);
            assert(rest.drop_first() =~= all.subrange(i + 1, all.len() as int));
            match validate_assertion(&response.assertions[i], now, self.entity_id.as_str()) {
                Ok(()) => {},
                Err(e) => {
                    return Err(e);
                },
            }
            i = i + 1;
        }
        assert(all.subrange(i as int, all.len() as int) =~= Seq::<Assertion>::empty());
        Ok(())
    }

    /// Applies the policy checks to a response whose signature has been verified.
    pub fn validate_verified_response(
        &self,
        response: &VerifiedResponse,
        possible_request_ids: &Vec<String>,
        now: &UtcDateTime,
    ) -> (r: Result<(), Error>)
        ensures
            r == response_outcome(
                response@,
                possible_request_ids@,
                self.allow_idp_initiated,
                now@,
                self.entity_id@,
            ),
    {
        self.validate_response(response.response(), possible_request_ids, now)
    }

    /// Accepts a response whose signature the caller has checked against the identity
    /// provider's certificate (`signature_valid`), then checks it as `validate_response`
    /// does. A forged response is rejected before any policy check.
    pub fn accept_response(
        &self,
        response: Response,
        signature_valid: bool,
        possible_request_ids: &Vec<String>,
        now: &UtcDateTime,
    ) -> (r: Result<Response, Error>)
        ensures
            !signature_valid ==> r == Err::<Response, Error>(Error::SignatureVerificationFailed),
            signature_valid ==> match response_outcome(
                response,
                possible_request_ids@,
                self.allow_idp_initiated,
                now@,
                self.entity_id@,
            ) {
                Ok(()) => r == Ok::<Response, Error>(response),
                Err(e) => r == Err::<Response, Error>(e),
            },
    {
        if !signature_valid {
            return Err(Error::SignatureVerificationFailed);
        }
        match self.validate_response(&response, possible_request_ids, now) {
            Ok(()) => Ok(response),
            Err(e) => Err(e),
        }
    }
}

/// Within the validity window, and with the audience allowed, conditions are accepted;
/// outside the window they are rejected as expired.
pub proof fn lemma_validity_window(c: Conditions, t: int, entity_id: Seq<char>)
    ensures
        within_window(c, t) && audience_allows(c, entity_id) ==> conditions_outcome(c, t, entity_id)
            == Ok::<(), Error>(()),
        !within_window(c, t) ==> conditions_outcome(c, t, entity_id) == Err::<(), Error>(
            Error::AssertionExpired,
        ),
{
}

/// Inside the validity window, a non-empty list of audience restrictions none of which
/// names the entity rejects the conditions as an audience mismatch; an empty list
/// restricts nothing.
pub proof fn lemma_audience_restriction(c: Conditions, t: int, entity_id: Seq<char>)
    requires
        within_window(c, t),
    ensures
        c.audience_restrictions@.len() > 0 && (forall|i: int|
            0 <= i < c.audience_restrictions@.len() ==> !names_audience(
                #[trigger] c.audience_restrictions@[i],
                entity_id,
            )) ==> conditions_outcome(c, t, entity_id) == Err::<(), Error>(Error::AudienceMismatch),
        c.audience_restrictions@.len() == 0 ==> conditions_outcome(c, t, entity_id) == Ok::<
            (),
            Error,
        >(()),
{
}

} // verus!
