use vstd::prelude::*;
use crate::schema::assertion::Assertion;
use crate::binding::{
    opt_text, post_form, post_form_html, redirect_destination_ok, redirect_location, redirect_payload,
    redirect_url, BindingError, SAML_RESPONSE,
};
use crate::encoding::base64_encoded;
use crate::schema::issuer::Issuer;
use vstd::utf8::encode_utf8;
use crate::signature::Signature;
use crate::utils::UtcDateTime;

verus! {

/// The `StatusCode` of a response.
#[derive(Clone, Debug, Default, PartialEq, Eq)]
pub struct StatusCode {
    pub value: Option<String>,
}

/// The `Status` of a response.
#[derive(Clone, Debug, Default, PartialEq, Eq)]
pub struct Status {
    pub status_code: StatusCode,
    pub status_message: Option<String>,
}

/// A `Response`: an identity provider's answer, carrying assertions.
#[derive(Clone, Debug, Default, PartialEq, Eq)]
pub struct Response {
    pub id: String,
    pub in_response_to: Option<String>,
    pub version: String,
    pub issue_instant: UtcDateTime,
    pub destination: Option<String>,
    pub issuer: Option<Issuer>,
    pub signature: Option<Signature>,
    pub status: Option<Status>,
    pub assertions: Vec<Assertion>,
}

impl Response {
    /// The redirect-binding location for this response, whose serialized form is `xml`.
    pub fn redirect(&self, xml: &str, relay_state: Option<&str>) -> (r: Result<String, BindingError>)
        ensures
            self.destination is None ==> r == Err::<String, BindingError>(BindingError::MissingDestination),
            self.destination is Some && !redirect_destination_ok(self.destination->0@) ==> r == Err::<
                String,
                BindingError,
            >(BindingError::InvalidDestination),
            self.destination is Some && redirect_destination_ok(self.destination->0@) ==> (r matches Ok(
                loc,
            ) && loc@ == redirect_location(
                self.destination->0@,
                SAML_RESPONSE@,
                redirect_payload(xml@),
                opt_text(relay_state),
            )),
    {
        match &self.destination {
            Some(d) => redirect_url(d.as_str(), SAML_RESPONSE, xml, relay_state),
            None => Err(BindingError::MissingDestination),
        }
    }

    /// The POST-binding form for this response, whose serialized form is `xml`.
    pub fn post(&self, xml: &str, relay_state: Option<&str>) -> (r: Result<String, BindingError>)
        ensures
            self.destination is None ==> r == Err::<String, BindingError>(BindingError::MissingDestination),
            self.destination is Some ==> (r matches Ok(f) && f@ == post_form(
                self.destination->0@,
                SAML_RESPONSE@,
                base64_encoded(encode_utf8(xml@)),
                opt_text(relay_state),
            )),
    {
        match &self.destination {
            Some(d) => Ok(post_form_html(d.as_str(), SAML_RESPONSE, xml, relay_state)),
            None => Err(BindingError::MissingDestination),
        }
    }
}

} // verus!
