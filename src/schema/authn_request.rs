use vstd::prelude::*;
use crate::binding::{
    opt_text, post_form, post_form_html, redirect_destination_ok, redirect_location, redirect_payload,
    redirect_url, BindingError, SAML_REQUEST,
};
use crate::encoding::base64_encoded;
use crate::schema::issuer::Issuer;
use vstd::utf8::encode_utf8;
use crate::schema::name_id_policy::NameIdPolicy;
use crate::signature::Signature;
use crate::utils::UtcDateTime;

verus! {

/// An `AuthnRequest`: a service provider's request that the subject be authenticated.
#[derive(Clone, Debug, Default, PartialEq, Eq)]
pub struct AuthnRequest {
    pub id: String,
    pub version: String,
    pub issue_instant: UtcDateTime,
    pub destination: Option<String>,
    pub assertion_consumer_service_url: Option<String>,
    pub protocol_binding: Option<String>,
    pub issuer: Option<Issuer>,
    pub name_id_policy: Option<NameIdPolicy>,
    pub signature: Option<Signature>,
}

impl AuthnRequest {
    /// The redirect-binding location for this request, whose serialized form is `xml`.
    pub fn redirect(&self, xml: &str, relay_state: Option<&str>) -> (r: Result<String, BindingError>)
        ensures
            self.destination is None ==> r == Err::<String, BindingError>(BindingError::MissingDestination),
            self.destination is Some && !redirect_destination_ok(self.destination->0@) ==> r == Err::<
                String,
                BindingError,
            >(BindingError::InvalidDestination),
            self.destination is Some && redirect_destination_ok(self.destination->0@) ==> (r matches Ok(
                loc,
            ) && loc@ == redirect_location(
                self.destination->0@,
                SAML_REQUEST@,
                redirect_payload(xml@),
                opt_text(relay_state),
            )),
    {
        match &self.destination {
            Some(d) => redirect_url(d.as_str(), SAML_REQUEST, xml, relay_state),
            None => Err(BindingError::MissingDestination),
        }
    }

    /// The POST-binding form for this request, whose serialized form is `xml`.
    pub fn post(&self, xml: &str, relay_state: Option<&str>) -> (r: Result<String, BindingError>)
        ensures
            self.destination is None ==> r == Err::<String, BindingError>(BindingError::MissingDestination),
            self.destination is Some ==> (r matches Ok(f) && f@ == post_form(
                self.destination->0@,
                SAML_REQUEST@,
                base64_encoded(encode_utf8(xml@)),
                opt_text(relay_state),
            )),
    {
        match &self.destination {
            Some(d) => Ok(post_form_html(d.as_str(), SAML_REQUEST, xml, relay_state)),
            None => Err(BindingError::MissingDestination),
        }
    }
}

} // verus!
