use vstd::prelude::*;
use vstd::utf8::encode_utf8;
use crate::encoding::{base64_decoded, decode_base64, strip_whitespace, without_whitespace};
use crate::idp::error::Error;
use crate::key_info::KeyInfo;
use crate::schema::authn_request::AuthnRequest;

verus! {

/// The certificate texts of a `KeyInfo`'s `X509Data`.
pub open spec fn key_info_certificates(k: KeyInfo) -> Seq<String> {
    match k.x509_data {
        Some(d) => d.certificates@,
        None => Seq::empty(),
    }
}

/// The DER bytes of a base64 certificate text, whitespace ignored.
pub open spec fn decoded_certificate(t: String) -> Option<Seq<u8>> {
    base64_decoded(without_whitespace(encode_utf8(t@)))
}

/// The DER certificates embedded in the first `KeyInfo` of a request's signature, or why
/// there are none.
pub open spec fn embedded_certificates(req: AuthnRequest) -> Result<Seq<Seq<u8>>, Error> {
    match req.signature {
        None => Err(Error::NoSignature),
        Some(sig) => if sig.key_info@.len() == 0 {
            Err(Error::NoKeyInfo)
        } else {
            let texts = key_info_certificates(sig.key_info@[0]);
            if exists|i: int| 0 <= i < texts.len() && (#[trigger] decoded_certificate(texts[i])) is None {
                Err(Error::InvalidCertificateEncoding)
            } else if texts.len() == 0 {
                Err(Error::NoCertificate)
            } else {
                Ok(Seq::new(texts.len(), |i: int| decoded_certificate(texts[i])->0))
            }
        },
    }
}

/// A parsed request whose signature has not been checked. It gives out no field of the
/// request: only its certificates and the text it was read from.
pub struct UnverifiedAuthnRequest {
    request: AuthnRequest,
    xml: String,
}

impl View for UnverifiedAuthnRequest {
    type V = (AuthnRequest, Seq<char>);

    /// The parsed request and the text it was read from.
    closed spec fn view(&self) -> (AuthnRequest, Seq<char>) {
        (self.request, self.xml@)
    }
}

/// A request whose signature has been checked.
pub struct VerifiedAuthnRequest(AuthnRequest);

impl View for VerifiedAuthnRequest {
    type V = AuthnRequest;

    closed spec fn view(&self) -> AuthnRequest {
        self.0
    }
}

impl VerifiedAuthnRequest {
    /// The verified request.
    pub fn request(&self) -> (r: &AuthnRequest)
        ensures
            *r == self@,
    {
        &self.0
    }
}

impl std::ops::Deref for VerifiedAuthnRequest {
    type Target = AuthnRequest;

    fn deref(&self) -> (r: &AuthnRequest)
        ensures
            *r == self@,
    {
        &self.0
    }
}

impl UnverifiedAuthnRequest {
    /// Wraps the outcome of reading `xml` as a request, keeping the text for the
    /// signature check. `parsed` must be the outcome of parsing exactly this `xml`: the
    /// signature is later checked over `xml`, and the request it vouches for is `parsed`.
    pub fn from_xml(xml: &str, parsed: Result<AuthnRequest, String>) -> (r: Result<UnverifiedAuthnRequest, String>)
        ensures
            match parsed {
                Ok(req) => r matches Ok(u) && u@ == (req, xml@),
                Err(e) => r == Err::<UnverifiedAuthnRequest, String>(e),
            },
    {
        match parsed {
            Ok(request) => Ok(UnverifiedAuthnRequest { request, xml: xml.to_owned() }),
            Err(e) => Err(e),
        }
    }

    /// The text the request was read from, over which its signature is checked.
    pub fn xml(&self) -> (r: &str)
        ensures
            r@ == self@.1,
    {
        self.xml.as_str()
    }

    /// The DER certificates embedded in the request's signature.
    pub fn get_certs_der(&self) -> (r: Result<Vec<Vec<u8>>, Error>)
        ensures
            match embedded_certificates(self@.0) {
                Ok(c) => r matches Ok(v) && v@.len() == c.len() && forall|i: int|
                    0 <= i < c.len() ==> (#[trigger] v@[i])@ == c[i],
                Err(e) => r == Err::<Vec<Vec<u8>>, Error>(e),
            },
    {
        let sig = match &self.request.signature {
            Some(s) => s,
            None => return Err(Error::NoSignature),
        };
        if sig.key_info.len() == 0 {
            return Err(Error::NoKeyInfo);
        }
        let texts: &Vec<String> = match &sig.key_info[0].x509_data {
            Some(d) => &d.certificates,
            None => {
                assert(key_info_certificates(sig.key_info@[0]) =~= Seq::<String>::empty());
                return Err(Error::NoCertificate);
            },
        };
        let ghost ts = key_info_certificates(sig.key_info@[0]);
        assert(ts == texts@);
        let mut out: Vec<Vec<u8>> = Vec::new();
        let mut i: usize = 0;
        while i < texts.len()
            invariant
                i <= texts@.len(),
                ts == texts@,
                self.request.signature == Some(*sig),
                sig.key_info@.len() > 0,
                ts == key_info_certificates(sig.key_info@[0]),
                out@.len() == i,
                forall|k: int| 0 <= k < i ==> (#[trigger] decoded_certificate(ts[k])) is Some,
                forall|k: int| 0 <= k < i ==> (#[trigger] out@[k])@ == decoded_certificate(ts[k])->0,
            decreases texts@.len() - i,
        {
            let stripped = strip_whitespace(texts[i].as_str().as_bytes());
            match decode_base64(stripped.as_slice()) {
                Some(der) => {
                    out.push(der);
                },
                None => {
                    assert(stripped@ == without_whitespace(encode_utf8(ts[i as int]@)));
                    assert(decoded_certificate(ts[i as int]) is None);
                    assert(embedded_certificates(self@.0) == Err::<Seq<Seq<u8>>, Error>(
                        Error::InvalidCertificateEncoding,
                    ));
                    return Err(Error::InvalidCertificateEncoding);
                },
            }
            i = i + 1;
        }
        if out.len() == 0 {
            return Err(Error::NoCertificate);
        }
        Ok(out)
    }

    /// Accepts the request when the signature verifies under at least one of its embedded
    /// certificates: `signature_valid[i]` is the verdict for the `i`-th certificate that
    /// `get_certs_der` returns.
    pub fn try_verify_self_signed(self, signature_valid: &[bool]) -> (r: Result<VerifiedAuthnRequest, Error>)
        ensures
            match embedded_certificates(self@.0) {
                Ok(c) => if exists|i: int| 0 <= i < c.len() && 0 <= i < signature_valid@.len() && #[trigger] signature_valid@[i] {
                    r matches Ok(v) && v@ == self@.0
                } else {
                    r == Err::<VerifiedAuthnRequest, Error>(Error::SignatureVerificationFailed)
                },
                Err(e) => r == Err::<VerifiedAuthnRequest, Error>(e),
            },
    {
        let certs = match self.get_certs_der() {
            Ok(c) => c,
            Err(e) => return Err(e),
        };
        let mut i: usize = 0;
        while i < certs.len() && i < signature_valid.len()
            invariant
                i <= certs@.len(),
                embedded_certificates(self@.0) is Ok,
                certs@.len() == embedded_certificates(self@.0)->Ok_0.len(),
                forall|k: int| 0 <= k < i && k < signature_valid@.len() ==> !#[trigger] signature_valid@[k],
            decreases certs@.len() - i,
        {
            if signature_valid[i] {
                assert(embedded_certificates(self@.0) is Ok);
                assert(signature_valid@[i as int]);
                return Ok(VerifiedAuthnRequest(self.request));
            }
            i = i + 1;
        }
        Err(Error::SignatureVerificationFailed)
    }

    /// Accepts the request when its signature verifies under a certificate the caller
    /// trusts; `signature_valid` is that verdict.
    pub fn try_verify_with_cert(self, signature_valid: bool) -> (r: Result<VerifiedAuthnRequest, Error>)
        ensures
            signature_valid ==> (r matches Ok(v) && v@ == self@.0),
            !signature_valid ==> r == Err::<VerifiedAuthnRequest, Error>(Error::SignatureVerificationFailed),
    {
        if signature_valid {
            Ok(VerifiedAuthnRequest(self.request))
        } else {
            Err(Error::SignatureVerificationFailed)
        }
    }
}

} // verus!
