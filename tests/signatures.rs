use samael::idp::error::Error;
use samael::idp::verified_request::UnverifiedAuthnRequest;
use samael::key_info::{KeyInfo, X509Data};
use samael::schema::authn_request::AuthnRequest;
use samael::signature::Signature;

fn request_with(signature: Option<Signature>) -> AuthnRequest {
    AuthnRequest {
        id: "req-1".to_string(),
        destination: Some("https://idp.example.com/sso".to_string()),
        signature,
        ..Default::default()
    }
}

fn signature_with(certs: Option<Vec<&str>>) -> Signature {
    Signature {
        key_info: vec![KeyInfo {
            id: None,
            x509_data: certs.map(|c| X509Data {
                certificates: c.iter().map(|s| s.to_string()).collect(),
            }),
        }],
        ..Default::default()
    }
}

fn unverified(req: AuthnRequest) -> UnverifiedAuthnRequest {
    UnverifiedAuthnRequest::from_xml("<samlp:AuthnRequest/>", Ok(req)).unwrap()
}

#[test]
fn parse_failure_is_passed_on() {
    let r = UnverifiedAuthnRequest::from_xml("<bad", Err("unexpected end".to_string()));
    assert_eq!(r.err(), Some("unexpected end".to_string()));
}

#[test]
fn keeps_the_original_text() {
    let u = unverified(request_with(None));
    assert_eq!(u.xml(), "<samlp:AuthnRequest/>");
}

#[test]
fn certificate_extraction_errors() {
    assert_eq!(unverified(request_with(None)).get_certs_der().err(), Some(Error::NoSignature));
    let no_key_info = Signature::default();
    assert_eq!(
        unverified(request_with(Some(no_key_info))).get_certs_der().err(),
        Some(Error::NoKeyInfo)
    );
    assert_eq!(
        unverified(request_with(Some(signature_with(None)))).get_certs_der().err(),
        Some(Error::NoCertificate)
    );
    assert_eq!(
        unverified(request_with(Some(signature_with(Some(vec![]))))).get_certs_der().err(),
        Some(Error::NoCertificate)
    );
    assert_eq!(
        unverified(request_with(Some(signature_with(Some(vec!["aGVsbG8=", "!!not base64!!"])))))
            .get_certs_der()
            .err(),
        Some(Error::InvalidCertificateEncoding)
    );
}

#[test]
fn certificates_are_decoded_ignoring_whitespace() {
    let u = unverified(request_with(Some(signature_with(Some(vec![
        "aGVs\n  bG8=",
        "\tPGEv\r\nPg==\n",
    ])))));
    let certs = u.get_certs_der().unwrap();
    assert_eq!(certs, vec![b"hello".to_vec(), b"<a/>".to_vec()]);
}

#[test]
fn self_signed_accepts_when_any_certificate_validates() {
    let req = request_with(Some(signature_with(Some(vec!["aGVsbG8=", "PGEvPg=="]))));
    let verified = unverified(req.clone()).try_verify_self_signed(&[false, true]).unwrap();
    assert_eq!(*verified.request(), req);
    assert_eq!(verified.id, "req-1");
    assert!(unverified(req.clone()).try_verify_self_signed(&[true, false]).is_ok());
}

#[test]
fn self_signed_fails_when_no_certificate_validates() {
    let req = request_with(Some(signature_with(Some(vec!["aGVsbG8=", "PGEvPg=="]))));
    assert_eq!(
        unverified(req.clone()).try_verify_self_signed(&[false, false]).err(),
        Some(Error::SignatureVerificationFailed)
    );
    assert_eq!(
        unverified(req.clone()).try_verify_self_signed(&[]).err(),
        Some(Error::SignatureVerificationFailed)
    );
    assert_eq!(
        unverified(req).try_verify_self_signed(&[false, false, true]).err(),
        Some(Error::SignatureVerificationFailed)
    );
}

#[test]
fn self_signed_reports_missing_material_first() {
    assert_eq!(
        unverified(request_with(None)).try_verify_self_signed(&[true]).err(),
        Some(Error::NoSignature)
    );
}

#[test]
fn verification_with_trusted_certificate() {
    let req = request_with(None);
    let verified = unverified(req.clone()).try_verify_with_cert(true).unwrap();
    assert_eq!(*verified.request(), req);
    assert_eq!(
        unverified(req).try_verify_with_cert(false).err(),
        Some(Error::SignatureVerificationFailed)
    );
}
