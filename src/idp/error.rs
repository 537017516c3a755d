use vstd::prelude::*;

verus! {

/// Why a signed request could not be verified.
#[derive(Clone, Copy, Debug, PartialEq, Eq, Structural)]
pub enum Error {
    NoSignature,
    NoKeyInfo,
    NoCertificate,
    InvalidCertificateEncoding,
    SignatureVerificationFailed,
}

} // verus!
