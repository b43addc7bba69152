//! What the connecting role tells the TLS layer about verifying a server.
//!
//! The client of this library accepts every certificate: it encrypts and
//! authenticates nobody. The list below is what such a verifier still has to
//! answer when it is asked which signatures it can check.

use vstd::prelude::*;

verus! {

/// A way of signing a handshake, by its name in the TLS registry.
#[derive(Clone, Copy, Debug, PartialEq, Eq, Structural)]
pub enum SignatureScheme {
    RsaPkcs1Sha256,
    EcdsaNistp256Sha256,
    RsaPkcs1Sha384,
    EcdsaNistp384Sha384,
    RsaPkcs1Sha512,
    RsaPssSha256,
    RsaPssSha384,
    RsaPssSha512,
    Ed25519,
}

/// The number of a scheme in the TLS registry.
pub open spec fn scheme_code(scheme: SignatureScheme) -> u16 {
    match scheme {
        SignatureScheme::RsaPkcs1Sha256 => 0x0401,
        SignatureScheme::EcdsaNistp256Sha256 => 0x0403,
        SignatureScheme::RsaPkcs1Sha384 => 0x0501,
        SignatureScheme::EcdsaNistp384Sha384 => 0x0503,
        SignatureScheme::RsaPkcs1Sha512 => 0x0601,
        SignatureScheme::RsaPssSha256 => 0x0804,
        SignatureScheme::RsaPssSha384 => 0x0805,
        SignatureScheme::RsaPssSha512 => 0x0806,
        SignatureScheme::Ed25519 => 0x0807,
    }
}

/// The schemes that the client claims to verify, in the order in which it
/// names them.
pub open spec fn verify_schemes() -> Seq<SignatureScheme> {
    seq![
        SignatureScheme::RsaPkcs1Sha256,
        SignatureScheme::EcdsaNistp256Sha256,
        SignatureScheme::RsaPkcs1Sha384,
        SignatureScheme::EcdsaNistp384Sha384,
        SignatureScheme::RsaPkcs1Sha512,
        SignatureScheme::RsaPssSha256,
        SignatureScheme::RsaPssSha384,
        SignatureScheme::RsaPssSha512,
        SignatureScheme::Ed25519,
    ]
}

impl SignatureScheme {
    /// The number of this scheme in the TLS registry.
    pub fn code(&self) -> (code: u16)
        ensures
            code == scheme_code(*self),
    {
        match self {
            SignatureScheme::RsaPkcs1Sha256 => 0x0401,
            SignatureScheme::EcdsaNistp256Sha256 => 0x0403,
            SignatureScheme::RsaPkcs1Sha384 => 0x0501,
            SignatureScheme::EcdsaNistp384Sha384 => 0x0503,
            SignatureScheme::RsaPkcs1Sha512 => 0x0601,
            SignatureScheme::RsaPssSha256 => 0x0804,
            SignatureScheme::RsaPssSha384 => 0x0805,
            SignatureScheme::RsaPssSha512 => 0x0806,
            SignatureScheme::Ed25519 => 0x0807,
        }
    }
}

/// The schemes that the client claims to verify.
pub fn supported_verify_schemes() -> (schemes: Vec<SignatureScheme>)
    ensures
        schemes@ == verify_schemes(),
{
    let schemes = vec![
        SignatureScheme::RsaPkcs1Sha256,
        SignatureScheme::EcdsaNistp256Sha256,
        SignatureScheme::RsaPkcs1Sha384,
        SignatureScheme::EcdsaNistp384Sha384,
        SignatureScheme::RsaPkcs1Sha512,
        SignatureScheme::RsaPssSha256,
        SignatureScheme::RsaPssSha384,
        SignatureScheme::RsaPssSha512,
        SignatureScheme::Ed25519,
    ];
    assert(schemes@ =~= verify_schemes());
    schemes
}

/// No two schemes share a number, so a scheme can be told from its number.
pub proof fn lemma_scheme_codes_differ(a: SignatureScheme, b: SignatureScheme)
    ensures
        scheme_code(a) == scheme_code(b) <==> a == b,
{
}

} // verus!
