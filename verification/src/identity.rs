//! The server's identity and the transport configuration that carries it.
//!
//! The identity is an ephemeral self-signed certificate: it lets the
//! transport encrypt, and proves nothing about who the server is.

use crate::config::default_server_name;
use crate::config::keep_alive_of;
use crate::config::ServerConfig;
use crate::protocol::application_protocol;
use crate::protocol::protocol_id;
use std::sync::Arc;
use std::time::Duration;
use vstd::prelude::*;
use vstd::string::StringExecFns;

verus! {

#[verifier::external_type_specification]
#[verifier::external_body]
pub struct ExCertificateError(rcgen::Error);

#[verifier::external_type_specification]
#[verifier::external_body]
pub struct ExTlsError(rustls::Error);

#[verifier::external_type_specification]
#[verifier::external_body]
pub struct ExQuicServerConfig(quinn::crypto::rustls::QuicServerConfig);

#[verifier::external_type_specification]
#[verifier::external_body]
pub struct ExNoInitialCipherSuite(quinn::crypto::rustls::NoInitialCipherSuite);

#[verifier::external_type_specification]
#[verifier::external_body]
pub struct ExTransportConfig(quinn::TransportConfig);

/// Why the server could not be prepared, with the words of the layer that
/// refused. Each of these stops startup.
#[derive(Clone, Debug, PartialEq, Eq)]
pub enum BootstrapError {
    /// No certificate and key could be generated.
    CertificateGeneration(String),
    /// The TLS layer refused the certificate or its key.
    IdentityRejected(String),
    /// The TLS layer offers no cipher suite that the transport can start with.
    NoInitialCipherSuite(String),
}

/// A certificate and its private key, both DER-encoded, with the host name
/// that the certificate is issued for.
#[derive(Clone, Debug)]
pub struct ServerIdentity {
    pub host: String,
    pub certificate: Vec<u8>,
    pub private_key: Vec<u8>,
}

/// `rcgen::generate_simple_self_signed`: a fresh key pair and a certificate
/// for the given names that the key signs itself, each handed out in DER
/// (the key as PKCS#8). Every call draws a new key, so nothing is claimed of
/// the bytes.
#[verifier::external_body]
fn issue_self_signed(names: Vec<String>) -> (r: Result<(Vec<u8>, Vec<u8>), rcgen::Error>) {
    match rcgen::generate_simple_self_signed(names) {
        Ok(issued) => Ok((issued.cert.der().to_vec(), issued.key_pair.serialize_der())),
        Err(e) => Err(e),
    }
}

/// The words in which rcgen's error describes itself.
#[verifier::external_body]
fn generation_error_text(error: &rcgen::Error) -> (text: String) {
    error.to_string()
}

/// The words in which the TLS library's error describes itself.
#[verifier::external_body]
fn tls_error_text(error: &rustls::Error) -> (text: String) {
    error.to_string()
}

/// The words in which quinn's `NoInitialCipherSuite` describes itself.
#[verifier::external_body]
fn cipher_suite_error_text(error: &quinn::crypto::rustls::NoInitialCipherSuite) -> (text: String) {
    error.to_string()
}

/// The cryptography of a transport server, made in two steps. First the
/// builder of the TLS library's server configuration, on the `ring` provider
/// with its default protocol versions and without client authentication,
/// finished by `with_single_cert`; it fails where the TLS layer refuses the
/// key or finds that it does not match the certificate. The one protocol
/// identifier becomes the configuration's ALPN list. Then
/// `QuicServerConfig::try_from` of quinn, which fails where the
/// configuration has no cipher suite for the first packets.
#[verifier::external_body]
fn quic_crypto(certificate: Vec<u8>, private_key: Vec<u8>, protocol: Vec<u8>) -> (r: Result<
    Result<quinn::crypto::rustls::QuicServerConfig, quinn::crypto::rustls::NoInitialCipherSuite>,
    rustls::Error,
>) {
    let chain = vec![rustls::pki_types::CertificateDer::from(certificate)];
    let key = rustls::pki_types::PrivatePkcs8KeyDer::from(private_key);
    let provider = Arc::new(rustls::crypto::ring::default_provider());
    let mut tls = rustls::ServerConfig::builder_with_provider(provider)
        .with_safe_default_protocol_versions()?
        .with_no_client_auth()
        .with_single_cert(chain, key.into())?;
    tls.alpn_protocols = vec![protocol];
    Ok(quinn::crypto::rustls::QuicServerConfig::try_from(tls))
}

/// `quinn::TransportConfig` with two of its setters applied to the default:
/// `max_concurrent_bidi_streams` and `keep_alive_interval`.
#[verifier::external_body]
fn transport_settings(max_streams: u32, keep_alive_secs: Option<u64>) -> (r:
    quinn::TransportConfig) {
    let mut transport = quinn::TransportConfig::default();
    transport.max_concurrent_bidi_streams(quinn::VarInt::from_u32(max_streams));
    transport.keep_alive_interval(keep_alive_secs.map(Duration::from_secs));
    transport
}

/// The identity that a generated pair stands for, or the failure to report
/// where none was generated.
pub fn identity_from(host: String, generated: Result<(Vec<u8>, Vec<u8>), String>) -> (r: Result<
    ServerIdentity,
    BootstrapError,
>)
    ensures
        match generated {
            Ok(pair) => r is Ok && r->Ok_0.host@ == host@ && r->Ok_0.certificate@ == pair.0@
                && r->Ok_0.private_key@ == pair.1@,
            Err(why) => r is Err && r->Err_0 is CertificateGeneration
                && r->Err_0->CertificateGeneration_0@ == why@,
        },
{
    match generated {
        Ok(pair) => Ok(ServerIdentity { host, certificate: pair.0, private_key: pair.1 }),
        Err(why) => Err(BootstrapError::CertificateGeneration(why)),
    }
}

/// The names that the server's certificate is issued for: `localhost`, and
/// no other.
pub fn identity_names() -> (names: Vec<String>)
    ensures
        names@.len() == 1,
        names@[0]@ == default_server_name(),
{
    let name = String::from_str("localhost");
    proof {
        reveal_strlit("localhost");
        assert("localhost"@ =~= default_server_name());
    }
    let mut names: Vec<String> = Vec::new();
    names.push(name);
    names
}

/// A fresh self-signed identity for the names of `identity_names`, known by
/// the first of them. The only failure is that of the generator itself.
pub fn generate_self_signed_cert() -> (r: Result<ServerIdentity, BootstrapError>)
    ensures
        r is Ok ==> r->Ok_0.host@ == default_server_name(),
        r is Err ==> r->Err_0 is CertificateGeneration,
{
    let names = identity_names();
    let host = names[0].clone();
    let generated = match issue_self_signed(names) {
        Ok(pair) => Ok(pair),
        Err(e) => Err(generation_error_text(&e)),
    };
    identity_from(host, generated)
}

/// What a listening endpoint is made of: the cryptography that presents the
/// server's identity, and the transport settings.
pub struct ServerTransport {
    pub crypto: quinn::crypto::rustls::QuicServerConfig,
    pub transport: quinn::TransportConfig,
}

/// The parts of a server that presents `identity`, advertises the echo
/// protocol's identifier and applies the two transport settings. It fails
/// only where the TLS layer refuses the identity or has no cipher suite to
/// start with.
pub fn configure_server(identity: ServerIdentity, settings: &ServerConfig) -> (r: Result<
    ServerTransport,
    BootstrapError,
>)
    ensures
        r is Err ==> r->Err_0 is IdentityRejected || r->Err_0 is NoInitialCipherSuite,
{
    let plan = transport_plan(settings);
    let transport = transport_settings(plan.0, plan.1);
    let offer = crypto_plan(identity);
    let crypto = match quic_crypto(offer.certificate, offer.private_key, offer.protocol) {
        Ok(Ok(made)) => Ok(Ok(made)),
        Ok(Err(e)) => Ok(Err(cipher_suite_error_text(&e))),
        Err(e) => Err(tls_error_text(&e)),
    };
    server_transport_from(crypto, transport)
}

/// What is handed to the transport for its settings: the limit on
/// concurrent streams as it is configured, and the keep-alive interval that
/// the configured seconds stand for.
pub fn transport_plan(settings: &ServerConfig) -> (plan: (u32, Option<u64>))
    ensures
        plan.0 == settings.max_concurrent_streams,
        plan.1 == keep_alive_of(settings.keep_alive_interval_secs),
{
    (settings.max_concurrent_streams, settings.keep_alive())
}

/// What is handed to the TLS layer.
#[derive(Clone, Debug)]
pub struct CryptoPlan {
    pub certificate: Vec<u8>,
    pub private_key: Vec<u8>,
    /// The one application protocol to advertise.
    pub protocol: Vec<u8>,
}

/// What is handed to the TLS layer for `identity`: its certificate and its
/// key as they are, and the identifier of the echo protocol.
pub fn crypto_plan(identity: ServerIdentity) -> (plan: CryptoPlan)
    ensures
        plan.certificate@ == identity.certificate@,
        plan.private_key@ == identity.private_key@,
        plan.protocol@ == protocol_id(),
{
    CryptoPlan {
        certificate: identity.certificate,
        private_key: identity.private_key,
        protocol: application_protocol(),
    }
}

/// The parts of a server that the TLS layer and the transport made, or the
/// failure to report where they made none: cryptography that was made is
/// kept as it is beside the transport settings, a refusal by the TLS layer
/// is a rejected identity, and a refusal by the transport is a missing
/// cipher suite, each with the words of the refusal.
pub fn server_transport_from(
    crypto: Result<Result<quinn::crypto::rustls::QuicServerConfig, String>, String>,
    transport: quinn::TransportConfig,
) -> (r: Result<ServerTransport, BootstrapError>)
    ensures
        match crypto {
            Ok(Ok(made)) => r is Ok && r->Ok_0.crypto == made && r->Ok_0.transport == transport,
            Ok(Err(why)) => r is Err && r->Err_0 is NoInitialCipherSuite
                && r->Err_0->NoInitialCipherSuite_0@ == why@,
            Err(why) => r is Err && r->Err_0 is IdentityRejected
                && r->Err_0->IdentityRejected_0@ == why@,
        },
{
    match crypto {
        Ok(Ok(made)) => Ok(ServerTransport { crypto: made, transport }),
        Ok(Err(why)) => Err(BootstrapError::NoInitialCipherSuite(why)),
        Err(why) => Err(BootstrapError::IdentityRejected(why)),
    }
}

} // verus!
