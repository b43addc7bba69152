use easy_quic::config::ServerConfig;
use easy_quic::identity::configure_server;
use easy_quic::identity::crypto_plan;
use easy_quic::identity::generate_self_signed_cert;
use easy_quic::identity::identity_from;
use easy_quic::identity::identity_names;
use easy_quic::identity::server_transport_from;
use easy_quic::identity::transport_plan;
use easy_quic::identity::BootstrapError;
use easy_quic::identity::ServerIdentity;

#[test]
fn the_identity_is_issued_for_localhost_alone() {
    assert_eq!(identity_names(), vec!["localhost".to_string()]);
}

#[test]
fn generated_identity_is_for_localhost() {
    let identity = generate_self_signed_cert().unwrap();
    assert_eq!(identity.host, "localhost");
    assert!(!identity.certificate.is_empty());
    assert!(!identity.private_key.is_empty());
    // DER: both start with a SEQUENCE.
    assert_eq!(identity.certificate[0], 0x30);
    assert_eq!(identity.private_key[0], 0x30);
    // The name is in the certificate, as an ASCII string.
    let name = b"localhost";
    assert!(identity.certificate.windows(name.len()).any(|w| w == name));
}

#[test]
fn two_identities_have_different_keys() {
    let a = generate_self_signed_cert().unwrap();
    let b = generate_self_signed_cert().unwrap();
    assert_ne!(a.private_key, b.private_key);
    assert_ne!(a.certificate, b.certificate);
}

#[test]
fn identity_from_a_generated_pair() {
    let identity = identity_from("localhost".to_string(), Ok((vec![1, 2, 3], vec![4, 5]))).unwrap();
    assert_eq!(identity.host, "localhost");
    assert_eq!(identity.certificate, vec![1, 2, 3]);
    assert_eq!(identity.private_key, vec![4, 5]);
}

#[test]
fn identity_from_a_failed_generation() {
    let r = identity_from("localhost".to_string(), Err("no entropy".to_string()));
    assert_eq!(r.err(), Some(BootstrapError::CertificateGeneration("no entropy".to_string())));
}

#[test]
fn the_transport_gets_the_settings_as_configured() {
    let mut settings = ServerConfig::default();
    assert_eq!(transport_plan(&settings), (100, Some(5)));
    settings.max_concurrent_streams = 7;
    settings.keep_alive_interval_secs = 0;
    assert_eq!(transport_plan(&settings), (7, None));
    settings.max_concurrent_streams = u32::MAX;
    settings.keep_alive_interval_secs = u64::MAX;
    assert_eq!(transport_plan(&settings), (u32::MAX, Some(u64::MAX)));
}

#[test]
fn the_tls_layer_gets_the_identity_and_the_echo_protocol() {
    let identity = ServerIdentity {
        host: "localhost".to_string(),
        certificate: vec![1, 2, 3],
        private_key: vec![4, 5, 6],
    };
    let plan = crypto_plan(identity);
    assert_eq!(plan.certificate, vec![1, 2, 3]);
    assert_eq!(plan.private_key, vec![4, 5, 6]);
    assert_eq!(plan.protocol, b"quic-echo".to_vec());
}

#[test]
fn a_generated_identity_configures_a_server() {
    let identity = generate_self_signed_cert().unwrap();
    let transport = configure_server(identity, &ServerConfig::default());
    assert!(transport.is_ok());
}

#[test]
fn a_server_with_no_keep_alive_is_configured_too() {
    let identity = generate_self_signed_cert().unwrap();
    let mut settings = ServerConfig::default();
    settings.keep_alive_interval_secs = 0;
    settings.max_concurrent_streams = 0;
    assert!(configure_server(identity, &settings).is_ok());
}

#[test]
fn a_malformed_identity_is_rejected() {
    let identity = ServerIdentity {
        host: "localhost".to_string(),
        certificate: vec![1, 2, 3],
        private_key: vec![4, 5, 6],
    };
    let r = configure_server(identity, &ServerConfig::default());
    match r.err() {
        Some(BootstrapError::IdentityRejected(why)) => assert!(!why.is_empty()),
        other => panic!("unexpected outcome {:?}", other),
    }
}

#[test]
fn a_key_that_belongs_to_another_certificate_is_rejected() {
    let a = generate_self_signed_cert().unwrap();
    let b = generate_self_signed_cert().unwrap();
    let mixed = ServerIdentity { host: a.host, certificate: a.certificate, private_key: b.private_key };
    let r = configure_server(mixed, &ServerConfig::default());
    assert!(matches!(r.err(), Some(BootstrapError::IdentityRejected(_))));
}

fn tls_config(provider: rustls::crypto::CryptoProvider) -> rustls::ServerConfig {
    let identity = generate_self_signed_cert().unwrap();
    let chain = vec![rustls::pki_types::CertificateDer::from(identity.certificate)];
    let key = rustls::pki_types::PrivatePkcs8KeyDer::from(identity.private_key);
    rustls::ServerConfig::builder_with_provider(std::sync::Arc::new(provider))
        .with_safe_default_protocol_versions()
        .unwrap()
        .with_no_client_auth()
        .with_single_cert(chain, key.into())
        .unwrap()
}

#[test]
fn cryptography_that_was_made_is_kept() {
    let tls = tls_config(rustls::crypto::ring::default_provider());
    let crypto = quinn::crypto::rustls::QuicServerConfig::try_from(tls).unwrap();
    let r = server_transport_from(Ok(Ok(crypto)), quinn::TransportConfig::default());
    assert!(r.is_ok());
}

#[test]
fn a_refusal_by_the_tls_layer_is_a_rejected_identity() {
    let refused = Err(rustls::Error::General("no such key".to_string()).to_string());
    let r = server_transport_from(refused, quinn::TransportConfig::default());
    match r.err() {
        Some(BootstrapError::IdentityRejected(why)) => assert!(why.contains("no such key")),
        other => panic!("unexpected outcome {:?}", other),
    }
}

#[test]
fn a_provider_without_the_first_suite_is_a_missing_cipher_suite() {
    let mut provider = rustls::crypto::ring::default_provider();
    provider
        .cipher_suites
        .retain(|suite| suite.suite() != rustls::CipherSuite::TLS13_AES_128_GCM_SHA256);
    let why = quinn::crypto::rustls::QuicServerConfig::try_from(tls_config(provider))
        .err()
        .unwrap()
        .to_string();
    let r = server_transport_from(Ok(Err(why.clone())), quinn::TransportConfig::default());
    assert_eq!(r.err(), Some(BootstrapError::NoInitialCipherSuite(why)));
}
