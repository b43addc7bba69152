use easy_quic::client::SessionError;
use easy_quic::failure::Failure;
use easy_quic::failure::Scope;
use easy_quic::identity::BootstrapError;
use easy_quic::protocol::StreamError;
use easy_quic::protocol::StreamFault;
use easy_quic::server::ConnectionFault;
use easy_quic::server::Termination;
use easy_quic::trust::supported_verify_schemes;
use easy_quic::trust::SignatureScheme;

#[test]
fn only_startup_failures_are_fatal() {
    let fatal = [
        Failure::Bind,
        Failure::Bootstrap(BootstrapError::CertificateGeneration("no key".to_string())),
        Failure::Bootstrap(BootstrapError::IdentityRejected("bad key".to_string())),
        Failure::Bootstrap(BootstrapError::NoInitialCipherSuite(String::new())),
    ];
    for f in fatal {
        assert!(f.is_fatal());
        assert_eq!(f.scope(), Scope::Process);
        assert!(f.is_logged());
    }
    let contained = [
        (Failure::Handshake(ConnectionFault::TimedOut), Scope::Attempt),
        (Failure::Stream(StreamError::TooLarge), Scope::Stream),
        (Failure::Stream(StreamError::InvalidEncoding), Scope::Stream),
        (Failure::Stream(StreamError::OutOfOrder), Scope::Stream),
        (Failure::Stream(StreamError::Transport(StreamFault::Reset { code: 1 })), Scope::Stream),
        (Failure::Stream(StreamError::ConnectionEnded(Termination::PeerClosed)), Scope::Connection),
        (Failure::Connection(Termination::PeerClosed), Scope::Connection),
        (Failure::Connection(Termination::Failed(ConnectionFault::Reset)), Scope::Connection),
        (Failure::Channel, Scope::Driver),
    ];
    for (f, scope) in contained {
        assert!(!f.is_fatal());
        assert_eq!(f.scope(), scope);
    }
}

#[test]
fn the_two_expected_ends_are_silent() {
    assert!(!Failure::Connection(Termination::PeerClosed).is_logged());
    assert!(!Failure::Stream(StreamError::ConnectionEnded(Termination::PeerClosed)).is_logged());
    assert!(!Failure::Channel.is_logged());
    assert!(Failure::Connection(Termination::Failed(ConnectionFault::TimedOut)).is_logged());
    assert!(Failure::Stream(StreamError::ConnectionEnded(Termination::Failed(ConnectionFault::Reset))).is_logged());
    assert!(Failure::Handshake(ConnectionFault::VersionMismatch).is_logged());
    assert!(Failure::Stream(StreamError::InvalidEncoding).is_logged());
}

#[test]
fn a_session_error_is_a_failure_of_its_stream_or_its_connection() {
    assert_eq!(
        Failure::of_session(SessionError::Stream(StreamError::TooLarge)),
        Failure::Stream(StreamError::TooLarge)
    );
    assert_eq!(
        Failure::of_session(SessionError::ConnectionEnded(Termination::PeerClosed)),
        Failure::Connection(Termination::PeerClosed)
    );
    assert_eq!(
        Failure::of_session(SessionError::ConnectionClosed),
        Failure::Connection(Termination::Failed(ConnectionFault::LocallyClosed))
    );
    assert!(!Failure::of_session(SessionError::ConnectionEnded(Termination::PeerClosed)).is_logged());
    assert!(Failure::of_session(SessionError::ConnectionClosed).is_logged());
}

#[test]
fn the_verifier_names_nine_schemes() {
    assert_eq!(
        supported_verify_schemes(),
        vec![
            SignatureScheme::RsaPkcs1Sha256,
            SignatureScheme::EcdsaNistp256Sha256,
            SignatureScheme::RsaPkcs1Sha384,
            SignatureScheme::EcdsaNistp384Sha384,
            SignatureScheme::RsaPkcs1Sha512,
            SignatureScheme::RsaPssSha256,
            SignatureScheme::RsaPssSha384,
            SignatureScheme::RsaPssSha512,
            SignatureScheme::Ed25519,
        ]
    );
}

#[test]
fn scheme_codes_are_those_of_the_tls_library() {
    let expected = [
        rustls::SignatureScheme::RSA_PKCS1_SHA256,
        rustls::SignatureScheme::ECDSA_NISTP256_SHA256,
        rustls::SignatureScheme::RSA_PKCS1_SHA384,
        rustls::SignatureScheme::ECDSA_NISTP384_SHA384,
        rustls::SignatureScheme::RSA_PKCS1_SHA512,
        rustls::SignatureScheme::RSA_PSS_SHA256,
        rustls::SignatureScheme::RSA_PSS_SHA384,
        rustls::SignatureScheme::RSA_PSS_SHA512,
        rustls::SignatureScheme::ED25519,
    ];
    let ours = supported_verify_schemes();
    assert_eq!(ours.len(), expected.len());
    for (scheme, theirs) in ours.iter().zip(expected.iter()) {
        assert_eq!(rustls::SignatureScheme::from(scheme.code()), *theirs);
    }
    assert_eq!(SignatureScheme::Ed25519.code(), 0x0807);
    assert_eq!(SignatureScheme::RsaPkcs1Sha256.code(), 0x0401);
}
