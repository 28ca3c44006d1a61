//! The reserved interface for prehashed trusted signing.

use std::sync::atomic::{AtomicUsize, Ordering};
use std::sync::Arc;

use live_video::cose::SigningAlg;
use live_video::error::Error;
use live_video::trusted_vsi::{
    TrustedVsiCapabilities, TrustedVsiPrehashedSession, VsiSessionConfig,
};

fn config() -> VsiSessionConfig {
    VsiSessionConfig {
        algorithm: SigningAlg::Es256,
        kid: b"trusted-vsi-scaffold".to_vec(),
        public_cose_key_cbor: Vec::new(),
        min_sequence_number: 1,
        created_at: "2026-01-01T00:00:00Z".to_string(),
        validity_period_secs: 60,
    }
}

#[test]
fn scaffold_capabilities_are_zero() {
    let capabilities = TrustedVsiPrehashedSession::capabilities();
    assert_eq!(capabilities.bits(), 0);
    assert!(!capabilities.supports_split_init_uuid());
    assert!(!capabilities.supports_expert_emsg_sig_structure());
    assert!(!capabilities.supports_signer_composed_emsg());
    assert!(!capabilities.supports_recovery());
    assert!(!capabilities.supports_signing_context_v1());
    assert!(!capabilities.supports_full_uint32_exhaustion());
}

#[test]
fn scaffold_constructor_is_unsupported_without_callback_invocation() {
    let callback_calls = Arc::new(AtomicUsize::new(0));
    let callback_calls_for_closure = Arc::clone(&callback_calls);
    let result = TrustedVsiPrehashedSession::from_shared_context_with_callback(
        &Arc::new(()),
        "not inspected",
        config(),
        move |_context, _sig_structure| {
            callback_calls_for_closure.fetch_add(1, Ordering::SeqCst);
            Ok(Vec::new())
        },
    );

    assert!(matches!(result, Err(Error::UnsupportedType)));
    assert_eq!(callback_calls.load(Ordering::SeqCst), 0);
}

#[test]
fn scaffold_operations_are_unsupported() {
    let mut session = TrustedVsiPrehashedSession { reserved: () };

    assert!(matches!(
        session.reserve_init_uuid("video/mp4"),
        Err(Error::UnsupportedType)
    ));
    assert!(matches!(
        session.finalize_init_uuid(b"bmff-hash"),
        Err(Error::UnsupportedType)
    ));
    assert!(matches!(
        session.reserved_manifest_id(),
        Err(Error::UnsupportedType)
    ));
    assert!(matches!(
        session.commit_init_uuid(),
        Err(Error::UnsupportedType)
    ));
    assert!(matches!(
        session.sign_emsg_sig_structure(b"emsg", b"sig-structure"),
        Err(Error::UnsupportedType)
    ));
    assert!(matches!(
        session.reserve_media_emsg_at(0, 1, 1),
        Err(Error::UnsupportedType)
    ));
    assert!(matches!(
        session.finalize_media_emsg(b"bmff-hash"),
        Err(Error::UnsupportedType)
    ));
    assert!(matches!(
        session.recover(b"uuid", Some(b"emsg")),
        Err(Error::UnsupportedType)
    ));
    assert!(matches!(session.status(), Err(Error::UnsupportedType)));
}

#[test]
fn capability_bits_are_stable() {
    assert_eq!(TrustedVsiCapabilities::SPLIT_INIT_UUID_BIT, 1);
    assert_eq!(TrustedVsiCapabilities::EXPERT_EMSG_SIG_STRUCTURE_BIT, 2);
    assert_eq!(TrustedVsiCapabilities::SIGNER_COMPOSED_EMSG_BIT, 4);
    assert_eq!(TrustedVsiCapabilities::RECOVERY_BIT, 8);
    assert_eq!(TrustedVsiCapabilities::SIGNING_CONTEXT_V1_BIT, 16);
    assert_eq!(TrustedVsiCapabilities::FULL_UINT32_EXHAUSTION_BIT, 32);
    assert_eq!(
        TrustedVsiCapabilities::default(),
        TrustedVsiCapabilities::current()
    );
}
