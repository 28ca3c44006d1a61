//! What the C interface decides.

use live_video::c_api::{
    callback_purpose, check_callback_algorithm, probe_moof_sequence_number, returned_length,
    seed_from_slice, sign_with_callback, take_callback_signature,
    C2paLiveVideoTrustedVsiSigningContextV1, C2paLiveVideoTrustedVsiStatusV1,
    C2paLiveVideoVsiSigningPurpose, VsiSigningPurpose,
    C2PA_LIVE_VIDEO_TRUSTED_VSI_EXHAUSTION_REASON_EVENT_ID_MAX,
    C2PA_LIVE_VIDEO_TRUSTED_VSI_EXHAUSTION_REASON_LEGACY_SENTINEL,
    C2PA_LIVE_VIDEO_TRUSTED_VSI_EXHAUSTION_REASON_NONE,
    C2PA_LIVE_VIDEO_TRUSTED_VSI_EXHAUSTION_REASON_SEQUENCE_MAX,
    C2PA_LIVE_VIDEO_TRUSTED_VSI_PURPOSE_SIGNER_BINDING, C2PA_LIVE_VIDEO_TRUSTED_VSI_PURPOSE_VSI,
    C2PA_LIVE_VIDEO_VSI_NO_SEQUENCE,
};
use live_video::cose::SigningAlg;

fn bmff_box(box_type: &[u8; 4], payload: &[u8]) -> Vec<u8> {
    let mut data = Vec::new();
    data.extend_from_slice(&u32::try_from(8 + payload.len()).unwrap().to_be_bytes());
    data.extend_from_slice(box_type);
    data.extend_from_slice(payload);
    data
}

fn probe_media_segment(sequence_number: u32) -> Vec<u8> {
    let mut mfhd_payload = vec![0; 4];
    mfhd_payload.extend_from_slice(&sequence_number.to_be_bytes());
    let mfhd = bmff_box(b"mfhd", &mfhd_payload);
    let traf = bmff_box(b"traf", &[]);
    bmff_box(b"moof", &[mfhd, traf].concat())
}

#[test]
fn moof_sequence_probe_reads_the_number() {
    assert_eq!(probe_moof_sequence_number(&probe_media_segment(37)), Ok(37));
    assert_eq!(probe_moof_sequence_number(&probe_media_segment(0)), Ok(0));
}

#[test]
fn ffi_moof_sequence_probe_rejects_invalid_box_layouts() {
    let valid = probe_media_segment(37);
    let duplicate_moof = [valid.as_slice(), valid.as_slice()].concat();

    let mfhd = bmff_box(b"mfhd", &[0, 0, 0, 0, 0, 0, 0, 37]);
    let duplicate_mfhd = bmff_box(
        b"moof",
        &[
            mfhd.as_slice(),
            mfhd.as_slice(),
            bmff_box(b"traf", &[]).as_slice(),
        ]
        .concat(),
    );

    let traf = bmff_box(b"traf", &[]);
    let duplicate_traf = bmff_box(
        b"moof",
        &[
            bmff_box(b"mfhd", &[0, 0, 0, 0, 0, 0, 0, 37]).as_slice(),
            traf.as_slice(),
            traf.as_slice(),
        ]
        .concat(),
    );
    let no_moof = bmff_box(b"mdat", &[]);

    let cases: &[&[u8]] = &[
        b"",
        b"not bmff",
        no_moof.as_slice(),
        duplicate_moof.as_slice(),
        duplicate_mfhd.as_slice(),
        duplicate_traf.as_slice(),
    ];
    for media in cases {
        let error = probe_moof_sequence_number(media).unwrap_err();
        assert_eq!(
            error.message(),
            "media segment must contain exactly one moof/traf and a valid mfhd"
        );
    }
}

#[test]
fn ffi_rejects_wrong_seed_length() {
    let seed = [0u8; 31];
    assert_eq!(
        seed_from_slice(&seed).unwrap_err().message(),
        "Ed25519 seed must contain exactly 32 bytes, got 31"
    );
    assert_eq!(seed_from_slice(&[7u8; 32]), Ok([7u8; 32]));
}

#[test]
fn callback_results_are_bounded() {
    let buffer = [9u8; 64];
    assert_eq!(
        take_callback_signature(-7, &buffer).unwrap_err().message(),
        "VSI signing callback returned error code -7"
    );
    assert_eq!(
        take_callback_signature(65, &buffer).unwrap_err().message(),
        "VSI signing callback reported 65 bytes, exceeding output capacity 64"
    );
    assert_eq!(take_callback_signature(63, &buffer), Ok(vec![9u8; 63]));
    assert_eq!(take_callback_signature(0, &buffer), Ok(Vec::new()));
}

#[test]
fn callback_is_told_its_purpose() {
    assert_eq!(
        callback_purpose(VsiSigningPurpose::SignerBinding),
        (C2paLiveVideoVsiSigningPurpose::SignerBinding, u64::MAX)
    );
    assert_eq!(C2PA_LIVE_VIDEO_VSI_NO_SEQUENCE, u64::MAX);
    let signed = sign_with_callback(
        VsiSigningPurpose::Vsi { sequence_number: 12 },
        b"to be signed",
        |purpose, sequence_number, tbs| {
            assert_eq!(purpose, C2paLiveVideoVsiSigningPurpose::Vsi);
            assert_eq!(sequence_number, 12);
            assert_eq!(tbs, b"to be signed");
            let mut buffer = [0u8; 64];
            buffer[0] = 1;
            buffer[1] = 2;
            (2, buffer)
        },
    );
    assert_eq!(signed, Ok(vec![1, 2]));
    assert_eq!(C2paLiveVideoVsiSigningPurpose::SignerBinding.code(), 0);
    assert_eq!(C2paLiveVideoVsiSigningPurpose::Vsi.code(), 1);
}

#[test]
fn callbacks_sign_with_two_algorithms() {
    assert!(check_callback_algorithm(SigningAlg::Ed25519).is_ok());
    assert!(check_callback_algorithm(SigningAlg::Es256).is_ok());
    assert_eq!(
        check_callback_algorithm(SigningAlg::Es384)
            .unwrap_err()
            .message(),
        "VSI callback signing supports only Ed25519 and ES256"
    );
}

#[test]
fn lengths_are_returned_as_signed_integers() {
    assert_eq!(returned_length(5, "too large"), Ok(5));
    assert_eq!(
        returned_length(usize::MAX, "too large").is_err(),
        usize::BITS == 64
    );
}

#[test]
fn trusted_values_are_stable() {
    assert_eq!(C2PA_LIVE_VIDEO_TRUSTED_VSI_PURPOSE_SIGNER_BINDING, 0);
    assert_eq!(C2PA_LIVE_VIDEO_TRUSTED_VSI_PURPOSE_VSI, 1);
    assert_eq!(C2PA_LIVE_VIDEO_TRUSTED_VSI_EXHAUSTION_REASON_NONE, 0);
    assert_eq!(C2PA_LIVE_VIDEO_TRUSTED_VSI_EXHAUSTION_REASON_SEQUENCE_MAX, 1);
    assert_eq!(C2PA_LIVE_VIDEO_TRUSTED_VSI_EXHAUSTION_REASON_EVENT_ID_MAX, 2);
    assert_eq!(
        C2PA_LIVE_VIDEO_TRUSTED_VSI_EXHAUSTION_REASON_LEGACY_SENTINEL,
        3
    );
    let context = C2paLiveVideoTrustedVsiSigningContextV1::empty();
    assert_eq!(
        (context.purpose, context.sequence_number, context.event_id),
        (0, 0, 0)
    );
    assert!(!context.has_sequence_number && !context.has_event_id && !context.exhaust_after_sign);
    let status = C2paLiveVideoTrustedVsiStatusV1::default();
    assert!(!status.exhausted && !status.has_exhaustion_reason);
    assert_eq!(status.exhaustion_reason, 0);
}
