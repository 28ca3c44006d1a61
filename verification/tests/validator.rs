//! Validation of a stream.

use live_video::clock::DateT;
use live_video::cose::SigningAlg;
use live_video::error::Error;
use live_video::segment_info::{ParsedVsi, SegmentInfoMap};
use live_video::session_keys::{CoseKey, SessionKey, SessionKeys};
use live_video::signing::{ContinuityMethod, LiveVideoSegment};
use live_video::status_tracker::{log_item, ErrorBehavior, LogItem, StatusTracker};
use live_video::validator::{
    BindingCheck, LiveVideoValidator, ManifestChecks, OpenedVsi, SegmentState, VsiChecks,
};
use live_video::verifiable_segment_info::{build_emsg_box, VsiEmsg};

fn make_box(box_type: &[u8; 4], payload: &[u8]) -> Vec<u8> {
    let mut data = Vec::new();
    data.extend_from_slice(&u32::try_from(8 + payload.len()).unwrap().to_be_bytes());
    data.extend_from_slice(box_type);
    data.extend_from_slice(payload);
    data
}

fn full(box_type: &[u8; 4], words: &[u32]) -> Vec<u8> {
    let mut payload = vec![0u8; 4];
    for word in words {
        payload.extend_from_slice(&word.to_be_bytes());
    }
    make_box(box_type, &payload)
}

fn init_segment() -> Vec<u8> {
    let tkhd = full(b"tkhd", &[0, 0, 1]);
    let mdia = make_box(b"mdia", &full(b"mdhd", &[0, 0, 1000, 0]));
    let trex = full(b"trex", &[1, 1, 50, 0, 0]);
    let trak = make_box(b"trak", &[tkhd, mdia].concat());
    make_box(b"moov", &[trak, make_box(b"mvex", &trex)].concat())
}

fn media_segment(number: u32, track: u32) -> Vec<u8> {
    let traf = make_box(b"traf", &[full(b"tfhd", &[track]), full(b"trun", &[2])].concat());
    make_box(b"moof", &[full(b"mfhd", &[number]), traf].concat())
}

fn continuing() -> StatusTracker {
    StatusTracker::with_error_behavior(ErrorBehavior::ContinueWhenPossible)
}

fn stopping() -> StatusTracker {
    StatusTracker::with_error_behavior(ErrorBehavior::StopOnFirstError)
}

fn descriptions(tracker: &StatusTracker) -> Vec<&str> {
    tracker
        .failures
        .iter()
        .map(|failure| failure.description.as_str())
        .collect()
}

fn message(kid: &[u8], payload: &[u8]) -> Vec<u8> {
    let mut bytes = vec![0xd2, 0x84, 0x43, 0xa1, 0x01, 0x27, 0xa1, 0x04];
    bytes.push(0x40 + u8::try_from(kid.len()).unwrap());
    bytes.extend_from_slice(kid);
    bytes.push(0x40 + u8::try_from(payload.len()).unwrap());
    bytes.extend_from_slice(payload);
    bytes.extend_from_slice(&[0x41, 9]);
    bytes
}

fn vsi_segment(kid: &[u8], number: u32, id: u32) -> Vec<u8> {
    let payload = [u8::try_from(number).unwrap()];
    let event = build_emsg_box(&message(kid, &payload), 1000, 100, id).unwrap();
    [event, media_segment(number, 1)].concat()
}

fn decode(payload: &[u8]) -> Result<SegmentInfoMap, String> {
    match payload {
        [number] => Ok(SegmentInfoMap {
            sequence_number: u64::from(*number),
            bmff_hash: c2pa_cbor::Value::Null,
            manifest_id: "urn:c2pa:m".to_string(),
            manifest_uri: None,
        }),
        _ => Err("not a number".to_string()),
    }
}

fn nothing_wrong(
    _parsed: &ParsedVsi,
    _data: &[u8],
    _key: &SessionKey,
    _previous: Option<&SegmentState>,
    _expected_id: Option<&str>,
) -> VsiChecks {
    checks(Vec::new(), Vec::new())
}

fn opened(number: u64, id: u32) -> OpenedVsi {
    OpenedVsi {
        sequence_number: number,
        manifest_id: "urn:c2pa:m".to_string(),
        event: VsiEmsg {
            message_data: Vec::new(),
            timescale: 1000,
            presentation_time_delta: 0,
            event_duration: 100,
            id,
        },
    }
}

fn checks(manifest: Vec<LogItem>, signature: Vec<LogItem>) -> VsiChecks {
    VsiChecks {
        manifest,
        signature,
    }
}

fn started() -> LiveVideoValidator {
    let mut validator = LiveVideoValidator::default();
    validator
        .validate_init_segment(&init_segment(), &mut continuing())
        .unwrap();
    validator
}

fn keyed() -> LiveVideoValidator {
    let mut validator = started();
    let assertion = SessionKeys {
        keys: vec![session_key(b"a"), session_key(b"bc")],
    };
    validator
        .validate_session_keys(
            &assertion,
            "urn:c2pa:m",
            Some(b"cert"),
            &|_: &SessionKey, _: &[u8]| binding(true),
            &mut continuing(),
        )
        .unwrap();
    validator
}

fn session_key(kid: &[u8]) -> SessionKey {
    SessionKey {
        key: CoseKey {
            kid: Some(kid.to_vec()),
            alg: Some(SigningAlg::Ed25519),
            public_key: Some(vec![1; 32]),
        },
        min_sequence_number: 1,
        created_at: DateT("2026-01-01T00:00:00Z".to_string()),
        validity_period: 60,
        signer_binding: c2pa_cbor::Value::Null,
    }
}

fn binding(verified: bool) -> BindingCheck {
    BindingCheck {
        failures: if verified {
            Vec::new()
        } else {
            vec![log_item("signerBinding does not verify", "livevideo.sessionkey.invalid")]
        },
        verified,
    }
}

#[test]
fn init_segment_failures_are_logged() {
    let mut validator = LiveVideoValidator::new();
    let mut tracker = continuing();
    let segment = [init_segment(), make_box(b"mdat", &[])].concat();
    validator
        .validate_init_segment(&segment, &mut tracker)
        .unwrap();
    assert_eq!(
        descriptions(&tracker),
        vec![
            "initialization segment must not contain an mdat box",
            "invalid initialization segment layout or track timing: initialization segment must \
             not contain an mdat box",
        ]
    );
    assert_eq!(tracker.failures[0].code, "livevideo.init.invalid");

    let mut tracker = stopping();
    assert_eq!(
        validator.validate_init_segment(&segment, &mut tracker),
        Err(Error::BadParam("livevideo.init.invalid".to_string()))
    );
    assert_eq!(tracker.failure_count(), 1);
}

#[test]
fn accepted_segments_follow_each_other() {
    let mut validator = keyed();
    let mut tracker = continuing();
    for number in [7u32, 8] {
        validator
            .validate_verifiable_segment_info(
                &vsi_segment(b"bc", number, number),
                &decode,
                &nothing_wrong,
                &mut tracker,
            )
            .unwrap();
    }
    assert_eq!(tracker.failure_count(), 0);
    assert_eq!(validator.previous_segment().unwrap().sequence_number, 8);
    assert_eq!(
        validator.previous_segment().unwrap().manifest_id,
        "urn:c2pa:m"
    );
}

#[test]
fn host_is_asked_about_what_the_segment_carries() {
    let mut validator = keyed();
    let mut tracker = continuing();
    let first = vsi_segment(b"bc", 7, 1);
    validator
        .validate_verifiable_segment_info(&first, &decode, &nothing_wrong, &mut tracker)
        .unwrap();
    let second = vsi_segment(b"a", 8, 2);
    let asked = |parsed: &ParsedVsi,
                 data: &[u8],
                 key: &SessionKey,
                 previous: Option<&SegmentState>,
                 expected_id: Option<&str>| {
        assert_eq!(parsed.segment_info_map.sequence_number, 8);
        assert_eq!(parsed.sign1.signature, vec![9]);
        assert_eq!(data, second);
        assert_eq!(key.key.kid, Some(b"a".to_vec()));
        assert_eq!(previous.unwrap().sequence_number, 7);
        assert_eq!(expected_id, Some("urn:c2pa:m"));
        checks(vec![log_item("manifest", "a")], vec![log_item("signature", "b")])
    };
    validator
        .validate_verifiable_segment_info(&second, &decode, &asked, &mut tracker)
        .unwrap();
    assert_eq!(descriptions(&tracker), vec!["manifest", "signature"]);
    assert_eq!(validator.previous_segment().unwrap().sequence_number, 7);
}

#[test]
fn event_identifier_is_taken_once() {
    let mut validator = keyed();
    let mut tracker = continuing();
    for _ in 0..2 {
        validator
            .validate_verifiable_segment_info(
                &vsi_segment(b"a", 7, 3),
                &decode,
                &nothing_wrong,
                &mut tracker,
            )
            .unwrap();
    }
    assert_eq!(
        descriptions(&tracker),
        vec!["VSI emsg id must be unique within the live session"]
    );
    validator
        .validate_init_segment(&init_segment(), &mut continuing())
        .unwrap();
    let mut again = continuing();
    validator
        .validate_opened_vsi(
            &media_segment(7, 1),
            opened(7, 3),
            &checks(Vec::new(), Vec::new()),
            &mut again,
        )
        .unwrap();
    assert_eq!(again.failure_count(), 0);
}

#[test]
fn every_failure_of_a_segment_is_logged_in_order() {
    let mut validator = started();
    let mut tracker = continuing();
    let mut wrong = opened(9, 0);
    wrong.event.timescale = 0;
    wrong.event.presentation_time_delta = 1;
    wrong.event.event_duration = 1;
    validator
        .validate_opened_vsi(
            &media_segment(7, 2),
            wrong,
            &checks(vec![log_item("manifest", "a")], vec![log_item("signature", "b")]),
            &mut tracker,
        )
        .unwrap();
    assert_eq!(
        descriptions(&tracker),
        vec![
            "VSI emsg presentation_time_delta must be zero",
            "VSI emsg timescale must be non-zero and match the initialization track timescale",
            "VSI emsg event_duration must cover the complete media segment",
            "VSI emsg id must be nonzero",
            "manifest",
            "VSI sequenceNumber must match moof/mfhd.sequence_number",
            "media segment tfhd track_ID does not match the initialization track_ID",
            "signature",
        ]
    );
    assert!(validator.previous_segment().is_none());
}

#[test]
fn first_failure_can_end_the_validation() {
    let mut validator = started();
    let mut tracker = stopping();
    let result = validator.validate_opened_vsi(
        &media_segment(7, 1),
        opened(8, 0),
        &checks(Vec::new(), Vec::new()),
        &mut tracker,
    );
    assert_eq!(
        result,
        Err(Error::BadParam("livevideo.segment.invalid".to_string()))
    );
    assert_eq!(descriptions(&tracker), vec!["VSI emsg id must be nonzero"]);
}

#[test]
fn segments_that_cannot_be_opened_or_read_are_refused() {
    let refused = |validator: &mut LiveVideoValidator, segment: &[u8], code: &str| {
        let mut tracker = continuing();
        assert_eq!(
            validator.validate_verifiable_segment_info(
                segment,
                &decode,
                &nothing_wrong,
                &mut tracker
            ),
            Err(Error::BadParam(code.to_string()))
        );
        assert_eq!(tracker.failure_count(), 1);
        assert_eq!(tracker.failures[0].code, code);
        assert!(validator.previous_segment().is_none());
        tracker.failures[0].description.clone()
    };
    let key_code = "livevideo.sessionkey.invalid";
    let segment_code = "livevideo.segment.invalid";
    assert_eq!(
        refused(&mut started(), &vsi_segment(b"a", 7, 1), key_code),
        "no validated session keys are available for Verifiable Segment Info"
    );
    let mut validator = keyed();
    assert_eq!(
        refused(&mut validator, &media_segment(7, 1), segment_code),
        "media segment does not contain a VSI emsg box"
    );
    let event = build_emsg_box(&message(b"a", &[7]), 1000, 100, 1).unwrap();
    let doubled = [event.clone(), event, media_segment(7, 1)].concat();
    assert_eq!(
        refused(&mut validator, &doubled, segment_code),
        "segment contains multiple C2PA VSI emsg candidates"
    );
    let unread = build_emsg_box(&message(b"a", &[7, 7]), 1000, 100, 1).unwrap();
    assert_eq!(
        refused(&mut validator, &unread, segment_code),
        "invalid SegmentInfoMap CBOR: not a number"
    );
    assert_eq!(
        refused(&mut validator, &vsi_segment(b"x", 7, 1), key_code),
        "VSI kid does not name a validated session key"
    );
}

#[test]
fn segments_without_timing_are_refused() {
    let mut validator = keyed();
    let mut tracker = continuing();
    let event = build_emsg_box(&message(b"a", &[7]), 1000, 100, 1).unwrap();
    validator
        .validate_verifiable_segment_info(
            &event,
            &decode,
            &|_: &ParsedVsi,
              _: &[u8],
              _: &SessionKey,
              _: Option<&SegmentState>,
              _: Option<&str>| checks(Vec::new(), vec![log_item("not reached", "x")]),
            &mut tracker,
        )
        .unwrap();
    assert_eq!(
        descriptions(&tracker),
        vec![
            "invalid Milestone 1 media segment layout or timing: media segment must contain \
             exactly one moof box",
        ]
    );
    assert!(validator.previous_segment().is_none());
}

fn claim(number: u64, previous: Option<&str>) -> LiveVideoSegment {
    LiveVideoSegment {
        sequence_number: number,
        stream_id: "s".to_string(),
        continuity_method: ContinuityMethod::ManifestId,
        previous_manifest_id: previous.map(str::to_string),
    }
}

#[test]
fn first_segment_must_refer_to_the_registered_init() {
    let mut validator = started();
    let mut tracker = continuing();
    validator
        .register_manifest_box_init("urn:c2pa:init", &mut tracker)
        .unwrap();
    let segment = media_segment(1, 1);
    let asked = |data: &[u8],
                 manifest_id: &str,
                 claim: &LiveVideoSegment,
                 previous: Option<&SegmentState>| {
        assert_eq!(data, segment);
        assert_eq!(claim.sequence_number, 1);
        match previous {
            None => assert_eq!(manifest_id, "urn:c2pa:1"),
            Some(state) => {
                assert_eq!(manifest_id, "urn:c2pa:2");
                assert_eq!(state.manifest_id, "urn:c2pa:1");
            }
        }
        ManifestChecks {
            layout: Vec::new(),
            sequence: vec![log_item("not for the first segment", "x")],
        }
    };
    validator
        .validate_media_segment(&segment, "urn:c2pa:1", &claim(1, None), &asked, &mut tracker)
        .unwrap();
    assert_eq!(
        descriptions(&tracker),
        vec![
            "first media segment previousManifestId must reference the signed initialization \
             manifest"
        ]
    );
    assert!(validator.previous_segment().is_none());

    let mut tracker = continuing();
    validator
        .validate_media_segment(
            &segment,
            "urn:c2pa:1",
            &claim(1, Some("urn:c2pa:init")),
            &asked,
            &mut tracker,
        )
        .unwrap();
    assert_eq!(tracker.failure_count(), 0);
    assert_eq!(validator.previous_segment().unwrap().stream_id, "s");

    validator
        .validate_media_segment(&segment, "urn:c2pa:2", &claim(1, None), &asked, &mut tracker)
        .unwrap();
    assert_eq!(descriptions(&tracker), vec!["not for the first segment"]);
    assert_eq!(
        validator.previous_segment().unwrap().manifest_id,
        "urn:c2pa:1"
    );
}

#[test]
fn segment_with_a_faulty_layout_does_not_count() {
    let mut validator = started();
    let mut tracker = stopping();
    let given = ManifestChecks {
        layout: vec![log_item("layout", "a"), log_item("more", "b")],
        sequence: Vec::new(),
    };
    assert_eq!(
        validator.validate_checked_segment("urn:c2pa:1", &claim(1, None), &given, &mut tracker),
        Err(Error::BadParam("a".to_string()))
    );
    assert_eq!(descriptions(&tracker), vec!["layout"]);
    assert!(validator.previous_segment().is_none());
}

#[test]
fn init_label_must_be_an_identifier() {
    let mut validator = LiveVideoValidator::new();
    let mut tracker = continuing();
    validator
        .register_manifest_box_init("urn:c2pa:", &mut tracker)
        .unwrap();
    assert_eq!(
        descriptions(&tracker),
        vec!["initialization manifest label must be a non-empty urn:c2pa: identifier"]
    );
}

#[test]
fn only_bound_keys_are_kept() {
    let mut validator = started();
    let mut tracker = continuing();
    let assertion = SessionKeys {
        keys: vec![session_key(b"a"), session_key(b"b"), session_key(b"c")],
    };
    validator
        .validate_session_keys(
            &assertion,
            "urn:c2pa:m",
            Some(b"cert"),
            &|key: &SessionKey, cert: &[u8]| {
                assert_eq!(cert, b"cert");
                binding(key.key.kid != Some(b"b".to_vec()))
            },
            &mut tracker,
        )
        .unwrap();
    let kept: Vec<Option<Vec<u8>>> = validator
        .session_keys()
        .iter()
        .map(|key| key.key.kid.clone())
        .collect();
    assert_eq!(kept, vec![Some(b"a".to_vec()), Some(b"c".to_vec())]);
    assert_eq!(descriptions(&tracker), vec!["signerBinding does not verify"]);
    assert_eq!(validator.expected_manifest_id(), Some("urn:c2pa:m"));
}

#[test]
fn session_key_refusals() {
    let refused = |keys: Vec<SessionKey>, id: &str, cert: Option<&[u8]>| {
        let mut validator = started();
        let mut tracker = continuing();
        validator
            .validate_session_keys(
                &SessionKeys { keys },
                id,
                cert,
                &|_: &SessionKey, _: &[u8]| binding(true),
                &mut tracker,
            )
            .unwrap();
        assert!(validator.session_keys().is_empty());
        assert_eq!(validator.expected_manifest_id(), None);
        assert_eq!(tracker.failure_count(), 1);
        assert_eq!(tracker.failures[0].code, "livevideo.sessionkey.invalid");
        tracker.failures[0].description.clone()
    };
    let cert: Option<&[u8]> = Some(b"cert");
    assert_eq!(
        refused(vec![session_key(b"a")], "urn:uuid:1", cert),
        "session-keys manifest ID must be a non-empty urn:c2pa: identifier"
    );
    assert_eq!(
        refused(Vec::new(), "urn:c2pa:m", cert),
        "session-keys assertion must contain at least one key"
    );
    assert!(refused(vec![session_key(b"a")], "urn:c2pa:m", None)
        .starts_with("cannot verify session key signerBinding"));
    assert_eq!(
        refused(vec![session_key(b"")], "urn:c2pa:m", cert),
        "session key COSE_Key must include a non-empty kid (key identifier)"
    );
    assert_eq!(
        refused(
            vec![session_key(b"a"), session_key(b"b"), session_key(b"a")],
            "urn:c2pa:m",
            cert
        ),
        "session key COSE_Key kid values must be unique"
    );
    let mut unsupported = session_key(b"a");
    unsupported.key.alg = None;
    assert_eq!(
        refused(vec![unsupported], "urn:c2pa:m", cert),
        "session COSE_Key has an unsupported or inconsistent algorithm/public key"
    );
    let mut short = session_key(b"a");
    short.validity_period = 0;
    assert_eq!(
        refused(vec![short], "urn:c2pa:m", cert),
        "session key validityPeriod must be greater than zero"
    );
}

#[test]
fn manifest_failures_have_their_codes() {
    let validator = LiveVideoValidator::new();
    let mut tracker = continuing();
    validator.fail_segment_manifest("a", &mut tracker).unwrap();
    validator.fail_init_manifest("b", &mut tracker).unwrap();
    validator.fail_session_keys("c", &mut tracker).unwrap();
    let codes: Vec<&str> = tracker
        .failures
        .iter()
        .map(|failure| failure.code.as_str())
        .collect();
    assert_eq!(
        codes,
        vec![
            "livevideo.manifest.invalid",
            "livevideo.init.invalid",
            "livevideo.sessionkey.invalid",
        ]
    );
    assert_eq!(
        validator.fail_session_keys("c", &mut stopping()),
        Err(Error::BadParam("livevideo.sessionkey.invalid".to_string()))
    );
}
