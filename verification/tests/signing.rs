//! Signing with a manifest in each segment.

use std::cell::RefCell;

use live_video::error::Error;
use live_video::manifest_report::{
    is_manifest_integrity_failure, ManifestReport, ReportedStatus,
};
use live_video::signing::{ContinuityMethod, LiveVideoSegment, LiveVideoSigner};

fn test_manifest_json() -> &'static str {
    r#"{"assertions": [
        {"label": "c2pa.actions", "data": {"actions": [{"action": "c2pa.created", "digitalSourceType": "http://c2pa.org/digitalsourcetype/empty"}]}},
        {"label": "c2pa.livevideo.segment", "data": {"sequenceNumber": 5, "nextSequenceNumber": 5, "streamId": "stream-1", "continuityMethod": "c2pa.manifestId"}}
    ]}"#
}

fn make_box(box_type: &[u8; 4], payload: &[u8]) -> Vec<u8> {
    let mut data = Vec::new();
    data.extend_from_slice(&u32::try_from(8 + payload.len()).unwrap().to_be_bytes());
    data.extend_from_slice(box_type);
    data.extend_from_slice(payload);
    data
}

fn full(box_type: &[u8; 4], words: &[u32]) -> Vec<u8> {
    let mut payload = vec![0u8; 4];
    for word in words {
        payload.extend_from_slice(&word.to_be_bytes());
    }
    make_box(box_type, &payload)
}

fn init_segment() -> Vec<u8> {
    let tkhd = full(b"tkhd", &[0, 0, 1]);
    let mdia = make_box(b"mdia", &full(b"mdhd", &[0, 0, 1000, 0]));
    make_box(b"moov", &make_box(b"trak", &[tkhd, mdia].concat()))
}

fn media_segment(number: u32) -> Vec<u8> {
    let traf = make_box(b"traf", &[]);
    make_box(b"moof", &[full(b"mfhd", &[number]), traf].concat())
}

fn report(label: &str) -> ManifestReport {
    ManifestReport {
        statuses: Vec::new(),
        label: Some(label.to_string()),
    }
}

fn sign_init(signer: &mut LiveVideoSigner, label: &str) -> Result<Vec<u8>, Error> {
    signer.sign_init_segment(
        &init_segment(),
        |_: &str, data: &[u8]| Ok(data.to_vec()),
        |_: &[u8]| Ok(report(label)),
    )
}

fn sign_media(
    signer: &mut LiveVideoSigner,
    number: u32,
    label: &str,
) -> Result<LiveVideoSegment, Error> {
    let claimed = RefCell::new(None);
    signer.sign_media_segment(
        &media_segment(number),
        |definition: &str, claim: &LiveVideoSegment, data: &[u8]| {
            assert!(!definition.contains("c2pa.livevideo.segment"));
            *claimed.borrow_mut() = Some(LiveVideoSegment {
                sequence_number: claim.sequence_number,
                stream_id: claim.stream_id.clone(),
                continuity_method: claim.continuity_method,
                previous_manifest_id: claim.previous_manifest_id.clone(),
            });
            Ok(data.to_vec())
        },
        |_: &[u8]| Ok(report(label)),
    )?;
    Ok(claimed.into_inner().unwrap())
}

#[test]
fn segments_are_linked_by_manifest_identifiers() {
    let mut signer = LiveVideoSigner::from_manifest_json(test_manifest_json()).unwrap();
    assert_eq!(signer.next_sequence_number(), 5);
    assert_eq!(signer.previous_manifest_id(), None);
    sign_init(&mut signer, "urn:c2pa:init").unwrap();
    assert_eq!(signer.previous_manifest_id(), Some("urn:c2pa:init"));

    let first = sign_media(&mut signer, 5, "urn:c2pa:five").unwrap();
    assert_eq!(
        first,
        LiveVideoSegment {
            sequence_number: 5,
            stream_id: "stream-1".to_string(),
            continuity_method: ContinuityMethod::ManifestId,
            previous_manifest_id: Some("urn:c2pa:init".to_string()),
        }
    );
    let second = sign_media(&mut signer, 6, "urn:c2pa:six").unwrap();
    assert_eq!(second.sequence_number, 6);
    assert_eq!(
        second.previous_manifest_id,
        Some("urn:c2pa:five".to_string())
    );
    assert_eq!(signer.next_sequence_number(), 7);
    assert_eq!(signer.previous_manifest_id(), Some("urn:c2pa:six"));
}

#[test]
fn state_survives_in_the_manifest_definition() {
    let mut signer = LiveVideoSigner::from_manifest_json(test_manifest_json()).unwrap();
    sign_init(&mut signer, "urn:c2pa:init").unwrap();
    sign_media(&mut signer, 5, "urn:c2pa:five").unwrap();
    let updated = signer.updated_manifest_json(test_manifest_json()).unwrap();
    assert!(updated.contains("\"nextSequenceNumber\": 6"));

    let resumed = LiveVideoSigner::from_manifest_json(&updated).unwrap();
    assert_eq!(resumed.next_sequence_number(), 6);
    assert_eq!(resumed.previous_manifest_id(), Some("urn:c2pa:five"));
}

#[test]
fn resumed_signer_keeps_stream_link_and_number() {
    let mut signer = LiveVideoSigner::from_manifest_json(test_manifest_json()).unwrap();
    let unlinked = signer.updated_manifest_json(test_manifest_json()).unwrap();
    let mut resumed = LiveVideoSigner::from_manifest_json(&unlinked).unwrap();
    assert_eq!(resumed.previous_manifest_id(), None);
    assert_eq!(resumed.next_sequence_number(), 5);

    sign_init(&mut signer, "urn:c2pa:init").unwrap();
    sign_media(&mut signer, 5, "urn:c2pa:five").unwrap();
    resumed = LiveVideoSigner::from_manifest_json(
        &signer.updated_manifest_json(test_manifest_json()).unwrap(),
    )
    .unwrap();
    let claim = sign_media(&mut resumed, 6, "urn:c2pa:six").unwrap();
    assert_eq!(claim.stream_id, "stream-1");
    assert_eq!(claim.sequence_number, 6);
    assert_eq!(claim.previous_manifest_id, Some("urn:c2pa:five".to_string()));
}

#[test]
fn fractional_numbers_do_not_disturb_the_state() {
    let text = r#"{"gain": [1.5, -0.1, 1e300], "assertions": [
        {"label": "other", "data": {"ratio": 2.25}},
        {"label": "c2pa.livevideo.segment", "data": {"streamId": "s", "weight": 0.5}}
    ]}"#;
    let mut signer = LiveVideoSigner::from_manifest_json(text).unwrap();
    sign_init(&mut signer, "urn:c2pa:init").unwrap();
    sign_media(&mut signer, 3, "urn:c2pa:three").unwrap();
    let updated = signer.updated_manifest_json(text).unwrap();
    assert!(updated.contains("\"ratio\": 2.25"));
    let mut resumed = LiveVideoSigner::from_manifest_json(&updated).unwrap();
    assert_eq!(resumed.next_sequence_number(), 4);
    let claim = sign_media(&mut resumed, 4, "urn:c2pa:four").unwrap();
    assert_eq!(claim.stream_id, "s");
    assert_eq!(claim.previous_manifest_id, Some("urn:c2pa:three".to_string()));
}

#[test]
fn largest_and_smallest_numbers_do_not_stop_a_restart() {
    let mut numbers = Vec::new();
    for i in 0..200u64 {
        numbers.push(f64::from_bits(f64::MAX.to_bits() - i));
        numbers.push(-f64::from_bits(f64::MAX.to_bits() - i));
        numbers.push(f64::from_bits(i));
    }
    let listed: Vec<String> = numbers.iter().map(|n| format!("{n:e}")).collect();
    let text = format!(
        r#"{{"gain": [{}], "assertions": [
            {{"label": "c2pa.livevideo.segment", "data": {{"streamId": "s"}}}}
        ]}}"#,
        listed.join(", ")
    );
    let mut signer = LiveVideoSigner::from_manifest_json(&text).unwrap();
    sign_init(&mut signer, "urn:c2pa:init").unwrap();
    sign_media(&mut signer, 3, "urn:c2pa:three").unwrap();
    let updated = signer.updated_manifest_json(&text).unwrap();
    let resumed = LiveVideoSigner::from_manifest_json(&updated).unwrap();
    assert_eq!(resumed.next_sequence_number(), 4);
    assert_eq!(resumed.previous_manifest_id(), Some("urn:c2pa:three"));
}

/// Signs by appending a manifest box with the given label.
fn labelled(data: &[u8], label: &str) -> Vec<u8> {
    [data, &make_box(b"uuid", label.as_bytes())].concat()
}

/// Reads the label of the manifest box at the end of a segment.
fn read_label(signed: &[u8]) -> ManifestReport {
    let start = signed.windows(4).rposition(|code| code == b"uuid").unwrap();
    report(std::str::from_utf8(&signed[start + 4..]).unwrap())
}

#[test]
fn sign_media_segment_manifest_id_is_c2pa_urn_label() {
    let mut live_signer = LiveVideoSigner::from_manifest_json(test_manifest_json()).unwrap();
    live_signer
        .sign_init_segment(
            &init_segment(),
            |_: &str, data: &[u8]| Ok(labelled(data, "urn:c2pa:00000000-init")),
            |signed: &[u8]| Ok(read_label(signed)),
        )
        .unwrap();
    let signed = live_signer
        .sign_media_segment(
            &media_segment(5),
            |_: &str, _: &LiveVideoSegment, data: &[u8]| {
                Ok(labelled(data, "urn:c2pa:11111111-five"))
            },
            |signed: &[u8]| Ok(read_label(signed)),
        )
        .unwrap();

    let manifest_id = live_signer.previous_manifest_id().unwrap().to_string();
    assert!(
        manifest_id.starts_with("urn:c2pa:"),
        "manifestId must be the manifest's c2pa URN label (§8.1), got: {manifest_id}"
    );
    assert_eq!(read_label(&signed).label.unwrap(), manifest_id);
    assert_eq!(manifest_id, "urn:c2pa:11111111-five");
}

#[test]
fn restored_signer_has_the_link_of_the_signed_init() {
    let mut signer = LiveVideoSigner::from_manifest_json(test_manifest_json()).unwrap();
    let signed = sign_init(&mut signer, "urn:c2pa:init").unwrap();
    let mut other = LiveVideoSigner::from_manifest_json(test_manifest_json()).unwrap();
    assert!(other
        .restore_init_segment(&make_box(b"mdat", &[]), |_: &[u8]| unreachable!())
        .is_err());
    assert_eq!(other.previous_manifest_id(), None);
    other
        .restore_init_segment(&signed, |_: &[u8]| Ok(report("urn:c2pa:init")))
        .unwrap();
    assert_eq!(other.previous_manifest_id(), signer.previous_manifest_id());
    assert_eq!(other.next_sequence_number(), 5);
}

#[test]
fn state_is_written_where_the_data_can_take_it() {
    let signer = LiveVideoSigner::from_manifest_json(test_manifest_json()).unwrap();
    let without_data = r#"{"assertions":[{"label":"c2pa.livevideo.segment"}]}"#;
    let written = signer
        .checked_updated_manifest_json(without_data)
        .unwrap()
        .unwrap();
    let value: serde_json::Value = serde_json::from_str(&written).unwrap();
    assert_eq!(value["assertions"][0]["data"]["nextSequenceNumber"], 5);
    let list = r#"{"assertions":[{"label":"c2pa.livevideo.segment","data":[]}]}"#;
    assert!(signer.checked_updated_manifest_json(list).is_none());
    assert!(signer.checked_updated_manifest_json("{").unwrap().is_err());
    assert_eq!(
        signer
            .updated_manifest_json(r#"{"assertions":[]}"#)
            .unwrap_err()
            .message(),
        "manifest must include a 'c2pa.livevideo.segment' assertion"
    );
}

#[test]
fn numbering_starts_with_the_first_segment_where_none_is_configured() {
    let definition =
        r#"{"assertions":[{"label":"c2pa.livevideo.segment","data":{"streamId":"s"}}]}"#;
    let mut signer = LiveVideoSigner::from_manifest_json(definition).unwrap();
    assert_eq!(signer.next_sequence_number(), 1);
    sign_init(&mut signer, "urn:c2pa:init").unwrap();
    assert_eq!(
        sign_media(&mut signer, 77, "urn:c2pa:a")
            .unwrap()
            .sequence_number,
        77
    );
    assert_eq!(
        sign_media(&mut signer, 80, "urn:c2pa:b")
            .unwrap_err()
            .message(),
        "live video sequenceNumber (78) does not match moof/mfhd.sequence_number (80)"
    );
    assert_eq!(signer.next_sequence_number(), 78);
}

#[test]
fn definition_refusals() {
    let message = |text: &str| {
        LiveVideoSigner::from_manifest_json(text)
            .err()
            .unwrap()
            .message()
    };
    assert_eq!(message("{}"), "manifest must have an 'assertions' array");
    assert_eq!(
        message(r#"{"assertions":[{"label":"other"}]}"#),
        "manifest must include a 'c2pa.livevideo.segment' assertion with 'streamId'"
    );
    assert_eq!(
        message(r#"{"assertions":[{"label":"c2pa.livevideo.segment","data":{"streamId":1}}]}"#),
        "'c2pa.livevideo.segment' assertion must have a 'streamId' string field"
    );
}

#[test]
fn segment_refusals_leave_the_state() {
    let mut signer = LiveVideoSigner::from_manifest_json(test_manifest_json()).unwrap();
    assert_eq!(
        sign_media(&mut signer, 5, "urn:c2pa:a").unwrap_err().message(),
        "a signed initialization segment must establish continuity before media signing"
    );
    assert_eq!(
        sign_init(&mut signer, "urn:uuid:1").unwrap_err().message(),
        "signed live manifest must have a non-empty urn:c2pa: label"
    );
    assert_eq!(
        signer
            .restore_init_segment(&init_segment(), |_: &[u8]| Ok(ManifestReport {
                statuses: Vec::new(),
                label: None
            }))
            .unwrap_err(),
        Error::NotFound
    );
    assert_eq!(
        signer
            .restore_init_segment(&init_segment(), |_: &[u8]| Ok(ManifestReport {
                statuses: vec![
                    ReportedStatus {
                        code: "signingCredential.untrusted".to_string(),
                        passed: true,
                    },
                    ReportedStatus {
                        code: "ingredient.unknown".to_string(),
                        passed: false,
                    },
                    ReportedStatus {
                        code: "claimSignature.mismatch".to_string(),
                        passed: false,
                    },
                ],
                label: Some("urn:c2pa:x".to_string())
            }))
            .unwrap_err()
            .message(),
        "signed live manifest failed integrity validation: claimSignature.mismatch"
    );
    signer
        .restore_init_segment(&init_segment(), |_: &[u8]| Ok(report("urn:c2pa:x")))
        .unwrap();
    assert_eq!(signer.previous_manifest_id(), Some("urn:c2pa:x"));
    assert_eq!(
        signer
            .sign_media_segment(
                &make_box(b"mdat", &[]),
                |_: &str, _: &LiveVideoSegment, _: &[u8]| unreachable!(),
                |_: &[u8]| unreachable!(),
            )
            .unwrap_err()
            .message(),
        "media segment must contain exactly one moof/traf and a valid mfhd"
    );
}

#[test]
fn integrity_codes() {
    for code in [
        "signingCredential.invalid",
        "claimSignature.mismatch",
        "timeStamp.mismatch",
        "claim.hardBindings.missing",
        "assertion.hashedURI.mismatch",
        "assertion.dataHash.mismatch",
        "assertion.bmffHash.mismatch",
        "assertion.boxesHash.mismatch",
        "assertion.multipleHardBindings",
    ] {
        assert!(is_manifest_integrity_failure(code), "{code}");
    }
    assert!(!is_manifest_integrity_failure("assertion.missing"));
    assert!(!is_manifest_integrity_failure("timeStamp"));
}
