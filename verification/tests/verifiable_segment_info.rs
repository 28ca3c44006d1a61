//! The event message that carries Verifiable Segment Info.

use live_video::verifiable_segment_info::{
    build_emsg_box, contains_c2pa_vsi_scheme, extract_vsi_emsg_from_segment,
    extract_vsi_payload_from_segment, VsiEmsg, VSI_SCHEME_ID_URI, VSI_VALUE_FSEG,
};

fn make_emsg_v0(scheme_id_uri: &str, value: &str, message_data: &[u8]) -> Vec<u8> {
    let mut body = Vec::new();
    body.extend_from_slice(scheme_id_uri.as_bytes());
    body.push(0); // null terminator
    body.extend_from_slice(value.as_bytes());
    body.push(0); // null terminator
    body.extend_from_slice(&[0u8; 16]); // timescale + presentation_time_delta + event_duration + id
    body.extend_from_slice(message_data);

    let total_size = 8u32 + 4 + body.len() as u32; // header + version/flags + body
    let mut emsg = Vec::new();
    emsg.extend_from_slice(&total_size.to_be_bytes());
    emsg.extend_from_slice(b"emsg");
    emsg.push(0); // version 0
    emsg.extend_from_slice(&[0u8; 3]); // flags
    emsg.extend_from_slice(&body);
    emsg
}

fn make_emsg_v1(scheme_id_uri: &str, value: &str, message_data: &[u8]) -> Vec<u8> {
    let mut body = Vec::new();
    body.extend_from_slice(&[0u8; 20]); // timescale + presentation_time + event_duration + id
    body.extend_from_slice(scheme_id_uri.as_bytes());
    body.push(0); // null terminator
    body.extend_from_slice(value.as_bytes());
    body.push(0); // null terminator
    body.extend_from_slice(message_data);

    let total_size = 8u32 + 4 + body.len() as u32;
    let mut emsg = Vec::new();
    emsg.extend_from_slice(&total_size.to_be_bytes());
    emsg.extend_from_slice(b"emsg");
    emsg.push(1); // version 1
    emsg.extend_from_slice(&[0u8; 3]); // flags
    emsg.extend_from_slice(&body);
    emsg
}

#[test]
fn extracts_vsi_payload_from_v0_emsg() {
    let payload = b"cose_sign1_placeholder";
    let segment = make_emsg_v0(VSI_SCHEME_ID_URI, VSI_VALUE_FSEG, payload);
    let extracted = extract_vsi_payload_from_segment(&segment).unwrap();
    assert_eq!(extracted, payload);
}

#[test]
fn rejects_vsi_from_v1_emsg() {
    let payload = b"cose_sign1_v1_placeholder";
    let segment = make_emsg_v1(VSI_SCHEME_ID_URI, VSI_VALUE_FSEG, payload);
    assert!(
        extract_vsi_payload_from_segment(&segment).is_none(),
        "emsg version 1 must be rejected per spec (SHALL be version 0)"
    );
}

#[test]
fn ignores_emsg_with_wrong_scheme_id() {
    let payload = b"should_be_ignored";
    let segment = make_emsg_v0("urn:other:scheme", VSI_VALUE_FSEG, payload);
    assert!(extract_vsi_payload_from_segment(&segment).is_none());
}

#[test]
fn ignores_emsg_with_wrong_value() {
    let payload = b"should_be_ignored";
    let segment = make_emsg_v0(VSI_SCHEME_ID_URI, "iseg", payload);
    assert!(extract_vsi_payload_from_segment(&segment).is_none());
}

#[test]
fn returns_none_for_segment_without_emsg() {
    let mut mdat = Vec::new();
    let size: u32 = 8;
    mdat.extend_from_slice(&size.to_be_bytes());
    mdat.extend_from_slice(b"mdat");
    assert!(extract_vsi_payload_from_segment(&mdat).is_none());
}

#[test]
fn finds_vsi_emsg_among_multiple_boxes() {
    let payload = b"the_vsi_payload";
    let mut segment = Vec::new();

    // Non-VSI emsg box first
    segment.extend(make_emsg_v0("urn:other:scheme", "other", b"ignored"));
    // VSI emsg box second
    segment.extend(make_emsg_v0(VSI_SCHEME_ID_URI, VSI_VALUE_FSEG, payload));

    let extracted = extract_vsi_payload_from_segment(&segment).unwrap();
    assert_eq!(extracted, payload);
}

#[test]
fn rejects_duplicate_vsi_emsg_boxes() {
    let first = make_emsg_v0(VSI_SCHEME_ID_URI, VSI_VALUE_FSEG, b"one");
    let second = make_emsg_v0(VSI_SCHEME_ID_URI, VSI_VALUE_FSEG, b"two");
    assert!(extract_vsi_payload_from_segment(&[first, second].concat()).is_none());
}

#[test]
fn rejects_valid_plus_malformed_vsi_candidates() {
    let valid = make_emsg_v0(VSI_SCHEME_ID_URI, VSI_VALUE_FSEG, b"one");
    let mut malformed = make_emsg_v0(VSI_SCHEME_ID_URI, VSI_VALUE_FSEG, b"two");
    malformed[9] = 1; // non-zero FullBox flags
    let segment = [valid, malformed].concat();

    assert!(extract_vsi_payload_from_segment(&segment).is_none());
    assert!(extract_vsi_emsg_from_segment(&segment).is_err());
}

#[test]
fn malformed_large_size_boxes_do_not_loop_or_panic() {
    let mut undersized = 1u32.to_be_bytes().to_vec();
    undersized.extend_from_slice(b"emsg");
    undersized.extend_from_slice(&8u64.to_be_bytes());
    assert!(extract_vsi_payload_from_segment(&undersized).is_none());

    let mut truncated = 1u32.to_be_bytes().to_vec();
    truncated.extend_from_slice(b"emsg");
    assert!(extract_vsi_payload_from_segment(&truncated).is_none());
}

#[test]
fn built_event_message_is_read_back() {
    let emsg = build_emsg_box(b"message", 48_000, 2_000, 17).unwrap();
    assert_eq!(emsg.len(), 12 + 38 + 16 + 7);
    assert_eq!(&emsg[..12], &[0, 0, 0, 73, b'e', b'm', b's', b'g', 0, 0, 0, 0]);
    let mdat = [0, 0, 0, 8, b'm', b'd', b'a', b't'];
    let segment = [emsg.as_slice(), &mdat].concat();
    assert_eq!(
        extract_vsi_emsg_from_segment(&segment).unwrap(),
        Some(VsiEmsg {
            message_data: b"message".to_vec(),
            timescale: 48_000,
            presentation_time_delta: 0,
            event_duration: 2_000,
            id: 17,
        })
    );
}

#[test]
fn event_refusals_say_what_is_wrong() {
    let first = make_emsg_v0(VSI_SCHEME_ID_URI, VSI_VALUE_FSEG, b"one");
    let twice = [first.clone(), first].concat();
    assert_eq!(
        extract_vsi_emsg_from_segment(&twice).unwrap_err().message(),
        "segment contains multiple C2PA VSI emsg candidates"
    );
    let other_value = make_emsg_v0(VSI_SCHEME_ID_URI, "iseg", b"one");
    assert_eq!(
        extract_vsi_emsg_from_segment(&other_value)
            .unwrap_err()
            .message(),
        "segment contains a malformed C2PA VSI emsg candidate"
    );
}

#[test]
fn scheme_is_found_wherever_the_run_of_boxes_can_be_read() {
    let emsg = make_emsg_v0(VSI_SCHEME_ID_URI, "iseg", b"");
    assert!(contains_c2pa_vsi_scheme(&emsg));
    let broken = [&[0u8, 0, 0, 4, b'f', b'r', b'e', b'e'], emsg.as_slice()].concat();
    assert!(!contains_c2pa_vsi_scheme(&broken));
    let behind = [&[0u8, 0, 0, 8, b'f', b'r', b'e', b'e'], emsg.as_slice()].concat();
    assert!(contains_c2pa_vsi_scheme(&behind));
}
