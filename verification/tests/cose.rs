//! `COSE_Sign1` messages and the segment info map in them.

use live_video::cose::{
    decode_sign1, protected_iat, signing_alg_from_sign1, CoseLabel, Sign1, SigningAlg,
};
use live_video::segment_info::{parse_segment_info_map, parse_vsi, SegmentInfoMap};

fn message(alg: Option<CoseLabel>, entries: Vec<(CoseLabel, Option<i128>)>) -> Sign1 {
    Sign1 {
        protected: Vec::new(),
        alg,
        entries,
        unprotected_alg: false,
        key_id: Vec::new(),
        payload: None,
        signature: Vec::new(),
    }
}

fn iat(value: Option<i128>) -> (CoseLabel, Option<i128>) {
    (CoseLabel::Text("iat".to_string()), value)
}

#[test]
fn claimed_time_must_be_given_once_as_an_integer() {
    let other = (CoseLabel::Int(2), Some(1));
    let read = |entries| protected_iat(&message(None, entries));
    assert_eq!(read(vec![other, iat(Some(12))]), Ok(12));
    assert_eq!(
        read(Vec::new()).unwrap_err().message(),
        "VSI COSE_Sign1 protected header must contain iat"
    );
    assert_eq!(
        read(vec![iat(Some(1)), iat(Some(2))]).unwrap_err().message(),
        "VSI COSE_Sign1 protected header contains duplicate iat values"
    );
    assert_eq!(
        read(vec![iat(None)]).unwrap_err().message(),
        "VSI COSE_Sign1 protected iat must be an integer NumericDate"
    );
    assert_eq!(
        read(vec![iat(Some(1 << 63))]).unwrap_err().message(),
        "VSI COSE_Sign1 protected iat is out of range"
    );
    assert_eq!(read(vec![iat(Some(-(1 << 63)))]), Ok(i64::MIN));
}

#[test]
fn algorithms_are_told_by_their_numbers() {
    let read = |alg| signing_alg_from_sign1(&message(alg, Vec::new()));
    assert_eq!(read(Some(CoseLabel::Int(-8))), Some(SigningAlg::Ed25519));
    assert_eq!(read(Some(CoseLabel::Int(-7))), Some(SigningAlg::Es256));
    assert_eq!(read(Some(CoseLabel::Int(-39))), Some(SigningAlg::Ps512));
    assert_eq!(read(Some(CoseLabel::Int(1))), None);
    assert_eq!(read(Some(CoseLabel::Text("EdDSA".to_string()))), None);
    assert_eq!(read(None), None);
}

/// A tagged message: header {1: -8, "iat": 1.5, 99: 3}, unprotected {1: -7, 4: h'0102'}.
fn odd_message(payload: &[u8]) -> Vec<u8> {
    let header = [
        0xa3, 0x01, 0x27, 0x63, b'i', b'a', b't', 0xf9, 0x3e, 0x00, 0x18, 0x63, 0x03,
    ];
    let mut bytes = vec![0xd2, 0x84, 0x40 + header.len() as u8];
    bytes.extend_from_slice(&header);
    bytes.extend_from_slice(&[0xa2, 0x01, 0x26, 0x04, 0x42, 1, 2]);
    bytes.extend_from_slice(payload);
    bytes.extend_from_slice(&[0x41, 9]);
    bytes
}

#[test]
fn messages_are_taken_apart() {
    let opened = decode_sign1(&odd_message(&[0x42, 5, 6])).unwrap();
    assert_eq!(opened.protected.len(), 13);
    assert_eq!(opened.alg, Some(CoseLabel::Int(-8)));
    assert_eq!(opened.entries, vec![iat(None), (CoseLabel::Int(99), Some(3))]);
    assert!(opened.unprotected_alg);
    assert_eq!(opened.key_id, vec![1, 2]);
    assert_eq!(opened.payload, Some(vec![5, 6]));
    assert_eq!(opened.signature, vec![9]);
    assert_eq!(decode_sign1(&odd_message(&[0xf6])).unwrap().payload, None);
    assert!(decode_sign1(&[0x84]).is_err());
}

fn decode(payload: &[u8]) -> Result<SegmentInfoMap, String> {
    if payload.is_empty() {
        return Err("empty".to_string());
    }
    Ok(SegmentInfoMap {
        sequence_number: u64::from(payload[0]),
        bmff_hash: c2pa_cbor::Value::Null,
        manifest_id: String::new(),
        manifest_uri: None,
    })
}

#[test]
fn map_comes_from_the_embedded_payload() {
    let parsed = parse_vsi(&odd_message(&[0x42, 5, 6]), &decode).unwrap();
    assert_eq!(parsed.segment_info_map.sequence_number, 5);
    assert_eq!(parsed.sign1.key_id, vec![1, 2]);
    let refused = |bytes: &[u8]| parse_segment_info_map(bytes, decode).err().unwrap().message();
    assert_eq!(
        refused(&odd_message(&[0xf6])),
        "COSE_Sign1 VSI payload is absent (detached)"
    );
    assert_eq!(
        refused(&odd_message(&[0x40])),
        "invalid SegmentInfoMap CBOR: empty"
    );
    assert!(refused(b"").starts_with("invalid COSE_Sign1 in VSI emsg: "));
}
