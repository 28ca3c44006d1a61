//! Signing with Verifiable Segment Info, with a host that keeps manifests in memory.

use std::cell::RefCell;
use std::collections::BTreeMap;

use c2pa_cbor::Value;
use coset::TaggedCborSerializable;
use ed25519_dalek::{Signature, VerifyingKey};

use live_video::clock::DateT;
use live_video::cose::{decode_sign1, protected_iat, signing_alg_from_sign1, SigningAlg};
use live_video::ed25519::Ed25519SessionKey;
use live_video::error::Error;
use live_video::manifest_report::ReportedStatus;
use live_video::segment_info::{
    check_bmff_hash, new_vsi_bmff_hash, parse_segment_info_map, vsi_emsg_exclusion, BmffHash,
    DataMap, ExclusionsMap, ParsedVsi, SegmentInfoMap, BMFF_HASH_VERSION,
};
use live_video::session_keys::{
    build_signer_binding, ensure_key_valid_at, verify_restored_signer_binding, CoseKey, SessionKey,
    SessionKeys,
};
use live_video::status_tracker::{log_item, LogItem, StatusTracker};
use live_video::validator::{BindingCheck, LiveVideoValidator, SegmentState, VsiChecks};
use live_video::verifiable_segment_info::{
    extract_vsi_emsg_from_segment, extract_vsi_payload_from_segment,
};
use live_video::vsi_signing::{InitManifest, InitManifestReport, LiveVideoVsiSigner};

const MANIFEST_ID: &str = "urn:c2pa:test-manifest";
const CERT: &[u8] = b"end-entity certificate";

fn make_box(fourcc: &[u8; 4], payload: &[u8]) -> Vec<u8> {
    let mut b = Vec::new();
    b.extend_from_slice(&((8 + payload.len()) as u32).to_be_bytes());
    b.extend_from_slice(fourcc);
    b.extend_from_slice(payload);
    b
}

fn make_fullbox(fourcc: &[u8; 4], version: u8, flags: u32, payload: &[u8]) -> Vec<u8> {
    let mut body = Vec::new();
    body.push(version);
    body.extend_from_slice(&flags.to_be_bytes()[1..]);
    body.extend_from_slice(payload);
    make_box(fourcc, &body)
}

fn make_test_init_segment(timescale: u32) -> Vec<u8> {
    let mut tkhd_payload = Vec::new();
    tkhd_payload.extend_from_slice(&[0u8; 8]); // dates
    tkhd_payload.extend_from_slice(&1u32.to_be_bytes()); // track_ID
    let tkhd = make_fullbox(b"tkhd", 0, 0, &tkhd_payload);
    let mut mdhd_payload = Vec::new();
    mdhd_payload.extend_from_slice(&[0u8; 8]); // dates
    mdhd_payload.extend_from_slice(&timescale.to_be_bytes());
    mdhd_payload.extend_from_slice(&[0u8; 8]); // duration, language, pre_defined
    let mdhd = make_fullbox(b"mdhd", 0, 0, &mdhd_payload);
    let trak = make_box(b"trak", &[tkhd, make_box(b"mdia", &mdhd)].concat());
    make_box(b"moov", &trak)
}

fn make_test_media_segment_with_moof(sequence_number: u32, sample_durations: &[u32]) -> Vec<u8> {
    let mfhd = make_fullbox(b"mfhd", 0, 0, &sequence_number.to_be_bytes());
    let tfhd = make_fullbox(b"tfhd", 0, 0, &1u32.to_be_bytes());
    let mut trun_payload = Vec::new();
    trun_payload.extend_from_slice(&(sample_durations.len() as u32).to_be_bytes());
    for d in sample_durations {
        trun_payload.extend_from_slice(&d.to_be_bytes());
    }
    let trun = make_fullbox(b"trun", 0, 0x000100, &trun_payload);
    let traf = make_box(b"traf", &[tfhd, trun].concat());
    let moof = make_box(b"moof", &[mfhd, traf].concat());
    let mdat = make_box(b"mdat", &[0u8; 4]);
    [moof, mdat].concat()
}

fn make_test_segment(sequence_number: u32) -> Vec<u8> {
    make_test_media_segment_with_moof(sequence_number, &[1000])
}

fn make_test_media_segment_with_mfhd(sequence_number: u32) -> Vec<u8> {
    make_test_media_segment_with_moof(sequence_number, &[1000])
}

fn text(value: &str) -> Value {
    Value::Text(value.to_string())
}

/// Encodes a segment info map.
fn encode_info(info: &SegmentInfoMap) -> Result<Vec<u8>, String> {
    let mut map = BTreeMap::new();
    map.insert(
        text("sequenceNumber"),
        Value::Integer(info.sequence_number as i64),
    );
    map.insert(text("bmffHash"), info.bmff_hash.clone());
    map.insert(text("manifestId"), text(&info.manifest_id));
    c2pa_cbor::to_vec(&Value::Map(map)).map_err(|e| e.to_string())
}

/// Decodes a segment info map.
fn decode_info(payload: &[u8]) -> Result<SegmentInfoMap, String> {
    let value: Value = c2pa_cbor::from_slice(payload).map_err(|e| e.to_string())?;
    let map = value.as_map().ok_or("not a map")?;
    let number = map[&text("sequenceNumber")].as_i64().ok_or("no number")?;
    Ok(SegmentInfoMap {
        sequence_number: number as u64,
        bmff_hash: map[&text("bmffHash")].clone(),
        manifest_id: map[&text("manifestId")].as_str().ok_or("no id")?.to_string(),
        manifest_uri: None,
    })
}

/// Encodes a hash.
fn encode_hash(hash: &BmffHash) -> Result<Value, String> {
    let exclusions = hash
        .exclusions
        .iter()
        .map(|exclusion| {
            let mut data = Vec::new();
            for entry in exclusion.data.iter().flatten() {
                data.push(Value::Integer(entry.offset as i64));
                data.push(Value::Bytes(entry.value.clone()));
            }
            Value::Array(vec![text(&exclusion.xpath), Value::Array(data)])
        })
        .collect();
    Ok(Value::Array(vec![
        Value::Bytes(hash.hash.clone().unwrap_or_default()),
        Value::Array(exclusions),
    ]))
}

/// Decodes a hash.
fn decode_hash(value: &Value) -> Result<BmffHash, String> {
    let parts = value.as_array().ok_or("not a hash")?;
    let mut hash = new_vsi_bmff_hash(Some(parts[0].as_bytes().ok_or("no digest")?.to_vec()));
    hash.exclusions = Vec::new();
    for exclusion in parts[1].as_array().ok_or("no exclusions")? {
        let fields = exclusion.as_array().ok_or("no exclusion")?;
        let data = fields[1].as_array().ok_or("no data")?;
        hash.exclusions.push(ExclusionsMap {
            xpath: fields[0].as_str().ok_or("no path")?.to_string(),
            data: Some(vec![DataMap {
                offset: data[0].as_i64().ok_or("no offset")? as u64,
                value: data[1].as_bytes().ok_or("no value")?.to_vec(),
            }]),
        });
    }
    Ok(hash)
}

/// A checksum over everything but the leading event message, which counts by its length.
fn digest_of(segment: &[u8]) -> Vec<u8> {
    let skipped = u32::from_be_bytes([segment[0], segment[1], segment[2], segment[3]]) as usize;
    assert_eq!(&segment[4..8], b"emsg");
    let mut digest = vec![0u8; 32];
    for (i, byte) in segment[skipped..].iter().enumerate() {
        let at = (skipped + i) % 32;
        digest[at] = digest[at].wrapping_mul(31).wrapping_add(*byte);
    }
    digest
}

fn digest(hash: &BmffHash, segment: &[u8]) -> Result<Vec<u8>, String> {
    assert_eq!(*hash, new_vsi_bmff_hash(None));
    Ok(digest_of(segment))
}

fn verify_hash(segment: &[u8], value: &Value, version: u64) -> Result<(), String> {
    assert_eq!(version, BMFF_HASH_VERSION);
    let hash = decode_hash(value)?;
    if hash.hash == Some(digest_of(segment)) {
        Ok(())
    } else {
        Err("digests differ".to_string())
    }
}

fn certs() -> Result<Vec<Vec<u8>>, String> {
    Ok(vec![CERT.to_vec(), b"issuer".to_vec()])
}

fn key() -> Ed25519SessionKey {
    Ed25519SessionKey { seed: [7u8; 32] }
}

fn uninitialized_signer(kid: &[u8], min_seq: u64) -> LiveVideoVsiSigner {
    LiveVideoVsiSigner::from_signing_key(
        r#"{"assertions": []}"#,
        &certs(),
        key(),
        kid.to_vec(),
        min_seq,
        3600,
    )
    .unwrap()
}

fn chain() -> String {
    let blocks: Vec<pem::Pem> = certs()
        .unwrap()
        .into_iter()
        .map(|der| pem::Pem::new("CERTIFICATE", der))
        .collect();
    pem::encode_many(&blocks)
}

fn report_for(keys: &SessionKeys) -> InitManifestReport {
    InitManifestReport {
        statuses: vec![ReportedStatus {
            code: "claimSignature.validated".to_string(),
            passed: true,
        }],
        manifest: Some(InitManifest {
            label: Some(MANIFEST_ID.to_string()),
            session_keys: Some(SessionKeys {
                keys: keys.keys.iter().map(|key| key.copy()).collect(),
            }),
            cert_chain: Some(chain()),
        }),
    }
}

/// A host that reads the given report, once.
fn reads(report: InitManifestReport) -> impl Fn(&[u8]) -> Result<InitManifestReport, Error> {
    let report = RefCell::new(Some(report));
    move |_: &[u8]| Ok(report.take().unwrap())
}

/// Signs an initialization segment and returns the keys that were published.
fn sign_init(signer: &mut LiveVideoVsiSigner) -> (Vec<u8>, SessionKeys) {
    let published = RefCell::new(None);
    let signed = signer
        .sign_init_segment(
            &make_test_init_segment(48_000),
            &certs(),
            |definition: &str, keys: &SessionKeys, data: &[u8]| {
                assert!(definition.contains("\"specVersion\":\"2.4\""));
                *published.borrow_mut() = Some(SessionKeys {
                    keys: keys.keys.iter().map(|key| key.copy()).collect(),
                });
                Ok([data, &make_box(b"uuid", b"manifest store")].concat())
            },
            |signed: &[u8]| {
                assert!(signed.ends_with(b"manifest store"));
                Ok(report_for(published.borrow().as_ref().unwrap()))
            },
        )
        .unwrap();
    (signed, published.into_inner().unwrap())
}

fn make_vsi_signer(kid: &[u8], min_seq: u64) -> LiveVideoVsiSigner {
    let mut signer = uninitialized_signer(kid, min_seq);
    sign_init(&mut signer);
    signer
}

/// A new signer that has restored the initialization segment of an earlier one.
fn restored_signer(kid: &[u8], init: &(Vec<u8>, SessionKeys)) -> LiveVideoVsiSigner {
    let mut signer = uninitialized_signer(kid, 1);
    signer
        .restore_manifest_id_from_signed_init(&init.0, reads(report_for(&init.1)))
        .unwrap();
    signer
}

fn sign_media(signer: &mut LiveVideoVsiSigner, segment: &[u8]) -> Result<Vec<u8>, Error> {
    signer.sign_media_segment(segment, &encode_info, &digest, &encode_hash)
}

fn resume(signer: &mut LiveVideoVsiSigner, segment: &[u8]) -> Result<(), Error> {
    signer.resume_from_segment(segment, decode_info, decode_hash, verify_hash)
}

fn info_of(signed: &[u8]) -> SegmentInfoMap {
    let bytes = extract_vsi_payload_from_segment(signed).unwrap();
    parse_segment_info_map(&bytes, decode_info).unwrap()
}

fn failed(description: &str) -> Vec<LogItem> {
    vec![log_item(description, "livevideo.segment.invalid")]
}

/// What this host finds out about a segment: whether it names the expected manifest, and whether
/// its number, its signature and its hash are in order.
fn check_vsi(
    parsed: &ParsedVsi,
    segment: &[u8],
    session_key: &SessionKey,
    previous: Option<&SegmentState>,
    expected_id: Option<&str>,
) -> VsiChecks {
    let info = &parsed.segment_info_map;
    let manifest = match expected_id {
        Some(id) if id != info.manifest_id => failed("unexpected manifest"),
        _ => Vec::new(),
    };
    let mut signature = Vec::new();
    if info.sequence_number < session_key.min_sequence_number {
        signature.extend(failed("number below that of the key"));
    }
    let bytes = extract_vsi_payload_from_segment(segment).unwrap();
    let message = coset::CoseSign1::from_tagged_slice(&bytes).unwrap();
    let public = session_key.key.public_key.as_ref().unwrap().as_slice();
    let verifying = VerifyingKey::from_bytes(public.try_into().unwrap()).unwrap();
    let verified = message.verify_signature(b"", |found, data| {
        verifying.verify_strict(data, &Signature::from_slice(found)?)
    });
    if verified.is_err() {
        signature.extend(failed("signature does not verify"));
    }
    if previous.is_some_and(|state| state.sequence_number + 1 != info.sequence_number) {
        signature.extend(failed("number does not follow"));
    }
    if verify_hash(segment, &info.bmff_hash, BMFF_HASH_VERSION).is_err() {
        signature.extend(failed("hash does not match"));
    }
    VsiChecks {
        manifest,
        signature,
    }
}

fn check_binding(published: &SessionKey, cert: &[u8]) -> BindingCheck {
    BindingCheck {
        failures: Vec::new(),
        verified: verify_restored_signer_binding(&published.signer_binding, &key(), cert).is_ok(),
    }
}

fn read_emsg_timing_fields(signed_segment: &[u8]) -> (u32, u32, u32) {
    assert_eq!(&signed_segment[4..8], b"emsg");
    let emsg_size = u32::from_be_bytes(signed_segment[..4].try_into().unwrap()) as usize;
    let body = &signed_segment[8..emsg_size];
    let fields = &body[4..]; // skip FullBox version+flags
    let mut pos = fields.iter().position(|&b| b == 0).unwrap() + 1; // scheme_id_uri\0
    pos += fields[pos..].iter().position(|&b| b == 0).unwrap() + 1; // value\0
    let timescale = u32::from_be_bytes(fields[pos..pos + 4].try_into().unwrap());
    let event_duration = u32::from_be_bytes(fields[pos + 8..pos + 12].try_into().unwrap());
    let id = u32::from_be_bytes(fields[pos + 12..pos + 16].try_into().unwrap());
    (timescale, event_duration, id)
}

#[test]
fn signed_segments_have_real_emsg_timing_fields() {
    let mut vsi_signer = make_vsi_signer(b"k", 1);
    let seg1 = sign_media(
        &mut vsi_signer,
        &make_test_media_segment_with_moof(1, &[1000, 1000]),
    )
    .unwrap();
    let seg2 = sign_media(
        &mut vsi_signer,
        &make_test_media_segment_with_moof(2, &[1000, 1000]),
    )
    .unwrap();

    let (timescale1, duration1, id1) = read_emsg_timing_fields(&seg1);
    let (timescale2, duration2, id2) = read_emsg_timing_fields(&seg2);

    assert_eq!(
        timescale1, 48_000,
        "emsg timescale must reflect the track's mdhd timescale"
    );
    assert_eq!(timescale2, 48_000);
    assert_eq!(
        duration1, 2000,
        "emsg event_duration must cover the whole segment"
    );
    assert_eq!(duration2, 2000);
    assert_ne!(
        id1, 0,
        "emsg id must not be the spec-prohibited placeholder 0"
    );
    assert_ne!(id2, 0);
    assert_ne!(id1, id2, "emsg id must be session-unique across segments");
}

#[test]
fn sign_media_segment_rejects_mfhd_sequence_number_mismatch() {
    let mut vsi_signer = make_vsi_signer(b"k", 1); // starts at sequenceNumber 1

    let err = sign_media(&mut vsi_signer, &make_test_media_segment_with_mfhd(5)).unwrap_err();
    assert!(
        err.message().contains("sequenceNumber"),
        "unexpected error: {err:?}"
    );
    assert_eq!(
        err.message(),
        "VSI sequenceNumber (1) does not match the segment's own moof/mfhd.sequence_number (5); \
         the signer's sequence counter has drifted"
    );
}

#[test]
fn sign_media_segment_accepts_matching_mfhd_sequence_number() {
    let mut vsi_signer = make_vsi_signer(b"k", 1); // starts at sequenceNumber 1

    sign_media(&mut vsi_signer, &make_test_media_segment_with_mfhd(1)).unwrap();
}

#[test]
fn sign_media_segment_prepends_emsg_box() {
    let mut vsi_signer = make_vsi_signer(b"key-1", 1);

    let segment = make_test_segment(1);
    let signed = sign_media(&mut vsi_signer, &segment).unwrap();

    assert!(signed.len() > segment.len());
    assert!(signed.ends_with(&segment));

    let vsi_payload = extract_vsi_payload_from_segment(&signed);
    assert!(
        vsi_payload.is_some(),
        "VSI emsg payload not found in signed segment"
    );
}

#[test]
fn sequence_numbers_advance_per_segment() {
    let mut vsi_signer = make_vsi_signer(b"k", 1);

    assert_eq!(vsi_signer.next_sequence_number(), 1);

    sign_media(&mut vsi_signer, &make_test_segment(1)).unwrap();
    assert_eq!(vsi_signer.next_sequence_number(), 2);

    sign_media(&mut vsi_signer, &make_test_segment(2)).unwrap();
    assert_eq!(vsi_signer.next_sequence_number(), 3);
}

#[test]
fn signed_segment_passes_vsi_validation() {
    let mut vsi_signer = uninitialized_signer(b"key-1", 1);
    let (_, session_keys) = sign_init(&mut vsi_signer);
    let mut validator = LiveVideoValidator::new();
    let mut tracker = StatusTracker::default();
    validator
        .validate_init_segment(&make_test_init_segment(48_000), &mut tracker)
        .unwrap();

    validator
        .validate_session_keys(
            &session_keys,
            "urn:c2pa:test-manifest",
            Some(CERT),
            &check_binding,
            &mut tracker,
        )
        .unwrap();

    let segment = sign_media(&mut vsi_signer, &make_test_segment(1)).unwrap();

    validator
        .validate_verifiable_segment_info(
            &segment,
            &decode_info,
            &check_vsi,
            &mut tracker,
        )
        .unwrap();

    assert!(
        tracker.failures.is_empty(),
        "unexpected validation failures: {:?}",
        tracker.failures
    );
    assert_eq!(validator.previous_segment().unwrap().sequence_number, 1);
}

#[test]
fn altered_segment_fails_vsi_validation() {
    let mut vsi_signer = uninitialized_signer(b"key-1", 1);
    let (_, session_keys) = sign_init(&mut vsi_signer);
    let mut validator = LiveVideoValidator::new();
    let mut tracker = StatusTracker::default();
    validator
        .validate_init_segment(&make_test_init_segment(48_000), &mut tracker)
        .unwrap();
    validator
        .validate_session_keys(
            &session_keys,
            "urn:c2pa:other-manifest",
            Some(CERT),
            &check_binding,
            &mut tracker,
        )
        .unwrap();
    let mut segment = sign_media(&mut vsi_signer, &make_test_segment(1)).unwrap();
    segment.extend_from_slice(&make_box(b"free", b"added"));
    validator
        .validate_verifiable_segment_info(&segment, &decode_info, &check_vsi, &mut tracker)
        .unwrap();
    let found: Vec<&str> = tracker
        .failures
        .iter()
        .map(|failure| failure.description.as_str())
        .collect();
    assert_eq!(found, vec!["unexpected manifest", "hash does not match"]);
    assert!(validator.previous_segment().is_none());
}

#[test]
fn vsi_payload_contains_correct_sequence_number() {
    let mut vsi_signer = make_vsi_signer(b"k", 5);

    let signed = sign_media(&mut vsi_signer, &make_test_segment(5)).unwrap();
    let vsi_bytes = extract_vsi_payload_from_segment(&signed).unwrap();
    let info_map = parse_segment_info_map(&vsi_bytes, decode_info).unwrap();

    assert_eq!(info_map.sequence_number, 5);
}

#[test]
fn signer_binding_roundtrip_validates() {
    let mut vsi_signer = uninitialized_signer(b"key-1", 1);
    let (_, session_keys) = sign_init(&mut vsi_signer);

    let mut validator = LiveVideoValidator::new();
    let mut tracker = StatusTracker::default();
    assert!(check_binding(&session_keys.keys[0], CERT).verified);

    validator
        .validate_session_keys(
            &session_keys,
            "urn:c2pa:test-manifest",
            Some(CERT),
            &check_binding,
            &mut tracker,
        )
        .unwrap();

    assert!(
        tracker.failures.is_empty(),
        "signerBinding validation failures: {:?}",
        tracker.failures
    );
    assert_eq!(validator.session_keys().len(), 1);
    assert_eq!(validator.expected_manifest_id(), Some(MANIFEST_ID));
}

#[test]
fn second_segment_has_next_sequence_number() {
    let mut vsi_signer = make_vsi_signer(b"k", 1);

    let seg1 = sign_media(&mut vsi_signer, &make_test_segment(1)).unwrap();
    let seg2 = sign_media(&mut vsi_signer, &make_test_segment(2)).unwrap();

    assert_eq!(info_of(&seg1).sequence_number, 1);
    assert_eq!(info_of(&seg2).sequence_number, 2);
}

#[test]
fn resume_from_segment_advances_sequence_number() {
    let mut vsi_signer = uninitialized_signer(b"k", 1);
    let init = sign_init(&mut vsi_signer);

    let seg1 = sign_media(&mut vsi_signer, &make_test_segment(1)).unwrap();
    assert_eq!(vsi_signer.next_sequence_number(), 2);

    let mut resumed_signer = restored_signer(b"k", &init);
    resume(&mut resumed_signer, &seg1).unwrap();
    assert_eq!(resumed_signer.next_sequence_number(), 2);
}

#[test]
fn sign_media_segment_bmff_hash_is_not_null() {
    let mut vsi_signer = make_vsi_signer(b"k", 1);

    let signed = sign_media(&mut vsi_signer, &make_test_segment(1)).unwrap();

    assert!(
        !info_of(&signed).bmff_hash.is_null(),
        "bmffHash must not be null per §19.4 — regression guard"
    );
}

#[test]
fn sign_media_segment_rejects_media_without_signed_init() {
    let mut vsi_signer = uninitialized_signer(b"k", 1);

    let error = sign_media(&mut vsi_signer, &make_test_segment(1)).unwrap_err();
    assert!(error.message().contains("initialization segment"));
}

#[test]
fn sign_media_segment_manifest_id_populated_after_signing_init() {
    let mut vsi_signer = uninitialized_signer(b"k", 1);
    assert_eq!(vsi_signer.active_manifest_id(), None);
    sign_init(&mut vsi_signer);
    assert_eq!(vsi_signer.active_manifest_id(), Some(MANIFEST_ID));

    let signed = sign_media(&mut vsi_signer, &make_test_segment(1)).unwrap();

    assert!(
        !info_of(&signed).manifest_id.is_empty(),
        "manifestId must be populated from the signed init segment per §19.4"
    );
}

#[test]
fn resume_from_segment_enables_continued_signing() {
    let mut signer1 = uninitialized_signer(b"k", 1);
    let init = sign_init(&mut signer1);
    let session_keys = &init.1;
    let seg1 = sign_media(&mut signer1, &make_test_segment(1)).unwrap();

    let mut signer2 = restored_signer(b"k", &init);
    resume(&mut signer2, &seg1).unwrap();
    let seg2 = sign_media(&mut signer2, &make_test_segment(2)).unwrap();

    assert_eq!(info_of(&seg1).sequence_number, 1);
    assert_eq!(info_of(&seg2).sequence_number, 2);

    let mut validator = LiveVideoValidator::new();
    let mut tracker = StatusTracker::default();
    validator
        .validate_init_segment(&make_test_init_segment(48_000), &mut tracker)
        .unwrap();
    validator
        .validate_session_keys(
            session_keys,
            "urn:c2pa:test-manifest",
            Some(CERT),
            &check_binding,
            &mut tracker,
        )
        .unwrap();

    for segment in [&seg1, &seg2] {
        validator
            .validate_verifiable_segment_info(
                segment,
                &decode_info,
                &check_vsi,
                &mut tracker,
            )
            .unwrap();
    }

    assert!(
        tracker.failures.is_empty(),
        "validation failures: {:?}",
        tracker.failures
    );
}

#[test]
fn resume_from_segment_requires_restored_signed_init_state() {
    let mut signer1 = make_vsi_signer(b"k", 1);
    let seg1 = sign_media(&mut signer1, &make_test_segment(1)).unwrap();

    let mut signer2 = uninitialized_signer(b"k", 1);
    let error = resume(&mut signer2, &seg1).unwrap_err();
    assert!(error
        .message()
        .contains("restore_manifest_id_from_signed_init"));
}

#[test]
fn restore_manifest_id_from_signed_init_matches_original_manifest_id() {
    let mut signer_call1 = uninitialized_signer(b"k", 1);
    let (signed_init, published) = sign_init(&mut signer_call1);
    let seg1 = sign_media(&mut signer_call1, &make_test_segment(1)).unwrap();
    let map1 = info_of(&seg1);

    let mut signer_call2 = uninitialized_signer(b"k", 1);
    signer_call2
        .restore_manifest_id_from_signed_init(&signed_init, reads(report_for(&published)))
        .unwrap();
    resume(&mut signer_call2, &seg1).unwrap();
    let seg2 = sign_media(&mut signer_call2, &make_test_segment(2)).unwrap();
    let map2 = info_of(&seg2);

    assert_eq!(
        map1.manifest_id, map2.manifest_id,
        "manifestId must be identical across per-segment invocations (§19.4)"
    );
    assert!(
        map2.manifest_id.starts_with("urn:c2pa:"),
        "manifestId must be the manifest's c2pa URN label (§8.1), got: {}",
        map2.manifest_id
    );
    assert_eq!(map1.sequence_number, 1);
    assert_eq!(map2.sequence_number, 2);
}

#[test]
fn event_identifiers_go_on_behind_a_resumed_segment() {
    let mut first = uninitialized_signer(b"k", 1);
    let init = sign_init(&mut first);
    sign_media(&mut first, &make_test_segment(1)).unwrap();
    let seg2 = sign_media(&mut first, &make_test_segment(2)).unwrap();
    let mut second = restored_signer(b"k", &init);
    resume(&mut second, &seg2).unwrap();
    let seg3 = sign_media(&mut second, &make_test_segment(3)).unwrap();
    assert_eq!(read_emsg_timing_fields(&seg2).2, 2);
    assert_eq!(read_emsg_timing_fields(&seg3).2, 3);
}

#[test]
fn recovery_takes_over_everything_or_nothing() {
    let mut first = uninitialized_signer(b"k", 1);
    let (signed_init, published) = sign_init(&mut first);
    let seg1 = sign_media(&mut first, &make_test_segment(1)).unwrap();

    let mut recovered = uninitialized_signer(b"k", 1);
    recovered
        .recover_from_artifacts(
            &signed_init,
            reads(report_for(&published)),
            Some(&seg1),
            decode_info,
            decode_hash,
            verify_hash,
        )
        .unwrap();
    assert_eq!(recovered.next_sequence_number(), 2);
    assert_eq!(recovered.active_manifest_id(), Some(MANIFEST_ID));

    let mut untouched = uninitialized_signer(b"k", 1);
    let error = untouched
        .recover_from_artifacts(
            &signed_init,
            reads(report_for(&published)),
            Some(&make_test_segment(1)),
            decode_info,
            decode_hash,
            verify_hash,
        )
        .unwrap_err();
    assert_eq!(
        error.message(),
        "previous segment does not contain a VSI emsg box"
    );
    assert_eq!(untouched.active_manifest_id(), None);

    let mut init_only = uninitialized_signer(b"k", 1);
    init_only
        .recover_from_artifacts(
            &signed_init,
            reads(report_for(&published)),
            None,
            decode_info,
            decode_hash,
            verify_hash,
        )
        .unwrap();
    assert_eq!(init_only.next_sequence_number(), 1);
    assert_eq!(init_only.active_manifest_id(), Some(MANIFEST_ID));
}

#[test]
fn init_segment_is_parsed_before_its_manifest_is_read() {
    let mut signer = uninitialized_signer(b"k", 1);
    let unread = |_: &[u8]| -> Result<InitManifestReport, Error> { unreachable!() };
    let error = signer
        .restore_manifest_id_from_signed_init(&make_test_segment(1), unread)
        .unwrap_err();
    assert_eq!(
        signer
            .recover_from_artifacts(
                &make_test_segment(1),
                unread,
                None,
                decode_info,
                decode_hash,
                verify_hash
            )
            .unwrap_err(),
        error
    );
    let (signed_init, _) = sign_init(&mut uninitialized_signer(b"k", 1));
    assert_eq!(
        signer.restore_manifest_id_from_signed_init(&signed_init, |_: &[u8]| Err(Error::NotFound)),
        Err(Error::NotFound)
    );
    assert_eq!(signer.active_manifest_id(), None);
}

#[test]
fn refused_segments_leave_the_counters() {
    let mut signer = make_vsi_signer(b"k", 1);
    let signed = sign_media(&mut signer, &make_test_segment(1)).unwrap();
    assert_eq!(
        sign_media(&mut signer, &signed).unwrap_err().message(),
        "media segment already contains a C2PA VSI emsg box"
    );
    assert_eq!(
        signer
            .sign_media_segment(
                &make_test_segment(2),
                &encode_info,
                &|_: &BmffHash, _: &[u8]| Err("no digest".to_string()),
                &encode_hash
            )
            .unwrap_err()
            .message(),
        "failed to compute segment bmffHash: no digest"
    );
    assert_eq!(
        signer
            .sign_media_segment(
                &make_test_segment(2),
                &|_: &SegmentInfoMap| Err("no bytes".to_string()),
                &digest,
                &encode_hash
            )
            .unwrap_err()
            .message(),
        "failed to encode SegmentInfoMap: no bytes"
    );
    assert_eq!(
        signer
            .sign_media_segment(
                &make_test_segment(2),
                &encode_info,
                &|_: &BmffHash, _: &[u8]| Ok(vec![1, 2, 3]),
                &encode_hash
            )
            .unwrap_err()
            .message(),
        "draft and final VSI emsg boxes differ in size; the c2pa.hash.bmff.v3 offset-prefix scheme \
         would be computed against the wrong box offsets"
    );
    assert_eq!(signer.next_sequence_number(), 2);
    let next = sign_media(&mut signer, &make_test_segment(2)).unwrap();
    assert_eq!(read_emsg_timing_fields(&next).2, 2);
}

#[test]
fn signing_time_is_protected_and_must_fall_into_the_validity_period() {
    let created = "2026-01-01T00:00:00Z";
    let mut signer = LiveVideoVsiSigner::from_parts(
        r#"{"assertions": []}"#,
        &certs(),
        key(),
        b"k".to_vec(),
        1,
        60,
        created.to_string(),
    )
    .unwrap();
    sign_init(&mut signer);
    let start = 1_767_225_600i64;
    for time in [start - 1, start + 61] {
        let error = signer
            .sign_media_segment_at(
                &make_test_segment(1),
                time,
                &encode_info,
                &digest,
                &encode_hash,
            )
            .unwrap_err();
        assert_eq!(
            error.message(),
            "session key is outside its published validity period"
        );
    }
    let signed = signer
        .sign_media_segment_at(
            &make_test_segment(1),
            start + 60,
            &encode_info,
            &digest,
            &encode_hash,
        )
        .unwrap();
    let message = decode_sign1(&extract_vsi_payload_from_segment(&signed).unwrap()).unwrap();
    assert_eq!(protected_iat(&message), Ok(start + 60));
    assert_eq!(signing_alg_from_sign1(&message), Some(SigningAlg::Ed25519));
    assert_eq!(message.key_id, b"k");
    assert!(!message.unprotected_alg);
    assert_eq!(message.signature.len(), 64);
    assert_eq!(
        ensure_key_valid_at(&DateT("yesterday".to_string()), 60, start)
            .unwrap_err()
            .message(),
        "session key createdAt is not a valid RFC 3339 datetime"
    );
}

#[test]
fn media_message_has_the_expected_bytes() {
    let mut signer = LiveVideoVsiSigner::from_parts(
        r#"{"assertions": []}"#,
        &certs(),
        key(),
        b"k".to_vec(),
        1,
        60,
        "1970-01-01T00:00:00Z".to_string(),
    )
    .unwrap();
    sign_init(&mut signer);
    let signed = signer
        .sign_media_segment_at(&make_test_segment(1), 5, &encode_info, &digest, &encode_hash)
        .unwrap();
    let message = extract_vsi_payload_from_segment(&signed).unwrap();
    // tag 18, array of 4, header {1: -8, "iat": 5}, {4: 'k'}
    assert_eq!(
        &message[..17],
        &[
            0xd2, 0x84, 0x48, 0xa2, 0x01, 0x27, 0x63, b'i', b'a', b't', 0x05, 0xa1, 0x04, 0x41,
            b'k', 0x58, message[16]
        ]
    );
    let opened = decode_sign1(&message).unwrap();
    // array of 4, "Signature1", header, no additional data, payload
    let payload = opened.payload.clone().unwrap();
    let mut input = vec![0x84, 0x6a];
    input.extend_from_slice(b"Signature1");
    input.push(0x48);
    input.extend_from_slice(&opened.protected);
    input.push(0x40);
    input.extend_from_slice(&[0x58, payload.len() as u8]);
    input.extend_from_slice(&payload);
    let public = ed25519_dalek::SigningKey::from_bytes(&[7u8; 32]).verifying_key();
    let signature = ed25519_dalek::Signature::from_slice(&opened.signature).unwrap();
    assert!(public.verify_strict(&input, &signature).is_ok());
}

#[test]
fn altered_segments_are_not_resumed() {
    let mut signer = uninitialized_signer(b"k", 1);
    let init = sign_init(&mut signer);
    let signed = sign_media(&mut signer, &make_test_segment(1)).unwrap();

    let mut media = signed.clone();
    let last = media.len() - 1;
    media[last] ^= 1;
    assert_eq!(
        resume(&mut restored_signer(b"k", &init), &media)
            .unwrap_err()
            .message(),
        "resumed VSI bmffHash verification failed: digests differ"
    );

    let emsg_size = u32::from_be_bytes(signed[..4].try_into().unwrap()) as usize;
    let mut signature = signed.clone();
    signature[emsg_size - 1] ^= 1;
    assert!(resume(&mut restored_signer(b"k", &init), &signature)
        .unwrap_err()
        .message()
        .starts_with("resumed VSI signature is invalid: "));

    assert_eq!(
        resume(&mut make_vsi_signer(b"other", 1), &signed)
            .unwrap_err()
            .message(),
        "resumed VSI kid does not match the configured session key"
    );

    // The identifier of the event stands before the message.
    let mut event = signed.clone();
    event[12 + 38 + 15] = 0;
    assert_eq!(
        resume(&mut restored_signer(b"k", &init), &event)
            .unwrap_err()
            .message(),
        "resumed VSI emsg timing or id does not match the restored init and media segment"
    );

    let mut published = report_for(&init.1);
    let keys = published.manifest.as_mut().unwrap().session_keys.as_mut();
    keys.unwrap().keys[0].min_sequence_number = 2;
    let mut late = uninitialized_signer(b"k", 1);
    late.restore_manifest_id_from_signed_init(&init.0, reads(published))
        .unwrap();
    assert_eq!(
        resume(&mut late, &signed).unwrap_err().message(),
        "resumed VSI sequenceNumber is below the session key minSequenceNumber"
    );
    assert_eq!(late.next_sequence_number(), 2);
}

#[test]
fn last_event_identifier_ends_the_session() {
    let mut signer = make_vsi_signer(b"k", 1);
    assert_eq!(
        signer.resume_behind(9, u32::MAX).unwrap_err().message(),
        "resumed VSI emsg id overflow"
    );
    assert_eq!(signer.next_sequence_number(), 10);
    signer.resume_behind(9, u32::MAX - 1).unwrap();
    assert_eq!(
        sign_media(&mut signer, &make_test_segment(10))
            .unwrap_err()
            .message(),
        "VSI emsg id cannot advance past u32::MAX"
    );
    assert_eq!(
        signer.resume_behind(u64::MAX, 1).unwrap_err().message(),
        "resumed VSI sequenceNumber overflow"
    );
}

#[test]
fn constructor_refusals() {
    let make = |kid: &[u8], min: u64, validity: u64, certs: Result<Vec<Vec<u8>>, String>| {
        LiveVideoVsiSigner::from_signing_key("{}", &certs, key(), kid.to_vec(), min, validity)
            .err()
            .map(|error| error.message())
    };
    assert_eq!(
        make(b"", 1, 60, certs()).unwrap(),
        "VSI session key kid must not be empty"
    );
    assert_eq!(
        make(b"k", 1, 0, certs()).unwrap(),
        "VSI session key validity period must be greater than zero"
    );
    assert_eq!(
        make(b"k", 1 << 32, 60, certs()).unwrap(),
        "VSI min sequence number must fit the BMFF mfhd sequence_number field"
    );
    assert_eq!(
        make(b"k", 1, 60, Ok(Vec::new())).unwrap(),
        "manifest signer has no certificates"
    );
    assert_eq!(
        make(b"k", 1, 60, Err("offline".to_string())).unwrap(),
        "offline"
    );
    assert!(make(b"k", 1, 60, certs()).is_none());
}

#[test]
fn init_manifest_refusals() {
    let mut signer = uninitialized_signer(b"k", 1);
    let (signed_init, published) = sign_init(&mut signer);
    let mut refused = |change: &dyn Fn(&mut InitManifestReport)| {
        let mut report = report_for(&published);
        change(&mut report);
        signer
            .restore_manifest_id_from_signed_init(&signed_init, reads(report))
            .unwrap_err()
            .message()
    };
    assert_eq!(
        refused(&|report| report.statuses.push(ReportedStatus {
            code: "assertion.bmffHash.mismatch".to_string(),
            passed: false,
        })),
        "signed initialization manifest failed integrity validation: assertion.bmffHash.mismatch"
    );
    assert_eq!(
        refused(&|report| report.manifest = None),
        "signed initialization segment has no active manifest"
    );
    assert_eq!(
        refused(&|report| report.manifest.as_mut().unwrap().label = None),
        "signed initialization manifest has no label"
    );
    assert_eq!(
        refused(&|report| report.manifest.as_mut().unwrap().label = Some("urn:c2pa:".to_string())),
        "signed initialization manifest label must be a non-empty urn:c2pa: identifier"
    );
    assert_eq!(
        refused(&|report| report.manifest.as_mut().unwrap().session_keys = None),
        "signed initialization manifest has no c2pa.session-keys assertion"
    );
    assert_eq!(
        refused(&|report| {
            let keys = report.manifest.as_mut().unwrap().session_keys.as_mut();
            keys.unwrap().keys.clear();
        }),
        "Milestone 1 signed initialization manifest must contain exactly one session key"
    );
    assert_eq!(
        refused(&|report| {
            let keys = report.manifest.as_mut().unwrap().session_keys.as_mut();
            keys.unwrap().keys[0].key.public_key = Some(vec![0; 32]);
        }),
        "signed initialization session kid, algorithm, or public key does not match the configured \
         Ed25519 session key"
    );
    assert_eq!(
        refused(&|report| report.manifest.as_mut().unwrap().cert_chain = None),
        "signed initialization manifest has no signature info"
    );
    assert_eq!(
        refused(&|report| report.manifest.as_mut().unwrap().cert_chain = Some(String::new())),
        "signed initialization manifest has no end-entity certificate"
    );
    assert_eq!(
        refused(&|report| {
            let other = pem::encode(&pem::Pem::new("CERTIFICATE", b"other".to_vec()));
            report.manifest.as_mut().unwrap().cert_chain = Some(other);
        }),
        "restored initialization manifest signer does not match the configured claim signer"
    );
    assert!(refused(&|report| {
        let keys = report.manifest.as_mut().unwrap().session_keys.as_mut();
        keys.unwrap().keys[0].signer_binding = Value::Null;
    })
    .starts_with("invalid signerBinding COSE_Sign1: "));
    assert_eq!(
        refused(&|report| {
            let keys = report.manifest.as_mut().unwrap().session_keys.as_mut();
            keys.unwrap().keys[0].validity_period = 0;
        }),
        "signed initialization session key has zero validityPeriod"
    );
    assert_eq!(
        refused(&|report| {
            let keys = report.manifest.as_mut().unwrap().session_keys.as_mut();
            keys.unwrap().keys[0].validity_period = u64::MAX;
        }),
        "session key validityPeriod overflow"
    );
    assert_eq!(
        refused(&|report| {
            let keys = report.manifest.as_mut().unwrap().session_keys.as_mut();
            keys.unwrap().keys[0].created_at = DateT("never".to_string());
        }),
        "session key createdAt is invalid"
    );
}

#[test]
fn init_segment_is_signed_by_the_bound_signer_only() {
    let mut signer = uninitialized_signer(b"k", 1);
    let error = signer
        .sign_init_segment(
            &make_test_init_segment(48_000),
            &Ok(vec![b"other".to_vec()]),
            |_: &str, _: &SessionKeys, _: &[u8]| unreachable!(),
            |_: &[u8]| unreachable!(),
        )
        .unwrap_err();
    assert_eq!(
        error.message(),
        "initialization manifest signer does not match the certificate bound by the session key"
    );
}

#[test]
fn published_key_raises_the_counter() {
    let mut signer = uninitialized_signer(b"k", 1);
    let (signed_init, published) = sign_init(&mut signer);
    let mut report = report_for(&published);
    let keys = report.manifest.as_mut().unwrap().session_keys.as_mut();
    keys.unwrap().keys[0].min_sequence_number = 40;
    signer
        .restore_manifest_id_from_signed_init(&signed_init, reads(report))
        .unwrap();
    assert_eq!(signer.next_sequence_number(), 40);
}

#[test]
fn binding_belongs_to_key_and_certificate() {
    let binding = build_signer_binding(CERT, &key()).unwrap();
    assert_eq!(c2pa_cbor::to_vec(&binding).unwrap()[0], 0xd2);
    assert!(verify_restored_signer_binding(&binding, &key(), CERT).is_ok());
    assert!(verify_restored_signer_binding(&binding, &key(), b"other")
        .unwrap_err()
        .message()
        .starts_with("signerBinding verification failed: "));
    let other = Ed25519SessionKey { seed: [8u8; 32] };
    assert!(verify_restored_signer_binding(&binding, &other, CERT).is_err());
}

#[test]
fn binding_must_be_detached() {
    let mut signer = make_vsi_signer(b"k", 1);
    let signed = sign_media(&mut signer, &make_test_segment(1)).unwrap();
    let bytes = extract_vsi_payload_from_segment(&signed).unwrap();
    let message: Value = c2pa_cbor::from_slice(&bytes).unwrap();
    assert_eq!(
        verify_restored_signer_binding(&message, &key(), CERT)
            .unwrap_err()
            .message(),
        "signerBinding must be detached and use protected EdDSA"
    );
}

#[test]
fn hash_must_leave_the_event_message_out() {
    assert!(check_bmff_hash(&new_vsi_bmff_hash(None)).is_ok());
    let mut tree = new_vsi_bmff_hash(None);
    tree.merkle = true;
    assert_eq!(
        check_bmff_hash(&tree).unwrap_err().message(),
        "resumed VSI bmffHash must not contain a merkle field"
    );
    let mut covered = new_vsi_bmff_hash(None);
    covered.exclusions = vec![ExclusionsMap {
        xpath: "/emsg".to_string(),
        data: None,
    }];
    assert_eq!(
        check_bmff_hash(&covered).unwrap_err().message(),
        "resumed VSI bmffHash lacks the required C2PA emsg exclusion"
    );
    let exclusion = vsi_emsg_exclusion();
    assert_eq!(exclusion.xpath, "/emsg");
    assert_eq!(exclusion.data.as_ref().unwrap()[0].offset, 12);
    assert_eq!(
        exclusion.data.as_ref().unwrap()[0].value,
        b"urn:c2pa:verifiable-segment-info"
    );
}

#[test]
fn cose_key_of_the_session_is_published() {
    let mut signer = uninitialized_signer(b"k", 3);
    let (_, published) = sign_init(&mut signer);
    let expected = ed25519_dalek::SigningKey::from_bytes(&[7u8; 32])
        .verifying_key()
        .to_bytes()
        .to_vec();
    let found: &SessionKey = &published.keys[0];
    assert_eq!(
        found.key,
        CoseKey {
            kid: Some(b"k".to_vec()),
            alg: Some(SigningAlg::Ed25519),
            public_key: Some(expected),
        }
    );
    assert_eq!(found.min_sequence_number, 3);
    assert_eq!(found.validity_period, 3600);
}

#[test]
fn outline_says_what_the_event_message_will_say() {
    let signer = make_vsi_signer(b"k", 4);
    let plan = signer
        .outline_media_segment(&make_test_segment(4), 77)
        .unwrap();
    assert_eq!(
        (plan.sequence_number, plan.timescale, plan.event_duration),
        (4, 48_000, 1000)
    );
    assert_eq!((plan.id, plan.iat), (1, 77));
    assert_eq!(plan.manifest_id, MANIFEST_ID);
    let tfhd = make_fullbox(b"tfhd", 0, 0, &2u32.to_be_bytes());
    let trun = make_fullbox(b"trun", 0, 0x000100, &[0, 0, 0, 1, 0, 0, 0, 5]);
    let mfhd = make_fullbox(b"mfhd", 0, 0, &4u32.to_be_bytes());
    let traf = make_box(b"traf", &[tfhd, trun].concat());
    let other_track = make_box(b"moof", &[mfhd, traf].concat());
    assert_eq!(
        signer
            .outline_media_segment(&other_track, 77)
            .err()
            .unwrap()
            .message(),
        "media segment tfhd track_ID (2) does not match initialization track_ID (1)"
    );
}
