//! What a session with Verifiable Segment Info signs, resumes and takes up, by what is handed to it
//! and what comes back.

use vstd::prelude::*;

use crate::bmff::{init_info, media_info, InitSegmentInfo, MediaSegmentInfo};
use crate::cbor::cbor_encoding;
use crate::certificates::{byte_views, pem_contents};
use crate::clock::utc_seconds;
use crate::cose::{
    claimed_time, decoded_sign1, eddsa_header, eddsa_message, encoded, is_iat, signature_input,
    LabelView, Sign1View, SigningAlg,
};
use crate::definition_laws::no_failure_means_sound;
use crate::ed25519::{ed25519_check, ed25519_public_key, ed25519_signature};
use crate::error::{Error, Failure};
use crate::filter_laws::{only_at, only_item_is_picked, picked_item_is_the_only_one};
use crate::live_manifest::live_manifest_text;
use crate::manifest_report::is_integrity_code;
use crate::segment_info::{
    comparison_outcome, hash_outcome, vsi_outcome, BmffHash, BmffHashView, ParsedVsi,
    SegmentInfoMap,
};
use crate::session_keys::{key_views, SessionKey, SessionKeyView, SessionKeys};
use crate::validation_laws::identifier_shape;
use crate::verifiable_segment_info::{vsi_candidates, vsi_event, EmsgEvent, VsiEmsg};
use crate::vsi_laws::signed_segment_gives_its_event_back;
use crate::vsi_signing::{
    init_reading_outcome, parsed_resume_outcome, restoring_outcome, resume_outcome,
    InitManifestReport, LiveVideoVsiSigner, MediaPlan, MediaPlanView, Session,
};

verus! {

// Validity and time.

/// Whether a time lies in the validity period of a key, both ends included, where the period can be
/// told at all.
pub open spec fn within_validity(created_at: Seq<char>, validity_period: u64, time: i64) -> bool {
    &&& utc_seconds(created_at) is Some
    &&& validity_period <= i64::MAX
    &&& utc_seconds(created_at)->Some_0 + validity_period <= i64::MAX
    &&& utc_seconds(created_at)->Some_0 <= time <= utc_seconds(created_at)->Some_0 + validity_period
}

/// Whether the entries of a protected header claim a time of signing: exactly one of them is labelled
/// `iat`, and its value is that integer.
pub open spec fn claims_time(entries: Seq<(LabelView, Option<i128>)>, time: i64) -> bool {
    exists|k: int|
        0 <= k < entries.len() && #[trigger] entries[k] == (
            LabelView::Text("iat"@),
            Some(time as i128),
        ) && forall|j: int|
            0 <= j < entries.len() && j != k ==> (#[trigger] entries[j]).0 != LabelView::Text(
                "iat"@,
            )
}

/// A key is valid at a time exactly if the time lies in its validity period.
pub proof fn key_is_valid_exactly_in_its_period(
    created_at: &crate::clock::DateT,
    validity_period: u64,
    time: i64,
    r: Result<(), Error>,
)
    requires
        call_ensures(
            crate::session_keys::ensure_key_valid_at,
            (created_at, validity_period, time),
            r,
        ),
    ensures
        r is Ok <==> within_validity(created_at.0@, validity_period, time),
{
}

/// The claimed time of signing is that of the only entry that claims one.
pub proof fn claimed_time_is_the_only_claim(entries: Seq<(LabelView, Option<i128>)>, time: i64)
    ensures
        claimed_time(entries) == Ok::<i64, Failure>(time) <==> claims_time(entries, time),
{
    let test = is_iat();
    if claimed_time(entries) == Ok::<i64, Failure>(time) {
        let k = picked_item_is_the_only_one(entries, test);
        assert(entries[k].1 == Some(time as i128));
        assert forall|j: int| 0 <= j < entries.len() && j != k implies (#[trigger] entries[j]).0
            != LabelView::Text("iat"@) by {
            assert(!test(entries[j]));
        }
        assert(entries[k] == (LabelView::Text("iat"@), Some(time as i128)));
    }
    if claims_time(entries, time) {
        let k = choose|k: int|
            0 <= k < entries.len() && #[trigger] entries[k] == (
                LabelView::Text("iat"@),
                Some(time as i128),
            ) && forall|j: int|
                0 <= j < entries.len() && j != k ==> (#[trigger] entries[j]).0 != LabelView::Text(
                    "iat"@,
                );
        assert(only_at(entries, test, k));
        only_item_is_picked(entries, test, k);
    }
}

/// The time of signing that is read from a message is the one that it claims, and none is read where
/// it claims none or more than one, or no integer.
pub proof fn time_that_is_read_is_the_claimed_one(
    message: &crate::cose::Sign1,
    r: Result<i64, Error>,
    time: i64,
)
    requires
        call_ensures(crate::cose::protected_iat, (message,), r),
    ensures
        r == Ok::<i64, Error>(time) <==> claims_time(message@.entries, time),
{
    claimed_time_is_the_only_claim(message@.entries, time);
}

// Resuming.

/// Whether a message is signed by the key of a session: the protected header names EdDSA and the
/// unprotected one no algorithm, and the signature over header and payload passes the strict check.
pub open spec fn signed_by(session: Session, message: Sign1View) -> bool {
    &&& message.alg == Some(LabelView::Int(-8i64))
    &&& !message.unprotected_alg
    &&& message.payload is Some
    &&& message.signature.len() == 64
    &&& ed25519_check(
        session.seed,
        signature_input(message.protected, Seq::empty(), message.payload->Some_0),
        message.signature,
    ) is Ok
}

/// Whether a hash leaves the event message of Verifiable Segment Info out and has no Merkle tree.
pub open spec fn covers_the_segment(hash: BmffHashView) -> bool {
    &&& !hash.merkle
    &&& exists|i: int, k: int|
        0 <= i < hash.exclusions.len() && (#[trigger] hash.exclusions[i]).xpath == "/emsg"@
            && hash.exclusions[i].data is Some && 0 <= k
            < hash.exclusions[i].data->Some_0.len() && #[trigger] hash.exclusions[i].data->Some_0[k]
            == (
            12u64,
            crate::event_laws::scheme_bytes(),
        )
}

/// Whether the host decoded a hash that covers the segment, and found that it matches the segment.
pub open spec fn hash_matches<
    H: Fn(&c2pa_cbor::Value) -> Result<BmffHash, String>,
    V: Fn(&[u8], &c2pa_cbor::Value, u64) -> Result<(), String>,
>(segment: Seq<u8>, value: c2pa_cbor::Value, decode_hash: H, verify: V) -> bool {
    &&& exists|hash: BmffHash| #[trigger]
        call_ensures(decode_hash, (&value,), Ok::<BmffHash, String>(hash)) && covers_the_segment(
            hash@,
        )
    &&& exists|data: &[u8], compared: Result<(), String>| #[trigger]
        call_ensures(verify, (data, &value, 3u64), compared) && data@ == segment && compared is Ok
}

/// Whether a segment belongs to a session: it speaks of the manifest that the session restored, of
/// its own number, of the track and the timescale of the session and of its own duration; the
/// session key signed it, at a time at which the key was valid, and its number is one for which the
/// key is valid.
pub open spec fn belongs_to(
    session: Session,
    media: MediaSegmentInfo,
    event: EmsgEvent,
    parsed: ParsedVsi,
) -> bool {
    let info = parsed.segment_info_map;
    let message = parsed.sign1@;
    &&& session.active_manifest_id == Some(info.manifest_id@)
    &&& info.sequence_number == media.sequence_number
    &&& session.min_sequence_number <= info.sequence_number
    &&& message.key_id == session.kid
    &&& session.track_id == Some(media.track_id)
    &&& session.track_timescale == Some(event.timescale)
    &&& event.presentation_time_delta == 0
    &&& event.event_duration == media.duration_ticks
    &&& event.id != 0
    &&& signed_by(session, message)
    &&& exists|time: i64| #[trigger]
        claims_time(message.entries, time) && within_validity(
            session.created_at,
            session.validity_period,
            time,
        )
}

/// What the checks of a resumed segment accept is what belongs to the session.
pub proof fn checks_accept_what_belongs(
    session: Session,
    segment: Seq<u8>,
    event: EmsgEvent,
    parsed: ParsedVsi,
)
    requires
        parsed.sign1@.payload is Some,
    ensures
        crate::vsi_signing::checked_resume(
            session,
            segment,
            event,
            parsed.sign1@,
            parsed.segment_info_map@,
        ) is Ok <==> media_info(segment, session.default_sample_duration) is Ok && belongs_to(
            session,
            media_info(segment, session.default_sample_duration)->Ok_0,
            event,
            parsed,
        ),
{
    let message = parsed.sign1@;
    let checked = crate::vsi_signing::checked_resume(
        session,
        segment,
        event,
        message,
        parsed.segment_info_map@,
    );
    if checked is Ok {
        let time = claimed_time(message.entries)->Ok_0;
        claimed_time_is_the_only_claim(message.entries, time);
    }
    if exists|time: i64| #[trigger]
        claims_time(message.entries, time) && within_validity(
            session.created_at,
            session.validity_period,
            time,
        ) {
        let time = choose|time: i64| #[trigger]
            claims_time(message.entries, time) && within_validity(
                session.created_at,
                session.validity_period,
                time,
            );
        claimed_time_is_the_only_claim(message.entries, time);
    }
}

/// What the check of a hash accepts is what covers the segment.
pub proof fn hash_check_accepts_what_covers(hash: BmffHashView)
    ensures
        crate::segment_info::checked_hash(hash) is Ok <==> covers_the_segment(hash),
{
    crate::event_laws::texts_are_bytes();
    if crate::segment_info::checked_hash(hash) is Ok {
        let i = choose|i: int|
            0 <= i < hash.exclusions.len() && crate::segment_info::excludes_vsi(
                #[trigger] hash.exclusions[i],
            );
        let data = hash.exclusions[i].data->Some_0;
        let k = choose|k: int|
            0 <= k < data.len() && data[k] == crate::segment_info::vsi_data();
        assert(hash.exclusions[i].data->Some_0[k] == (
            12u64,
            crate::event_laws::scheme_bytes(),
        ));
    }
    if covers_the_segment(hash) {
        let (i, k) = choose|i: int, k: int|
            0 <= i < hash.exclusions.len() && (#[trigger] hash.exclusions[i]).xpath == "/emsg"@
                && hash.exclusions[i].data is Some && 0 <= k
                < hash.exclusions[i].data->Some_0.len()
                && #[trigger] hash.exclusions[i].data->Some_0[k] == (
                12u64,
                crate::event_laws::scheme_bytes(),
            );
        assert(hash.exclusions[i].data->Some_0.contains(crate::segment_info::vsi_data()));
        assert(crate::segment_info::excludes_vsi(hash.exclusions[i]));
    }
}

/// A hash is refused exactly if it has a Merkle tree or does not leave the event message out.
pub proof fn accepted_hash_covers_the_segment(hash: &BmffHash, r: Result<(), Error>)
    requires
        call_ensures(crate::segment_info::check_bmff_hash, (hash,), r),
    ensures
        r is Ok <==> covers_the_segment(hash@),
{
    hash_check_accepts_what_covers(hash@);
}

/// What the comparison of a hash accepts is what matches.
pub proof fn accepted_comparison_matches<
    H: Fn(&c2pa_cbor::Value) -> Result<BmffHash, String>,
    V: Fn(&[u8], &c2pa_cbor::Value, u64) -> Result<(), String>,
>(
    segment: Seq<u8>,
    value: c2pa_cbor::Value,
    decode_hash: H,
    verify: V,
    compared: Result<(), Error>,
)
    requires
        hash_outcome(segment, value, decode_hash, verify, compared),
        compared is Ok,
    ensures
        hash_matches(segment, value, decode_hash, verify),
{
    let decoded = choose|decoded: Result<BmffHash, String>| #[trigger]
        call_ensures(decode_hash, (&value,), decoded) && match decoded {
            Err(_) => false,
            Ok(hash) => crate::segment_info::checked_hash(hash@) is Ok && comparison_outcome(
                segment,
                value,
                verify,
                compared,
            ),
        };
    let hash = decoded->Ok_0;
    hash_check_accepts_what_covers(hash@);
    assert(decoded == Ok::<BmffHash, String>(hash));
    let (data, verified) = choose|data: &[u8], verified: Result<(), String>| #[trigger]
        call_ensures(verify, (data, &value, 3u64), verified) && data@ == segment && verified is Ok;
}

/// A session resumes only behind a segment of its own: one that carries a message whose map can be
/// read and which belongs to the session, its restored manifest, its key, its track and its timing,
/// and whose hash the host found to match. It then stands behind that segment, and nothing else of
/// it changed.
pub proof fn session_resumes_only_behind_its_own_segment<
    D: Fn(&[u8]) -> Result<SegmentInfoMap, String>,
    H: Fn(&c2pa_cbor::Value) -> Result<BmffHash, String>,
    V: Fn(&[u8], &c2pa_cbor::Value, u64) -> Result<(), String>,
>(
    signer: &mut LiveVideoVsiSigner,
    segment: &[u8],
    decode: D,
    decode_hash: H,
    verify: V,
    r: Result<(), Error>,
)
    requires
        call_ensures(
            LiveVideoVsiSigner::resume_from_segment::<D, H, V>,
            (signer, segment, decode, decode_hash, verify),
            r,
        ),
        r is Ok,
    ensures
        vsi_event(segment@) is Ok,
        vsi_event(segment@)->Ok_0 is Some,
        media_info(segment@, old(signer)@.default_sample_duration) is Ok,
        exists|parsed: ParsedVsi| #[trigger]
            belongs_to(
                old(signer)@,
                media_info(segment@, old(signer)@.default_sample_duration)->Ok_0,
                vsi_event(segment@)->Ok_0->Some_0,
                parsed,
            ) && {
                let session = old(signer)@;
                let event = vsi_event(segment@)->Ok_0->Some_0;
                let media = media_info(segment@, session.default_sample_duration)->Ok_0;
                &&& vsi_outcome(event.message_data, decode, Ok::<ParsedVsi, Error>(parsed))
                &&& hash_matches(
                    segment@,
                    parsed.segment_info_map.bmff_hash,
                    decode_hash,
                    verify,
                )
                &&& event.id < u32::MAX
                &&& final(signer)@ == (Session {
                    next_sequence_number: (media.sequence_number + 1) as u64,
                    next_event_id: (event.id + 1) as u32,
                    ..session
                })
            },
{
    reveal(resume_outcome);
    let session = old(signer)@;
    let event = vsi_event(segment@)->Ok_0->Some_0;
    let parsed = choose|parsed: Result<ParsedVsi, Error>| #[trigger]
        vsi_outcome(event.message_data, decode, parsed) && parsed is Ok && parsed_resume_outcome(
            session,
            segment@,
            event,
            parsed->Ok_0,
            decode_hash,
            verify,
            final(signer)@,
            r,
        );
    let p = parsed->Ok_0;
    assert(parsed == Ok::<ParsedVsi, Error>(p));
    checks_accept_what_belongs(session, segment@, event, p);
    let compared = choose|compared: Result<(), Error>| #[trigger]
        hash_outcome(
            segment@,
            p.segment_info_map.bmff_hash,
            decode_hash,
            verify,
            compared,
        ) && compared is Ok;
    accepted_comparison_matches(
        segment@,
        p.segment_info_map.bmff_hash,
        decode_hash,
        verify,
        compared,
    );
}

/// A refused segment leaves the session as it was, but that the number is taken over where only the
/// event identifier cannot advance.
pub proof fn refused_resuming_keeps_the_session<
    D: Fn(&[u8]) -> Result<SegmentInfoMap, String>,
    H: Fn(&c2pa_cbor::Value) -> Result<BmffHash, String>,
    V: Fn(&[u8], &c2pa_cbor::Value, u64) -> Result<(), String>,
>(
    signer: &mut LiveVideoVsiSigner,
    segment: &[u8],
    decode: D,
    decode_hash: H,
    verify: V,
    r: Result<(), Error>,
)
    requires
        call_ensures(
            LiveVideoVsiSigner::resume_from_segment::<D, H, V>,
            (signer, segment, decode, decode_hash, verify),
            r,
        ),
        r is Err,
    ensures
        final(signer)@ == old(signer)@ || (vsi_event(segment@) is Ok && vsi_event(
            segment@,
        )->Ok_0 is Some && vsi_event(segment@)->Ok_0->Some_0.id == u32::MAX && final(signer)@ == (
        Session {
            next_sequence_number: final(signer)@.next_sequence_number,
            ..old(signer)@
        })),
{
    reveal(resume_outcome);
}

/// A session resumes behind every segment that belongs to it and whose hash the host finds to match,
/// as long as the event identifier can advance.
pub proof fn session_resumes_behind_what_belongs_to_it<
    D: Fn(&[u8]) -> Result<SegmentInfoMap, String>,
    H: Fn(&c2pa_cbor::Value) -> Result<BmffHash, String>,
    V: Fn(&[u8], &c2pa_cbor::Value, u64) -> Result<(), String>,
>(
    signer: &mut LiveVideoVsiSigner,
    segment: &[u8],
    decode: D,
    decode_hash: H,
    verify: V,
    r: Result<(), Error>,
    event: EmsgEvent,
)
    requires
        call_ensures(
            LiveVideoVsiSigner::resume_from_segment::<D, H, V>,
            (signer, segment, decode, decode_hash, verify),
            r,
        ),
        vsi_event(segment@) == Ok::<Option<EmsgEvent>, Failure>(Some(event)),
        event.id < u32::MAX,
        media_info(segment@, old(signer)@.default_sample_duration) is Ok,
        forall|parsed: Result<ParsedVsi, Error>| #[trigger]
            vsi_outcome(event.message_data, decode, parsed) ==> parsed is Ok && belongs_to(
                old(signer)@,
                media_info(segment@, old(signer)@.default_sample_duration)->Ok_0,
                event,
                parsed->Ok_0,
            ),
        forall|value: &c2pa_cbor::Value, decoded: Result<BmffHash, String>| #[trigger]
            call_ensures(decode_hash, (value,), decoded) ==> decoded is Ok && covers_the_segment(
                decoded->Ok_0@,
            ),
        forall|data: &[u8], value: &c2pa_cbor::Value, compared: Result<(), String>| #[trigger]
            call_ensures(verify, (data, value, 3u64), compared) && data@ == segment@
                ==> compared is Ok,
    ensures
        r is Ok,
        final(signer)@.next_sequence_number == media_info(
            segment@,
            old(signer)@.default_sample_duration,
        )->Ok_0.sequence_number + 1,
        final(signer)@.next_event_id == event.id + 1,
{
    reveal(resume_outcome);
    let session = old(signer)@;
    let parsed = choose|parsed: Result<ParsedVsi, Error>| #[trigger]
        vsi_outcome(event.message_data, decode, parsed) && parsed is Ok && parsed_resume_outcome(
            session,
            segment@,
            event,
            parsed->Ok_0,
            decode_hash,
            verify,
            final(signer)@,
            r,
        );
    let p = parsed->Ok_0;
    checks_accept_what_belongs(session, segment@, event, p);
    let value = p.segment_info_map.bmff_hash;
    assert forall|compared: Result<(), Error>| #[trigger]
        hash_outcome(segment@, value, decode_hash, verify, compared) implies compared is Ok by {
        let decoded = choose|decoded: Result<BmffHash, String>| #[trigger]
            call_ensures(decode_hash, (&value,), decoded) && match decoded {
                Err(words) => compared matches Err(e) && e@ == Failure::BadParam(
                    "invalid resumed VSI bmffHash: "@ + words@,
                ),
                Ok(hash) => match crate::segment_info::checked_hash(hash@) {
                    Err(failure) => compared matches Err(e) && e@ == failure,
                    Ok(_) => comparison_outcome(segment@, value, verify, compared),
                },
            };
        hash_check_accepts_what_covers(decoded->Ok_0@);
        assert(comparison_outcome(segment@, value, verify, compared));
    }
}

/// A fit is found exactly if number, key, manifest, track and timing agree.
pub proof fn segment_fits_exactly_if_all_agrees(
    signer: &LiveVideoVsiSigner,
    manifest_id: &str,
    media: &MediaSegmentInfo,
    event: &VsiEmsg,
    parsed: &ParsedVsi,
    r: Result<(), Error>,
)
    requires
        call_ensures(
            LiveVideoVsiSigner::check_fit,
            (signer, manifest_id, media, event, parsed),
            r,
        ),
    ensures
        r is Ok <==> {
            &&& parsed.segment_info_map.manifest_id@ == manifest_id@
            &&& parsed.segment_info_map.sequence_number == media.sequence_number
            &&& parsed.sign1@.key_id == signer@.kid
            &&& signer@.track_id == Some(media.track_id)
            &&& signer@.track_timescale == Some(event@.timescale)
            &&& event@.presentation_time_delta == 0
            &&& event@.event_duration == media.duration_ticks
            &&& event@.id != 0
        },
{
}

// The initialization segment.

/// Whether a published binding binds the key of a session to a certificate: it is a detached message
/// with EdDSA in its protected header alone, and its signature over the certificate passes the strict
/// check with the session key.
pub open spec fn binds(session: Session, binding: Seq<u8>, cert: Seq<u8>) -> bool {
    &&& decoded_sign1(binding) is Ok
    &&& {
        let message = decoded_sign1(binding)->Ok_0;
        &&& message.payload is None
        &&& message.alg == Some(LabelView::Int(-8i64))
        &&& !message.unprotected_alg
        &&& message.signature.len() == 64
        &&& ed25519_check(
            session.seed,
            signature_input(message.protected, Seq::empty(), crate::cbor::cbor_bytes(cert)),
            message.signature,
        ) is Ok
    }
}

/// Whether what was read of an initialization segment is sound and publishes the key of a session,
/// and nothing but it: no status speaks of a failure of its integrity; the label is an identifier; the
/// only key has the identifier, the algorithm and the public key of the session, is bound to the
/// certificate of the session, which signed the manifest, and says when it is valid.
pub open spec fn publishes_the_session_key(
    session: Session,
    report: InitManifestReport,
    id: Seq<char>,
    key: SessionKeyView,
) -> bool {
    &&& forall|i: int|
        0 <= i < report.statuses@.len() ==> (#[trigger] report.statuses@[i]).passed
            || !is_integrity_code(report.statuses@[i].code@)
    &&& report.manifest is Some
    &&& {
        let manifest = report.manifest->Some_0;
        &&& manifest.label is Some
        &&& manifest.label->Some_0@ == id
        &&& id.len() > 9
        &&& id.take(9) == "urn:c2pa:"@
        &&& manifest.session_keys is Some
        &&& manifest.session_keys->Some_0.keys@.len() == 1
        &&& manifest.session_keys->Some_0.keys@[0]@ == key
        &&& key.key.kid == Some(session.kid)
        &&& key.key.alg == Some(SigningAlg::Ed25519)
        &&& key.key.public_key == session.cose_key.public_key
        &&& manifest.cert_chain is Some
        &&& pem_contents(manifest.cert_chain->Some_0@) is Ok
        &&& pem_contents(manifest.cert_chain->Some_0@)->Ok_0.len() > 0
        &&& pem_contents(manifest.cert_chain->Some_0@)->Ok_0[0] == session.cert
    }
    &&& binds(session, key.signer_binding, session.cert)
    &&& key.validity_period > 0
    &&& key.min_sequence_number <= u32::MAX
    &&& exists|time: i64| #[trigger]
        within_validity(key.created_at, key.validity_period, time)
}

/// The session once it has taken up an initialization segment with the given manifest and key.
pub open spec fn taken_up_from(
    before: Session,
    after: Session,
    info: InitSegmentInfo,
    id: Seq<char>,
    key: SessionKeyView,
) -> bool {
    &&& after.active_manifest_id == Some(id)
    &&& after.track_id == Some(info.track_id)
    &&& after.track_timescale == Some(info.timescale)
    &&& after.default_sample_duration == info.default_sample_duration
    &&& after.min_sequence_number == key.min_sequence_number
    &&& after.created_at == key.created_at
    &&& after.validity_period == key.validity_period
    &&& after.signer_binding == key.signer_binding
    &&& after.next_sequence_number >= before.next_sequence_number
    &&& after.next_sequence_number >= key.min_sequence_number
    &&& after.next_sequence_number == before.next_sequence_number || after.next_sequence_number
        == key.min_sequence_number
    &&& after.seed == before.seed
    &&& after.kid == before.kid
    &&& after.cose_key == before.cose_key
    &&& after.cert == before.cert
    &&& after.next_event_id == before.next_event_id
    &&& after.base_manifest_json == before.base_manifest_json
}

/// Whether the host read a report of the given bytes, and of all of them.
pub open spec fn was_read<R: Fn(&[u8]) -> Result<InitManifestReport, Error>>(
    bytes: Seq<u8>,
    read: R,
    report: InitManifestReport,
) -> bool {
    exists|data: &[u8]| #[trigger]
        call_ensures(read, (data,), Ok::<InitManifestReport, Error>(report)) && data@ == bytes
}

/// What the checks of an initialization manifest accept is what publishes the session key.
pub proof fn checks_accept_what_publishes(session: Session, report: InitManifestReport)
    ensures
        crate::vsi_signing::checked_init_manifest(session, report@) matches Ok((id, key))
            ==> publishes_the_session_key(session, report, id, key),
        forall|id: Seq<char>, key: SessionKeyView| #[trigger]
            publishes_the_session_key(session, report, id, key)
                ==> crate::vsi_signing::checked_init_manifest(session, report@) == Ok::<
                (Seq<char>, SessionKeyView),
                Failure,
            >((id, key)),
{
    no_failure_means_sound(report.statuses@);
    match crate::vsi_signing::checked_init_manifest(session, report@) {
        Err(_) => {},
        Ok((id, key)) => {
            identifier_shape(id);
            let created = utc_seconds(key.created_at)->Some_0;
            assert(within_validity(key.created_at, key.validity_period, created));
        },
    }
    assert forall|id: Seq<char>, key: SessionKeyView| #[trigger]
        publishes_the_session_key(session, report, id, key) implies
        crate::vsi_signing::checked_init_manifest(session, report@) == Ok::<
        (Seq<char>, SessionKeyView),
        Failure,
    >((id, key)) by {
        identifier_shape(id);
        assert(report@.manifest->Some_0.session_keys->Some_0.len() == 1);
        assert(report@.manifest->Some_0.session_keys->Some_0[0] == key);
        assert(crate::session_keys::restored_binding(
            key.signer_binding,
            session.seed,
            session.cert,
        ) is Ok);
        assert(crate::session_keys::key_metadata(key) is Ok);
    }
}

/// What was read of an initialization segment is accepted exactly if it publishes the session key.
pub proof fn init_manifest_is_accepted_exactly_if_it_publishes_the_key(
    signer: &LiveVideoVsiSigner,
    report: InitManifestReport,
    r: Result<(String, SessionKey), Error>,
)
    requires
        call_ensures(
            LiveVideoVsiSigner::read_and_validate_init_manifest,
            (signer, report),
            r,
        ),
    ensures
        r is Ok ==> publishes_the_session_key(signer@, report, r->Ok_0.0@, r->Ok_0.1@),
        r is Err ==> forall|id: Seq<char>, key: SessionKeyView|
            !(#[trigger] publishes_the_session_key(signer@, report, id, key)),
{
    checks_accept_what_publishes(signer@, report);
}

/// A session takes up a signed initialization segment only where its timing can be read and what the
/// host read of it publishes the session key; it then has the manifest, the track and the key metadata
/// that it publishes. Where it is refused nothing changes.
pub proof fn session_takes_up_only_its_own_init<
    R: Fn(&[u8]) -> Result<InitManifestReport, Error>,
>(signer: &mut LiveVideoVsiSigner, init: &[u8], read: R, r: Result<(), Error>)
    requires
        call_ensures(
            LiveVideoVsiSigner::restore_manifest_id_from_signed_init::<R>,
            (signer, init, read),
            r,
        ),
    ensures
        r is Err ==> final(signer)@ == old(signer)@,
        r is Ok ==> init_info(init@) is Ok && exists|
            report: InitManifestReport,
            id: Seq<char>,
            key: SessionKeyView,
        | #[trigger]
            publishes_the_session_key(old(signer)@, report, id, key) && was_read(
                init@,
                read,
                report,
            ) && taken_up_from(old(signer)@, final(signer)@, init_info(init@)->Ok_0, id, key),
{
    reveal(restoring_outcome);
    if r is Ok {
        let report = choose|report: Result<InitManifestReport, Error>| #[trigger]
            init_reading_outcome(init@, read, report) && report is Ok
                && crate::vsi_signing::completed_init(
                old(signer)@,
                init_info(init@)->Ok_0,
                report->Ok_0@,
            ) == Ok::<Session, Failure>(final(signer)@);
        assert(report == Ok::<InitManifestReport, Error>(report->Ok_0));
        checks_accept_what_publishes(old(signer)@, report->Ok_0);
        let (id, key) = crate::vsi_signing::checked_init_manifest(
            old(signer)@,
            report->Ok_0@,
        )->Ok_0;
        assert(publishes_the_session_key(old(signer)@, report->Ok_0, id, key));
    }
}

/// A session takes up every initialization segment whose timing can be read and of which the host
/// reads that it publishes the session key.
pub proof fn session_takes_up_its_own_init<R: Fn(&[u8]) -> Result<InitManifestReport, Error>>(
    signer: &mut LiveVideoVsiSigner,
    init: &[u8],
    read: R,
    r: Result<(), Error>,
    id: Seq<char>,
    key: SessionKeyView,
)
    requires
        call_ensures(
            LiveVideoVsiSigner::restore_manifest_id_from_signed_init::<R>,
            (signer, init, read),
            r,
        ),
        init_info(init@) is Ok,
        forall|data: &[u8], report: Result<InitManifestReport, Error>| #[trigger]
            call_ensures(read, (data,), report) && data@ == init@ ==> report is Ok
                && publishes_the_session_key(old(signer)@, report->Ok_0, id, key),
    ensures
        r is Ok,
        taken_up_from(old(signer)@, final(signer)@, init_info(init@)->Ok_0, id, key),
{
    reveal(restoring_outcome);
    assert forall|report: Result<InitManifestReport, Error>| #[trigger]
        init_reading_outcome(init@, read, report) implies report is Ok
        && crate::vsi_signing::completed_init(
        old(signer)@,
        init_info(init@)->Ok_0,
        report->Ok_0@,
    ) is Ok && crate::vsi_signing::checked_init_manifest(old(signer)@, report->Ok_0@) == Ok::<
        (Seq<char>, SessionKeyView),
        Failure,
    >((id, key)) by {
        let data = choose|data: &[u8]| #[trigger]
            call_ensures(read, (data,), report) && data@ == init@;
        checks_accept_what_publishes(old(signer)@, report->Ok_0);
    }
}

/// A signed initialization segment is what the host made of the segment, the base definition and the
/// session key, and nothing but that key, with a manifest signer whose first certificate is the one
/// that the key is bound to; what the host then read of it publishes the session key, and the session
/// takes it up. Where signing fails nothing changes.
pub proof fn signed_init_publishes_the_session_key<
    S: Fn(&str, &SessionKeys, &[u8]) -> Result<Vec<u8>, Error>,
    R: Fn(&[u8]) -> Result<InitManifestReport, Error>,
>(
    signer: &mut LiveVideoVsiSigner,
    segment: &[u8],
    certs: &Result<Vec<Vec<u8>>, String>,
    sign: S,
    read: R,
    r: Result<Vec<u8>, Error>,
)
    requires
        call_ensures(
            LiveVideoVsiSigner::sign_init_segment::<S, R>,
            (signer, segment, certs, sign, read),
            r,
        ),
    ensures
        r is Err ==> final(signer)@ == old(signer)@,
        r is Ok ==> {
            &&& init_info(segment@) is Ok
            &&& certs is Ok
            &&& certs->Ok_0@.len() > 0
            &&& certs->Ok_0@[0]@ == old(signer)@.cert
            &&& exists|definition: &str, keys: &SessionKeys, data: &[u8]| #[trigger]
                call_ensures(sign, (definition, keys, data), r) && definition@
                    == old(signer)@.base_manifest_json && data@ == segment@ && keys.keys@.len() == 1
                    && keys.keys@[0]@ == (SessionKeyView {
                    key: old(signer)@.cose_key,
                    min_sequence_number: old(signer)@.min_sequence_number,
                    created_at: old(signer)@.created_at,
                    validity_period: old(signer)@.validity_period,
                    signer_binding: old(signer)@.signer_binding,
                })
            &&& exists|report: InitManifestReport, id: Seq<char>, key: SessionKeyView| #[trigger]
                publishes_the_session_key(old(signer)@, report, id, key) && was_read(
                    r->Ok_0@,
                    read,
                    report,
                ) && taken_up_from(
                    old(signer)@,
                    final(signer)@,
                    init_info(segment@)->Ok_0,
                    id,
                    key,
                )
        },
{
    if r is Ok {
        let session = old(signer)@;
        let views = crate::vsi_signing::certs_view(*certs);
        assert(crate::vsi_signing::begun_init(session, segment@, views) is Ok);
        let info = init_info(segment@)->Ok_0;
        assert(byte_views(certs->Ok_0@).len() == certs->Ok_0@.len());
        assert(byte_views(certs->Ok_0@)[0] == certs->Ok_0@[0]@);
        let signed = choose|signed: Result<Vec<u8>, Error>| #[trigger]
            crate::vsi_signing::init_embedding_outcome(session, segment@, sign, signed)
                && signed is Ok && signed->Ok_0 == r->Ok_0 && exists|
                report: Result<InitManifestReport, Error>,
            | #[trigger]
                init_reading_outcome(signed->Ok_0@, read, report) && report is Ok
                    && crate::vsi_signing::completed_init(session, info, report->Ok_0@) == Ok::<
                    Session,
                    Failure,
                >(final(signer)@);
        assert(signed == r);
        let (definition, keys, data) = choose|definition: &str, keys: &SessionKeys, data: &[u8]|
            #[trigger]
            call_ensures(sign, (definition, keys, data), signed) && definition@
                == session.base_manifest_json && key_views(keys.keys@) == seq![
                crate::vsi_signing::session_key(session),
            ] && data@ == segment@;
        assert(key_views(keys.keys@).len() == keys.keys@.len());
        assert(key_views(keys.keys@)[0] == keys.keys@[0]@);
        let report = choose|report: Result<InitManifestReport, Error>| #[trigger]
            init_reading_outcome(signed->Ok_0@, read, report) && report is Ok
                && crate::vsi_signing::completed_init(session, info, report->Ok_0@) == Ok::<
                Session,
                Failure,
            >(final(signer)@);
        assert(report == Ok::<InitManifestReport, Error>(report->Ok_0));
        checks_accept_what_publishes(session, report->Ok_0);
        let (id, key) = crate::vsi_signing::checked_init_manifest(session, report->Ok_0@)->Ok_0;
        assert(publishes_the_session_key(session, report->Ok_0, id, key));
    }
}

// Media segments.

/// A media segment can be planned exactly if it carries no Verifiable Segment Info yet, the session
/// has a manifest, a track and a timescale, the timing of the segment can be read, its number is the
/// next and its track the one of the session, the event identifier can advance, and the key is valid
/// at the time of signing. The plan then says what the session and the segment say.
pub proof fn segment_is_planned_exactly_if_next(
    signer: &LiveVideoVsiSigner,
    segment: &[u8],
    iat: i64,
    r: Result<MediaPlan, Error>,
)
    requires
        call_ensures(LiveVideoVsiSigner::plan_media_segment, (signer, segment, iat), r),
    ensures
        r is Ok <==> {
            let session = signer@;
            let media = media_info(segment@, session.default_sample_duration)->Ok_0;
            &&& vsi_candidates(segment@).len() == 0
            &&& session.active_manifest_id is Some
            &&& session.active_manifest_id->Some_0.len() > 9
            &&& session.active_manifest_id->Some_0.take(9) == "urn:c2pa:"@
            &&& session.track_id is Some
            &&& session.track_timescale is Some
            &&& media_info(segment@, session.default_sample_duration) is Ok
            &&& media.sequence_number == session.next_sequence_number
            &&& session.track_id == Some(media.track_id)
            &&& session.next_event_id < u32::MAX
            &&& within_validity(session.created_at, session.validity_period, iat)
        },
        r is Ok ==> {
            let plan = r->Ok_0@;
            &&& plan.sequence_number == signer@.next_sequence_number
            &&& signer@.active_manifest_id == Some(plan.manifest_id)
            &&& signer@.track_timescale == Some(plan.timescale)
            &&& plan.event_duration == media_info(
                segment@,
                signer@.default_sample_duration,
            )->Ok_0.duration_ticks
            &&& plan.id == signer@.next_event_id
            &&& plan.iat == iat
        },
{
    if signer@.active_manifest_id is Some {
        identifier_shape(signer@.active_manifest_id->Some_0);
    }
}

/// Whether a hash is the one that the segments of a session carry: it leaves the event message of
/// Verifiable Segment Info out, and nothing else, has no Merkle tree, and holds the given digest.
pub open spec fn hash_with(hash: BmffHashView, digest: Option<Seq<u8>>) -> bool {
    &&& hash.name == Some("jumbf manifest"@)
    &&& hash.alg == Some("sha256"@)
    &&& hash.hash == digest
    &&& hash.bmff_version == 3
    &&& covers_the_segment(hash)
    &&& hash.exclusions.len() == 1
    &&& hash.exclusions[0].data->Some_0.len() == 1
}

/// Whether the host hashed a segment and encoded the hash as `value`: it was asked for the digest of
/// the given bytes, and then to encode the hash with that digest.
pub open spec fn hashed_as<
    G: Fn(&BmffHash, &[u8]) -> Result<Vec<u8>, String>,
    E: Fn(&BmffHash) -> Result<c2pa_cbor::Value, String>,
>(bytes: Seq<u8>, digest: G, encode_hash: E, value: c2pa_cbor::Value) -> bool {
    exists|asked: &BmffHash, data: &[u8], found: Vec<u8>, full: &BmffHash|
        #![trigger call_ensures(digest, (asked, data), Ok::<Vec<u8>, String>(found)), call_ensures(encode_hash, (full,), Ok::<c2pa_cbor::Value, String>(value))]
        call_ensures(digest, (asked, data), Ok::<Vec<u8>, String>(found)) && data@ == bytes
            && hash_with(asked@, None) && call_ensures(
            encode_hash,
            (full,),
            Ok::<c2pa_cbor::Value, String>(value),
        ) && hash_with(full@, Some(found@))
}

/// Whether the host encoded the map of a segment as `payload`: the map gives the number and the
/// manifest, and the hash.
pub open spec fn encoded_as<M: Fn(&SegmentInfoMap) -> Result<Vec<u8>, String>>(
    number: u64,
    manifest_id: Seq<char>,
    value: c2pa_cbor::Value,
    encode: M,
    payload: Seq<u8>,
) -> bool {
    exists|map: &SegmentInfoMap, bytes: Vec<u8>| #[trigger]
        call_ensures(encode, (map,), Ok::<Vec<u8>, String>(bytes)) && bytes@ == payload
            && map.sequence_number == number && map.manifest_id@ == manifest_id && cbor_encoding(
            map.bmff_hash,
        ) == cbor_encoding(value) && map.manifest_uri is None
}

/// The hash of a segment with a digest is with that digest.
pub proof fn segment_hash_is_with(digest: Option<Seq<u8>>)
    ensures
        hash_with(crate::segment_info::segment_hash(digest), digest),
{
    crate::event_laws::texts_are_bytes();
    let hash = crate::segment_info::segment_hash(digest);
    assert(hash.exclusions[0] == crate::segment_info::vsi_exclusion());
    assert(hash.exclusions[0].data->Some_0[0] == crate::segment_info::vsi_data());
}

/// Whether an event carries the message of a session with a payload: it claims the time of signing,
/// names the session key, and is signed by that key over header and payload.
pub open spec fn carries_message(
    event: EmsgEvent,
    session: Session,
    iat: i64,
    payload: Seq<u8>,
) -> bool {
    let header = eddsa_header(Some(("iat"@, iat)));
    let signature = ed25519_signature(
        session.seed,
        signature_input(header, Seq::empty(), payload),
    );
    event.message_data == encoded(
        eddsa_message(Some(("iat"@, iat)), session.kid, Some(payload), signature),
    )
}

proof fn planned_event_carries_the_message(session: Session, plan: MediaPlanView, payload: Seq<u8>)
    ensures
        carries_message(
            crate::vsi_signing::planned_event(
                plan,
                crate::vsi_signing::final_message(session, plan, payload),
            ),
            session,
            plan.iat,
            payload,
        ),
{
    assert(crate::vsi_signing::vsi_header(plan.iat) == eddsa_header(Some(("iat"@, plan.iat))));
}

/// Signing a segment draws up an event message and seals a payload behind it.
proof fn signing_seals_a_payload<
    M: Fn(&SegmentInfoMap) -> Result<Vec<u8>, String>,
    G: Fn(&BmffHash, &[u8]) -> Result<Vec<u8>, String>,
    E: Fn(&BmffHash) -> Result<c2pa_cbor::Value, String>,
>(
    session: Session,
    segment: Seq<u8>,
    iat: i64,
    encode: M,
    digest: G,
    encode_hash: E,
    r: Result<Vec<u8>, Error>,
) -> (found: (Seq<u8>, Vec<u8>))
    requires
        crate::vsi_signing::signing_outcome(
            session,
            segment,
            iat,
            encode,
            digest,
            encode_hash,
            r,
        ),
        r is Ok,
    ensures
        ({
            let plan = crate::vsi_signing::planned(session, segment, iat)->Ok_0;
            &&& crate::vsi_signing::planned(session, segment, iat) is Ok
            &&& crate::vsi_signing::sealed_payload_outcome(
                plan,
                found.0 + segment,
                encode,
                digest,
                encode_hash,
                Ok::<Vec<u8>, Error>(found.1),
            )
            &&& crate::vsi_signing::signed_segment(
                session,
                plan,
                found.0.len(),
                found.1@,
                segment,
            ) == Ok::<Seq<u8>, Failure>(r->Ok_0@)
        }),
{
    let plan = crate::vsi_signing::planned(session, segment, iat)->Ok_0;
    let draft = choose|draft: Result<Vec<u8>, Error>| #[trigger]
        crate::vsi_signing::draft_outcome(session.kid, plan, encode, encode_hash, draft) && draft
            is Ok && exists|payload: Result<Vec<u8>, Error>| #[trigger]
            crate::vsi_signing::sealed_payload_outcome(
                plan,
                draft->Ok_0@ + segment,
                encode,
                digest,
                encode_hash,
                payload,
            ) && payload is Ok && crate::vsi_signing::signed_segment(
                session,
                plan,
                draft->Ok_0@.len(),
                payload->Ok_0@,
                segment,
            ) == Ok::<Seq<u8>, Failure>(r->Ok_0@);
    let emsg = draft->Ok_0@;
    let payload = choose|payload: Result<Vec<u8>, Error>| #[trigger]
        crate::vsi_signing::sealed_payload_outcome(
            plan,
            emsg + segment,
            encode,
            digest,
            encode_hash,
            payload,
        ) && payload is Ok && crate::vsi_signing::signed_segment(
            session,
            plan,
            emsg.len(),
            payload->Ok_0@,
            segment,
        ) == Ok::<Seq<u8>, Failure>(r->Ok_0@);
    assert(payload == Ok::<Vec<u8>, Error>(payload->Ok_0));
    (emsg, payload->Ok_0)
}

/// A segment that was hashed is hashed as its encoded hash.
pub proof fn hashing_is_hashed<
    G: Fn(&BmffHash, &[u8]) -> Result<Vec<u8>, String>,
    E: Fn(&BmffHash) -> Result<c2pa_cbor::Value, String>,
>(bytes: Seq<u8>, digest: G, encode_hash: E, hash: Result<c2pa_cbor::Value, Error>)
    requires
        crate::segment_info::hashing_outcome(bytes, digest, encode_hash, hash),
        hash is Ok,
    ensures
        hashed_as(bytes, digest, encode_hash, hash->Ok_0),
{
    let value = hash->Ok_0;
    let (asked, data, digested) = choose|
        asked: &BmffHash,
        data: &[u8],
        digested: Result<Vec<u8>, String>,
    | #[trigger]
        call_ensures(digest, (asked, data), digested) && asked@
            == crate::segment_info::segment_hash(None) && data@ == bytes && digested is Ok
            && crate::segment_info::encoding_outcome(
            crate::segment_info::segment_hash(Some(digested->Ok_0@)),
            "failed to serialize bmffHash to CBOR: "@,
            encode_hash,
            hash,
        );
    let found = digested->Ok_0;
    assert(digested == Ok::<Vec<u8>, String>(found));
    let (full, written) = choose|full: &BmffHash, written: Result<c2pa_cbor::Value, String>|
        #[trigger]
        call_ensures(encode_hash, (full,), written) && full@ == crate::segment_info::segment_hash(
            Some(found@),
        ) && written is Ok && written->Ok_0 == value;
    assert(written == Ok::<c2pa_cbor::Value, String>(value));
    segment_hash_is_with(None);
    segment_hash_is_with(Some(found@));
}

/// A sealed payload holds the hash of the segment behind its draft.
proof fn sealing_hashes_the_segment<
    M: Fn(&SegmentInfoMap) -> Result<Vec<u8>, String>,
    G: Fn(&BmffHash, &[u8]) -> Result<Vec<u8>, String>,
    E: Fn(&BmffHash) -> Result<c2pa_cbor::Value, String>,
>(
    plan: MediaPlanView,
    bytes: Seq<u8>,
    encode: M,
    digest: G,
    encode_hash: E,
    payload: Vec<u8>,
) -> (value: c2pa_cbor::Value)
    requires
        crate::vsi_signing::sealed_payload_outcome(
            plan,
            bytes,
            encode,
            digest,
            encode_hash,
            Ok::<Vec<u8>, Error>(payload),
        ),
    ensures
        hashed_as(bytes, digest, encode_hash, value),
        encoded_as(plan.sequence_number, plan.manifest_id, value, encode, payload@),
{
    let sealed = Ok::<Vec<u8>, Error>(payload);
    let hash = choose|hash: Result<c2pa_cbor::Value, Error>| #[trigger]
        crate::segment_info::hashing_outcome(bytes, digest, encode_hash, hash) && hash is Ok
            && crate::vsi_signing::payload_outcome(plan, hash->Ok_0, encode, sealed);
    let value = hash->Ok_0;
    hashing_is_hashed(bytes, digest, encode_hash, hash);
    let (map, mapped) = choose|map: &SegmentInfoMap, mapped: Result<Vec<u8>, String>| #[trigger]
        call_ensures(encode, (map,), mapped) && map@ == crate::vsi_signing::planned_info(
            plan,
            cbor_encoding(value),
        ) && mapped is Ok && mapped->Ok_0 == payload;
    assert(mapped == Ok::<Vec<u8>, String>(payload));
    assert(map.manifest_uri is None);
    assert(encoded_as(plan.sequence_number, plan.manifest_id, value, encode, payload@));
    value
}

/// What a plan says of the session and the segment.
proof fn plan_says_what_the_session_says(session: Session, segment: Seq<u8>, iat: i64)
    requires
        crate::vsi_signing::planned(session, segment, iat) is Ok,
    ensures
        within_validity(session.created_at, session.validity_period, iat),
        media_info(segment, session.default_sample_duration) is Ok,
        vsi_candidates(segment).len() == 0,
        session.active_manifest_id is Some,
        ({
            let plan = crate::vsi_signing::planned(session, segment, iat)->Ok_0;
            let media = media_info(segment, session.default_sample_duration)->Ok_0;
            &&& media.sequence_number == session.next_sequence_number
            &&& session.track_id == Some(media.track_id)
            &&& session.track_timescale == Some(plan.timescale)
            &&& plan.event_duration == media.duration_ticks
            &&& plan.id == session.next_event_id
            &&& plan.iat == iat
            &&& plan.sequence_number == session.next_sequence_number
            &&& session.active_manifest_id == Some(plan.manifest_id)
        }),
{
}

/// A framed segment ends in the segment, behind as many bytes as the draft has.
proof fn framed_segment_ends_in_the_segment(
    plan: MediaPlanView,
    draft_size: nat,
    message: Seq<u8>,
    segment: Seq<u8>,
    signed: Seq<u8>,
)
    requires
        crate::vsi_signing::framed_segment(plan, draft_size, message, segment) == Ok::<
            Seq<u8>,
            Failure,
        >(signed),
    ensures
        signed.len() == draft_size + segment.len(),
        signed.skip(draft_size as int) == segment,
{
    let built = crate::verifiable_segment_info::built_emsg_box(
        crate::verifiable_segment_info::segment_event(
            message,
            plan.timescale,
            plan.event_duration,
            plan.id,
        ),
    );
    let front = built->Ok_0;
    assert(signed == front + segment);
    assert(signed.skip(front.len() as int) =~= segment);
}

/// What a framed segment looks like.
#[verifier::spinoff_prover]
proof fn signed_segment_is_event_and_segment(
    session: Session,
    plan: MediaPlanView,
    draft_size: nat,
    payload: Seq<u8>,
    segment: Seq<u8>,
    signed: Seq<u8>,
)
    requires
        crate::vsi_signing::planned(session, segment, plan.iat) == Ok::<MediaPlanView, Failure>(
            plan,
        ),
        crate::vsi_signing::signed_segment(session, plan, draft_size, payload, segment) == Ok::<
            Seq<u8>,
            Failure,
        >(signed),
        signed.len() <= usize::MAX,
    ensures
        signed.len() == draft_size + segment.len(),
        signed.skip(draft_size as int) == segment,
        vsi_event(signed) is Ok,
        vsi_event(signed)->Ok_0 is Some,
        ({
            let event = vsi_event(signed)->Ok_0->Some_0;
            &&& event.presentation_time_delta == 0
            &&& event.timescale == plan.timescale
            &&& event.event_duration == plan.event_duration
            &&& event.id == plan.id
            &&& carries_message(event, session, plan.iat, payload)
        }),
{
    signed_segment_gives_its_event_back(session, plan, draft_size, payload, segment, signed);
    planned_event_carries_the_message(session, plan, payload);
    framed_segment_ends_in_the_segment(
        plan,
        draft_size,
        encoded(crate::vsi_signing::final_message(session, plan, payload)),
        segment,
        signed,
    );
}

/// Whether a signed segment is what a session made of a segment: the segment with an event message in
/// front of it. The event has the timescale of the session, the duration of the segment and the next
/// event identifier; its message names the session key, claims the time of signing, and carries the
/// map of the segment with its number, the manifest of the session and its hash, signed by the session
/// key. The hash is that of bytes of the same length which end in the segment itself.
pub open spec fn carries_its_own_info<
    M: Fn(&SegmentInfoMap) -> Result<Vec<u8>, String>,
    G: Fn(&BmffHash, &[u8]) -> Result<Vec<u8>, String>,
    E: Fn(&BmffHash) -> Result<c2pa_cbor::Value, String>,
>(
    session: Session,
    segment: Seq<u8>,
    iat: i64,
    encode: M,
    digest: G,
    encode_hash: E,
    signed: Seq<u8>,
) -> bool {
    let front = signed.len() - segment.len();
    let event = vsi_event(signed)->Ok_0->Some_0;
    let media = media_info(segment, session.default_sample_duration)->Ok_0;
    &&& media_info(segment, session.default_sample_duration) is Ok
    &&& media.sequence_number == session.next_sequence_number
    &&& session.track_id == Some(media.track_id)
    &&& front >= 0
    &&& signed.skip(front) == segment
    &&& vsi_event(signed) is Ok
    &&& vsi_event(signed)->Ok_0 is Some
    &&& event.presentation_time_delta == 0
    &&& session.track_timescale == Some(event.timescale)
    &&& event.event_duration == media.duration_ticks
    &&& event.id == session.next_event_id
    &&& session.active_manifest_id is Some
    &&& exists|payload: Seq<u8>, value: c2pa_cbor::Value, draft: Seq<u8>|
        #![trigger hashed_as(draft, digest, encode_hash, value), encoded_as(session.next_sequence_number, session.active_manifest_id->Some_0, value, encode, payload)]
        carries_message(event, session, iat, payload) && encoded_as(
            session.next_sequence_number,
            session.active_manifest_id->Some_0,
            value,
            encode,
            payload,
        ) && hashed_as(draft, digest, encode_hash, value) && draft.len() == signed.len()
            && draft.skip(front) == segment
}

proof fn signing_makes_its_own_info<
    M: Fn(&SegmentInfoMap) -> Result<Vec<u8>, String>,
    G: Fn(&BmffHash, &[u8]) -> Result<Vec<u8>, String>,
    E: Fn(&BmffHash) -> Result<c2pa_cbor::Value, String>,
>(
    session: Session,
    segment: Seq<u8>,
    iat: i64,
    encode: M,
    digest: G,
    encode_hash: E,
    emsg: Seq<u8>,
    payload: Vec<u8>,
    signed: Seq<u8>,
)
    requires
        crate::vsi_signing::planned(session, segment, iat) is Ok,
        crate::vsi_signing::sealed_payload_outcome(
            crate::vsi_signing::planned(session, segment, iat)->Ok_0,
            emsg + segment,
            encode,
            digest,
            encode_hash,
            Ok::<Vec<u8>, Error>(payload),
        ),
        crate::vsi_signing::signed_segment(
            session,
            crate::vsi_signing::planned(session, segment, iat)->Ok_0,
            emsg.len(),
            payload@,
            segment,
        ) == Ok::<Seq<u8>, Failure>(signed),
        signed.len() <= usize::MAX,
    ensures
        carries_its_own_info(session, segment, iat, encode, digest, encode_hash, signed),
{
    let plan = crate::vsi_signing::planned(session, segment, iat)->Ok_0;
    plan_says_what_the_session_says(session, segment, iat);
    signed_segment_is_event_and_segment(session, plan, emsg.len(), payload@, segment, signed);
    let value = sealing_hashes_the_segment(
        plan,
        emsg + segment,
        encode,
        digest,
        encode_hash,
        payload,
    );
    assert((emsg + segment).skip(emsg.len() as int) =~= segment);
    assert(hashed_as(emsg + segment, digest, encode_hash, value));
    assert(encoded_as(
        session.next_sequence_number,
        session.active_manifest_id->Some_0,
        value,
        encode,
        payload@,
    ));
}

/// A segment that a session signs carries its own info, and the key was valid at the time of signing;
/// number and event identifier advance by one, and nothing else changes. A segment that carries
/// Verifiable Segment Info already is not signed. Where signing fails nothing changes at all.
pub proof fn signed_segment_carries_its_own_info<
    M: Fn(&SegmentInfoMap) -> Result<Vec<u8>, String>,
    G: Fn(&BmffHash, &[u8]) -> Result<Vec<u8>, String>,
    E: Fn(&BmffHash) -> Result<c2pa_cbor::Value, String>,
>(
    signer: &mut LiveVideoVsiSigner,
    segment: &[u8],
    iat: i64,
    encode: &M,
    digest: &G,
    encode_hash: &E,
    r: Result<Vec<u8>, Error>,
)
    requires
        call_ensures(
            LiveVideoVsiSigner::sign_media_segment_at::<M, G, E>,
            (signer, segment, iat, encode, digest, encode_hash),
            r,
        ),
    ensures
        r is Err ==> final(signer)@ == old(signer)@,
        r is Ok ==> within_validity(
            old(signer)@.created_at,
            old(signer)@.validity_period,
            iat,
        ),
        r is Ok ==> vsi_candidates(segment@).len() == 0,
        r is Ok ==> carries_its_own_info(
            old(signer)@,
            segment@,
            iat,
            *encode,
            *digest,
            *encode_hash,
            r->Ok_0@,
        ),
        r is Ok ==> final(signer)@ == (Session {
            next_sequence_number: (old(signer)@.next_sequence_number + 1) as u64,
            next_event_id: (old(signer)@.next_event_id + 1) as u32,
            ..old(signer)@
        }),
{
    if r is Ok {
        let session = old(signer)@;
        assert(r->Ok_0@.len() == r->Ok_0.len());
        plan_says_what_the_session_says(session, segment@, iat);
        let (emsg, payload) = signing_seals_a_payload(
            session,
            segment@,
            iat,
            *encode,
            *digest,
            *encode_hash,
            r,
        );
        signing_makes_its_own_info(
            session,
            segment@,
            iat,
            *encode,
            *digest,
            *encode_hash,
            emsg,
            payload,
            r->Ok_0@,
        );
    }
}

/// A segment that a session signs now carries its own info for some time of signing at which the key
/// was valid, and the session advances; where signing fails nothing changes.
pub proof fn segment_signed_now_carries_its_own_info<
    M: Fn(&SegmentInfoMap) -> Result<Vec<u8>, String>,
    G: Fn(&BmffHash, &[u8]) -> Result<Vec<u8>, String>,
    E: Fn(&BmffHash) -> Result<c2pa_cbor::Value, String>,
>(
    signer: &mut LiveVideoVsiSigner,
    segment: &[u8],
    encode: &M,
    digest: &G,
    encode_hash: &E,
    r: Result<Vec<u8>, Error>,
)
    requires
        call_ensures(
            LiveVideoVsiSigner::sign_media_segment::<M, G, E>,
            (signer, segment, encode, digest, encode_hash),
            r,
        ),
    ensures
        r is Err ==> final(signer)@ == old(signer)@,
        r is Ok ==> exists|iat: i64| #[trigger]
            carries_its_own_info(
                old(signer)@,
                segment@,
                iat,
                *encode,
                *digest,
                *encode_hash,
                r->Ok_0@,
            ) && within_validity(old(signer)@.created_at, old(signer)@.validity_period, iat),
        r is Ok ==> final(signer)@ == (Session {
            next_sequence_number: (old(signer)@.next_sequence_number + 1) as u64,
            next_event_id: (old(signer)@.next_event_id + 1) as u32,
            ..old(signer)@
        }),
{
    if r is Ok {
        let session = old(signer)@;
        assert(r->Ok_0@.len() == r->Ok_0.len());
        let iat = choose|iat: i64|
            #![trigger crate::vsi_signing::planned(session, segment@, iat)]
            crate::vsi_signing::signing_outcome(
                session,
                segment@,
                iat,
                *encode,
                *digest,
                *encode_hash,
                r,
            ) && crate::vsi_signing::planned(session, segment@, iat) is Ok && final(signer)@
                == crate::vsi_signing::after_segment(
                session,
                crate::vsi_signing::planned(session, segment@, iat)->Ok_0,
            );
        plan_says_what_the_session_says(session, segment@, iat);
        let (emsg, payload) = signing_seals_a_payload(
            session,
            segment@,
            iat,
            *encode,
            *digest,
            *encode_hash,
            r,
        );
        signing_makes_its_own_info(
            session,
            segment@,
            iat,
            *encode,
            *digest,
            *encode_hash,
            emsg,
            payload,
            r->Ok_0@,
        );
    }
}

// A new session.

/// A session is created exactly if its key has an identifier and a validity period, the first number
/// fits a movie fragment header, the definition can be normalized and the manifest signer has a
/// certificate. It then stands before the first number and the first event identifier, with the
/// normalized definition and nothing known of an initialization segment, and its key is bound to that
/// certificate.
pub proof fn new_session_stands_at_its_start(
    manifest_json: &str,
    certs: &Result<Vec<Vec<u8>>, String>,
    key: crate::ed25519::Ed25519SessionKey,
    kid: Vec<u8>,
    min_sequence_number: u64,
    validity_period: u64,
    created_at: String,
    r: Result<LiveVideoVsiSigner, Error>,
)
    requires
        call_ensures(
            LiveVideoVsiSigner::from_parts,
            (manifest_json, certs, key, kid, min_sequence_number, validity_period, created_at),
            r,
        ),
    ensures
        r is Ok <==> kid@.len() > 0 && validity_period > 0 && min_sequence_number <= u32::MAX
            && live_manifest_text(manifest_json@) is Ok && certs is Ok && certs->Ok_0@.len() > 0,
        r is Ok ==> {
            let session = r->Ok_0@;
            let cert = certs->Ok_0@[0]@;
            &&& session.seed == key.seed@
            &&& session.kid == kid@
            &&& session.cose_key.kid == Some(kid@)
            &&& session.cose_key.alg == Some(SigningAlg::Ed25519)
            &&& session.cose_key.public_key == Some(ed25519_public_key(key.seed@))
            &&& session.cert == cert
            &&& session.min_sequence_number == min_sequence_number
            &&& session.next_sequence_number == min_sequence_number
            &&& session.next_event_id == 1
            &&& session.created_at == created_at@
            &&& session.validity_period == validity_period
            &&& session.base_manifest_json == live_manifest_text(manifest_json@)->Ok_0
            &&& session.active_manifest_id is None
            &&& session.track_id is None
            &&& session.track_timescale is None
            &&& session.default_sample_duration is None
            &&& session.signer_binding == encoded(
                eddsa_message(
                    None,
                    Seq::empty(),
                    None,
                    ed25519_signature(
                        key.seed@,
                        signature_input(
                            eddsa_header(None),
                            Seq::empty(),
                            crate::cbor::cbor_bytes(cert),
                        ),
                    ),
                ),
            )
        },
{
    if certs is Ok {
        assert(byte_views(certs->Ok_0@).len() == certs->Ok_0@.len());
        if certs->Ok_0@.len() > 0 {
            assert(byte_views(certs->Ok_0@)[0] == certs->Ok_0@[0]@);
        }
    }
}

// Recovery.

/// Recovering a session is restoring its initialization segment and then, where a media segment was
/// published, resuming behind that: it succeeds exactly where both do, and leaves the session as it
/// was where one does not.
pub proof fn recovery_restores_and_resumes<
    R: Fn(&[u8]) -> Result<InitManifestReport, Error>,
    D: Fn(&[u8]) -> Result<SegmentInfoMap, String>,
    H: Fn(&c2pa_cbor::Value) -> Result<BmffHash, String>,
    V: Fn(&[u8], &c2pa_cbor::Value, u64) -> Result<(), String>,
>(
    signer: &mut LiveVideoVsiSigner,
    init: &[u8],
    read: R,
    previous: Option<&[u8]>,
    decode: D,
    decode_hash: H,
    verify: V,
    r: Result<(), Error>,
)
    requires
        call_ensures(
            LiveVideoVsiSigner::recover_from_artifacts::<R, D, H, V>,
            (signer, init, read, previous, decode, decode_hash, verify),
            r,
        ),
    ensures
        r is Err ==> final(signer)@ == old(signer)@,
        r is Ok ==> init_info(init@) is Ok && exists|
            report: InitManifestReport,
            id: Seq<char>,
            key: SessionKeyView,
            restored: Session,
        |
            #![trigger publishes_the_session_key(old(signer)@, report, id, key), taken_up_from(old(signer)@, restored, init_info(init@)->Ok_0, id, key)]
            publishes_the_session_key(old(signer)@, report, id, key) && was_read(
                init@,
                read,
                report,
            ) && taken_up_from(old(signer)@, restored, init_info(init@)->Ok_0, id, key)
                && if previous is Some {
                resume_outcome(
                    restored,
                    previous->Some_0@,
                    decode,
                    decode_hash,
                    verify,
                    final(signer)@,
                    Ok::<(), Error>(()),
                )
            } else {
                final(signer)@ == restored
            },
{
    reveal(restoring_outcome);
    if r is Ok {
        let session = old(signer)@;
        let (restored, first) = choose|restored: Session, first: Result<(), Error>| #[trigger]
            restoring_outcome(session, init@, read, restored, first) && first is Ok
                && match previous {
                None => final(signer)@ == restored,
                Some(segment) => exists|next: Session| #[trigger]
                    resume_outcome(
                        restored,
                        segment@,
                        decode,
                        decode_hash,
                        verify,
                        next,
                        r,
                    ) && final(signer)@ == next,
            };
        let report = choose|report: Result<InitManifestReport, Error>| #[trigger]
            init_reading_outcome(init@, read, report) && report is Ok
                && crate::vsi_signing::completed_init(
                session,
                init_info(init@)->Ok_0,
                report->Ok_0@,
            ) == Ok::<Session, Failure>(restored);
        assert(report == Ok::<InitManifestReport, Error>(report->Ok_0));
        checks_accept_what_publishes(session, report->Ok_0);
        let (id, key) = crate::vsi_signing::checked_init_manifest(session, report->Ok_0@)->Ok_0;
        assert(publishes_the_session_key(session, report->Ok_0, id, key));
        assert(taken_up_from(session, restored, init_info(init@)->Ok_0, id, key));
        assert(r->Ok_0 == ());
        assert(r == Ok::<(), Error>(()));
    }
}

} // verus!
