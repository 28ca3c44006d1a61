//! How the states of a [`LiveVideoVsiSigner`](crate::vsi_signing::LiveVideoVsiSigner) follow each
//! other, and what a signed segment gives back.

use vstd::prelude::*;

use crate::bmff::{media_info, InitSegmentInfo};
use crate::cbor::cbor_encoding;
use crate::certificates::pem_contents;
use crate::clock::utc_seconds;
use crate::cose::{
    claimed_time, decoded_sign1, encoded, is_iat, message_alg, signature_input, LabelView,
    Sign1View, SigningAlg, IAT_LABEL,
};
use crate::ed25519::{ed25519_check, SIGNATURE_LENGTH};
use crate::emsg_laws::{prepended_event_is_read_back, prepended_event_keeps_timing};
use crate::error::{Error, Failure};
use crate::manifest_report::{first_integrity_failure, is_c2pa_urn};
use crate::segment_info::{
    checked_hash, comparison_outcome, hash_outcome, vsi_message_of, vsi_outcome, BmffHash,
    ParsedVsi, SegmentInfo, SegmentInfoMap, BMFF_HASH_VERSION,
};
use crate::session_keys::{
    binding_header, binding_input, binding_message, key_metadata, key_valid_at, SessionKeys,
};
use crate::verifiable_segment_info::{
    built_emsg_box, emsg_body, emsg_box_bytes, vsi_candidates, vsi_event, EmsgEvent,
};
use crate::vsi_signing::{
    after_segment, checked_resume, completed_init, draft_message, final_message,
    init_reading_outcome, init_signing_outcome, message_input, parsed_resume_outcome, planned,
    planned_event, planned_info, restoring_outcome, resume_outcome, resumed, session_key,
    signed_segment, vsi_header, vsi_signature, InitManifestReport, InitReportView, MediaPlanView,
    Session,
};

verus! {

/// Consecutive segments get consecutive numbers and consecutive event identifiers, and speak of the
/// same manifest in the same timescale.
pub proof fn segments_are_numbered_in_turn(
    session: Session,
    first: Seq<u8>,
    first_iat: i64,
    second: Seq<u8>,
    second_iat: i64,
)
    requires
        planned(session, first, first_iat) is Ok,
    ensures
        ({
            let plan = planned(session, first, first_iat)->Ok_0;
            planned(after_segment(session, plan), second, second_iat) matches Ok(next) ==> {
                &&& next.sequence_number == plan.sequence_number + 1
                &&& next.id == plan.id + 1
                &&& next.manifest_id == plan.manifest_id
                &&& next.timescale == plan.timescale
            }
        }),
{
}

/// A session stays valid behind each segment, so no event identifier is zero and no number falls
/// below the first for which the key is valid.
pub proof fn planned_segments_are_in_range(session: Session, segment: Seq<u8>, iat: i64)
    requires
        session.valid(),
        planned(session, segment, iat) is Ok,
    ensures
        planned(session, segment, iat)->Ok_0.id >= 1,
        planned(session, segment, iat)->Ok_0.sequence_number >= session.min_sequence_number,
        planned(session, segment, iat)->Ok_0.sequence_number <= u32::MAX,
        after_segment(session, planned(session, segment, iat)->Ok_0).valid(),
{
}

/// No media segment is signed before an initialization segment.
pub proof fn nothing_is_planned_without_init(session: Session, segment: Seq<u8>, iat: i64)
    requires
        session.active_manifest_id is None || session.track_id is None
            || session.track_timescale is None,
    ensures
        planned(session, segment, iat) is Err,
{
}

/// A segment that carries VSI is not signed again.
pub proof fn nothing_is_signed_twice(session: Session, segment: Seq<u8>, iat: i64)
    requires
        vsi_candidates(segment).len() > 0,
    ensures
        planned(session, segment, iat) is Err,
{
}

/// A key is valid exactly from its creation to the end of its validity period, both included.
pub proof fn key_is_valid_within_its_period(
    created_at: Seq<char>,
    created: i64,
    validity_period: u64,
    time: i64,
)
    requires
        utc_seconds(created_at) == Some(created),
        created + validity_period <= i64::MAX,
        validity_period <= i64::MAX,
    ensures
        key_valid_at(created_at, validity_period, time) is Ok <==> created <= time <= created
            + validity_period,
{
}

/// Taking up the same initialization segment a second time changes nothing.
pub proof fn init_is_taken_up_once(
    session: Session,
    info: InitSegmentInfo,
    report: InitReportView,
)
    requires
        completed_init(session, info, report) is Ok,
    ensures
        completed_init(completed_init(session, info, report)->Ok_0, info, report)
            == completed_init(session, info, report),
{
}

/// The initialization segment that a session signed is taken up by the session, and the counters
/// stay as they are: where the host reads back the key that was published and the certificate that
/// signed it, the binding is read as it was written and passes the strict check, and the validity
/// period of the key can be told.
pub proof fn own_init_is_taken_up(
    session: Session,
    info: InitSegmentInfo,
    report: InitReportView,
    certs: Seq<Seq<u8>>,
)
    requires
        session.valid(),
        first_integrity_failure(report.statuses) is None,
        report.manifest is Some,
        report.manifest->Some_0.label is Some,
        is_c2pa_urn(report.manifest->Some_0.label->Some_0),
        report.manifest->Some_0.session_keys == Some(seq![session_key(session)]),
        session.signer_binding == encoded(binding_message(session.seed, session.cert)),
        report.manifest->Some_0.cert_chain is Some,
        pem_contents(report.manifest->Some_0.cert_chain->Some_0) == Ok::<Seq<Seq<u8>>, Seq<char>>(
            certs,
        ),
        certs.len() > 0,
        certs[0] == session.cert,
        decoded_sign1(encoded(binding_message(session.seed, session.cert))) == Ok::<
            Sign1View,
            Seq<char>,
        >(binding_message(session.seed, session.cert)),
        binding_message(session.seed, session.cert).signature.len() == SIGNATURE_LENGTH,
        ed25519_check(
            session.seed,
            binding_input(binding_header(), session.cert),
            binding_message(session.seed, session.cert).signature,
        ) is Ok,
        key_metadata(session_key(session)) is Ok,
    ensures
        completed_init(session, info, report) == Ok::<Session, Failure>(
            Session {
                active_manifest_id: report.manifest->Some_0.label,
                track_id: Some(info.track_id),
                track_timescale: Some(info.timescale),
                default_sample_duration: info.default_sample_duration,
                ..session
            },
        ),
{
    let message = binding_message(session.seed, session.cert);
    assert(message_alg(message) == Some(SigningAlg::Ed25519));
}

/// Restoring a signed initialization segment gives a session the identifier that signing the segment
/// gave the session before it, and the same published key metadata; where it is refused, nothing
/// changes. The hosts must read one report from one segment.
pub proof fn restored_session_has_the_signed_manifest<
    S: Fn(&str, &SessionKeys, &[u8]) -> Result<Vec<u8>, Error>,
    R: Fn(&[u8]) -> Result<InitManifestReport, Error>,
    Q: Fn(&[u8]) -> Result<InitManifestReport, Error>,
>(
    earlier: Session,
    segment: Seq<u8>,
    certs: Result<Seq<Seq<u8>>, Seq<char>>,
    sign: S,
    read: R,
    earlier_after: Session,
    signed: Vec<u8>,
    session: Session,
    read_again: Q,
    after: Session,
    r: Result<(), Error>,
)
    requires
        init_signing_outcome(
            earlier,
            segment,
            certs,
            sign,
            read,
            earlier_after,
            Ok::<Vec<u8>, Error>(signed),
        ),
        restoring_outcome(session, signed@, read_again, after, r),
        forall|x: Result<InitManifestReport, Error>, y: Result<InitManifestReport, Error>|
            #[trigger] init_reading_outcome(signed@, read, x) && #[trigger] init_reading_outcome(
                signed@,
                read_again,
                y,
            ) && x is Ok && y is Ok ==> x->Ok_0@ == y->Ok_0@,
    ensures
        r is Ok ==> {
            &&& after.active_manifest_id is Some
            &&& after.active_manifest_id == earlier_after.active_manifest_id
            &&& after.min_sequence_number == earlier_after.min_sequence_number
            &&& after.created_at == earlier_after.created_at
            &&& after.validity_period == earlier_after.validity_period
            &&& after.signer_binding == earlier_after.signer_binding
        },
        r is Err ==> after == session,
{
    reveal(restoring_outcome);
}

/// The event messages of the draft and of the finished segment have the same size wherever their
/// payloads have.
pub proof fn draft_has_the_final_size(
    session: Session,
    plan: MediaPlanView,
    draft_payload: Seq<u8>,
    payload: Seq<u8>,
    segment: Seq<u8>,
)
    requires
        draft_payload.len() == payload.len(),
        vsi_signature(session.seed, plan.iat, payload).len() == SIGNATURE_LENGTH,
        built_emsg_box(
            planned_event(plan, draft_message(session.kid, plan, draft_payload)),
        ) is Ok,
    ensures
        signed_segment(
            session,
            plan,
            built_emsg_box(
                planned_event(plan, draft_message(session.kid, plan, draft_payload)),
            )->Ok_0.len(),
            payload,
            segment,
        ) is Ok,
{
    let draft = draft_message(session.kid, plan, draft_payload);
    let last = final_message(session, plan, payload);
    assert(encoded(draft).len() == encoded(last).len());
    let a = planned_event(plan, draft);
    let b = planned_event(plan, last);
    assert(emsg_body(a).len() == emsg_body(b).len());
    assert(emsg_box_bytes(a).len() == emsg_box_bytes(b).len());
}

/// The event of a signed segment is the planned one, with the signed message, and the timing of the
/// segment is that of the segment before it was signed.
pub proof fn signed_segment_gives_its_event_back(
    session: Session,
    plan: MediaPlanView,
    draft_size: nat,
    payload: Seq<u8>,
    segment: Seq<u8>,
    signed: Seq<u8>,
)
    requires
        planned(session, segment, plan.iat) == Ok::<MediaPlanView, Failure>(plan),
        signed_segment(session, plan, draft_size, payload, segment) == Ok::<Seq<u8>, Failure>(
            signed,
        ),
        signed.len() <= usize::MAX,
    ensures
        vsi_event(signed) == Ok::<Option<EmsgEvent>, Failure>(
            Some(planned_event(plan, final_message(session, plan, payload))),
        ),
        media_info(signed, session.default_sample_duration) == media_info(
            segment,
            session.default_sample_duration,
        ),
{
    let event = planned_event(plan, final_message(session, plan, payload));
    assert(signed == emsg_box_bytes(event) + segment);
    prepended_event_is_read_back(event, segment);
    prepended_event_keeps_timing(event, segment, session.default_sample_duration);
}

/// The signed message claims the time at which it was signed.
proof fn final_message_claims_its_time(session: Session, plan: MediaPlanView, payload: Seq<u8>)
    ensures
        claimed_time(final_message(session, plan, payload).entries) == Ok::<i64, Failure>(plan.iat),
{
    let entry = (LabelView::Text(IAT_LABEL@), Some(plan.iat as i128));
    let entries = final_message(session, plan, payload).entries;
    assert(entries == seq![entry]);
    reveal(Seq::filter);
    assert(seq![entry].drop_last() =~= Seq::<(LabelView, Option<i128>)>::empty());
    assert(seq![entry].drop_last().filter(is_iat()) =~= Seq::<(LabelView, Option<i128>)>::empty());
    assert(seq![entry].filter(is_iat()) =~= seq![entry]);
}

/// Two states of one session: they may differ in the counters, and in what is written into the
/// initialization segment.
pub open spec fn same_session(a: Session, b: Session) -> bool {
    &&& a.seed == b.seed
    &&& a.kid == b.kid
    &&& a.created_at == b.created_at
    &&& a.validity_period == b.validity_period
    &&& a.min_sequence_number == b.min_sequence_number
    &&& a.active_manifest_id == b.active_manifest_id
    &&& a.track_id == b.track_id
    &&& a.track_timescale == b.track_timescale
    &&& a.default_sample_duration == b.default_sample_duration
}

/// A session resumes behind any segment that it signed, and goes on where it was: its counters are
/// those behind that segment.
///
/// The signature must pass the strict check, and the segment info map must be read as it was
/// written.
pub proof fn session_resumes_behind_its_segment(
    earlier: Session,
    session: Session,
    plan: MediaPlanView,
    draft_size: nat,
    payload: Seq<u8>,
    bmff_hash: Seq<u8>,
    segment: Seq<u8>,
    signed: Seq<u8>,
)
    requires
        earlier.valid(),
        same_session(earlier, session),
        planned(earlier, segment, plan.iat) == Ok::<MediaPlanView, Failure>(plan),
        signed_segment(earlier, plan, draft_size, payload, segment) == Ok::<Seq<u8>, Failure>(
            signed,
        ),
        signed.len() <= usize::MAX,
        vsi_signature(earlier.seed, plan.iat, payload).len() == SIGNATURE_LENGTH,
        ed25519_check(
            session.seed,
            message_input(final_message(earlier, plan, payload)),
            vsi_signature(earlier.seed, plan.iat, payload),
        ) is Ok,
    ensures
        ({
            let message = final_message(earlier, plan, payload);
            let event = planned_event(plan, message);
            &&& checked_resume(session, signed, event, message, planned_info(plan, bmff_hash))
                == Ok::<(), Failure>(())
            &&& resumed(session, plan.sequence_number, event.id).1 is Ok
            &&& resumed(session, plan.sequence_number, event.id).0.next_sequence_number
                == after_segment(earlier, plan).next_sequence_number
            &&& resumed(session, plan.sequence_number, event.id).0.next_event_id == after_segment(
                earlier,
                plan,
            ).next_event_id
        }),
{
    signed_segment_gives_its_event_back(earlier, plan, draft_size, payload, segment, signed);
    final_message_claims_its_time(earlier, plan, payload);
    let message = final_message(earlier, plan, payload);
    assert(message_alg(message) == Some(SigningAlg::Ed25519));
    assert(message_input(message) == signature_input(
        vsi_header(plan.iat),
        seq![],
        payload,
    ));
}

/// Whether a host reads back what it wrote: the segment info map in `payload`, with a hash that it
/// can decode, that leaves the VSI event message out, and that matches the segment.
pub open spec fn host_reads_back<
    D: Fn(&[u8]) -> Result<SegmentInfoMap, String>,
    H: Fn(&c2pa_cbor::Value) -> Result<BmffHash, String>,
    V: Fn(&[u8], &c2pa_cbor::Value, u64) -> Result<(), String>,
>(
    payload: Seq<u8>,
    info: SegmentInfo,
    signed: Seq<u8>,
    decode: D,
    decode_hash: H,
    verify: V,
) -> bool {
    &&& forall|bytes: &[u8], decoded: Result<SegmentInfoMap, String>| #[trigger]
        call_ensures(decode, (bytes,), decoded) && bytes@ == payload ==> decoded is Ok
            && decoded->Ok_0@ == info
    &&& forall|value: c2pa_cbor::Value, decoded: Result<BmffHash, String>| #[trigger]
        call_ensures(decode_hash, (&value,), decoded) && cbor_encoding(value) == info.bmff_hash
            ==> decoded is Ok && checked_hash(decoded->Ok_0@) is Ok
    &&& forall|data: &[u8], value: c2pa_cbor::Value, compared: Result<(), String>| #[trigger]
        call_ensures(verify, (data, &value, BMFF_HASH_VERSION), compared) && data@ == signed
            && cbor_encoding(value) == info.bmff_hash ==> compared is Ok
}

/// Resuming behind a segment that the session signed succeeds, and gives the session the counters
/// that it had behind that segment.
///
/// The host must read back what it wrote; the message must be read as it was written, which
/// [`parse_vsi`] promises; and the signature must pass the strict check, which
/// [`check_resumed_signature`] promises but for a signature whose first half is the encoding of the
/// neutral point.
///
/// [`parse_vsi`]: crate::segment_info::parse_vsi
/// [`check_resumed_signature`]: crate::vsi_signing::LiveVideoVsiSigner::check_resumed_signature
pub proof fn signing_then_resuming_restores_the_counters<
    D: Fn(&[u8]) -> Result<SegmentInfoMap, String>,
    H: Fn(&c2pa_cbor::Value) -> Result<BmffHash, String>,
    V: Fn(&[u8], &c2pa_cbor::Value, u64) -> Result<(), String>,
>(
    earlier: Session,
    session: Session,
    plan: MediaPlanView,
    draft_size: nat,
    payload: Seq<u8>,
    bmff_hash: Seq<u8>,
    segment: Seq<u8>,
    signed: Seq<u8>,
    decode: D,
    decode_hash: H,
    verify: V,
    after: Session,
    r: Result<(), Error>,
)
    requires
        earlier.valid(),
        same_session(earlier, session),
        planned(earlier, segment, plan.iat) == Ok::<MediaPlanView, Failure>(plan),
        signed_segment(earlier, plan, draft_size, payload, segment) == Ok::<Seq<u8>, Failure>(
            signed,
        ),
        signed.len() <= usize::MAX,
        vsi_signature(earlier.seed, plan.iat, payload).len() == SIGNATURE_LENGTH,
        ed25519_check(
            session.seed,
            message_input(final_message(earlier, plan, payload)),
            vsi_signature(earlier.seed, plan.iat, payload),
        ) is Ok,
        vsi_message_of(encoded(final_message(earlier, plan, payload))) == Ok::<Sign1View, Failure>(
            final_message(earlier, plan, payload),
        ),
        host_reads_back(
            payload,
            planned_info(plan, bmff_hash),
            signed,
            decode,
            decode_hash,
            verify,
        ),
        resume_outcome(session, signed, decode, decode_hash, verify, after, r),
    ensures
        r is Ok,
        after == (Session {
            next_sequence_number: after_segment(earlier, plan).next_sequence_number,
            next_event_id: after_segment(earlier, plan).next_event_id,
            ..session
        }),
{
    reveal(resume_outcome);
    let message = final_message(earlier, plan, payload);
    let event = planned_event(plan, message);
    signed_segment_gives_its_event_back(earlier, plan, draft_size, payload, segment, signed);
    session_resumes_behind_its_segment(
        earlier,
        session,
        plan,
        draft_size,
        payload,
        bmff_hash,
        segment,
        signed,
    );
    let parsed = choose|parsed: Result<ParsedVsi, Error>| #[trigger]
        vsi_outcome(event.message_data, decode, parsed) && match parsed {
            Err(e) => r == Err::<(), Error>(e) && after == session,
            Ok(p) => parsed_resume_outcome(
                session,
                signed,
                event,
                p,
                decode_hash,
                verify,
                after,
                r,
            ),
        };
    assert(parsed is Ok);
    let p = parsed->Ok_0;
    assert(p.segment_info_map@ == planned_info(plan, bmff_hash));
    let value = p.segment_info_map.bmff_hash;
    assert(cbor_encoding(value) == bmff_hash);
    assert forall|compared: Result<(), Error>| #[trigger]
        hash_outcome(signed, value, decode_hash, verify, compared) implies compared is Ok by {
        let decoded = choose|decoded: Result<BmffHash, String>| #[trigger]
            call_ensures(decode_hash, (&value,), decoded) && match decoded {
                Err(words) => compared matches Err(e) && e@ == Failure::BadParam(
                    "invalid resumed VSI bmffHash: "@ + words@,
                ),
                Ok(hash) => match checked_hash(hash@) {
                    Err(failure) => compared matches Err(e) && e@ == failure,
                    Ok(_) => comparison_outcome(signed, value, verify, compared),
                },
            };
        assert(comparison_outcome(signed, value, verify, compared));
    }
}

} // verus!
