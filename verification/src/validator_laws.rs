//! What the validator promises of a stream.

use vstd::prelude::*;

use crate::bmff::{
    box_at, box_extent, boxes_from, has_kind, init_info, media_info, of_kind, BoxView,
};
use crate::bmff_faults::BoxKind;
use crate::cose::{encoded, Sign1View};
use crate::error::{agrees, Error, Failure};
use crate::segment_info::{vsi_message_of, vsi_outcome, ParsedVsi, SegmentInfoMap};
use crate::session_keys::{key_views, SessionKey, SessionKeyView};
use crate::signing::{begun, linked, LiveSignerState, LiveVideoSegment, SegmentClaim};
use crate::status_tracker::{
    item_views, logged, verdict, ErrorBehavior, ItemView, TrackerView,
};
use crate::validator::{
    assertion_fault, binding_views, bindings_asked, bound_keys, checked_outcome, holds_box_from,
    init_failures, init_state, key_item, key_place, keyed_state, opened_failures, opened_of,
    opened_result, opened_state, refused, segment_failures, segment_item, segment_outcome,
    session_key_failures, session_keys_outcome, vsi_validation_outcome, BindingCheck,
    ManifestChecks, OpenedView, SegmentState, SegmentStateView, ValidatorState, VsiChecks,
    UNKNOWN_KID,
};
use crate::verifiable_segment_info::{vsi_event, EmsgEvent};
use crate::vsi_laws::signed_segment_gives_its_event_back;
use crate::vsi_signing::{
    final_message, planned, planned_event, signed_segment, MediaPlanView, Session,
};

verus! {

/// A run of boxes that can be read to its end and has no box of a type holds none.
proof fn no_box_of_kind(data: Seq<u8>, pos: int, kind: BoxKind)
    requires
        0 <= pos <= data.len(),
        boxes_from(data, pos) matches Ok(boxes) && of_kind(boxes, kind).len() == 0,
    ensures
        !holds_box_from(data, pos, kind),
    decreases data.len() - pos,
{
    if pos < data.len() {
        let (header, end) = box_extent(data, pos)->Ok_0;
        let first = box_at(data, pos, header, end);
        let rest = boxes_from(data, end)->Ok_0;
        let pred = has_kind(kind);
        Seq::filter_distributes_over_add(seq![first], rest, pred);
        if first.code == kind.code() {
            reveal(Seq::filter);
            assert(seq![first].drop_last() =~= Seq::<BoxView>::empty());
            assert(seq![first].filter(pred).len() == 1);
        }
        no_box_of_kind(data, end, kind);
    }
}

/// Nothing is wrong with an initialization segment whose timing can be read.
pub proof fn readable_init_has_no_failures(segment: Seq<u8>)
    ensures
        init_failures(segment).len() == 0 <==> init_info(segment) is Ok,
{
    if init_info(segment) is Ok {
        no_box_of_kind(segment, 0, BoxKind::Mdat);
    }
}

/// An event identifier that was taken in the session is refused, whatever else the segment says.
pub proof fn taken_event_id_is_refused(
    state: ValidatorState,
    segment: Seq<u8>,
    opened: OpenedView,
    manifest: Seq<ItemView>,
    signature: Seq<ItemView>,
)
    requires
        state.seen_emsg_ids.contains(opened.event.id),
    ensures
        opened_failures(state, segment, opened, manifest, signature).len() > 0,
        opened_state(state, segment, opened, manifest, signature) == state,
{
}

/// A segment that was accepted is refused when it comes again.
pub proof fn accepted_segment_is_refused_again(
    state: ValidatorState,
    segment: Seq<u8>,
    opened: OpenedView,
    manifest: Seq<ItemView>,
    signature: Seq<ItemView>,
    later_manifest: Seq<ItemView>,
    later_signature: Seq<ItemView>,
)
    requires
        opened_failures(state, segment, opened, manifest, signature).len() == 0,
    ensures
        opened_failures(
            opened_state(state, segment, opened, manifest, signature),
            segment,
            opened,
            later_manifest,
            later_signature,
        ).len() > 0,
{
    taken_event_id_is_refused(
        opened_state(state, segment, opened, manifest, signature),
        segment,
        opened,
        later_manifest,
        later_signature,
    );
}

/// A segment that fails in any way leaves the state as it was; one that does not becomes the segment
/// that the next is held to.
pub proof fn only_accepted_segments_count(
    state: ValidatorState,
    segment: Seq<u8>,
    opened: OpenedView,
    manifest: Seq<ItemView>,
    signature: Seq<ItemView>,
)
    ensures
        signature.len() > 0 || manifest.len() > 0 ==> opened_state(
            state,
            segment,
            opened,
            manifest,
            signature,
        ) == state,
        opened_failures(state, segment, opened, manifest, signature).len() == 0 ==> opened_state(
            state,
            segment,
            opened,
            manifest,
            signature,
        ).previous_segment == Some(
            SegmentStateView {
                sequence_number: opened.sequence_number,
                stream_id: seq![],
                manifest_id: opened.manifest_id,
            },
        ),
{
}

/// An accepted segment says of its timing, its number and its track what the segment itself and the
/// initialization segment say.
pub proof fn accepted_segment_is_consistent(
    state: ValidatorState,
    segment: Seq<u8>,
    opened: OpenedView,
    manifest: Seq<ItemView>,
    signature: Seq<ItemView>,
)
    requires
        opened_failures(state, segment, opened, manifest, signature).len() == 0,
    ensures
        media_info(segment, state.init_default_sample_duration) matches Ok(media) && {
            &&& opened.sequence_number == media.sequence_number
            &&& opened.event.event_duration == media.duration_ticks
            &&& opened.event.presentation_time_delta == 0
            &&& opened.event.id != 0
            &&& state.init_timescale == Some(opened.event.timescale)
            &&& state.init_track_id is Some ==> state.init_track_id == Some(media.track_id)
        },
{
}

/// An initialization segment starts the stream over: the state behind it does not depend on what
/// came before, so no key, no identifier and no predecessor survives it.
pub proof fn init_starts_over(segment: Seq<u8>)
    ensures
        init_state(segment).previous_segment is None,
        init_state(segment).session_keys.len() == 0,
        init_state(segment).expected_manifest_id is None,
        init_state(segment).manifest_box_init_id is None,
        init_state(segment).seen_emsg_ids == Set::<u32>::empty(),
{
}

/// Every key that is kept was published by the assertion, and its binding was verified.
pub proof fn kept_keys_are_bound(
    keys: Seq<SessionKeyView>,
    bindings: Seq<(Seq<ItemView>, bool)>,
    n: int,
    key: SessionKeyView,
)
    requires
        0 <= n <= keys.len(),
        bound_keys(keys, bindings, n).contains(key),
    ensures
        exists|i: int| 0 <= i < n && keys[i] == key && (#[trigger] bindings[i]).1,
    decreases n,
{
    if n > 0 {
        let shorter = bound_keys(keys, bindings, n - 1);
        if bindings[n - 1].1 && key == keys[n - 1] {
            assert(bindings[n - 1].1);
        } else {
            assert(shorter.contains(key)) by {
                let i = choose|i: int|
                    0 <= i < bound_keys(keys, bindings, n).len() && bound_keys(keys, bindings, n)[i]
                        == key;
                assert(shorter[i] == key);
            }
            kept_keys_are_bound(keys, bindings, n - 1, key);
        }
    }
}

/// Without the certificate of the manifest signer no key is kept.
pub proof fn no_key_is_kept_without_certificate(
    state: ValidatorState,
    tracker: TrackerView,
    keys: Seq<SessionKeyView>,
    manifest_id: Seq<char>,
    bindings: Seq<(Seq<ItemView>, bool)>,
)
    ensures
        session_key_failures(keys, manifest_id, false, bindings).len() == 1,
        keyed_state(state, tracker, keys, manifest_id, false, bindings).session_keys.len() == 0,
        keyed_state(state, tracker, keys, manifest_id, false, bindings).expected_manifest_id
            is None,
{
}

/// Where failures do not end a validation, it succeeds and all of them are logged; where they do, it
/// fails exactly if there is one, and the first is logged.
pub proof fn failures_are_logged(tracker: TrackerView, failures: Seq<ItemView>)
    ensures
        tracker.behavior == ErrorBehavior::ContinueWhenPossible ==> verdict(tracker, failures) is Ok
            && logged(tracker, failures).failures == tracker.failures + failures,
        tracker.behavior == ErrorBehavior::StopOnFirstError ==> (verdict(tracker, failures) is Err
            <==> failures.len() > 0),
        logged(tracker, failures).failures.len() > tracker.failures.len() <==> failures.len() > 0,
{
}

/// The first media segment must refer to the initialization segment, where one is registered.
pub proof fn first_segment_must_refer_to_init(
    state: ValidatorState,
    claim: SegmentClaim,
    layout: Seq<ItemView>,
    sequence: Seq<ItemView>,
)
    requires
        state.previous_segment is None,
        state.manifest_box_init_id is Some,
        segment_failures(state, claim, layout, sequence).len() == 0,
    ensures
        claim.previous_manifest_id == state.manifest_box_init_id,
{
}

/// The timescale of an initialization segment that can be read is not zero.
proof fn timescale_is_not_zero(segment: Seq<u8>)
    requires
        init_info(segment) is Ok,
    ensures
        init_info(segment)->Ok_0.timescale != 0,
{
}

/// A segment that a session signed passes every check that the validator itself makes, where the
/// validator has seen the initialization segment of the session and not yet the event identifier;
/// so it becomes the segment that the next is held to, unless the host finds something wrong.
pub proof fn signed_segment_is_accepted(
    session: Session,
    init: Seq<u8>,
    plan: MediaPlanView,
    draft_size: nat,
    payload: Seq<u8>,
    segment: Seq<u8>,
    signed: Seq<u8>,
    state: ValidatorState,
)
    requires
        session.valid(),
        init_info(init) is Ok,
        session.track_id == Some(init_info(init)->Ok_0.track_id),
        session.track_timescale == Some(init_info(init)->Ok_0.timescale),
        session.default_sample_duration == init_info(init)->Ok_0.default_sample_duration,
        planned(session, segment, plan.iat) == Ok::<MediaPlanView, Failure>(plan),
        signed_segment(session, plan, draft_size, payload, segment) == Ok::<Seq<u8>, Failure>(
            signed,
        ),
        signed.len() <= usize::MAX,
        state.init_track_id == init_state(init).init_track_id,
        state.init_timescale == init_state(init).init_timescale,
        state.init_default_sample_duration == init_state(init).init_default_sample_duration,
        !state.seen_emsg_ids.contains(plan.id),
    ensures
        ({
            let event = planned_event(plan, final_message(session, plan, payload));
            let opened = OpenedView {
                sequence_number: plan.sequence_number,
                manifest_id: plan.manifest_id,
                event,
            };
            &&& vsi_event(signed) == Ok::<Option<EmsgEvent>, Failure>(Some(event))
            &&& opened_failures(state, signed, opened, seq![], seq![]).len() == 0
            &&& opened_state(state, signed, opened, seq![], seq![]).previous_segment == Some(
                SegmentStateView {
                    sequence_number: plan.sequence_number,
                    stream_id: seq![],
                    manifest_id: plan.manifest_id,
                },
            )
        }),
{
    timescale_is_not_zero(init);
    signed_segment_gives_its_event_back(session, plan, draft_size, payload, segment, signed);
}

/// A segment that a session signed passes validation, where the validator has seen the
/// initialization segment of the session, keeps its key and has not yet seen the event identifier,
/// and the host reads back what it wrote and finds nothing wrong.
///
/// The message must be read as it was written, which [`parse_vsi`] promises.
///
/// [`parse_vsi`]: crate::segment_info::parse_vsi
pub proof fn signed_segment_passes_validation<
    D: Fn(&[u8]) -> Result<SegmentInfoMap, String>,
    C: Fn(&ParsedVsi, &[u8], &SessionKey, Option<&SegmentState>, Option<&str>) -> VsiChecks,
>(
    session: Session,
    init: Seq<u8>,
    plan: MediaPlanView,
    draft_size: nat,
    payload: Seq<u8>,
    segment: Seq<u8>,
    signed: Seq<u8>,
    state: ValidatorState,
    tracker: TrackerView,
    decode: D,
    check: C,
    after: ValidatorState,
    tracker_after: TrackerView,
    r: Result<(), Error>,
)
    requires
        session.valid(),
        init_info(init) is Ok,
        session.track_id == Some(init_info(init)->Ok_0.track_id),
        session.track_timescale == Some(init_info(init)->Ok_0.timescale),
        session.default_sample_duration == init_info(init)->Ok_0.default_sample_duration,
        planned(session, segment, plan.iat) == Ok::<MediaPlanView, Failure>(plan),
        signed_segment(session, plan, draft_size, payload, segment) == Ok::<Seq<u8>, Failure>(
            signed,
        ),
        signed.len() <= usize::MAX,
        vsi_message_of(encoded(final_message(session, plan, payload))) == Ok::<Sign1View, Failure>(
            final_message(session, plan, payload),
        ),
        forall|bytes: &[u8], decoded: Result<SegmentInfoMap, String>| #[trigger]
            call_ensures(decode, (bytes,), decoded) && bytes@ == payload ==> decoded is Ok
                && decoded->Ok_0@.sequence_number == plan.sequence_number
                && decoded->Ok_0@.manifest_id == plan.manifest_id,
        state.init_track_id == init_state(init).init_track_id,
        state.init_timescale == init_state(init).init_timescale,
        state.init_default_sample_duration == init_state(init).init_default_sample_duration,
        !state.seen_emsg_ids.contains(plan.id),
        key_place(state.session_keys, session.kid, 0) is Some,
        forall|
            parsed: &ParsedVsi,
            data: &[u8],
            key: &SessionKey,
            previous: Option<&SegmentState>,
            expected_id: Option<&str>,
            checks: VsiChecks,
        | #[trigger]
            call_ensures(check, (parsed, data, key, previous, expected_id), checks) && data@
                == signed ==> checks.manifest@.len() == 0 && checks.signature@.len() == 0,
        vsi_validation_outcome(
            state,
            tracker,
            signed,
            decode,
            check,
            after,
            tracker_after,
            r,
        ),
    ensures
        r is Ok,
        tracker_after == tracker,
        after.previous_segment == Some(
            SegmentStateView {
                sequence_number: plan.sequence_number,
                stream_id: seq![],
                manifest_id: plan.manifest_id,
            },
        ),
        after.seen_emsg_ids == state.seen_emsg_ids.insert(plan.id),
{
    signed_segment_is_accepted(session, init, plan, draft_size, payload, segment, signed, state);
    let message = final_message(session, plan, payload);
    let event = planned_event(plan, message);
    assert(state.session_keys.len() > 0);
    let parsed = choose|parsed: Result<ParsedVsi, Error>| #[trigger]
        vsi_outcome(event.message_data, decode, parsed) && match parsed {
            Err(e) => refused(
                state,
                tracker,
                segment_item(e@.text()),
                after,
                tracker_after,
                r,
            ),
            Ok(p) => match key_place(state.session_keys, p.sign1@.key_id, 0) {
                None => refused(state, tracker, key_item(UNKNOWN_KID@), after, tracker_after, r),
                Some(i) => checked_outcome(
                    state,
                    tracker,
                    signed,
                    event,
                    p,
                    state.session_keys[i],
                    check,
                    after,
                    tracker_after,
                    r,
                ),
            },
        };
    assert(parsed is Ok);
    let p = parsed->Ok_0;
    assert(p.segment_info_map@.sequence_number == plan.sequence_number);
    assert(opened_of(event, p) == (OpenedView {
        sequence_number: plan.sequence_number,
        manifest_id: plan.manifest_id,
        event,
    }));
    let nothing = Seq::<ItemView>::empty();
    assert forall|checks: VsiChecks|
        checks.manifest@.len() == 0 && checks.signature@.len() == 0 implies (#[trigger] item_views(
        checks.manifest@,
    )) =~= nothing && (#[trigger] item_views(checks.signature@)) =~= nothing by {}
    assert(opened_result(
        state,
        tracker,
        signed,
        opened_of(event, p),
        nothing,
        nothing,
        after,
        tracker_after,
        r,
    ));
    assert(tracker.failures + nothing =~= tracker.failures);
}

/// A segment without the event of Verifiable Segment Info is refused, and so is every segment before
/// session keys were validated: the validation fails, one failure is logged, and the state stays as
/// it was.
pub proof fn unopened_segment_is_refused<
    D: Fn(&[u8]) -> Result<SegmentInfoMap, String>,
    C: Fn(&ParsedVsi, &[u8], &SessionKey, Option<&SegmentState>, Option<&str>) -> VsiChecks,
>(
    state: ValidatorState,
    tracker: TrackerView,
    segment: Seq<u8>,
    decode: D,
    check: C,
    after: ValidatorState,
    tracker_after: TrackerView,
    r: Result<(), Error>,
)
    requires
        state.session_keys.len() == 0 || vsi_event(segment) is Err || vsi_event(segment)->Ok_0
            is None,
        vsi_validation_outcome(
            state,
            tracker,
            segment,
            decode,
            check,
            after,
            tracker_after,
            r,
        ),
    ensures
        r is Err,
        tracker_after.failures.len() == tracker.failures.len() + 1,
        after == state,
{
}

/// A segment with Verifiable Segment Info whose validation fails, or of which a failure is logged,
/// leaves the whole state as it was, whatever the host answers.
pub proof fn rejected_vsi_segment_changes_nothing<
    D: Fn(&[u8]) -> Result<SegmentInfoMap, String>,
    C: Fn(&ParsedVsi, &[u8], &SessionKey, Option<&SegmentState>, Option<&str>) -> VsiChecks,
>(
    state: ValidatorState,
    tracker: TrackerView,
    segment: Seq<u8>,
    decode: D,
    check: C,
    after: ValidatorState,
    tracker_after: TrackerView,
    r: Result<(), Error>,
)
    requires
        vsi_validation_outcome(
            state,
            tracker,
            segment,
            decode,
            check,
            after,
            tracker_after,
            r,
        ),
        r is Err || tracker_after.failures.len() > tracker.failures.len(),
    ensures
        after == state,
{
}

/// A segment with a manifest of its own whose validation fails, or of which a failure is logged,
/// leaves the whole state as it was, whatever the host answers.
pub proof fn rejected_segment_changes_nothing<
    C: Fn(&[u8], &str, &LiveVideoSegment, Option<&SegmentState>) -> ManifestChecks,
>(
    state: ValidatorState,
    tracker: TrackerView,
    segment: Seq<u8>,
    manifest_id: Seq<char>,
    claim: SegmentClaim,
    check: C,
    after: ValidatorState,
    tracker_after: TrackerView,
    r: Result<(), Error>,
)
    requires
        segment_outcome(
            state,
            tracker,
            segment,
            manifest_id,
            claim,
            check,
            after,
            tracker_after,
            r,
        ),
        r is Err || tracker_after.failures.len() > tracker.failures.len(),
    ensures
        after == state,
{
}

/// Behind a session-keys assertion, every key that is kept is one of the assertion, and the host
/// verified its binding to the certificate.
pub proof fn every_kept_key_was_verified<V: Fn(&SessionKey, &[u8]) -> BindingCheck>(
    state: ValidatorState,
    tracker: TrackerView,
    keys: Seq<SessionKey>,
    manifest_id: Seq<char>,
    ee_cert_der: Option<&[u8]>,
    verify: V,
    after: ValidatorState,
    tracker_after: TrackerView,
    r: Result<(), Error>,
    key: SessionKeyView,
)
    requires
        session_keys_outcome(
            state,
            tracker,
            keys,
            manifest_id,
            ee_cert_der,
            verify,
            after,
            tracker_after,
            r,
        ),
        after.session_keys.contains(key),
    ensures
        ee_cert_der is Some,
        exists|i: int, check: BindingCheck|
            0 <= i < keys.len() && keys[i]@ == key && check.verified && #[trigger] call_ensures(
                verify,
                (&keys[i], ee_cert_der->Some_0),
                check,
            ),
{
    let all = key_views(keys);
    let checks = choose|checks: Seq<BindingCheck>|
        {
            let bindings = #[trigger] binding_views(checks);
            let failures = session_key_failures(all, manifest_id, ee_cert_der is Some, bindings);
            &&& assertion_fault(all, manifest_id, ee_cert_der is Some) is None ==> bindings_asked(
                keys,
                ee_cert_der->Some_0,
                verify,
                checks,
            )
            &&& tracker_after == logged(tracker, failures)
            &&& agrees(r, verdict(tracker, failures))
            &&& after == keyed_state(
                state,
                tracker,
                all,
                manifest_id,
                ee_cert_der is Some,
                bindings,
            )
        };
    let bindings = binding_views(checks);
    kept_keys_are_bound(all, bindings, all.len() as int, key);
    let i = choose|i: int|
        0 <= i < all.len() && all[i] == key && (#[trigger] bindings[i]).1;
    assert(checks[i].verified);
    assert(call_ensures(verify, (&keys[i], ee_cert_der->Some_0), checks[i]));
}

/// The first media segment that a signer signs behind its initialization segment passes every check
/// that the validator itself makes, where the validator has registered that initialization segment.
pub proof fn first_linked_segment_is_accepted(
    signer: LiveSignerState,
    manifest_id: Seq<char>,
    segment: Seq<u8>,
    state: ValidatorState,
    sequence: Seq<ItemView>,
)
    requires
        state.previous_segment is None,
        state.manifest_box_init_id == Some(manifest_id),
        begun(linked(signer, manifest_id), segment).1 is Ok,
    ensures
        segment_failures(
            state,
            begun(linked(signer, manifest_id), segment).1->Ok_0,
            seq![],
            sequence,
        ).len() == 0,
{
}

} // verus!
