//! What a validation answers, by what is handed to it and what comes back.

use vstd::prelude::*;

use crate::bmff::media_info;
use crate::error::{Error, Failure};
use crate::segment_info::{vsi_outcome, ParsedVsi, SegmentInfoMap};
use crate::session_keys::{key_views, SessionKey, SessionKeyView, SessionKeys};
use crate::signing::LiveVideoSegment;
use crate::status_tracker::{
    item_views, ErrorBehavior, ItemView, StatusTracker, TrackerView, LIVEVIDEO_SEGMENT_INVALID,
};
use crate::validator::{
    BindingCheck, LiveVideoValidator, ManifestChecks, OpenedVsi, SegmentState, SegmentStateView,
    ValidatorState, VsiChecks,
};
use crate::verifiable_segment_info::{vsi_event, EmsgEvent};

verus! {

/// A text is an identifier of a manifest exactly if it is longer than the prefix `urn:c2pa:` and
/// starts with it.
pub proof fn identifier_is_prefix_and_more(id: &str, r: bool)
    requires
        call_ensures(crate::manifest_report::check_c2pa_urn, (id,), r),
    ensures
        r <==> id@.len() > 9 && id@.take(9) == "urn:c2pa:"@,
        r == crate::manifest_report::is_c2pa_urn(id@),
{
    identifier_shape(id@);
}

pub proof fn identifier_shape(id: Seq<char>)
    ensures
        crate::manifest_report::is_c2pa_urn(id) <==> id.len() > 9 && id.take(9) == "urn:c2pa:"@,
{
    reveal_strlit("urn:c2pa:");
    let prefix = "urn:c2pa:"@;
    assert(prefix.len() == 9);
    if id.len() == 9 && id.take(9) == prefix {
        assert(id.take(9) =~= id);
    }
    if id.len() > 9 {
        assert(id != prefix);
    }
}

/// The failures that a call logged.
pub open spec fn newly_logged(before: TrackerView, after: TrackerView) -> Seq<ItemView> {
    after.failures.skip(before.failures.len() as int)
}

/// Whether a call only added to the log.
pub open spec fn only_added(before: TrackerView, after: TrackerView) -> bool {
    &&& after.behavior == before.behavior
    &&& before.failures.len() <= after.failures.len()
    &&& after.failures.take(before.failures.len() as int) == before.failures
}

/// Whether a call reported nothing: it succeeded, and the log is as it was.
pub open spec fn clean(before: TrackerView, after: TrackerView, r: Result<(), Error>) -> bool {
    r is Ok && after == before
}

/// Whether a call reported at least one failure as the log asks for: all of them and success, or the
/// first and an error with its code.
pub open spec fn reported(before: TrackerView, after: TrackerView, r: Result<(), Error>) -> bool {
    &&& only_added(before, after)
    &&& newly_logged(before, after).len() > 0
    &&& before.behavior == ErrorBehavior::ContinueWhenPossible ==> r is Ok
    &&& before.behavior == ErrorBehavior::StopOnFirstError ==> newly_logged(before, after).len()
        == 1 && r is Err && r->Err_0@ == Failure::BadParam(newly_logged(before, after)[0].code)
}

/// One if a condition holds, else zero.
pub open spec fn one_if(condition: bool) -> nat {
    if condition {
        1
    } else {
        0
    }
}

/// Whether every failure of a list has the code of an invalid segment.
pub open spec fn concern_the_segment(failures: Seq<ItemView>) -> bool {
    forall|i: int|
        0 <= i < failures.len() ==> (#[trigger] failures[i]).code == LIVEVIDEO_SEGMENT_INVALID@
}

/// An opened segment is accepted exactly if its timing can be read, its event and its number agree
/// with the segment, the initialization segment and the session, and the host names no failure of
/// its manifest and none of its signature, its place or its hash. Otherwise failures are reported,
/// and nothing changes.
pub proof fn opened_segment_is_accepted_exactly_if_in_order(
    validator: &mut LiveVideoValidator,
    segment: &[u8],
    opened: OpenedVsi,
    checks: &VsiChecks,
    tracker: &mut StatusTracker,
    r: Result<(), Error>,
)
    requires
        call_ensures(
            LiveVideoValidator::validate_opened_vsi,
            (validator, segment, opened, checks, tracker),
            r,
        ),
    ensures
        ({
            let state = old(validator)@;
            let in_order = media_info(segment@, state.init_default_sample_duration) is Ok && {
                let media = media_info(segment@, state.init_default_sample_duration)->Ok_0;
                let event = opened.event@;
                &&& event.presentation_time_delta == 0
                &&& event.timescale != 0
                &&& state.init_timescale == Some(event.timescale)
                &&& event.event_duration == media.duration_ticks
                &&& event.id != 0
                &&& !state.seen_emsg_ids.contains(event.id)
                &&& opened.sequence_number == media.sequence_number
                &&& state.init_track_id is None || state.init_track_id == Some(media.track_id)
                &&& checks.manifest@.len() == 0
                &&& checks.signature@.len() == 0
            };
            if in_order {
                &&& clean(old(tracker)@, final(tracker)@, r)
                &&& final(validator)@ == (ValidatorState {
                    previous_segment: Some(
                        SegmentStateView {
                            sequence_number: opened.sequence_number,
                            stream_id: Seq::empty(),
                            manifest_id: opened.manifest_id@,
                        },
                    ),
                    seen_emsg_ids: state.seen_emsg_ids.insert(opened.event@.id),
                    ..state
                })
            } else {
                &&& reported(old(tracker)@, final(tracker)@, r)
                &&& final(validator)@ == state
            }
        }),
{
    assert(item_views(checks.manifest@).len() == checks.manifest@.len());
    assert(item_views(checks.signature@).len() == checks.signature@.len());
    assert(final(tracker)@.failures.take(old(tracker)@.failures.len() as int)
        =~= old(tracker)@.failures);
    assert(final(tracker)@.failures.len() == old(tracker)@.failures.len()
        ==> final(tracker)@.failures =~= old(tracker)@.failures);
}

/// Where failures do not end a validation, an opened segment whose timing can be read has every one
/// of them logged: one for each property of the event that is wrong, those that the host names of the
/// manifest, one each for a wrong number and a wrong track, and those that the host names of the
/// signature, the place and the hash, in this order.
pub proof fn every_failure_of_an_opened_segment_is_logged(
    validator: &mut LiveVideoValidator,
    segment: &[u8],
    opened: OpenedVsi,
    checks: &VsiChecks,
    tracker: &mut StatusTracker,
    r: Result<(), Error>,
)
    requires
        call_ensures(
            LiveVideoValidator::validate_opened_vsi,
            (validator, segment, opened, checks, tracker),
            r,
        ),
        old(tracker)@.behavior == ErrorBehavior::ContinueWhenPossible,
        media_info(segment@, old(validator)@.init_default_sample_duration) is Ok,
    ensures
        only_added(old(tracker)@, final(tracker)@),
        exists|event: Seq<ItemView>, number: Seq<ItemView>|
            {
                let state = old(validator)@;
                let media = media_info(segment@, state.init_default_sample_duration)->Ok_0;
                let found = opened.event@;
                &&& newly_logged(old(tracker)@, final(tracker)@) == #[trigger] (event + item_views(
                    checks.manifest@,
                ) + number) + item_views(checks.signature@)
                &&& concern_the_segment(event)
                &&& concern_the_segment(number)
                &&& event.len() == one_if(found.presentation_time_delta != 0) + one_if(
                    found.timescale == 0 || state.init_timescale != Some(found.timescale),
                ) + one_if(found.event_duration != media.duration_ticks) + one_if(
                    state.seen_emsg_ids.contains(found.id),
                ) + one_if(found.id == 0)
                &&& number.len() == one_if(opened.sequence_number != media.sequence_number)
                    + one_if(
                    state.init_track_id is Some && state.init_track_id != Some(media.track_id),
                )
            },
{
    let state = old(validator)@;
    let media = media_info(segment@, state.init_default_sample_duration)->Ok_0;
    let event = crate::validator::event_failures(state, opened.event@, media);
    let number = crate::validator::number_failures(state, opened.sequence_number, media);
    assert(newly_logged(old(tracker)@, final(tracker)@) =~= (event + item_views(checks.manifest@)
        + number) + item_views(checks.signature@));
    assert(final(tracker)@.failures.take(old(tracker)@.failures.len() as int)
        =~= old(tracker)@.failures);
}

/// A log that ends a validation at the first failure gets the first of the failures that a log which
/// lets it go on gets for the same segment.
pub proof fn first_failure_of_an_opened_segment_ends_it(
    going_on: &mut LiveVideoValidator,
    segment: &[u8],
    opened: OpenedVsi,
    checks: &VsiChecks,
    full: &mut StatusTracker,
    full_result: Result<(), Error>,
    stopping: &mut LiveVideoValidator,
    short: &mut StatusTracker,
    short_result: Result<(), Error>,
)
    requires
        call_ensures(
            LiveVideoValidator::validate_opened_vsi,
            (going_on, segment, opened, checks, full),
            full_result,
        ),
        call_ensures(
            LiveVideoValidator::validate_opened_vsi,
            (stopping, segment, opened, checks, short),
            short_result,
        ),
        old(going_on)@ == old(stopping)@,
        old(full)@.behavior == ErrorBehavior::ContinueWhenPossible,
        old(short)@.behavior == ErrorBehavior::StopOnFirstError,
    ensures
        newly_logged(old(short)@, final(short)@).len() <= 1,
        newly_logged(old(short)@, final(short)@) == newly_logged(old(full)@, final(full)@).take(
            newly_logged(old(short)@, final(short)@).len() as int,
        ),
        newly_logged(old(short)@, final(short)@).len() == 0 <==> newly_logged(
            old(full)@,
            final(full)@,
        ).len() == 0,
        final(going_on)@ == final(stopping)@,
{
}

/// Whether the host, asked about a segment, answered with `checks`: about the message that the event
/// of the segment carries, the segment itself, a validated session key that the message names, and
/// the stream so far.
pub open spec fn answered<
    C: Fn(&ParsedVsi, &[u8], &SessionKey, Option<&SegmentState>, Option<&str>) -> VsiChecks,
>(
    state: ValidatorState,
    segment: Seq<u8>,
    parsed: ParsedVsi,
    check: C,
    checks: VsiChecks,
) -> bool {
    exists|
        message: &ParsedVsi,
        data: &[u8],
        key: &SessionKey,
        previous: Option<&SegmentState>,
        expected_id: Option<&str>,
    | #[trigger]
        call_ensures(check, (message, data, key, previous, expected_id), checks) && *message
            == parsed && data@ == segment && state.session_keys.contains(key@) && key@.key.kid
            == Some(parsed.sign1@.key_id) && match state.previous_segment {
            Some(s) => previous is Some && previous->Some_0@ == s,
            None => previous is None,
        } && match state.expected_manifest_id {
            Some(id) => expected_id is Some && expected_id->Some_0@ == id,
            None => expected_id is None,
        }
}

/// The key that is found has the identifier and is one of the keys.
proof fn found_key_is_kept(
    keys: Seq<SessionKeyView>,
    kid: Seq<u8>,
    from: int,
)
    requires
        0 <= from,
    ensures
        crate::validator::key_place(keys, kid, from) matches Some(i) ==> from <= i < keys.len()
            && keys[i].key.kid == Some(kid),
        crate::validator::key_place(keys, kid, from) is None ==> forall|i: int|
            from <= i < keys.len() ==> (#[trigger] keys[i]).key.kid != Some(kid),
    decreases keys.len() - from,
{
    if from < keys.len() && keys[from].key.kid != Some(kid) {
        found_key_is_kept(keys, kid, from + 1);
    }
}

/// A segment that is accepted carries Verifiable Segment Info whose message can be read and names a
/// validated session key; its event, its number and its track agree with the segment and with the
/// session; and the host, asked about all of that, named no failure of the manifest and none of the
/// signature, the place or the hash. It becomes the segment that the next is held to.
pub proof fn accepted_segment_was_verified<
    D: Fn(&[u8]) -> Result<SegmentInfoMap, String>,
    C: Fn(&ParsedVsi, &[u8], &SessionKey, Option<&SegmentState>, Option<&str>) -> VsiChecks,
>(
    validator: &mut LiveVideoValidator,
    segment: &[u8],
    decode: &D,
    check: &C,
    tracker: &mut StatusTracker,
    r: Result<(), Error>,
)
    requires
        call_ensures(
            LiveVideoValidator::validate_verifiable_segment_info::<D, C>,
            (validator, segment, decode, check, tracker),
            r,
        ),
        r is Ok,
        final(tracker)@.failures.len() <= old(tracker)@.failures.len(),
    ensures
        final(tracker)@ == old(tracker)@,
        vsi_event(segment@) is Ok,
        vsi_event(segment@)->Ok_0 is Some,
        media_info(segment@, old(validator)@.init_default_sample_duration) is Ok,
        exists|parsed: ParsedVsi, checks: VsiChecks| #[trigger]
            answered(old(validator)@, segment@, parsed, *check, checks) && {
                let state = old(validator)@;
                let media = media_info(segment@, state.init_default_sample_duration)->Ok_0;
                let event = vsi_event(segment@)->Ok_0->Some_0;
                let info = parsed.segment_info_map;
                &&& vsi_outcome(event.message_data, *decode, Ok::<ParsedVsi, Error>(parsed))
                &&& checks.manifest@.len() == 0
                &&& checks.signature@.len() == 0
                &&& event.presentation_time_delta == 0
                &&& event.timescale != 0
                &&& state.init_timescale == Some(event.timescale)
                &&& event.event_duration == media.duration_ticks
                &&& event.id != 0
                &&& !state.seen_emsg_ids.contains(event.id)
                &&& info.sequence_number == media.sequence_number
                &&& state.init_track_id is None || state.init_track_id == Some(media.track_id)
                &&& final(validator)@ == (ValidatorState {
                    previous_segment: Some(
                        SegmentStateView {
                            sequence_number: info.sequence_number,
                            stream_id: Seq::empty(),
                            manifest_id: info.manifest_id@,
                        },
                    ),
                    seen_emsg_ids: state.seen_emsg_ids.insert(event.id),
                    ..state
                })
            },
{
    let state = old(validator)@;
    let event = vsi_event(segment@)->Ok_0->Some_0;
    let parsed = choose|parsed: Result<ParsedVsi, Error>| #[trigger]
        vsi_outcome(event.message_data, *decode, parsed) && parsed is Ok && match
            crate::validator::key_place(state.session_keys, parsed->Ok_0.sign1@.key_id, 0) {
            None => false,
            Some(i) => crate::validator::checked_outcome(
                state,
                old(tracker)@,
                segment@,
                event,
                parsed->Ok_0,
                state.session_keys[i],
                *check,
                final(validator)@,
                final(tracker)@,
                r,
            ),
        };
    let p = parsed->Ok_0;
    found_key_is_kept(state.session_keys, p.sign1@.key_id, 0);
    let i = crate::validator::key_place(state.session_keys, p.sign1@.key_id, 0)->Some_0;
    assert(media_info(segment@, state.init_default_sample_duration) is Ok);
    let (message, data, key, previous, expected_id, checks) = choose|
        message: &ParsedVsi,
        data: &[u8],
        key: &SessionKey,
        previous: Option<&SegmentState>,
        expected_id: Option<&str>,
        checks: VsiChecks,
    | #[trigger]
        call_ensures(*check, (message, data, key, previous, expected_id), checks) && *message == p
            && data@ == segment@ && key@ == state.session_keys[i]
            && crate::validator::previous_view(previous) == state.previous_segment
            && crate::validator::borrowed_view(expected_id) == state.expected_manifest_id
            && crate::validator::opened_result(
            state,
            old(tracker)@,
            segment@,
            crate::validator::opened_of(event, p),
            item_views(checks.manifest@),
            item_views(checks.signature@),
            final(validator)@,
            final(tracker)@,
            r,
        );
    assert(state.session_keys.contains(key@));
    assert(answered(state, segment@, p, *check, checks));
    assert(item_views(checks.manifest@).len() == checks.manifest@.len());
    assert(item_views(checks.signature@).len() == checks.signature@.len());
    assert(final(tracker)@.failures =~= old(tracker)@.failures);
}

/// A segment of which the host names a failure, whatever it is asked, is never accepted: failures are
/// logged, and nothing changes.
pub proof fn host_failures_are_reported<
    D: Fn(&[u8]) -> Result<SegmentInfoMap, String>,
    C: Fn(&ParsedVsi, &[u8], &SessionKey, Option<&SegmentState>, Option<&str>) -> VsiChecks,
>(
    validator: &mut LiveVideoValidator,
    segment: &[u8],
    decode: &D,
    check: &C,
    tracker: &mut StatusTracker,
    r: Result<(), Error>,
)
    requires
        call_ensures(
            LiveVideoValidator::validate_verifiable_segment_info::<D, C>,
            (validator, segment, decode, check, tracker),
            r,
        ),
        forall|
            message: &ParsedVsi,
            data: &[u8],
            key: &SessionKey,
            previous: Option<&SegmentState>,
            expected_id: Option<&str>,
            checks: VsiChecks,
        | #[trigger]
            call_ensures(*check, (message, data, key, previous, expected_id), checks) && data@
                == segment@ ==> checks.manifest@.len() > 0 || checks.signature@.len() > 0,
    ensures
        r is Err || final(tracker)@.failures.len() > old(tracker)@.failures.len(),
        final(validator)@ == old(validator)@,
{
    if r is Ok && final(tracker)@.failures.len() <= old(tracker)@.failures.len() {
        accepted_segment_was_verified(validator, segment, decode, check, tracker, r);
    }
}

/// Where failures do not end a validation and the validation comes to an end, everything that the
/// host names is logged, in its order: what it names of the manifest, and behind it what it names of
/// the signature, the place and the hash.
pub proof fn everything_the_host_names_is_logged<
    D: Fn(&[u8]) -> Result<SegmentInfoMap, String>,
    C: Fn(&ParsedVsi, &[u8], &SessionKey, Option<&SegmentState>, Option<&str>) -> VsiChecks,
>(
    validator: &mut LiveVideoValidator,
    segment: &[u8],
    decode: &D,
    check: &C,
    tracker: &mut StatusTracker,
    r: Result<(), Error>,
)
    requires
        call_ensures(
            LiveVideoValidator::validate_verifiable_segment_info::<D, C>,
            (validator, segment, decode, check, tracker),
            r,
        ),
        r is Ok,
        old(tracker)@.behavior == ErrorBehavior::ContinueWhenPossible,
        media_info(segment@, old(validator)@.init_default_sample_duration) is Ok,
    ensures
        only_added(old(tracker)@, final(tracker)@),
        exists|
            parsed: ParsedVsi,
            checks: VsiChecks,
            event: Seq<ItemView>,
            number: Seq<ItemView>,
        |
            #![trigger answered(old(validator)@, segment@, parsed, *check, checks), event + number]
            answered(old(validator)@, segment@, parsed, *check, checks) && newly_logged(
                old(tracker)@,
                final(tracker)@,
            ) == (event + item_views(checks.manifest@) + number) + item_views(checks.signature@),
{
    let state = old(validator)@;
    let event = vsi_event(segment@)->Ok_0->Some_0;
    let media = media_info(segment@, state.init_default_sample_duration)->Ok_0;
    let parsed = choose|parsed: Result<ParsedVsi, Error>| #[trigger]
        vsi_outcome(event.message_data, *decode, parsed) && parsed is Ok && match
            crate::validator::key_place(state.session_keys, parsed->Ok_0.sign1@.key_id, 0) {
            None => false,
            Some(i) => crate::validator::checked_outcome(
                state,
                old(tracker)@,
                segment@,
                event,
                parsed->Ok_0,
                state.session_keys[i],
                *check,
                final(validator)@,
                final(tracker)@,
                r,
            ),
        };
    let p = parsed->Ok_0;
    found_key_is_kept(state.session_keys, p.sign1@.key_id, 0);
    let i = crate::validator::key_place(state.session_keys, p.sign1@.key_id, 0)->Some_0;
    let (message, data, key, previous, expected_id, checks) = choose|
        message: &ParsedVsi,
        data: &[u8],
        key: &SessionKey,
        previous: Option<&SegmentState>,
        expected_id: Option<&str>,
        checks: VsiChecks,
    | #[trigger]
        call_ensures(*check, (message, data, key, previous, expected_id), checks) && *message == p
            && data@ == segment@ && key@ == state.session_keys[i]
            && crate::validator::previous_view(previous) == state.previous_segment
            && crate::validator::borrowed_view(expected_id) == state.expected_manifest_id
            && crate::validator::opened_result(
            state,
            old(tracker)@,
            segment@,
            crate::validator::opened_of(event, p),
            item_views(checks.manifest@),
            item_views(checks.signature@),
            final(validator)@,
            final(tracker)@,
            r,
        );
    assert(state.session_keys.contains(key@));
    assert(answered(state, segment@, p, *check, checks));
    let before = crate::validator::event_failures(state, event, media);
    let between = crate::validator::number_failures(state, p.segment_info_map.sequence_number, media);
    assert(newly_logged(old(tracker)@, final(tracker)@) =~= (before + item_views(checks.manifest@)
        + between) + item_views(checks.signature@));
    assert(final(tracker)@.failures.take(old(tracker)@.failures.len() as int)
        =~= old(tracker)@.failures);
    let both = before + between;
}

/// A segment that is in order is accepted: session keys were validated, its message can be read and
/// names one of them, its event, its number and its track agree with the segment and the session, and
/// the host names no failure.
pub proof fn segment_in_order_is_accepted<
    D: Fn(&[u8]) -> Result<SegmentInfoMap, String>,
    C: Fn(&ParsedVsi, &[u8], &SessionKey, Option<&SegmentState>, Option<&str>) -> VsiChecks,
>(
    validator: &mut LiveVideoValidator,
    segment: &[u8],
    decode: &D,
    check: &C,
    tracker: &mut StatusTracker,
    r: Result<(), Error>,
    event: EmsgEvent,
    place: int,
)
    requires
        call_ensures(
            LiveVideoValidator::validate_verifiable_segment_info::<D, C>,
            (validator, segment, decode, check, tracker),
            r,
        ),
        vsi_event(segment@) == Ok::<Option<EmsgEvent>, Failure>(Some(event)),
        0 <= place < old(validator)@.session_keys.len(),
        media_info(segment@, old(validator)@.init_default_sample_duration) is Ok,
        forall|parsed: Result<ParsedVsi, Error>| #[trigger]
            vsi_outcome(event.message_data, *decode, parsed) ==> parsed is Ok
                && old(validator)@.session_keys[place].key.kid == Some(
                parsed->Ok_0.sign1@.key_id,
            ) && parsed->Ok_0.segment_info_map.sequence_number == media_info(
                segment@,
                old(validator)@.init_default_sample_duration,
            )->Ok_0.sequence_number,
        event.presentation_time_delta == 0,
        event.timescale != 0,
        old(validator)@.init_timescale == Some(event.timescale),
        event.event_duration == media_info(
            segment@,
            old(validator)@.init_default_sample_duration,
        )->Ok_0.duration_ticks,
        event.id != 0,
        !old(validator)@.seen_emsg_ids.contains(event.id),
        old(validator)@.init_track_id is None || old(validator)@.init_track_id == Some(
            media_info(segment@, old(validator)@.init_default_sample_duration)->Ok_0.track_id,
        ),
        forall|
            message: &ParsedVsi,
            data: &[u8],
            key: &SessionKey,
            previous: Option<&SegmentState>,
            expected_id: Option<&str>,
            checks: VsiChecks,
        | #[trigger]
            call_ensures(*check, (message, data, key, previous, expected_id), checks) && data@
                == segment@ ==> checks.manifest@.len() == 0 && checks.signature@.len() == 0,
    ensures
        clean(old(tracker)@, final(tracker)@, r),
        final(validator)@.previous_segment is Some,
        final(validator)@.previous_segment->Some_0.sequence_number == media_info(
            segment@,
            old(validator)@.init_default_sample_duration,
        )->Ok_0.sequence_number,
        final(validator)@.seen_emsg_ids == old(validator)@.seen_emsg_ids.insert(event.id),
{
    let state = old(validator)@;
    assert forall|kid: Seq<u8>| state.session_keys[place].key.kid == Some(kid) implies (
    #[trigger] crate::validator::key_place(state.session_keys, kid, 0)) is Some by {
        found_key_is_kept(state.session_keys, kid, 0);
    }
    let nothing = Seq::<ItemView>::empty();
    assert forall|checks: VsiChecks|
        checks.manifest@.len() == 0 && checks.signature@.len() == 0 implies (#[trigger] item_views(
        checks.manifest@,
    )) =~= nothing && (#[trigger] item_views(checks.signature@)) =~= nothing by {}
    assert(old(tracker)@.failures + nothing =~= old(tracker)@.failures);
}

/// Before session keys were validated no segment with Verifiable Segment Info is accepted, nor is a
/// segment without such info, nor one whose message cannot be read or names no validated key: the
/// validation fails, one failure is logged, and nothing changes.
pub proof fn segment_that_cannot_be_opened_is_refused<
    D: Fn(&[u8]) -> Result<SegmentInfoMap, String>,
    C: Fn(&ParsedVsi, &[u8], &SessionKey, Option<&SegmentState>, Option<&str>) -> VsiChecks,
>(
    validator: &mut LiveVideoValidator,
    segment: &[u8],
    decode: &D,
    check: &C,
    tracker: &mut StatusTracker,
    r: Result<(), Error>,
)
    requires
        call_ensures(
            LiveVideoValidator::validate_verifiable_segment_info::<D, C>,
            (validator, segment, decode, check, tracker),
            r,
        ),
        old(validator)@.session_keys.len() == 0 || vsi_event(segment@) is Err
            || vsi_event(segment@)->Ok_0 is None || forall|parsed: Result<ParsedVsi, Error>|
            #[trigger] vsi_outcome(
                vsi_event(segment@)->Ok_0->Some_0.message_data,
                *decode,
                parsed,
            ) ==> parsed is Err || forall|i: int|
                0 <= i < old(validator)@.session_keys.len() ==> (
                #[trigger] old(validator)@.session_keys[i]).key.kid != Some(
                    parsed->Ok_0.sign1@.key_id,
                ),
    ensures
        r is Err,
        only_added(old(tracker)@, final(tracker)@),
        newly_logged(old(tracker)@, final(tracker)@).len() == 1,
        r->Err_0@ == Failure::BadParam(newly_logged(old(tracker)@, final(tracker)@)[0].code),
        final(validator)@ == old(validator)@,
{
    let state = old(validator)@;
    assert forall|kid: Seq<u8>|
        (forall|i: int| 0 <= i < state.session_keys.len() ==> (#[trigger] state.session_keys[i]).key.kid
            != Some(kid)) implies (#[trigger] crate::validator::key_place(
        state.session_keys,
        kid,
        0,
    )) is None by {
        found_key_is_kept(state.session_keys, kid, 0);
    }
    assert(final(tracker)@.failures.take(old(tracker)@.failures.len() as int)
        =~= old(tracker)@.failures);
}

// Segments with a manifest each.

/// A segment with a manifest of its own is accepted exactly if the host names no failure of its boxes
/// and its claim of continuity, whichever segment of the stream it is; if, as the first segment behind
/// a registered initialization segment, it refers to that; and if, as a later one, the host names no
/// failure of its number and its stream. Otherwise failures are reported, and nothing changes.
pub proof fn checked_segment_is_accepted_exactly_if_in_order(
    validator: &mut LiveVideoValidator,
    manifest_id: &str,
    claim: &LiveVideoSegment,
    checks: &ManifestChecks,
    tracker: &mut StatusTracker,
    r: Result<(), Error>,
)
    requires
        call_ensures(
            LiveVideoValidator::validate_checked_segment,
            (validator, manifest_id, claim, checks, tracker),
            r,
        ),
    ensures
        ({
            let state = old(validator)@;
            let in_order = checks.layout@.len() == 0 && if state.previous_segment is Some {
                checks.sequence@.len() == 0
            } else {
                state.manifest_box_init_id is None || claim@.previous_manifest_id
                    == state.manifest_box_init_id
            };
            if in_order {
                &&& clean(old(tracker)@, final(tracker)@, r)
                &&& final(validator)@ == (ValidatorState {
                    previous_segment: Some(
                        SegmentStateView {
                            sequence_number: claim@.sequence_number,
                            stream_id: claim@.stream_id,
                            manifest_id: manifest_id@,
                        },
                    ),
                    ..state
                })
            } else {
                &&& reported(old(tracker)@, final(tracker)@, r)
                &&& final(validator)@ == state
            }
        }),
{
    assert(item_views(checks.layout@).len() == checks.layout@.len());
    assert(item_views(checks.sequence@).len() == checks.sequence@.len());
    assert(final(tracker)@.failures.take(old(tracker)@.failures.len() as int)
        =~= old(tracker)@.failures);
    assert(final(tracker)@.failures.len() == old(tracker)@.failures.len()
        ==> final(tracker)@.failures =~= old(tracker)@.failures);
}

/// Where failures do not end a validation, every failure of a segment with a manifest of its own is
/// logged: what the host names of the boxes and the claim of continuity, one for a first segment that
/// does not refer to the initialization segment, and, behind a first segment, what the host names of
/// the number and the stream.
pub proof fn every_failure_of_a_checked_segment_is_logged(
    validator: &mut LiveVideoValidator,
    manifest_id: &str,
    claim: &LiveVideoSegment,
    checks: &ManifestChecks,
    tracker: &mut StatusTracker,
    r: Result<(), Error>,
)
    requires
        call_ensures(
            LiveVideoValidator::validate_checked_segment,
            (validator, manifest_id, claim, checks, tracker),
            r,
        ),
        old(tracker)@.behavior == ErrorBehavior::ContinueWhenPossible,
    ensures
        only_added(old(tracker)@, final(tracker)@),
        old(validator)@.previous_segment is Some ==> newly_logged(old(tracker)@, final(tracker)@)
            == item_views(checks.layout@) + item_views(checks.sequence@),
        old(validator)@.previous_segment is None ==> {
            let logged = newly_logged(old(tracker)@, final(tracker)@);
            let unlinked = old(validator)@.manifest_box_init_id is Some
                && claim@.previous_manifest_id != old(validator)@.manifest_box_init_id;
            &&& logged.len() == checks.layout@.len() + one_if(unlinked)
            &&& logged.take(checks.layout@.len() as int) == item_views(checks.layout@)
            &&& unlinked ==> logged.last().code == LIVEVIDEO_SEGMENT_INVALID@
        },
{
    let logged = newly_logged(old(tracker)@, final(tracker)@);
    assert(item_views(checks.layout@).len() == checks.layout@.len());
    assert(final(tracker)@.failures.take(old(tracker)@.failures.len() as int)
        =~= old(tracker)@.failures);
    if old(validator)@.previous_segment is Some {
        assert(logged =~= item_views(checks.layout@) + item_views(checks.sequence@));
    } else {
        assert(logged.take(checks.layout@.len() as int) =~= item_views(checks.layout@));
    }
}

/// A log that ends a validation at the first failure gets the first of the failures that a log which
/// lets it go on gets for the same segment with a manifest of its own.
pub proof fn first_failure_of_a_checked_segment_ends_it(
    going_on: &mut LiveVideoValidator,
    manifest_id: &str,
    claim: &LiveVideoSegment,
    checks: &ManifestChecks,
    full: &mut StatusTracker,
    full_result: Result<(), Error>,
    stopping: &mut LiveVideoValidator,
    short: &mut StatusTracker,
    short_result: Result<(), Error>,
)
    requires
        call_ensures(
            LiveVideoValidator::validate_checked_segment,
            (going_on, manifest_id, claim, checks, full),
            full_result,
        ),
        call_ensures(
            LiveVideoValidator::validate_checked_segment,
            (stopping, manifest_id, claim, checks, short),
            short_result,
        ),
        old(going_on)@ == old(stopping)@,
        old(full)@.behavior == ErrorBehavior::ContinueWhenPossible,
        old(short)@.behavior == ErrorBehavior::StopOnFirstError,
    ensures
        newly_logged(old(short)@, final(short)@).len() <= 1,
        newly_logged(old(short)@, final(short)@) == newly_logged(old(full)@, final(full)@).take(
            newly_logged(old(short)@, final(short)@).len() as int,
        ),
        newly_logged(old(short)@, final(short)@).len() == 0 <==> newly_logged(
            old(full)@,
            final(full)@,
        ).len() == 0,
        final(going_on)@ == final(stopping)@,
{
}

/// Whether the host, asked about a segment with a manifest of its own, its claim and the segment
/// before it, answered with `checks`.
pub open spec fn manifest_answered<
    C: Fn(&[u8], &str, &LiveVideoSegment, Option<&SegmentState>) -> ManifestChecks,
>(
    state: ValidatorState,
    segment: Seq<u8>,
    manifest_id: Seq<char>,
    claim: crate::signing::SegmentClaim,
    check: C,
    checks: ManifestChecks,
) -> bool {
    exists|
        data: &[u8],
        id: &str,
        assertion: &LiveVideoSegment,
        previous: Option<&SegmentState>,
    | #[trigger]
        call_ensures(check, (data, id, assertion, previous), checks) && data@ == segment && id@
            == manifest_id && assertion@ == claim && match state.previous_segment {
            Some(s) => previous is Some && previous->Some_0@ == s,
            None => previous is None,
        }
}

/// A media segment with a manifest of its own is accepted exactly if what the host answers, asked
/// about the segment, its manifest, its claim and the segment before it, names no failure of the
/// boxes and the claim of continuity, whichever segment of the stream it is, and none of the number
/// and the stream behind a first segment; a first segment must refer to a registered initialization
/// segment. Otherwise failures are reported, and nothing changes.
pub proof fn media_segment_is_accepted_exactly_if_in_order<
    C: Fn(&[u8], &str, &LiveVideoSegment, Option<&SegmentState>) -> ManifestChecks,
>(
    validator: &mut LiveVideoValidator,
    segment: &[u8],
    manifest_id: &str,
    claim: &LiveVideoSegment,
    check: &C,
    tracker: &mut StatusTracker,
    r: Result<(), Error>,
)
    requires
        call_ensures(
            LiveVideoValidator::validate_media_segment::<C>,
            (validator, segment, manifest_id, claim, check, tracker),
            r,
        ),
    ensures
        exists|checks: ManifestChecks| #[trigger]
            manifest_answered(
                old(validator)@,
                segment@,
                manifest_id@,
                claim@,
                *check,
                checks,
            ) && {
                let state = old(validator)@;
                let in_order = checks.layout@.len() == 0 && if state.previous_segment is Some {
                    checks.sequence@.len() == 0
                } else {
                    state.manifest_box_init_id is None || claim@.previous_manifest_id
                        == state.manifest_box_init_id
                };
                if in_order {
                    &&& clean(old(tracker)@, final(tracker)@, r)
                    &&& final(validator)@ == (ValidatorState {
                        previous_segment: Some(
                            SegmentStateView {
                                sequence_number: claim@.sequence_number,
                                stream_id: claim@.stream_id,
                                manifest_id: manifest_id@,
                            },
                        ),
                        ..state
                    })
                } else {
                    &&& reported(old(tracker)@, final(tracker)@, r)
                    &&& final(validator)@ == state
                }
            },
{
    let state = old(validator)@;
    let (data, id, assertion, previous, checks) = choose|
        data: &[u8],
        id: &str,
        assertion: &LiveVideoSegment,
        previous: Option<&SegmentState>,
        checks: ManifestChecks,
    | #[trigger]
        call_ensures(*check, (data, id, assertion, previous), checks) && data@ == segment@ && id@
            == manifest_id@ && assertion@ == claim@ && crate::validator::previous_view(previous)
            == state.previous_segment && crate::validator::segment_result(
            state,
            old(tracker)@,
            manifest_id@,
            claim@,
            item_views(checks.layout@),
            item_views(checks.sequence@),
            final(validator)@,
            final(tracker)@,
            r,
        );
    assert(manifest_answered(state, segment@, manifest_id@, claim@, *check, checks));
    assert(item_views(checks.layout@).len() == checks.layout@.len());
    assert(item_views(checks.sequence@).len() == checks.sequence@.len());
    assert(final(tracker)@.failures.take(old(tracker)@.failures.len() as int)
        =~= old(tracker)@.failures);
    assert(final(tracker)@.failures.len() == old(tracker)@.failures.len()
        ==> final(tracker)@.failures =~= old(tracker)@.failures);
}

// Session keys.

/// Whether the key at `i` of an assertion is sound in itself: it has an identifier that no key before
/// it has, an algorithm and a public key that are supported, and a validity period.
pub open spec fn sound_key(keys: Seq<SessionKey>, i: int) -> bool {
    let key = keys[i]@;
    &&& key.key.kid is Some
    &&& key.key.kid->Some_0.len() > 0
    &&& forall|j: int| 0 <= j < i ==> (#[trigger] keys[j])@.key.kid != key.key.kid
    &&& key.key.alg is Some
    &&& key.key.public_key is Some
    &&& key.validity_period > 0
}

/// Whether the host verified the bindings of the first keys of an assertion, all of them sound, up to
/// the end or to the first key that is not sound, and answered with `checks`.
pub open spec fn bindings_answered<V: Fn(&SessionKey, &[u8]) -> BindingCheck>(
    keys: Seq<SessionKey>,
    cert: &[u8],
    verify: V,
    checks: Seq<BindingCheck>,
) -> bool {
    &&& checks.len() <= keys.len()
    &&& forall|i: int| 0 <= i < checks.len() ==> #[trigger] sound_key(keys, i)
    &&& forall|i: int|
        0 <= i < checks.len() ==> call_ensures(verify, (&keys[i], cert), #[trigger] checks[i])
    &&& checks.len() < keys.len() ==> !sound_key(keys, checks.len() as int)
}

/// Whether a key is one of an assertion whose binding the host verified.
pub open spec fn has_verified(
    keys: Seq<SessionKey>,
    checks: Seq<BindingCheck>,
    key: SessionKeyView,
) -> bool {
    exists|i: int| 0 <= i < keys.len() && (#[trigger] checks[i]).verified && keys[i]@ == key
}

/// Soundness of a key is what its fault says.
proof fn sound_key_has_no_fault(keys: Seq<SessionKey>, i: int)
    requires
        0 <= i < keys.len(),
    ensures
        sound_key(keys, i) <==> crate::validator::key_fault(key_views(keys), i) is None,
{
    let views = key_views(keys);
    assert(views[i] == keys[i]@);
    if keys[i]@.key.kid is Some {
        assert(keys[i]@.key.kid->Some_0.len() == 0 ==> keys[i]@.key.kid->Some_0
            =~= Seq::<u8>::empty());
    }
    assert forall|j: int| 0 <= j < i implies (#[trigger] views[j]) == keys[j]@ by {}
    if exists|j: int| 0 <= j < i && (#[trigger] views[j]).key.kid == views[i].key.kid {
        let j = choose|j: int| 0 <= j < i && (#[trigger] views[j]).key.kid == views[i].key.kid;
        assert(keys[j]@.key.kid == keys[i]@.key.kid);
    }
    if exists|j: int| 0 <= j < i && (#[trigger] keys[j])@.key.kid == keys[i]@.key.kid {
        let j = choose|j: int| 0 <= j < i && (#[trigger] keys[j])@.key.kid == keys[i]@.key.kid;
        assert(views[j].key.kid == views[i].key.kid);
    }
}

/// The keys with a verified binding are kept.
proof fn verified_keys_are_kept(
    keys: Seq<SessionKeyView>,
    bindings: Seq<(Seq<ItemView>, bool)>,
    n: int,
    i: int,
)
    requires
        0 <= i < n <= keys.len(),
        bindings[i].1,
    ensures
        crate::validator::bound_keys(keys, bindings, n).contains(keys[i]),
    decreases n,
{
    let kept = crate::validator::bound_keys(keys, bindings, n);
    let shorter = crate::validator::bound_keys(keys, bindings, n - 1);
    if i == n - 1 {
        assert(kept.last() == keys[i]);
    } else {
        verified_keys_are_kept(keys, bindings, n - 1, i);
        let k = choose|k: int| 0 <= k < shorter.len() && shorter[k] == keys[i];
        assert(kept[k] == keys[i]);
    }
}

/// A key whose binding has a failure leaves it among the failures of the bindings.
proof fn binding_failure_counts(bindings: Seq<(Seq<ItemView>, bool)>, i: int)
    requires
        0 <= i < bindings.len(),
    ensures
        crate::validator::binding_failures(bindings).len() >= bindings[i].0.len(),
        forall|k: int|
            0 <= k < bindings[i].0.len() ==> crate::validator::binding_failures(bindings).contains(
                #[trigger] bindings[i].0[k],
            ),
    decreases bindings.len(),
{
    let shorter = crate::validator::binding_failures(bindings.drop_last());
    let all = crate::validator::binding_failures(bindings);
    if i == bindings.len() - 1 {
        assert forall|k: int| 0 <= k < bindings[i].0.len() implies all.contains(
            #[trigger] bindings[i].0[k],
        ) by {
            assert(all[shorter.len() + k] == bindings[i].0[k]);
        }
    } else {
        binding_failure_counts(bindings.drop_last(), i);
        assert(bindings.drop_last()[i] == bindings[i]);
        assert forall|k: int| 0 <= k < bindings[i].0.len() implies all.contains(
            #[trigger] bindings[i].0[k],
        ) by {
            let at = choose|at: int| 0 <= at < shorter.len() && shorter[at] == bindings[i].0[k];
            assert(all[at] == bindings[i].0[k]);
        }
    }
}

/// Bindings without failures have none together.
proof fn no_binding_failure(bindings: Seq<(Seq<ItemView>, bool)>)
    requires
        forall|i: int| 0 <= i < bindings.len() ==> (#[trigger] bindings[i]).0.len() == 0,
    ensures
        crate::validator::binding_failures(bindings).len() == 0,
    decreases bindings.len(),
{
    if bindings.len() > 0 {
        assert forall|i: int| 0 <= i < bindings.drop_last().len() implies (
        #[trigger] bindings.drop_last()[i]).0.len() == 0 by {
            assert(bindings[i].0.len() == 0);
        }
        no_binding_failure(bindings.drop_last());
        assert(bindings[bindings.len() - 1].0.len() == 0);
    }
}

/// The number of failures that the host names of the first `n` bindings.
pub open spec fn named_before(checks: Seq<BindingCheck>, n: int) -> nat
    decreases n,
{
    if n <= 0 {
        0
    } else {
        named_before(checks, n - 1) + checks[n - 1].failures@.len()
    }
}

proof fn binding_failures_are_those_named(checks: Seq<BindingCheck>, n: int)
    requires
        0 <= n <= checks.len(),
    ensures
        crate::validator::binding_failures(crate::validator::binding_views(checks).take(n)).len()
            == named_before(checks, n),
    decreases n,
{
    let views = crate::validator::binding_views(checks);
    if n > 0 {
        binding_failures_are_those_named(checks, n - 1);
        assert(views.take(n).drop_last() =~= views.take(n - 1));
        assert(views.take(n).last().0.len() == checks[n - 1].failures@.len());
    }
}

/// Whether kept keys stand at the given places of an assertion: each is verified, and they come in the
/// order of the assertion.
pub open spec fn stand_at(
    kept: Seq<SessionKeyView>,
    keys: Seq<SessionKey>,
    checks: Seq<BindingCheck>,
    places: Seq<int>,
) -> bool {
    &&& places.len() == kept.len()
    &&& forall|k: int|
        0 <= k < places.len() ==> 0 <= (#[trigger] places[k]) < keys.len()
            && checks[places[k]].verified && kept[k] == keys[places[k]]@
    &&& forall|j: int, k: int| 0 <= j < k < places.len() ==> places[j] < places[k]
}

proof fn kept_keys_have_places(
    keys: Seq<SessionKey>,
    checks: Seq<BindingCheck>,
    n: int,
) -> (places: Seq<int>)
    requires
        0 <= n <= keys.len(),
        checks.len() == keys.len(),
    ensures
        stand_at(
            crate::validator::bound_keys(
                key_views(keys),
                crate::validator::binding_views(checks),
                n,
            ),
            keys,
            checks,
            places,
        ),
        forall|k: int| 0 <= k < places.len() ==> #[trigger] places[k] < n,
    decreases n,
{
    if n == 0 {
        Seq::empty()
    } else {
        let fewer = kept_keys_have_places(keys, checks, n - 1);
        assert(crate::validator::binding_views(checks)[n - 1].1 == checks[n - 1].verified);
        assert(key_views(keys)[n - 1] == keys[n - 1]@);
        if checks[n - 1].verified {
            fewer.push(n - 1)
        } else {
            fewer
        }
    }
}

/// An assertion without keys, without a manifest identifier or without the certificate of the signer
/// is reported, and no key is kept.
pub proof fn incomplete_assertion_keeps_no_key<V: Fn(&SessionKey, &[u8]) -> BindingCheck>(
    validator: &mut LiveVideoValidator,
    assertion: &SessionKeys,
    manifest_id: &str,
    ee_cert_der: Option<&[u8]>,
    verify: &V,
    tracker: &mut StatusTracker,
    r: Result<(), Error>,
)
    requires
        call_ensures(
            LiveVideoValidator::validate_session_keys::<V>,
            (validator, assertion, manifest_id, ee_cert_der, verify, tracker),
            r,
        ),
        assertion.keys@.len() == 0 || ee_cert_der is None || !(manifest_id@.len() > 9
            && manifest_id@.take(9) == "urn:c2pa:"@),
    ensures
        reported(old(tracker)@, final(tracker)@, r),
        newly_logged(old(tracker)@, final(tracker)@).len() == 1,
        newly_logged(old(tracker)@, final(tracker)@)[0].code
            == crate::status_tracker::LIVEVIDEO_SESSIONKEY_INVALID@,
        final(validator)@ == (ValidatorState {
            session_keys: Seq::empty(),
            expected_manifest_id: None,
            ..old(validator)@
        }),
{
    identifier_shape(manifest_id@);
    assert(key_views(assertion.keys@).len() == assertion.keys@.len());
    assert(final(tracker)@.failures.take(old(tracker)@.failures.len() as int)
        =~= old(tracker)@.failures);
}

/// Behind a complete assertion the kept keys are exactly those whose binding to the certificate the
/// host verified, provided that every key is sound and nothing ended the validation; otherwise no key
/// is kept. They come in the order of the assertion. Everything that the host names of the bindings, and
/// the first key that is not sound, is reported, and nothing else.
pub proof fn kept_keys_are_exactly_the_verified_ones<V: Fn(&SessionKey, &[u8]) -> BindingCheck>(
    validator: &mut LiveVideoValidator,
    assertion: &SessionKeys,
    manifest_id: &str,
    cert: &[u8],
    verify: &V,
    tracker: &mut StatusTracker,
    r: Result<(), Error>,
)
    requires
        call_ensures(
            LiveVideoValidator::validate_session_keys::<V>,
            (validator, assertion, manifest_id, Some(cert), verify, tracker),
            r,
        ),
        assertion.keys@.len() > 0,
        manifest_id@.len() > 9,
        manifest_id@.take(9) == "urn:c2pa:"@,
    ensures
        exists|checks: Seq<BindingCheck>| #[trigger]
            bindings_answered(assertion.keys@, cert, *verify, checks) && {
                let keys = assertion.keys@;
                let after = final(validator)@;
                let silent = checks.len() == keys.len() && forall|i: int|
                    0 <= i < checks.len() ==> (#[trigger] checks[i]).failures@.len() == 0;
                &&& silent ==> clean(old(tracker)@, final(tracker)@, r)
                &&& !silent ==> reported(old(tracker)@, final(tracker)@, r)
                &&& r is Ok && old(tracker)@.behavior == ErrorBehavior::ContinueWhenPossible
                    ==> forall|i: int, k: int|
                    0 <= i < checks.len() && 0 <= k < checks[i].failures@.len() ==> newly_logged(
                        old(tracker)@,
                        final(tracker)@,
                    ).contains((#[trigger] checks[i].failures@[k])@)
                &&& old(tracker)@.behavior == ErrorBehavior::ContinueWhenPossible ==> newly_logged(
                    old(tracker)@,
                    final(tracker)@,
                ).len() == named_before(checks, checks.len() as int) + one_if(
                    checks.len() < keys.len(),
                )
                &&& if checks.len() == keys.len() && r is Ok {
                    &&& after.expected_manifest_id == Some(manifest_id@)
                    &&& forall|key: SessionKeyView| #[trigger]
                        after.session_keys.contains(key) <==> has_verified(keys, checks, key)
                    &&& exists|places: Seq<int>| #[trigger]
                        stand_at(after.session_keys, keys, checks, places)
                } else {
                    after.session_keys.len() == 0 && after.expected_manifest_id is None
                }
                &&& after == (ValidatorState {
                    session_keys: after.session_keys,
                    expected_manifest_id: after.expected_manifest_id,
                    ..old(validator)@
                })
            },
{
    identifier_shape(manifest_id@);
    let keys = assertion.keys@;
    let all = key_views(keys);
    let before = old(tracker)@;
    let checks = choose|checks: Seq<BindingCheck>|
        {
            let bindings = #[trigger] crate::validator::binding_views(checks);
            let failures = crate::validator::session_key_failures(all, manifest_id@, true, bindings);
            &&& crate::validator::bindings_asked(keys, cert, *verify, checks)
            &&& final(tracker)@ == crate::status_tracker::logged(before, failures)
            &&& crate::error::agrees(r, crate::status_tracker::verdict(before, failures))
            &&& final(validator)@ == crate::validator::keyed_state(
                old(validator)@,
                before,
                all,
                manifest_id@,
                true,
                bindings,
            )
        };
    let bindings = crate::validator::binding_views(checks);
    let failures = crate::validator::session_key_failures(all, manifest_id@, true, bindings);
    assert(crate::validator::assertion_fault(all, manifest_id@, true) is None);
    assert forall|i: int| 0 <= i < checks.len() implies #[trigger] sound_key(keys, i) by {
        sound_key_has_no_fault(keys, i);
        assert(crate::validator::key_fault(all, i) is None);
    }
    if checks.len() < keys.len() {
        sound_key_has_no_fault(keys, checks.len() as int);
    }
    assert(bindings_answered(keys, cert, *verify, checks));
    let silent = checks.len() == keys.len() && forall|i: int|
        0 <= i < checks.len() ==> (#[trigger] checks[i]).failures@.len() == 0;
    if silent {
        assert forall|i: int| 0 <= i < bindings.len() implies (#[trigger] bindings[i]).0.len()
            == 0 by {
            assert(checks[i].failures@.len() == 0);
        }
        no_binding_failure(bindings);
        assert(failures =~= Seq::<ItemView>::empty());
        assert(before.failures + failures =~= before.failures);
    } else {
        if checks.len() == keys.len() {
            let i = choose|i: int|
                0 <= i < checks.len() && (#[trigger] checks[i]).failures@.len() != 0;
            binding_failure_counts(bindings, i);
            assert(bindings[i].0.len() == checks[i].failures@.len());
        }
        assert(failures.len() > 0);
    }
    assert(final(tracker)@.failures.take(before.failures.len() as int) =~= before.failures);
    let logged = newly_logged(before, final(tracker)@);
    if before.behavior == ErrorBehavior::ContinueWhenPossible {
        assert(logged =~= failures);
        binding_failures_are_those_named(checks, checks.len() as int);
        assert(bindings.take(checks.len() as int) =~= bindings);
        assert forall|i: int, k: int|
            0 <= i < checks.len() && 0 <= k < checks[i].failures@.len() implies logged.contains(
            (#[trigger] checks[i].failures@[k])@,
        ) by {
            binding_failure_counts(bindings, i);
            assert(bindings[i].0[k] == checks[i].failures@[k]@);
            let found = crate::validator::binding_failures(bindings);
            let at = choose|at: int| 0 <= at < found.len() && found[at] == bindings[i].0[k];
            assert(failures[at] == found[at]);
        }
    }
    if checks.len() == keys.len() && r is Ok {
        let kept = final(validator)@.session_keys;
        assert(kept == crate::validator::bound_keys(all, bindings, all.len() as int));
        let places = kept_keys_have_places(keys, checks, keys.len() as int);
        assert(stand_at(kept, keys, checks, places));
        assert forall|key: SessionKeyView| #[trigger]
            kept.contains(key) <==> has_verified(keys, checks, key) by {
            if kept.contains(key) {
                crate::validator_laws::kept_keys_are_bound(all, bindings, all.len() as int, key);
                let i = choose|i: int|
                    0 <= i < all.len() && all[i] == key && (#[trigger] bindings[i]).1;
                assert(checks[i].verified);
            }
            if has_verified(keys, checks, key) {
                let i = choose|i: int|
                    0 <= i < keys.len() && (#[trigger] checks[i]).verified && keys[i]@ == key;
                assert(bindings[i].1);
                assert(all[i] == key);
                verified_keys_are_kept(all, bindings, all.len() as int, i);
            }
        }
    }
}

// Initialization segments.

/// An initialization segment starts the stream over, whatever came before: no key, no identifier and
/// no predecessor survives it. Where its track timing can be read, nothing is reported and the timing
/// is what the segments behind it are held to; otherwise failures are reported and there is none.
pub proof fn init_segment_starts_the_stream_over(
    validator: &mut LiveVideoValidator,
    segment: &[u8],
    tracker: &mut StatusTracker,
    r: Result<(), Error>,
)
    requires
        call_ensures(
            LiveVideoValidator::validate_init_segment,
            (validator, segment, tracker),
            r,
        ),
    ensures
        final(validator)@.previous_segment is None,
        final(validator)@.session_keys.len() == 0,
        final(validator)@.expected_manifest_id is None,
        final(validator)@.manifest_box_init_id is None,
        final(validator)@.seen_emsg_ids == Set::<u32>::empty(),
        match crate::bmff::init_info(segment@) {
            Ok(info) => {
                &&& clean(old(tracker)@, final(tracker)@, r)
                &&& final(validator)@.init_track_id == Some(info.track_id)
                &&& final(validator)@.init_timescale == Some(info.timescale)
                &&& final(validator)@.init_default_sample_duration == info.default_sample_duration
            },
            Err(_) => {
                &&& reported(old(tracker)@, final(tracker)@, r)
                &&& final(validator)@.init_track_id is None
                &&& final(validator)@.init_timescale is None
                &&& final(validator)@.init_default_sample_duration is None
            },
        },
{
    crate::validator_laws::readable_init_has_no_failures(segment@);
    assert(final(tracker)@.failures.take(old(tracker)@.failures.len() as int)
        =~= old(tracker)@.failures);
    assert(final(tracker)@.failures.len() == old(tracker)@.failures.len()
        ==> final(tracker)@.failures =~= old(tracker)@.failures);
}

/// Registering the manifest of the initialization segment keeps it, and nothing else changes; a label
/// that is no identifier is reported and not kept.
pub proof fn registered_init_is_kept(
    validator: &mut LiveVideoValidator,
    manifest_id: &str,
    tracker: &mut StatusTracker,
    r: Result<(), Error>,
)
    requires
        call_ensures(
            LiveVideoValidator::register_manifest_box_init,
            (validator, manifest_id, tracker),
            r,
        ),
    ensures
        if manifest_id@.len() > 9 && manifest_id@.take(9) == "urn:c2pa:"@ {
            &&& clean(old(tracker)@, final(tracker)@, r)
            &&& final(validator)@ == (ValidatorState {
                manifest_box_init_id: Some(manifest_id@),
                ..old(validator)@
            })
        } else {
            &&& reported(old(tracker)@, final(tracker)@, r)
            &&& final(validator)@ == old(validator)@
        },
{
    identifier_shape(manifest_id@);
    assert(final(tracker)@.failures.take(old(tracker)@.failures.len() as int)
        =~= old(tracker)@.failures);
}

} // verus!
