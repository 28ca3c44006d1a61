//! That a refusal names the fault: an input with one fault alone is refused with the words for it.

use vstd::prelude::*;

use crate::bmff::{media_info, MediaSegmentInfo};
use crate::clock::utc_seconds;
use crate::cose::{decoded_sign1, is_iat, LabelView, Sign1};
use crate::definition_laws::{
    first_assertion_is_found, found_assertion_is_the_first, live_assertion_at, text_under, under,
};
use crate::error::{Error, Failure};
use crate::filter_laws::{nothing_is_picked, only_at, only_item_is_picked};
use crate::json::json_of;
use crate::manifest_report::{is_integrity_code, ManifestReport};
use crate::message_laws::value_of;
use crate::segment_info::{BmffHash, ParsedVsi};
use crate::signing::{LiveVideoSegment, LiveVideoSigner};
use crate::status_tracker::{item_views, ItemView, StatusTracker, TrackerView};
use crate::validation_laws::newly_logged;
use crate::validator::{LiveVideoValidator, ManifestChecks, OpenedVsi, VsiChecks};
use crate::verifiable_segment_info::{vsi_candidates, VsiEmsg};
use crate::vsi_signing::{LiveVideoVsiSigner, MediaPlan};

verus! {

/// Whether a call was refused with the given words.
pub open spec fn refused_with<T>(r: Result<T, Error>, words: Seq<char>) -> bool {
    r is Err && r->Err_0@ == Failure::BadParam(words)
}

/// A segment whose number, key, manifest, track or timing alone does not agree with a session is
/// refused for just that.
pub proof fn misfit_is_named(
    signer: &LiveVideoVsiSigner,
    manifest_id: &str,
    media: &MediaSegmentInfo,
    event: &VsiEmsg,
    parsed: &ParsedVsi,
    r: Result<(), Error>,
)
    requires
        call_ensures(
            LiveVideoVsiSigner::check_fit,
            (signer, manifest_id, media, event, parsed),
            r,
        ),
    ensures
        ({
            let number = parsed.segment_info_map.sequence_number == media.sequence_number;
            let key = parsed.sign1@.key_id == signer@.kid;
            let manifest = parsed.segment_info_map.manifest_id@ == manifest_id@;
            let track = signer@.track_id == Some(media.track_id);
            let timing = signer@.track_timescale == Some(event@.timescale)
                && event@.presentation_time_delta == 0 && event@.event_duration
                == media.duration_ticks && event@.id != 0;
            &&& !number && key && manifest && track && timing ==> refused_with(
                r,
                "resumed VSI sequenceNumber does not match moof/mfhd.sequence_number"@,
            )
            &&& number && !key && manifest && track && timing ==> refused_with(
                r,
                "resumed VSI kid does not match the configured session key"@,
            )
            &&& number && key && !manifest && track && timing ==> refused_with(
                r,
                "resumed VSI manifestId does not match the restored initialization manifest"@,
            )
            &&& number && key && manifest && !track && timing ==> refused_with(
                r,
                "resumed VSI media track does not match the restored initialization track"@,
            )
            &&& number && key && manifest && track && !timing ==> refused_with(
                r,
                "resumed VSI emsg timing or id does not match the restored init and media segment"@,
            )
        }),
{
}

/// A media segment that carries Verifiable Segment Info already, or that a session without a manifest,
/// a track or a timescale is to sign, is refused for just that, whatever else the segment says.
pub proof fn unready_session_is_named(
    signer: &LiveVideoVsiSigner,
    segment: &[u8],
    iat: i64,
    r: Result<MediaPlan, Error>,
)
    requires
        call_ensures(LiveVideoVsiSigner::plan_media_segment, (signer, segment, iat), r),
    ensures
        ({
            let fresh = vsi_candidates(segment@).len() == 0;
            let manifest = signer@.active_manifest_id is Some;
            let named = manifest && signer@.active_manifest_id->Some_0.len() > 9
                && signer@.active_manifest_id->Some_0.take(9) == "urn:c2pa:"@;
            &&& !fresh ==> refused_with(r, "media segment already contains a C2PA VSI emsg box"@)
            &&& fresh && !manifest ==> refused_with(
                r,
                "a valid signed initialization segment must establish manifestId before media signing"@,
            )
            &&& fresh && manifest && !named ==> refused_with(
                r,
                "active live manifestId must be a non-empty urn:c2pa: identifier"@,
            )
            &&& fresh && named && signer@.track_id is None ==> refused_with(
                r,
                "a valid signed initialization segment must establish a media track before signing"@,
            )
            &&& fresh && named && signer@.track_id is Some && signer@.track_timescale is None
                ==> refused_with(
                r,
                "a valid signed initialization segment must establish a non-zero track timescale before signing"@,
            )
        }),
{
    if signer@.active_manifest_id is Some {
        crate::validation_laws::identifier_shape(signer@.active_manifest_id->Some_0);
    }
}

/// Whether words hold two numbers: the given texts stand round their digits.
pub open spec fn tells_two_numbers(
    words: Seq<char>,
    front: Seq<char>,
    first: Seq<char>,
    middle: Seq<char>,
    second: Seq<char>,
    back: Seq<char>,
) -> bool {
    words == front + first + middle + second + back
}

/// A media segment out of turn is refused with both numbers, and one of another track with both tracks.
pub proof fn segment_out_of_turn_is_named(
    signer: &LiveVideoVsiSigner,
    segment: &[u8],
    iat: i64,
    r: Result<MediaPlan, Error>,
)
    requires
        call_ensures(LiveVideoVsiSigner::plan_media_segment, (signer, segment, iat), r),
        vsi_candidates(segment@).len() == 0,
        signer@.active_manifest_id is Some,
        signer@.active_manifest_id->Some_0.len() > 9,
        signer@.active_manifest_id->Some_0.take(9) == "urn:c2pa:"@,
        signer@.track_id is Some,
        signer@.track_timescale is Some,
        media_info(segment@, signer@.default_sample_duration) is Ok,
    ensures
        ({
            let media = media_info(segment@, signer@.default_sample_duration)->Ok_0;
            let next = media.sequence_number == signer@.next_sequence_number;
            let own = signer@.track_id == Some(media.track_id);
            &&& !next ==> r is Err && exists|expected: Seq<char>, found: Seq<char>|
                value_of(expected) == signer@.next_sequence_number && value_of(found)
                    == media.sequence_number && #[trigger] tells_two_numbers(
                    r->Err_0@->BadParam_0,
                    "VSI sequenceNumber ("@,
                    expected,
                    ") does not match the segment's own moof/mfhd.sequence_number ("@,
                    found,
                    "); the signer's sequence counter has drifted"@,
                )
            &&& next && !own ==> r is Err && exists|found: Seq<char>, expected: Seq<char>|
                value_of(found) == media.track_id && value_of(expected) == signer@.track_id->Some_0
                    && #[trigger] tells_two_numbers(
                    r->Err_0@->BadParam_0,
                    "media segment tfhd track_ID ("@,
                    found,
                    ") does not match initialization track_ID ("@,
                    expected,
                    ")"@,
                )
            &&& next && own && signer@.next_event_id == u32::MAX ==> refused_with(
                r,
                "VSI emsg id cannot advance past u32::MAX"@,
            )
        }),
{
    let media = media_info(segment@, signer@.default_sample_duration)->Ok_0;
    crate::validation_laws::identifier_shape(signer@.active_manifest_id->Some_0);
    crate::message_laws::digits_have_their_value(signer@.next_sequence_number as nat);
    crate::message_laws::digits_have_their_value(media.sequence_number as nat);
    crate::message_laws::digits_have_their_value(media.track_id as nat);
    crate::message_laws::digits_have_their_value(signer@.track_id->Some_0 as nat);
    if media.sequence_number != signer@.next_sequence_number {
        assert(tells_two_numbers(
            r->Err_0@->BadParam_0,
            "VSI sequenceNumber ("@,
            crate::text::decimal(signer@.next_sequence_number as nat),
            ") does not match the segment's own moof/mfhd.sequence_number ("@,
            crate::text::decimal(media.sequence_number as nat),
            "); the signer's sequence counter has drifted"@,
        ));
    } else if signer@.track_id != Some(media.track_id) {
        assert(tells_two_numbers(
            r->Err_0@->BadParam_0,
            "media segment tfhd track_ID ("@,
            crate::text::decimal(media.track_id as nat),
            ") does not match initialization track_ID ("@,
            crate::text::decimal(signer@.track_id->Some_0 as nat),
            ")"@,
        ));
    }
}

/// A segment that a chain cannot take on is refused for what is missing: its own number, the link, or
/// that its number is the next, in which case both numbers are told.
pub proof fn segment_off_the_chain_is_named(
    signer: &mut LiveVideoSigner,
    segment: &[u8],
    r: Result<LiveVideoSegment, Error>,
)
    requires
        call_ensures(LiveVideoSigner::begin_media_segment, (signer, segment), r),
    ensures
        ({
            let read = crate::bmff::media_sequence_number(segment@);
            let linked = old(signer)@.previous_manifest_id is Some;
            &&& read is None ==> refused_with(
                r,
                "media segment must contain exactly one moof/traf and a valid mfhd"@,
            )
            &&& read is Some && !linked ==> refused_with(
                r,
                "a signed initialization segment must establish continuity before media signing"@,
            )
            &&& read is Some && linked && r is Err ==> exists|
                expected: Seq<char>,
                found: Seq<char>,
            |
                value_of(expected) == old(signer)@.next_sequence_number && value_of(found)
                    == read->Some_0 && #[trigger] tells_two_numbers(
                    r->Err_0@->BadParam_0,
                    "live video sequenceNumber ("@,
                    expected,
                    ") does not match moof/mfhd.sequence_number ("@,
                    found,
                    ")"@,
                )
        }),
{
    let read = crate::bmff::media_sequence_number(segment@);
    if read is Some && old(signer)@.previous_manifest_id is Some && r is Err {
        crate::message_laws::digits_have_their_value(
            old(signer)@.next_sequence_number as nat,
        );
        crate::message_laws::digits_have_their_value(read->Some_0 as nat);
        assert(tells_two_numbers(
            r->Err_0@->BadParam_0,
            "live video sequenceNumber ("@,
            crate::text::decimal(old(signer)@.next_sequence_number as nat),
            ") does not match moof/mfhd.sequence_number ("@,
            crate::text::decimal(read->Some_0 as nat),
            ")"@,
        ));
    }
}

/// A signed segment without a manifest is not found; one whose label is no identifier is refused for
/// that, and one with a failure of integrity is refused with the code of a status that failed.
pub proof fn unsound_manifest_is_named(report: &ManifestReport, r: Result<String, Error>)
    requires
        call_ensures(crate::manifest_report::extract_signed_manifest_id, (report,), r),
    ensures
        ({
            let whole = forall|i: int|
                0 <= i < report.statuses@.len() ==> (#[trigger] report.statuses@[i]).passed
                    || !is_integrity_code(report.statuses@[i].code@);
            &&& whole && report.label is None ==> r is Err && r->Err_0 is NotFound
            &&& whole && report.label is Some && r is Err ==> refused_with(
                r,
                "signed live manifest must have a non-empty urn:c2pa: label"@,
            )
            &&& !whole ==> exists|i: int|
                0 <= i < report.statuses@.len() && !(#[trigger] report.statuses@[i]).passed
                    && is_integrity_code(report.statuses@[i].code@) && refused_with(
                    r,
                    "signed live manifest failed integrity validation: "@
                        + report.statuses@[i].code@,
                )
        }),
{
    crate::definition_laws::no_failure_means_sound(report.statuses@);
    let views = crate::manifest_report::status_views(report.statuses@);
    if crate::manifest_report::first_integrity_failure(views) is Some {
        crate::step_laws::first_picked_is_the_first(views);
        let test = crate::manifest_report::disqualifies();
        let k = choose|k: int|
            0 <= k < views.len() && test(#[trigger] views[k]) && views[k] == views.filter(test)[0]
                && forall|j: int| 0 <= j < k ==> !test(#[trigger] views[j]);
        assert(!report.statuses@[k].passed);
    }
}

/// A hash with a Merkle tree is refused for it, and one that leaves nothing out for that.
pub proof fn wrong_hash_is_named(hash: &BmffHash, r: Result<(), Error>)
    requires
        call_ensures(crate::segment_info::check_bmff_hash, (hash,), r),
    ensures
        hash@.merkle ==> refused_with(
            r,
            "resumed VSI bmffHash must not contain a merkle field"@,
        ),
        !hash@.merkle && r is Err ==> refused_with(
            r,
            "resumed VSI bmffHash lacks the required C2PA emsg exclusion"@,
        ),
{
}

/// A message that cannot be read is refused with the words of the reader, and one without a payload for
/// that.
pub proof fn unreadable_message_is_named(bytes: &[u8], r: Result<Sign1, Error>)
    requires
        call_ensures(crate::segment_info::parse_vsi_message, (bytes,), r),
    ensures
        r is Ok <==> decoded_sign1(bytes@) is Ok && decoded_sign1(bytes@)->Ok_0.payload is Some,
        r is Ok ==> r->Ok_0@ == decoded_sign1(bytes@)->Ok_0,
        decoded_sign1(bytes@) is Err ==> refused_with(
            r,
            "invalid COSE_Sign1 in VSI emsg: "@ + decoded_sign1(bytes@)->Err_0,
        ),
        decoded_sign1(bytes@) is Ok && decoded_sign1(bytes@)->Ok_0.payload is None
            ==> refused_with(r, "COSE_Sign1 VSI payload is absent (detached)"@),
{
}

/// A message that claims no time of signing is refused for that, and one whose only claim is no integer,
/// or none that fits, for that.
pub proof fn missing_time_is_named(message: &Sign1, r: Result<i64, Error>, k: int)
    requires
        call_ensures(crate::cose::protected_iat, (message,), r),
    ensures
        (forall|j: int|
            0 <= j < message@.entries.len() ==> (#[trigger] message@.entries[j]).0
                != LabelView::Text("iat"@)) ==> refused_with(
            r,
            "VSI COSE_Sign1 protected header must contain iat"@,
        ),
        0 <= k < message@.entries.len() && message@.entries[k].0 == LabelView::Text("iat"@) && (
        forall|j: int|
            0 <= j < message@.entries.len() && j != k ==> (#[trigger] message@.entries[j]).0
                != LabelView::Text("iat"@)) ==> {
            &&& message@.entries[k].1 is None ==> refused_with(
                r,
                "VSI COSE_Sign1 protected iat must be an integer NumericDate"@,
            )
            &&& message@.entries[k].1 is Some && !(i64::MIN <= message@.entries[k].1->Some_0
                <= i64::MAX) ==> refused_with(
                r,
                "VSI COSE_Sign1 protected iat is out of range"@,
            )
        },
{
    let entries = message@.entries;
    let test = is_iat();
    nothing_is_picked(entries, test);
    if forall|j: int|
        0 <= j < entries.len() ==> (#[trigger] entries[j]).0 != LabelView::Text("iat"@) {
        assert forall|j: int| 0 <= j < entries.len() implies !test(#[trigger] entries[j]) by {
            assert(entries[j].0 != LabelView::Text("iat"@));
        }
    }
    if 0 <= k < entries.len() && entries[k].0 == LabelView::Text("iat"@) && (forall|j: int|
        0 <= j < entries.len() && j != k ==> (#[trigger] entries[j]).0 != LabelView::Text(
            "iat"@,
        )) {
        assert(only_at(entries, test, k));
        only_item_is_picked(entries, test, k);
    }
}

/// A key is refused for what is wrong with its period: when it was created cannot be told, the period or
/// its end cannot be told, or the time lies outside.
pub proof fn invalid_key_is_named(
    created_at: &crate::clock::DateT,
    validity_period: u64,
    time: i64,
    r: Result<(), Error>,
)
    requires
        call_ensures(
            crate::session_keys::ensure_key_valid_at,
            (created_at, validity_period, time),
            r,
        ),
    ensures
        ({
            let created = utc_seconds(created_at.0@);
            &&& created is None ==> refused_with(
                r,
                "session key createdAt is not a valid RFC 3339 datetime"@,
            )
            &&& created is Some && validity_period > i64::MAX ==> refused_with(
                r,
                "session key validityPeriod overflow"@,
            )
            &&& created is Some && validity_period <= i64::MAX && created->Some_0 + validity_period
                > i64::MAX ==> refused_with(r, "session key validity window overflow"@)
            &&& created is Some && validity_period <= i64::MAX && created->Some_0 + validity_period
                <= i64::MAX && r is Err ==> refused_with(
                r,
                "session key is outside its published validity period"@,
            )
        }),
{
}

/// A definition with one fault alone is refused for just that.
pub proof fn wrong_definition_is_named(
    manifest: serde_json::Value,
    r: Result<serde_json::Value, Error>,
)
    requires
        call_ensures(crate::live_manifest::prepare_live_manifest, (manifest,), r),
    ensures
        ({
            let value = json_of(manifest);
            let version = under(value, "claim_version"@);
            let infos = under(value, "claim_generator_info"@);
            let other_version = version is Some && version->Some_0 is Unsigned
                && version->Some_0->Unsigned_0 != 2;
            let list = infos is Some && infos->Some_0 is Array && infos->Some_0->Array_0.len() > 0;
            &&& !(value is Object) ==> refused_with(r, "manifest JSON must be an object"@)
            &&& value is Object && other_version ==> refused_with(
                r,
                "live video requires claim_version 2 for C2PA 2.4"@,
            )
            &&& value is Object && !other_version && infos is Some && !(infos->Some_0 is Array)
                ==> refused_with(r, "claim_generator_info must be an array for live video"@)
            &&& value is Object && !other_version && list && !(infos->Some_0->Array_0[0] is Object)
                ==> refused_with(r, "the first claim_generator_info entry must be an object"@)
            &&& value is Object && !other_version && list && infos->Some_0->Array_0[0] is Object
                && under(infos->Some_0->Array_0[0], "specVersion"@) is Some && text_under(
                infos->Some_0->Array_0[0],
                "specVersion"@,
            ) != Some("2.4"@) ==> refused_with(
                r,
                "live video claim_generator_info specVersion conflicts with required value 2.4"@,
            )
        }),
{
}

/// A definition without a list of assertions, without a live segment assertion, or whose live segment
/// assertion names no stream, is refused for just that.
pub proof fn streamless_definition_is_named(
    manifest: serde_json::Value,
    r: Result<LiveVideoSigner, Error>,
)
    requires
        call_ensures(crate::signing::extract_live_video_state, (manifest,), r),
    ensures
        ({
            let list = under(json_of(manifest), "assertions"@);
            let listed = list is Some && list->Some_0 is Array;
            &&& !listed ==> refused_with(r, "manifest must have an 'assertions' array"@)
            &&& listed && (forall|i: int|
                !(#[trigger] live_assertion_at(list->Some_0->Array_0, i))) ==> refused_with(
                r,
                "manifest must include a 'c2pa.livevideo.segment' assertion with 'streamId'"@,
            )
            &&& listed && r is Err && (exists|i: int| #[trigger]
                live_assertion_at(list->Some_0->Array_0, i)) ==> refused_with(
                r,
                "'c2pa.livevideo.segment' assertion must have a 'streamId' string field"@,
            )
        }),
{
    let list = under(json_of(manifest), "assertions"@);
    if list is Some && list->Some_0 is Array {
        let all = list->Some_0->Array_0;
        found_assertion_is_the_first(all, 0);
        assert forall|i: int| #[trigger] live_assertion_at(all, i) implies
            crate::signing::live_assertion_from(all, 0) == Some(i) by {
            first_assertion_is_found(all, i);
        }
        if crate::signing::live_assertion_from(all, 0) is Some {
            assert(live_assertion_at(all, crate::signing::live_assertion_from(all, 0)->Some_0));
        }
    }
}

// What is logged.

/// Whether a call logged one failure of a segment, in the given words.
pub open spec fn logs_only(before: TrackerView, after: TrackerView, words: Seq<char>) -> bool {
    newly_logged(before, after) == seq![
        ItemView { description: words, code: "livevideo.segment.invalid"@ },
    ]
}

/// An opened segment with one fault alone, of which the host names no failure, is logged for just that.
pub proof fn fault_of_an_opened_segment_is_named(
    validator: &mut LiveVideoValidator,
    segment: &[u8],
    opened: OpenedVsi,
    checks: &VsiChecks,
    tracker: &mut StatusTracker,
    r: Result<(), Error>,
)
    requires
        call_ensures(
            LiveVideoValidator::validate_opened_vsi,
            (validator, segment, opened, checks, tracker),
            r,
        ),
        media_info(segment@, old(validator)@.init_default_sample_duration) is Ok,
        checks.manifest@.len() == 0,
        checks.signature@.len() == 0,
    ensures
        ({
            let state = old(validator)@;
            let media = media_info(segment@, state.init_default_sample_duration)->Ok_0;
            let event = opened.event@;
            let start = event.presentation_time_delta == 0;
            let scale = event.timescale != 0 && state.init_timescale == Some(event.timescale);
            let whole = event.event_duration == media.duration_ticks;
            let unused = !state.seen_emsg_ids.contains(event.id);
            let some = event.id != 0;
            let number = opened.sequence_number == media.sequence_number;
            let track = state.init_track_id is None || state.init_track_id == Some(media.track_id);
            let before = old(tracker)@;
            let after = final(tracker)@;
            &&& !start && scale && whole && unused && some && number && track ==> logs_only(
                before,
                after,
                "VSI emsg presentation_time_delta must be zero"@,
            )
            &&& start && !scale && whole && unused && some && number && track ==> logs_only(
                before,
                after,
                "VSI emsg timescale must be non-zero and match the initialization track timescale"@,
            )
            &&& start && scale && !whole && unused && some && number && track ==> logs_only(
                before,
                after,
                "VSI emsg event_duration must cover the complete media segment"@,
            )
            &&& start && scale && whole && !unused && some && number && track ==> logs_only(
                before,
                after,
                "VSI emsg id must be unique within the live session"@,
            )
            &&& start && scale && whole && unused && !some && number && track ==> logs_only(
                before,
                after,
                "VSI emsg id must be nonzero"@,
            )
            &&& start && scale && whole && unused && some && !number && track ==> logs_only(
                before,
                after,
                "VSI sequenceNumber must match moof/mfhd.sequence_number"@,
            )
            &&& start && scale && whole && unused && some && number && !track ==> logs_only(
                before,
                after,
                "media segment tfhd track_ID does not match the initialization track_ID"@,
            )
        }),
{
    let state = old(validator)@;
    let media = media_info(segment@, state.init_default_sample_duration)->Ok_0;
    let before = old(tracker)@;
    let after = final(tracker)@;
    assert(item_views(checks.manifest@) =~= Seq::<ItemView>::empty());
    assert(item_views(checks.signature@) =~= Seq::<ItemView>::empty());
    let found = crate::validator::opened_failures(
        state,
        segment@,
        opened@,
        item_views(checks.manifest@),
        item_views(checks.signature@),
    );
    if found.len() == 1 {
        assert(newly_logged(before, after) =~= found);
        assert(found =~= seq![found[0]]);
    }
}

/// A first media segment that does not refer to the initialization segment is logged for that, and for
/// nothing else where the host names no failure of its layout.
pub proof fn missing_link_is_named(
    validator: &mut LiveVideoValidator,
    manifest_id: &str,
    claim: &LiveVideoSegment,
    checks: &ManifestChecks,
    tracker: &mut StatusTracker,
    r: Result<(), Error>,
)
    requires
        call_ensures(
            LiveVideoValidator::validate_checked_segment,
            (validator, manifest_id, claim, checks, tracker),
            r,
        ),
        old(validator)@.previous_segment is None,
        old(validator)@.manifest_box_init_id is Some,
        claim@.previous_manifest_id != old(validator)@.manifest_box_init_id,
        checks.layout@.len() == 0,
    ensures
        logs_only(
            old(tracker)@,
            final(tracker)@,
            "first media segment previousManifestId must reference the signed initialization manifest"@,
        ),
{
    assert(item_views(checks.layout@) =~= Seq::<ItemView>::empty());
    let found = crate::validator::segment_failures(
        old(validator)@,
        claim@,
        item_views(checks.layout@),
        item_views(checks.sequence@),
    );
    assert(newly_logged(old(tracker)@, final(tracker)@) =~= found);
}

} // verus!
