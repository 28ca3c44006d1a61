//! How the states of a [`LiveVideoSigner`](crate::signing::LiveVideoSigner) follow each other.

use vstd::prelude::*;

use crate::bmff::media_sequence_number;
use crate::error::{Error, Failure};
use crate::json::{field_or_null, json_pretty_text, nests, same_but_fractions, Json};
use crate::json_laws::{
    field_is_within_limits, field_keeps_limits, item_keeps_limits, like_items_make_like_arrays,
    likeness_keeps_fields, likeness_keeps_items, likeness_keeps_simple_values,
    likeness_takes_fields,
};
use crate::live_manifest::live_manifest;
use crate::manifest_report::{text_view, ManifestReport};
use crate::signing::{
    advanced, begun, continued_assertion, continued_manifest, continued_text, continues,
    holds_state, init_signing_outcome, initial_state, is_live_assertion, linked,
    live_assertion_from, manifest_assertions, manifest_state, media_signing_outcome,
    normalized_manifest, reading_outcome, restoring_outcome, same_place, takes_state,
    text_takes_state, LiveSignerState, LiveVideoSegment, LiveVideoSigner,
};

verus! {

/// A segment that follows a signed one claims the next number and refers to the manifest of the
/// one before it.
pub proof fn next_segment_continues_the_chain(
    state: LiveSignerState,
    first: Seq<u8>,
    manifest_id: Seq<char>,
    second: Seq<u8>,
)
    requires
        begun(state, first).1 is Ok,
        begun(state, first).0.next_sequence_number < u64::MAX,
    ensures
        begun(advanced(begun(state, first).0, manifest_id), second).1 matches Ok(claim) ==> {
            &&& claim.sequence_number == begun(state, first).1->Ok_0.sequence_number + 1
            &&& claim.previous_manifest_id == Some(manifest_id)
            &&& claim.stream_id == begun(state, first).1->Ok_0.stream_id
        },
{
}

/// The first media segment refers to the manifest of the initialization segment.
pub proof fn first_segment_refers_to_init(
    state: LiveSignerState,
    manifest_id: Seq<char>,
    segment: Seq<u8>,
)
    ensures
        begun(linked(state, manifest_id), segment).1 matches Ok(claim)
            ==> claim.previous_manifest_id == Some(manifest_id),
{
}

/// No media segment is signed before an initialization segment.
pub proof fn nothing_is_signed_without_init(state: LiveSignerState, segment: Seq<u8>)
    requires
        state.previous_manifest_id is None,
    ensures
        begun(state, segment).1 is Err,
        begun(state, segment).0 == state,
{
}

/// The first live assertion stays the first when it is replaced by another.
proof fn replaced_assertion_stays_first(items: Seq<Json>, from: int, i: int, item: Json)
    requires
        0 <= from,
        live_assertion_from(items, from) == Some(i),
        is_live_assertion(item),
    ensures
        from <= i < items.len(),
        live_assertion_from(items.update(i, item), from) == Some(i),
    decreases items.len() - from,
{
    if from < items.len() && !is_live_assertion(items[from]) {
        replaced_assertion_stays_first(items, from + 1, i, item);
    }
}

/// Writing a state into a normalized definition keeps it normalized, and the definition then gives
/// a signer that state: the number, the stream, and the link, or the link that was there before
/// where the state has none.
pub proof fn written_state_is_read_back(
    manifest: Json,
    previous_manifest_id: Option<Seq<char>>,
    next_sequence_number: u64,
)
    requires
        live_manifest(manifest) == Ok::<Json, Failure>(manifest),
        manifest_state(manifest) is Ok,
        takes_state(manifest),
    ensures
        continued_manifest(manifest, previous_manifest_id, next_sequence_number) matches Ok(
            continued,
        ) && {
            &&& live_manifest(continued) == Ok::<Json, Failure>(continued)
            &&& manifest_state(continued) == Ok::<LiveSignerState, Failure>(
                LiveSignerState {
                    next_sequence_number,
                    sequence_number_configured: true,
                    previous_manifest_id: if previous_manifest_id is Some {
                        previous_manifest_id
                    } else {
                        manifest_state(manifest)->Ok_0.previous_manifest_id
                    },
                    ..manifest_state(manifest)->Ok_0
                },
            )
        },
{
    reveal_strlit("assertions");
    reveal_strlit("claim_generator_info");
    reveal_strlit("claim_version");
    reveal_strlit("data");
    reveal_strlit("label");
    reveal_strlit("streamId");
    reveal_strlit("previousManifestId");
    reveal_strlit("nextSequenceNumber");
    let items = manifest_assertions(manifest)->Ok_0;
    let i = live_assertion_from(items, 0)->Some_0;
    let item = continued_assertion(items[i], previous_manifest_id, next_sequence_number);
    let continued = manifest.with_field("assertions"@, Json::Array(items.update(i, item)));
    assert("assertions"@.len() == 10 && "claim_generator_info"@.len() == 20
        && "claim_version"@.len() == 13);
    assert("data"@.len() == 4 && "label"@.len() == 5);
    assert("streamId"@.len() == 8);
    assert("previousManifestId"@[0] != "nextSequenceNumber"@[0]);
    assert("previousManifestId"@.len() == 18 && "nextSequenceNumber"@.len() == 18);
    assert(is_live_assertion(item)) by {
        assert(item.field("label"@) == items[i].field("label"@)) by {
            found_is_live(items, 0);
        }
        found_is_live(items, 0);
    }
    replaced_assertion_stays_first(items, 0, i, item);
    assert(items.update(i, item).remove(i) =~= items.remove(i));
    assert(continued.open_fields().insert(
        "assertions"@,
        Json::Array(items.remove(i)),
    ) =~= manifest.open_fields().insert("assertions"@, Json::Array(items.remove(i))));
    assert(live_manifest(continued) == Ok::<Json, Failure>(continued)) by {
        let entries = manifest.field("claim_generator_info"@);
        assert(continued.field("claim_generator_info"@) == entries);
        assert(continued.field("claim_version"@) == manifest.field("claim_version"@));
        assert(manifest.open_fields().dom().contains("claim_generator_info"@));
        let same = continued.open_fields()["claim_generator_info"@];
        assert(continued.open_fields().insert("claim_generator_info"@, same)
            =~= continued.open_fields());
    }
}

/// The live assertion that is found is one.
proof fn found_is_live(items: Seq<Json>, from: int)
    requires
        0 <= from,
    ensures
        live_assertion_from(items, from) matches Some(i) ==> from <= i < items.len()
            && is_live_assertion(items[i]),
    decreases items.len() - from,
{
    if from < items.len() && !is_live_assertion(items[from]) {
        found_is_live(items, from + 1);
    }
}

/// A definition within the limits stays within them with any state in it.
pub proof fn written_state_keeps_limits(
    manifest: Json,
    previous_manifest_id: Option<Seq<char>>,
    next_sequence_number: u64,
    whole: bool,
)
    requires
        nests(manifest, 128, whole),
        takes_state(manifest),
    ensures
        continued_manifest(manifest, previous_manifest_id, next_sequence_number) matches Ok(
            continued,
        ) ==> nests(continued, 128, whole),
{
    match continued_manifest(manifest, previous_manifest_id, next_sequence_number) {
        Err(_) => {},
        Ok(_) => {
            let items = manifest_assertions(manifest)->Ok_0;
            let i = live_assertion_from(items, 0)->Some_0;
            found_is_live(items, 0);
            field_is_within_limits(manifest, "assertions"@, 128, whole);
            assert(nests(Json::Array(items), 127, whole));
            assert(nests(items[i], 126, whole));
            field_is_within_limits(items[i], "data"@, 126, whole);
            let data = field_or_null(items[i], "data"@);
            let joined = match previous_manifest_id {
                Some(id) => data.with_field("previousManifestId"@, Json::Text(id)),
                None => data,
            };
            if previous_manifest_id is Some {
                field_keeps_limits(
                    data,
                    "previousManifestId"@,
                    Json::Text(previous_manifest_id->Some_0),
                    125,
                    whole,
                );
            }
            let number = Json::Unsigned(next_sequence_number);
            field_keeps_limits(joined, "nextSequenceNumber"@, number, 125, whole);
            let full = joined.with_field("nextSequenceNumber"@, number);
            field_keeps_limits(items[i], "data"@, full, 126, whole);
            let item = continued_assertion(items[i], previous_manifest_id, next_sequence_number);
            item_keeps_limits(items, i, item, 127, whole);
            field_keeps_limits(
                manifest,
                "assertions"@,
                Json::Array(items.update(i, item)),
                128,
                whole,
            );
        },
    }
}

/// A text that a signer writes holds its state: the stream, the number, and the link or its absence,
/// where the signer went on from the state that the definition gives.
///
/// [`from_manifest_json`] promises to take the state from such a text.
///
/// [`from_manifest_json`]: crate::signing::LiveVideoSigner::from_manifest_json
pub proof fn written_text_holds_the_state(text: Seq<char>, state: LiveSignerState, whole: bool)
    requires
        normalized_manifest(text) is Ok,
        nests(normalized_manifest(text)->Ok_0, 128, whole),
        live_manifest(normalized_manifest(text)->Ok_0) == normalized_manifest(text),
        text_takes_state(text),
        initial_state(text) matches Ok(start) && continues(start, state),
    ensures
        continued_text(text, state) is Ok,
        holds_state(continued_text(text, state)->Ok_0, state, whole),
{
    let manifest = normalized_manifest(text)->Ok_0;
    written_state_is_read_back(manifest, state.previous_manifest_id, state.next_sequence_number);
    written_state_keeps_limits(
        manifest,
        state.previous_manifest_id,
        state.next_sequence_number,
        whole,
    );
    let continued = continued_manifest(
        manifest,
        state.previous_manifest_id,
        state.next_sequence_number,
    )->Ok_0;
    assert(json_pretty_text(continued) == continued_text(text, state)->Ok_0);
}

/// A signer that signs an initialization segment, or fails to, goes on from the state that it was
/// created with.
pub proof fn init_signing_continues_the_state<
    S: Fn(&str, &[u8]) -> Result<Vec<u8>, Error>,
    R: Fn(&[u8]) -> Result<ManifestReport, Error>,
>(
    start: LiveSignerState,
    state: LiveSignerState,
    segment: Seq<u8>,
    sign: S,
    read: R,
    after: LiveSignerState,
    r: Result<Vec<u8>, Error>,
)
    requires
        continues(start, state),
        init_signing_outcome(state, segment, sign, read, after, r),
    ensures
        continues(start, after),
{
}

/// A signer that signs a media segment, or fails to, goes on from the state that it was created with.
pub proof fn media_signing_continues_the_state<
    S: Fn(&str, &LiveVideoSegment, &[u8]) -> Result<Vec<u8>, Error>,
    R: Fn(&[u8]) -> Result<ManifestReport, Error>,
>(
    start: LiveSignerState,
    state: LiveSignerState,
    segment: Seq<u8>,
    sign: S,
    read: R,
    after: LiveSignerState,
    r: Result<Vec<u8>, Error>,
)
    requires
        continues(start, state),
        media_signing_outcome(state, segment, sign, read, after, r),
    ensures
        continues(start, after),
{
}

/// A signer that takes up a signed initialization segment, or refuses it, goes on from the state that
/// it was created with.
pub proof fn restoring_continues_the_state<R: Fn(&[u8]) -> Result<ManifestReport, Error>>(
    start: LiveSignerState,
    state: LiveSignerState,
    segment: Seq<u8>,
    read: R,
    after: LiveSignerState,
    r: Result<(), Error>,
)
    requires
        continues(start, state),
        restoring_outcome(state, segment, read, after, r),
    ensures
        continues(start, after),
{
}

/// Whether one call of a signer leads from one state to the other: signing an initialization segment
/// or a media segment, or taking up a signed initialization segment.
pub open spec fn signing_step<
    S: Fn(&str, &[u8]) -> Result<Vec<u8>, Error>,
    M: Fn(&str, &LiveVideoSegment, &[u8]) -> Result<Vec<u8>, Error>,
    R: Fn(&[u8]) -> Result<ManifestReport, Error>,
>(before: LiveSignerState, after: LiveSignerState) -> bool {
    ||| exists|segment: Seq<u8>, sign: S, read: R, r: Result<Vec<u8>, Error>| #[trigger]
        init_signing_outcome(before, segment, sign, read, after, r)
    ||| exists|segment: Seq<u8>, sign: M, read: R, r: Result<Vec<u8>, Error>| #[trigger]
        media_signing_outcome(before, segment, sign, read, after, r)
    ||| exists|segment: Seq<u8>, read: R, r: Result<(), Error>| #[trigger]
        restoring_outcome(before, segment, read, after, r)
}

/// Whether calls of a signer lead through the given states, one after the other.
pub open spec fn signing_run<
    S: Fn(&str, &[u8]) -> Result<Vec<u8>, Error>,
    M: Fn(&str, &LiveVideoSegment, &[u8]) -> Result<Vec<u8>, Error>,
    R: Fn(&[u8]) -> Result<ManifestReport, Error>,
>(states: Seq<LiveSignerState>) -> bool {
    &&& states.len() > 0
    &&& forall|i: int, j: int|
        0 <= i && j == i + 1 && j < states.len() ==> #[trigger] signing_step::<S, M, R>(
            states[i],
            states[j],
        )
}

/// However often a signer is called, it goes on from the state that it was created with.
pub proof fn run_continues_the_state<
    S: Fn(&str, &[u8]) -> Result<Vec<u8>, Error>,
    M: Fn(&str, &LiveVideoSegment, &[u8]) -> Result<Vec<u8>, Error>,
    R: Fn(&[u8]) -> Result<ManifestReport, Error>,
>(states: Seq<LiveSignerState>)
    requires
        signing_run::<S, M, R>(states),
    ensures
        continues(states[0], states.last()),
    decreases states.len(),
{
    if states.len() > 1 {
        let shorter = states.drop_last();
        let n = states.len() - 1;
        assert forall|i: int, j: int|
            0 <= i && j == i + 1 && j < shorter.len() implies #[trigger] signing_step::<S, M, R>(
            shorter[i],
            shorter[j],
        ) by {
            assert(signing_step::<S, M, R>(states[i], states[j]));
        }
        run_continues_the_state::<S, M, R>(shorter);
        assert(signing_step::<S, M, R>(states[n - 1], states[n]));
    }
}

/// The next run resumes the chain: a signer that was created from a definition, and called any number
/// of times, can write its state into the definition; a signer that is created from the text goes on
/// with the same stream, the same number and the same link.
pub proof fn restart_resumes_the_chain<
    S: Fn(&str, &[u8]) -> Result<Vec<u8>, Error>,
    M: Fn(&str, &LiveVideoSegment, &[u8]) -> Result<Vec<u8>, Error>,
    R: Fn(&[u8]) -> Result<ManifestReport, Error>,
>(
    definition: &str,
    first: LiveVideoSigner,
    states: Seq<LiveSignerState>,
    last: LiveVideoSigner,
    written: Result<String, Error>,
    text: &str,
    resumed: Result<LiveVideoSigner, Error>,
)
    requires
        call_ensures(
            LiveVideoSigner::from_manifest_json,
            (definition,),
            Ok::<LiveVideoSigner, Error>(first),
        ),
        signing_run::<S, M, R>(states),
        states[0] == first@,
        states.last() == last@,
        text_takes_state(definition@),
        call_ensures(LiveVideoSigner::updated_manifest_json, (&last, definition), written),
        written is Ok ==> text@ == written->Ok_0@,
        call_ensures(LiveVideoSigner::from_manifest_json, (text,), resumed),
    ensures
        written is Ok,
        resumed is Ok,
        resumed->Ok_0@.stream_id == last@.stream_id,
        resumed->Ok_0@.next_sequence_number == last@.next_sequence_number,
        resumed->Ok_0@.previous_manifest_id == last@.previous_manifest_id,
{
    run_continues_the_state::<S, M, R>(states);
    assert(holds_state(text@, last@, false));
}

/// The number of a signer that has one is the number that its next media segment claims; one that has
/// none claims the number of the segment. Either way the claim is the number of the segment itself.
pub proof fn next_claim_has_the_next_number(state: LiveSignerState, segment: Seq<u8>)
    requires
        begun(state, segment).1 is Ok,
    ensures
        begun(state, segment).0.sequence_number_configured,
        state.sequence_number_configured ==> begun(state, segment).1->Ok_0.sequence_number
            == state.next_sequence_number,
        media_sequence_number(segment) is Some,
        begun(state, segment).1->Ok_0.sequence_number == media_sequence_number(segment)->Some_0,
{
}

/// The live assertion stands at the same place in assertions that are alike.
proof fn like_assertions_have_one_place(x: Seq<Json>, y: Seq<Json>, from: int)
    requires
        0 <= from,
        x.len() == y.len(),
        forall|i: int| 0 <= i < x.len() ==> same_but_fractions(#[trigger] x[i], y[i]),
    ensures
        live_assertion_from(x, from) == live_assertion_from(y, from),
    decreases x.len() - from,
{
    if from < x.len() {
        assert(same_but_fractions(x[from], y[from]));
        likeness_keeps_fields(x[from], y[from], "label"@);
        likeness_keeps_simple_values(
            field_or_null(x[from], "label"@),
            field_or_null(y[from], "label"@),
        );
        like_assertions_have_one_place(x, y, from + 1);
    }
}

/// Definitions that differ in fractional numbers at most give a signer the same state, but for those
/// numbers in the base definition.
pub proof fn likeness_keeps_the_state(a: Json, b: Json)
    requires
        same_but_fractions(a, b),
    ensures
        manifest_state(a) is Ok <==> manifest_state(b) is Ok,
        manifest_state(a) is Ok ==> same_place(manifest_state(a)->Ok_0, manifest_state(b)->Ok_0),
{
    likeness_keeps_fields(a, b, "assertions"@);
    if a.field("assertions"@) is Some {
        likeness_keeps_simple_values(
            a.field("assertions"@)->Some_0,
            b.field("assertions"@)->Some_0,
        );
    }
    if manifest_assertions(a) is Ok {
        let x = manifest_assertions(a)->Ok_0;
        let y = manifest_assertions(b)->Ok_0;
        likeness_keeps_items(x, y);
        like_assertions_have_one_place(x, y, 0);
        found_is_live(x, 0);
        if live_assertion_from(x, 0) is Some {
            let i = live_assertion_from(x, 0)->Some_0;
            assert(same_but_fractions(x[i], y[i]));
            likeness_keeps_fields(x[i], y[i], "data"@);
            let c = field_or_null(x[i], "data"@);
            let d = field_or_null(y[i], "data"@);
            likeness_keeps_fields(c, d, "streamId"@);
            likeness_keeps_simple_values(field_or_null(c, "streamId"@), field_or_null(d, "streamId"@));
            likeness_keeps_fields(c, d, "previousManifestId"@);
            likeness_keeps_simple_values(
                field_or_null(c, "previousManifestId"@),
                field_or_null(d, "previousManifestId"@),
            );
            likeness_keeps_fields(c, d, "nextSequenceNumber"@);
            if c.field("nextSequenceNumber"@) is Some {
                likeness_keeps_simple_values(
                    c.field("nextSequenceNumber"@)->Some_0,
                    d.field("nextSequenceNumber"@)->Some_0,
                );
            }
            let left = x.remove(i);
            let right = y.remove(i);
            assert forall|k: int| 0 <= k < left.len() implies same_but_fractions(
                #[trigger] left[k],
                right[k],
            ) by {
                let j = if k < i {
                    k
                } else {
                    k + 1
                };
                assert(same_but_fractions(x[j], y[j]));
            }
            like_items_make_like_arrays(left, right);
            likeness_takes_fields(a, b, "assertions"@, Json::Array(left), Json::Array(right));
            assert(same_but_fractions(
                a.with_field("assertions"@, Json::Array(left)),
                b.with_field("assertions"@, Json::Array(right)),
            ));
        }
    }
}

/// Taking up a signed initialization segment gives a signer the link that signing the segment gave
/// the signer before it, which is the label that was read, and leaves the number and everything else
/// as it was; where it is refused, nothing changes. The hosts must read one label from one segment.
pub proof fn restored_link_is_the_signed_one<
    S: Fn(&str, &[u8]) -> Result<Vec<u8>, Error>,
    R: Fn(&[u8]) -> Result<ManifestReport, Error>,
    Q: Fn(&[u8]) -> Result<ManifestReport, Error>,
>(
    earlier: LiveSignerState,
    segment: Seq<u8>,
    sign: S,
    read: R,
    earlier_after: LiveSignerState,
    signed: Vec<u8>,
    state: LiveSignerState,
    read_again: Q,
    after: LiveSignerState,
    r: Result<(), Error>,
)
    requires
        init_signing_outcome(
            earlier,
            segment,
            sign,
            read,
            earlier_after,
            Ok::<Vec<u8>, Error>(signed),
        ),
        restoring_outcome(state, signed@, read_again, after, r),
        forall|x: Result<ManifestReport, Error>, y: Result<ManifestReport, Error>|
            #[trigger] reading_outcome(signed@, read, x) && #[trigger] reading_outcome(
                signed@,
                read_again,
                y,
            ) && x is Ok && y is Ok ==> x->Ok_0.label == y->Ok_0.label,
    ensures
        r is Ok ==> earlier_after.previous_manifest_id is Some && after == (LiveSignerState {
            previous_manifest_id: earlier_after.previous_manifest_id,
            ..state
        }),
        exists|report: Result<ManifestReport, Error>| #[trigger]
            reading_outcome(signed@, read, report) && report is Ok && text_view(
                report->Ok_0.label,
            ) == earlier_after.previous_manifest_id,
        r is Err ==> after == state,
{
}

} // verus!
