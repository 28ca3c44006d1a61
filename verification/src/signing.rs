//! Signing with a manifest in each segment.
//!
//! Each media segment carries a manifest with a `c2pa.livevideo.segment` assertion. The signer
//! numbers the segments and links each to the manifest before it; the signed initialization
//! segment is the first link. Manifests are written and read by the host, which hands the signer
//! what came of it.

use vstd::prelude::*;
use vstd::string::StringExecFns;

use crate::bmff::{
    init_info, media_sequence_number, moof_sequence_number, parse_init_segment, InitSegmentInfo,
};
use crate::error::{bad_param, bad_param_with, Error, Failure};
use crate::json::{
    field_or_null, is_readable, json_as_str, json_as_u64, json_get, json_is_null, json_is_object,
    json_items, json_items_mut, json_number, json_of, json_pretty_text, json_reading, json_slot,
    json_string, json_text, jsons_of, nests, parse_json, reads_back, same_but_fractions, write_json,
    write_json_pretty, Json,
};
use crate::json_laws::likeness_is_transitive;
use crate::live_manifest::{live_manifest, live_manifest_text, prepare_live_manifest_json};
use crate::manifest_laws::{
    likeness_keeps_the_normal_form, normalizing_keeps_limits, normalizing_twice_changes_nothing,
};
use crate::manifest_report::{extract_signed_manifest_id, text_view, ManifestReport};
use crate::signing_laws::{likeness_keeps_the_state, written_text_holds_the_state};
use crate::text::{decimal, decimal_text, same_text};

verus! {

/// The label of the assertion that a live media segment carries.
pub const LIVE_VIDEO_SEGMENT_LABEL: &'static str = "c2pa.livevideo.segment";

/// How a segment refers to the one before it.
#[derive(Clone, Copy, Debug, PartialEq, Eq, Structural)]
pub enum ContinuityMethod {
    /// By the identifier of its manifest.
    ManifestId,
}

/// The assertion that a live media segment carries.
#[derive(Debug, PartialEq, Eq)]
pub struct LiveVideoSegment {
    pub sequence_number: u64,
    pub stream_id: String,
    pub continuity_method: ContinuityMethod,
    pub previous_manifest_id: Option<String>,
}

/// What a [`LiveVideoSegment`] says.
pub struct SegmentClaim {
    pub sequence_number: u64,
    pub stream_id: Seq<char>,
    pub continuity_method: ContinuityMethod,
    pub previous_manifest_id: Option<Seq<char>>,
}

impl View for LiveVideoSegment {
    type V = SegmentClaim;

    open spec fn view(&self) -> SegmentClaim {
        SegmentClaim {
            sequence_number: self.sequence_number,
            stream_id: self.stream_id@,
            continuity_method: self.continuity_method,
            previous_manifest_id: text_view(self.previous_manifest_id),
        }
    }
}

/// Signs a sequence of live video segments, each with a manifest of its own.
///
/// Call [`sign_init_segment`] before [`sign_media_segment`].
///
/// [`sign_init_segment`]: LiveVideoSigner::sign_init_segment
/// [`sign_media_segment`]: LiveVideoSigner::sign_media_segment
pub struct LiveVideoSigner {
    stream_id: String,
    next_sequence_number: u64,
    sequence_number_configured: bool,
    previous_manifest_id: Option<String>,
    base_manifest_json: String,
}

/// The state of a [`LiveVideoSigner`].
pub struct LiveSignerState {
    pub stream_id: Seq<char>,
    pub next_sequence_number: u64,
    pub sequence_number_configured: bool,
    pub previous_manifest_id: Option<Seq<char>>,
    pub base_manifest_json: Seq<char>,
}

impl View for LiveVideoSigner {
    type V = LiveSignerState;

    closed spec fn view(&self) -> LiveSignerState {
        LiveSignerState {
            stream_id: self.stream_id@,
            next_sequence_number: self.next_sequence_number,
            sequence_number_configured: self.sequence_number_configured,
            previous_manifest_id: text_view(self.previous_manifest_id),
            base_manifest_json: self.base_manifest_json@,
        }
    }
}

// The state in a manifest definition.

/// Whether a JSON value is the live segment assertion of a manifest definition.
pub open spec fn is_live_assertion(item: Json) -> bool {
    field_or_null(item, "label"@).as_text() == Some(LIVE_VIDEO_SEGMENT_LABEL@)
}

/// The position of the first live segment assertion at or behind `from`.
pub open spec fn live_assertion_from(items: Seq<Json>, from: int) -> Option<int>
    decreases items.len() - from,
{
    if from >= items.len() {
        None
    } else if is_live_assertion(items[from]) {
        Some(from)
    } else {
        live_assertion_from(items, from + 1)
    }
}

/// The assertions of a manifest definition.
pub open spec fn manifest_assertions(manifest: Json) -> Result<Seq<Json>, Failure> {
    match manifest.field("assertions"@) {
        Some(Json::Array(items)) => Ok(items),
        _ => Err(Failure::BadParam("manifest must have an 'assertions' array"@)),
    }
}

/// The state that the live segment assertion of a manifest definition gives a signer.
pub open spec fn claimed_state(assertion: Json, base_manifest_json: Seq<char>) -> Result<
    LiveSignerState,
    Failure,
> {
    let data = field_or_null(assertion, "data"@);
    let number = match data.field("nextSequenceNumber"@) {
        Some(v) => v.as_unsigned(),
        None => None,
    };
    match field_or_null(data, "streamId"@).as_text() {
        None => Err(
            Failure::BadParam(
                "'c2pa.livevideo.segment' assertion must have a 'streamId' string field"@,
            ),
        ),
        Some(stream_id) => Ok(
            LiveSignerState {
                stream_id,
                next_sequence_number: match number {
                    Some(n) => n,
                    None => 1,
                },
                sequence_number_configured: number is Some,
                previous_manifest_id: field_or_null(data, "previousManifestId"@).as_text(),
                base_manifest_json,
            },
        ),
    }
}

/// The state that a normalized manifest definition gives a signer.
///
/// The live segment assertion is taken out of the definition that remains.
pub open spec fn manifest_state(manifest: Json) -> Result<LiveSignerState, Failure> {
    match manifest_assertions(manifest) {
        Err(e) => Err(e),
        Ok(items) => match live_assertion_from(items, 0) {
            None => Err(
                Failure::BadParam(
                    "manifest must include a 'c2pa.livevideo.segment' assertion with 'streamId'"@,
                ),
            ),
            Some(i) => claimed_state(
                items[i],
                json_text(manifest.with_field("assertions"@, Json::Array(items.remove(i)))),
            ),
        },
    }
}

/// The normalized definition behind the text of one.
pub open spec fn normalized_manifest(text: Seq<char>) -> Result<Json, Failure> {
    match live_manifest_text(text) {
        Err(e) => Err(e),
        Ok(prepared) => match json_reading(prepared) {
            Err(words) => Err(Failure::BadParam("invalid manifest JSON: "@ + words)),
            Ok(manifest) => Ok(manifest),
        },
    }
}

/// The state that the text of a manifest definition gives a signer.
pub open spec fn initial_state(text: Seq<char>) -> Result<LiveSignerState, Failure> {
    match normalized_manifest(text) {
        Err(e) => Err(e),
        Ok(manifest) => manifest_state(manifest),
    }
}

/// Normalizes the text of a manifest definition and reads the result.
fn read_normalized(manifest_json: &str) -> (r: Result<serde_json::Value, Error>)
    ensures
        match normalized_manifest(manifest_json@) {
            Err(failure) => r matches Err(e) && e@ == failure,
            Ok(manifest) => r matches Ok(v) && json_of(v) == manifest,
        },
        forall|manifest: Json|
            reads_back(manifest) && live_manifest(manifest) == Ok::<Json, Failure>(manifest)
                && manifest_json@ == #[trigger] json_pretty_text(manifest) ==> (r matches Ok(v)
                && json_of(v) == manifest),
        r matches Ok(v) ==> is_readable(json_of(v)) && live_manifest(json_of(v)) == Ok::<
            Json,
            Failure,
        >(json_of(v)),
        forall|manifest: Json|
            is_readable(manifest) && live_manifest(manifest) == Ok::<Json, Failure>(manifest)
                && manifest_json@ == #[trigger] json_pretty_text(manifest) ==> (r matches Ok(v)
                && same_but_fractions(json_of(v), manifest)),
{
    let prepared: String = prepare_live_manifest_json(manifest_json)?;
    match parse_json(prepared.as_str()) {
        Ok(value) => {
            proof {
                let read = choose|read: Json|
                    is_readable(read) && (#[trigger] live_manifest(read) matches Ok(p)
                        && prepared@ == json_text(p)) && forall|manifest: Json|
                        is_readable(manifest) && manifest_json@ == #[trigger] json_pretty_text(
                            manifest,
                        ) ==> same_but_fractions(read, manifest);
                let written = live_manifest(read)->Ok_0;
                normalizing_keeps_limits(read);
                normalizing_twice_changes_nothing(read);
                assert(prepared@ == json_text(written));
                likeness_keeps_the_normal_form(json_of(value), written);
                assert forall|manifest: Json|
                    is_readable(manifest) && live_manifest(manifest) == Ok::<Json, Failure>(
                        manifest,
                    ) && manifest_json@ == #[trigger] json_pretty_text(
                        manifest,
                    ) implies same_but_fractions(json_of(value), manifest) by {
                    likeness_keeps_the_normal_form(read, manifest);
                    likeness_is_transitive(json_of(value), read, manifest);
                }
            }
            Ok(value)
        },
        Err(words) => {
            proof {
                let read = choose|read: Json|
                    is_readable(read) && (#[trigger] live_manifest(read) matches Ok(p)
                        && prepared@ == json_text(p));
                normalizing_keeps_limits(read);
            }
            Err(bad_param_with("invalid manifest JSON: ", words.as_str()))
        },
    }
}

fn check_live_assertion(item: &serde_json::Value) -> (r: bool)
    ensures
        r == is_live_assertion(json_of(*item)),
{
    match json_get(item, "label") {
        None => false,
        Some(label) => match json_as_str(label) {
            None => false,
            Some(text) => same_text(text, LIVE_VIDEO_SEGMENT_LABEL),
        },
    }
}

/// Finds the live segment assertion among the assertions of a manifest definition.
fn find_live_assertion(items: &Vec<serde_json::Value>) -> (r: Option<usize>)
    ensures
        match live_assertion_from(jsons_of(items@), 0) {
            Some(i) => r matches Some(p) && p == i && 0 <= i < items@.len(),
            None => r is None,
        },
{
    let mut i: usize = 0;
    while i < items.len()
        invariant
            i <= items@.len(),
            live_assertion_from(jsons_of(items@), 0) == live_assertion_from(
                jsons_of(items@),
                i as int,
            ),
        decreases items@.len() - i,
    {
        assert(jsons_of(items@)[i as int] == json_of(items@[i as int]));
        if check_live_assertion(&items[i]) {
            return Some(i);
        }
        i = i + 1;
    }
    None
}

/// Takes the state of a signer out of a normalized manifest definition.
pub fn extract_live_video_state(manifest: serde_json::Value) -> (r: Result<LiveVideoSigner, Error>)
    ensures
        match manifest_state(json_of(manifest)) {
            Err(failure) => r matches Err(e) && e@ == failure,
            Ok(state) => r matches Ok(s) && s@ == state,
        },
{
    let mut value = manifest;
    let is_array: bool = match json_get(&value, "assertions") {
        None => false,
        Some(assertions) => json_items(assertions).is_some(),
    };
    if !is_array {
        return Err(bad_param("manifest must have an 'assertions' array"));
    }
    let ghost items = json_of(manifest).field("assertions"@)->Some_0->Array_0;
    let assertion: serde_json::Value;
    {
        let slot = json_slot(&mut value, "assertions");
        let list = match json_items_mut(slot) {
            Some(list) => list,
            None => {
                return Err(bad_param("manifest must have an 'assertions' array"));
            },
        };
        let position: usize = match find_live_assertion(list) {
            Some(position) => position,
            None => {
                return Err(
                    bad_param(
                        "manifest must include a 'c2pa.livevideo.segment' assertion with 'streamId'",
                    ),
                );
            },
        };
        assertion = list.remove(position);
        proof {
            assert(json_of(assertion) == items[position as int]);
            assert(jsons_of(list@) =~= items.remove(position as int));
        }
    }
    let base_manifest_json: String = match write_json(&value) {
        Ok(text) => text,
        Err(words) => {
            return Err(bad_param_with("failed to serialize manifest: ", words.as_str()));
        },
    };
    let data: Option<&serde_json::Value> = json_get(&assertion, "data");
    let stream_id: String = match text_at(data, "streamId") {
        Some(text) => text,
        None => {
            return Err(
                bad_param(
                    "'c2pa.livevideo.segment' assertion must have a 'streamId' string field",
                ),
            );
        },
    };
    let previous_manifest_id: Option<String> = text_at(data, "previousManifestId");
    let number: Option<u64> = match data {
        None => None,
        Some(data) => match json_get(data, "nextSequenceNumber") {
            None => None,
            Some(number) => json_as_u64(number),
        },
    };
    Ok(
        LiveVideoSigner {
            stream_id,
            next_sequence_number: match number {
                Some(n) => n,
                None => 1,
            },
            sequence_number_configured: number.is_some(),
            previous_manifest_id,
            base_manifest_json,
        },
    )
}

/// The text under a key of a value that may be absent.
fn text_at(value: Option<&serde_json::Value>, key: &str) -> (r: Option<String>)
    ensures
        match value {
            None => r is None,
            Some(v) => text_view(r) == field_or_null(json_of(*v), key@).as_text(),
        },
{
    match value {
        None => None,
        Some(v) => match json_get(v, key) {
            None => None,
            Some(found) => match json_as_str(found) {
                None => None,
                Some(text) => Some(text.to_string()),
            },
        },
    }
}

// Writing the state back.

/// The live segment assertion with the continuity state of a signer.
pub open spec fn continued_assertion(
    assertion: Json,
    previous_manifest_id: Option<Seq<char>>,
    next_sequence_number: u64,
) -> Json {
    let data = field_or_null(assertion, "data"@);
    let linked = match previous_manifest_id {
        Some(id) => data.with_field("previousManifestId"@, Json::Text(id)),
        None => data,
    };
    assertion.with_field(
        "data"@,
        linked.with_field("nextSequenceNumber"@, Json::Unsigned(next_sequence_number)),
    )
}

/// A normalized manifest definition with the continuity state of a signer.
pub open spec fn continued_manifest(
    manifest: Json,
    previous_manifest_id: Option<Seq<char>>,
    next_sequence_number: u64,
) -> Result<Json, Failure> {
    match manifest_assertions(manifest) {
        Err(e) => Err(e),
        Ok(items) => match live_assertion_from(items, 0) {
            None => Err(
                Failure::BadParam("manifest must include a 'c2pa.livevideo.segment' assertion"@),
            ),
            Some(i) => Ok(
                manifest.with_field(
                    "assertions"@,
                    Json::Array(
                        items.update(
                            i,
                            continued_assertion(
                                items[i],
                                previous_manifest_id,
                                next_sequence_number,
                            ),
                        ),
                    ),
                ),
            ),
        },
    }
}

/// Whether the data of the live segment assertion, if there is one, can take fields.
pub open spec fn takes_state(manifest: Json) -> bool {
    manifest_assertions(manifest) matches Ok(items) ==> (live_assertion_from(items, 0) matches Some(
        i,
    ) ==> field_or_null(items[i], "data"@).takes_fields())
}

/// Whether the state of a signer can be written into the text of a manifest definition.
pub open spec fn text_takes_state(text: Seq<char>) -> bool {
    normalized_manifest(text) matches Ok(manifest) ==> takes_state(manifest)
}

/// Writes the continuity state of a signer into the live segment assertion.
fn continue_assertion(
    assertion: &mut serde_json::Value,
    previous_manifest_id: &Option<String>,
    next_sequence_number: u64,
)
    requires
        json_of(*old(assertion)) is Object,
        field_or_null(json_of(*old(assertion)), "data"@).takes_fields(),
    ensures
        json_of(*final(assertion)) == continued_assertion(
            json_of(*old(assertion)),
            text_view(*previous_manifest_id),
            next_sequence_number,
        ),
{
    let data = json_slot(assertion, "data");
    match previous_manifest_id {
        Some(id) => {
            *json_slot(data, "previousManifestId") = json_string(id.clone());
        },
        None => {},
    }
    *json_slot(data, "nextSequenceNumber") = json_number(next_sequence_number);
}

/// Writes the continuity state of a signer into a normalized manifest definition.
pub fn continue_manifest(
    manifest: serde_json::Value,
    previous_manifest_id: &Option<String>,
    next_sequence_number: u64,
) -> (r: Result<serde_json::Value, Error>)
    requires
        takes_state(json_of(manifest)),
    ensures
        match continued_manifest(
            json_of(manifest),
            text_view(*previous_manifest_id),
            next_sequence_number,
        ) {
            Err(failure) => r matches Err(e) && e@ == failure,
            Ok(continued) => r matches Ok(v) && json_of(v) == continued,
        },
{
    let mut value = manifest;
    let is_array: bool = match json_get(&value, "assertions") {
        None => false,
        Some(assertions) => json_items(assertions).is_some(),
    };
    if !is_array {
        return Err(bad_param("manifest must have an 'assertions' array"));
    }
    let ghost items = json_of(manifest).field("assertions"@)->Some_0->Array_0;
    let slot = json_slot(&mut value, "assertions");
    let list = match json_items_mut(slot) {
        Some(list) => list,
        None => {
            return Err(bad_param("manifest must have an 'assertions' array"));
        },
    };
    let position: usize = match find_live_assertion(list) {
        Some(position) => position,
        None => {
            return Err(bad_param("manifest must include a 'c2pa.livevideo.segment' assertion"));
        },
    };
    proof {
        live_assertion_is_object(items, 0);
        assert(items[position as int] == json_of(list@[position as int]));
    }
    continue_assertion(&mut list[position], previous_manifest_id, next_sequence_number);
    proof {
        assert(jsons_of(list@) =~= items.update(
            position as int,
            json_of(list@[position as int]),
        ));
    }
    Ok(value)
}

/// The live segment assertion that is found is one, and an object.
proof fn live_assertion_is_object(items: Seq<Json>, from: int)
    requires
        0 <= from,
    ensures
        live_assertion_from(items, from) matches Some(i) ==> from <= i < items.len()
            && is_live_assertion(items[i]) && items[i] is Object,
    decreases items.len() - from,
{
    if from < items.len() && !is_live_assertion(items[from]) {
        live_assertion_is_object(items, from + 1);
    }
}

/// The text of a manifest definition with the continuity state of a signer.
pub open spec fn continued_text(text: Seq<char>, state: LiveSignerState) -> Result<
    Seq<char>,
    Failure,
> {
    match normalized_manifest(text) {
        Err(e) => Err(e),
        Ok(manifest) => match continued_manifest(
            manifest,
            state.previous_manifest_id,
            state.next_sequence_number,
        ) {
            Err(e) => Err(e),
            Ok(continued) => Ok(json_pretty_text(continued)),
        },
    }
}

/// Whether a signer went on from the state that it was created with: the stream and the base
/// definition are the same, and a link was not lost.
pub open spec fn continues(start: LiveSignerState, state: LiveSignerState) -> bool {
    &&& state.stream_id == start.stream_id
    &&& state.base_manifest_json == start.base_manifest_json
    &&& state.previous_manifest_id is None ==> start.previous_manifest_id is None
}

/// The state of a signer that takes up the given state from a text: its number is fixed.
pub open spec fn taken_up(state: LiveSignerState) -> LiveSignerState {
    LiveSignerState { sequence_number_configured: true, ..state }
}

/// Whether a text was written for a normalized definition that holds the given state, within the
/// limit on nesting, and with integer numbers only where `whole` is set.
pub open spec fn holds_state(text: Seq<char>, state: LiveSignerState, whole: bool) -> bool {
    exists|manifest: Json| #[trigger]
        json_pretty_text(manifest) == text && nests(manifest, 128, whole) && live_manifest(manifest)
            == Ok::<Json, Failure>(manifest) && manifest_state(manifest) == Ok::<
            LiveSignerState,
            Failure,
        >(taken_up(state))
}

/// Whether two states are the same, but for fractional numbers in the base definition.
pub open spec fn same_place(a: LiveSignerState, b: LiveSignerState) -> bool {
    &&& a.stream_id == b.stream_id
    &&& a.next_sequence_number == b.next_sequence_number
    &&& a.sequence_number_configured == b.sequence_number_configured
    &&& a.previous_manifest_id == b.previous_manifest_id
    &&& exists|x: Json, y: Json| #[trigger]
        same_but_fractions(x, y) && a.base_manifest_json == json_text(x) && b.base_manifest_json
            == json_text(y)
}

// Signing.

/// The state once the first media segment has fixed the numbering.
pub open spec fn numbered(state: LiveSignerState, number: u32) -> LiveSignerState {
    if state.sequence_number_configured {
        state
    } else {
        LiveSignerState {
            next_sequence_number: number as u64,
            sequence_number_configured: true,
            ..state
        }
    }
}

/// What the next media segment claims.
pub open spec fn next_claim(state: LiveSignerState) -> SegmentClaim {
    SegmentClaim {
        sequence_number: state.next_sequence_number,
        stream_id: state.stream_id,
        continuity_method: ContinuityMethod::ManifestId,
        previous_manifest_id: state.previous_manifest_id,
    }
}

/// What a media segment is to claim, and the state in which it is signed.
pub open spec fn begun(state: LiveSignerState, segment: Seq<u8>) -> (
    LiveSignerState,
    Result<SegmentClaim, Failure>,
) {
    match media_sequence_number(segment) {
        None => (
            state,
            Err(
                Failure::BadParam(
                    "media segment must contain exactly one moof/traf and a valid mfhd"@,
                ),
            ),
        ),
        Some(number) => if state.previous_manifest_id is None {
            (
                state,
                Err(
                    Failure::BadParam(
                        "a signed initialization segment must establish continuity before media signing"@,
                    ),
                ),
            )
        } else if number != numbered(state, number).next_sequence_number {
            (
                numbered(state, number),
                Err(
                    Failure::BadParam(
                        "live video sequenceNumber ("@ + decimal(
                            numbered(state, number).next_sequence_number as nat,
                        ) + ") does not match moof/mfhd.sequence_number ("@ + decimal(
                            number as nat,
                        ) + ")"@,
                    ),
                ),
            )
        } else {
            (numbered(state, number), Ok(next_claim(numbered(state, number))))
        },
    }
}

/// The state once a media segment with the given manifest has been signed.
pub open spec fn advanced(state: LiveSignerState, manifest_id: Seq<char>) -> LiveSignerState {
    LiveSignerState {
        next_sequence_number: (state.next_sequence_number + 1) as u64,
        previous_manifest_id: Some(manifest_id),
        ..state
    }
}

/// The state once the initialization segment with the given manifest is known.
pub open spec fn linked(state: LiveSignerState, manifest_id: Seq<char>) -> LiveSignerState {
    LiveSignerState { previous_manifest_id: Some(manifest_id), ..state }
}

/// The state once a media segment has been signed, given the identifier that was read back.
pub open spec fn completed(state: LiveSignerState, manifest_id: Result<Seq<char>, Failure>) -> Result<
    LiveSignerState,
    Failure,
> {
    match manifest_id {
        Err(e) => Err(e),
        Ok(id) => if state.next_sequence_number == u64::MAX {
            Err(Failure::BadParam("live video sequenceNumber cannot advance past u64::MAX"@))
        } else {
            Ok(advanced(state, id))
        },
    }
}

/// What may come of embedding a manifest in an initialization segment with `sign`.
pub open spec fn init_embedding_outcome<S: Fn(&str, &[u8]) -> Result<Vec<u8>, Error>>(
    definition: Seq<char>,
    segment: Seq<u8>,
    sign: S,
    signed: Result<Vec<u8>, Error>,
) -> bool {
    exists|text: &str, data: &[u8]| #[trigger]
        call_ensures(sign, (text, data), signed) && text@ == definition && data@ == segment
}

/// What may come of embedding a manifest in a media segment with `sign`.
pub open spec fn media_embedding_outcome<
    S: Fn(&str, &LiveVideoSegment, &[u8]) -> Result<Vec<u8>, Error>,
>(
    definition: Seq<char>,
    claim: SegmentClaim,
    segment: Seq<u8>,
    sign: S,
    signed: Result<Vec<u8>, Error>,
) -> bool {
    exists|text: &str, assertion: &LiveVideoSegment, data: &[u8]| #[trigger]
        call_ensures(sign, (text, assertion, data), signed) && text@ == definition && assertion@
            == claim && data@ == segment
}

/// What may come of reading the manifest of a signed segment with `read`.
pub open spec fn reading_outcome<R: Fn(&[u8]) -> Result<ManifestReport, Error>>(
    signed: Seq<u8>,
    read: R,
    report: Result<ManifestReport, Error>,
) -> bool {
    exists|data: &[u8]| #[trigger] call_ensures(read, (data,), report) && data@ == signed
}

/// What may come of signing an initialization segment.
pub open spec fn init_signing_outcome<
    S: Fn(&str, &[u8]) -> Result<Vec<u8>, Error>,
    R: Fn(&[u8]) -> Result<ManifestReport, Error>,
>(
    state: LiveSignerState,
    segment: Seq<u8>,
    sign: S,
    read: R,
    after: LiveSignerState,
    r: Result<Vec<u8>, Error>,
) -> bool {
    match init_info(segment) {
        Err(failure) => r matches Err(e) && e@ == failure && after == state,
        Ok(_) => exists|signed: Result<Vec<u8>, Error>| #[trigger]
            init_embedding_outcome(state.base_manifest_json, segment, sign, signed) && match signed {
                Err(e) => r == Err::<Vec<u8>, Error>(e) && after == state,
                Ok(bytes) => exists|report: Result<ManifestReport, Error>| #[trigger]
                    reading_outcome(bytes@, read, report) && match report {
                        Err(e) => r == Err::<Vec<u8>, Error>(e) && after == state,
                        Ok(found) => match found.manifest_id() {
                            Err(failure) => r matches Err(e) && e@ == failure && after == state,
                            Ok(id) => r == Ok::<Vec<u8>, Error>(bytes) && after == linked(
                                state,
                                id,
                            ),
                        },
                    },
            },
    }
}

/// What may come of taking up a signed initialization segment.
pub open spec fn restoring_outcome<R: Fn(&[u8]) -> Result<ManifestReport, Error>>(
    state: LiveSignerState,
    segment: Seq<u8>,
    read: R,
    after: LiveSignerState,
    r: Result<(), Error>,
) -> bool {
    match init_info(segment) {
        Err(failure) => r matches Err(e) && e@ == failure && after == state,
        Ok(_) => exists|report: Result<ManifestReport, Error>| #[trigger]
            reading_outcome(segment, read, report) && match report {
                Err(e) => r == Err::<(), Error>(e) && after == state,
                Ok(found) => match found.manifest_id() {
                    Err(failure) => r matches Err(e) && e@ == failure && after == state,
                    Ok(id) => r is Ok && after == linked(state, id),
                },
            },
    }
}

/// What may come of signing a media segment.
pub open spec fn media_signing_outcome<
    S: Fn(&str, &LiveVideoSegment, &[u8]) -> Result<Vec<u8>, Error>,
    R: Fn(&[u8]) -> Result<ManifestReport, Error>,
>(
    state: LiveSignerState,
    segment: Seq<u8>,
    sign: S,
    read: R,
    after: LiveSignerState,
    r: Result<Vec<u8>, Error>,
) -> bool {
    let ready = begun(state, segment).0;
    match begun(state, segment).1 {
        Err(failure) => r matches Err(e) && e@ == failure && after == ready,
        Ok(claim) => exists|signed: Result<Vec<u8>, Error>| #[trigger]
            media_embedding_outcome(state.base_manifest_json, claim, segment, sign, signed)
                && match signed {
                Err(e) => r == Err::<Vec<u8>, Error>(e) && after == ready,
                Ok(bytes) => exists|report: Result<ManifestReport, Error>| #[trigger]
                    reading_outcome(bytes@, read, report) && match report {
                        Err(e) => r == Err::<Vec<u8>, Error>(e) && after == ready,
                        Ok(found) => match completed(ready, found.manifest_id()) {
                            Err(failure) => r matches Err(e) && e@ == failure && after == ready,
                            Ok(next) => r == Ok::<Vec<u8>, Error>(bytes) && after == next,
                        },
                    },
            },
    }
}

fn mismatched_number(expected: u64, found: u32) -> (e: Error)
    ensures
        e@ == Failure::BadParam(
            "live video sequenceNumber ("@ + decimal(expected as nat)
                + ") does not match moof/mfhd.sequence_number ("@ + decimal(found as nat) + ")"@,
        ),
{
    let mut text: String = "live video sequenceNumber (".to_string();
    text.append(decimal_text(expected).as_str());
    text.append(") does not match moof/mfhd.sequence_number (");
    text.append(decimal_text(found as u64).as_str());
    text.append(")");
    Error::BadParam(text)
}

impl LiveVideoSigner {
    /// Creates a signer from the text of a manifest definition.
    ///
    /// The definition must hold a `c2pa.livevideo.segment` assertion with a `streamId`. The
    /// assertion gives the signer its state and is rebuilt for each media segment.
    ///
    /// A text that was written for a normalized definition, with integer numbers only, gives the
    /// state that this definition holds. Where it has fractional numbers, they may come out otherwise
    /// in the base definition; the rest of the state is the same.
    pub fn from_manifest_json(manifest_json: &str) -> (r: Result<Self, Error>)
        ensures
            match initial_state(manifest_json@) {
                Err(failure) => r matches Err(e) && e@ == failure,
                Ok(state) => r matches Ok(s) && s@ == state,
            },
            forall|manifest: Json|
                reads_back(manifest) && live_manifest(manifest) == Ok::<Json, Failure>(manifest)
                    && manifest_json@ == #[trigger] json_pretty_text(manifest)
                    ==> match manifest_state(manifest) {
                    Err(failure) => r matches Err(e) && e@ == failure,
                    Ok(state) => r matches Ok(s) && s@ == state,
                },
            forall|state: LiveSignerState|
                #![trigger holds_state(manifest_json@, state, true)]
                holds_state(manifest_json@, state, true) ==> (r matches Ok(s) && s@ == taken_up(
                    state,
                )),
            forall|state: LiveSignerState|
                #![trigger holds_state(manifest_json@, state, false)]
                holds_state(manifest_json@, state, false) ==> (r matches Ok(s) && same_place(
                    s@,
                    taken_up(state),
                )),
    {
        let manifest = read_normalized(manifest_json)?;
        let ghost read = json_of(manifest);
        proof {
            assert forall|state: LiveSignerState| #[trigger]
                holds_state(manifest_json@, state, false) implies manifest_state(read) is Ok
                && same_place(manifest_state(read)->Ok_0, taken_up(state)) by {
                let written = choose|m: Json| #[trigger]
                    json_pretty_text(m) == manifest_json@ && nests(m, 128, false) && live_manifest(m)
                        == Ok::<Json, Failure>(m) && manifest_state(m) == Ok::<
                        LiveSignerState,
                        Failure,
                    >(taken_up(state));
                likeness_keeps_the_state(read, written);
            }
        }
        extract_live_video_state(manifest)
    }

    /// Returns the text of the manifest definition with the current continuity state.
    ///
    /// Persist the result so that the next run resumes the chain: where the signer went on from the
    /// state that the definition gives, the text holds the state of the signer.
    pub fn updated_manifest_json(&self, original_manifest_json: &str) -> (r: Result<String, Error>)
        requires
            text_takes_state(original_manifest_json@),
        ensures
            match continued_text(original_manifest_json@, self@) {
                Err(failure) => r matches Err(e) && e@ == failure,
                Ok(text) => r matches Ok(s) && s@ == text,
            },
            initial_state(original_manifest_json@) matches Ok(start) ==> (continues(start, self@)
                ==> (r matches Ok(s) && holds_state(s@, self@, false) && (reads_back(
                normalized_manifest(original_manifest_json@)->Ok_0,
            ) ==> holds_state(s@, self@, true)))),
    {
        let manifest = read_normalized(original_manifest_json)?;
        proof {
            if initial_state(original_manifest_json@) is Ok && continues(
                initial_state(original_manifest_json@)->Ok_0,
                self@,
            ) {
                written_text_holds_the_state(original_manifest_json@, self@, false);
                if reads_back(json_of(manifest)) {
                    written_text_holds_the_state(original_manifest_json@, self@, true);
                }
            }
        }
        let continued = continue_manifest(
            manifest,
            &self.previous_manifest_id,
            self.next_sequence_number,
        )?;
        match write_json_pretty(&continued) {
            Ok(text) => Ok(text),
            Err(words) => Err(bad_param_with("failed to serialize manifest: ", words.as_str())),
        }
    }

    /// Returns the text of the manifest definition with the current continuity state, or nothing
    /// where the data of its live segment assertion is neither null nor an object.
    pub fn checked_updated_manifest_json(&self, original_manifest_json: &str) -> (r: Option<
        Result<String, Error>,
    >)
        ensures
            r is Some <==> text_takes_state(original_manifest_json@),
            r matches Some(result) ==> match continued_text(original_manifest_json@, self@) {
                Err(failure) => result matches Err(e) && e@ == failure,
                Ok(text) => result matches Ok(s) && s@ == text,
            },
    {
        match read_normalized(original_manifest_json) {
            Ok(manifest) => {
                if !manifest_takes_state(&manifest) {
                    return None;
                }
            },
            Err(_) => {},
        }
        Some(self.updated_manifest_json(original_manifest_json))
    }

    /// Takes up the signed initialization segment of an existing session.
    ///
    /// `read` reads the manifest of a signed segment.
    pub fn restore_init_segment<R: Fn(&[u8]) -> Result<ManifestReport, Error>>(
        &mut self,
        segment_data: &[u8],
        read: R,
    ) -> (r: Result<(), Error>)
        requires
            forall|data: &[u8]| call_requires(read, (data,)),
        ensures
            restoring_outcome(old(self)@, segment_data@, read, final(self)@, r),
            r is Err ==> final(self)@ == old(self)@,
    {
        let _info: InitSegmentInfo = parse_init_segment(segment_data)?;
        let report: Result<ManifestReport, Error> = read(segment_data);
        assert(reading_outcome(segment_data@, read, report));
        self.complete_init_segment(&report?)
    }

    /// Makes the initialization segment that was signed the first link.
    pub fn complete_init_segment(&mut self, report: &ManifestReport) -> (r: Result<(), Error>)
        ensures
            match report.manifest_id() {
                Err(failure) => r matches Err(e) && e@ == failure && final(self)@ == old(self)@,
                Ok(id) => r is Ok && final(self)@ == linked(old(self)@, id),
            },
    {
        let manifest_id: String = extract_signed_manifest_id(report)?;
        self.previous_manifest_id = Some(manifest_id);
        Ok(())
    }

    /// Checks a media segment and says what it is to claim.
    pub fn begin_media_segment(&mut self, segment_data: &[u8]) -> (r: Result<
        LiveVideoSegment,
        Error,
    >)
        ensures
            final(self)@ == begun(old(self)@, segment_data@).0,
            match begun(old(self)@, segment_data@).1 {
                Err(failure) => r matches Err(e) && e@ == failure,
                Ok(claim) => r matches Ok(a) && a@ == claim,
            },
    {
        let number: u32 = match moof_sequence_number(segment_data) {
            Some(number) => number,
            None => {
                return Err(
                    bad_param("media segment must contain exactly one moof/traf and a valid mfhd"),
                );
            },
        };
        if self.previous_manifest_id.is_none() {
            return Err(
                bad_param(
                    "a signed initialization segment must establish continuity before media signing",
                ),
            );
        }
        if !self.sequence_number_configured {
            self.next_sequence_number = number as u64;
            self.sequence_number_configured = true;
        }
        if number as u64 != self.next_sequence_number {
            return Err(mismatched_number(self.next_sequence_number, number));
        }
        Ok(self.build_live_video_assertion())
    }

    /// Advances the state past a media segment that was signed.
    pub fn complete_media_segment(&mut self, report: &ManifestReport) -> (r: Result<(), Error>)
        ensures
            match completed(old(self)@, report.manifest_id()) {
                Err(failure) => r matches Err(e) && e@ == failure && final(self)@ == old(self)@,
                Ok(state) => r is Ok && final(self)@ == state,
            },
    {
        let manifest_id: String = extract_signed_manifest_id(report)?;
        if self.next_sequence_number == u64::MAX {
            return Err(bad_param("live video sequenceNumber cannot advance past u64::MAX"));
        }
        self.next_sequence_number = self.next_sequence_number + 1;
        self.previous_manifest_id = Some(manifest_id);
        Ok(())
    }

    /// Signs the initialization segment with the base manifest definition.
    ///
    /// `sign` embeds a manifest with the given definition in a segment; `read` reads the manifest of
    /// a signed segment back. The manifest becomes the first link.
    pub fn sign_init_segment<S, R>(&mut self, segment_data: &[u8], sign: S, read: R) -> (r: Result<
        Vec<u8>,
        Error,
    >) where
        S: Fn(&str, &[u8]) -> Result<Vec<u8>, Error>,
        R: Fn(&[u8]) -> Result<ManifestReport, Error>,

        requires
            forall|definition: &str, data: &[u8]| call_requires(sign, (definition, data)),
            forall|data: &[u8]| call_requires(read, (data,)),
        ensures
            init_signing_outcome(old(self)@, segment_data@, sign, read, final(self)@, r),
    {
        let _info: InitSegmentInfo = parse_init_segment(segment_data)?;
        let signed: Result<Vec<u8>, Error> = sign(self.base_manifest_json.as_str(), segment_data);
        assert(init_embedding_outcome(
            old(self)@.base_manifest_json,
            segment_data@,
            sign,
            signed,
        ));
        let bytes: Vec<u8> = signed?;
        let report: Result<ManifestReport, Error> = read(bytes.as_slice());
        assert(reading_outcome(bytes@, read, report));
        self.complete_init_segment(&report?)?;
        Ok(bytes)
    }

    /// Signs a media segment, with the claim that continues the chain, and advances the state.
    ///
    /// `sign` embeds a manifest with the given definition and claim in a segment; `read` reads the
    /// manifest of a signed segment back.
    pub fn sign_media_segment<S, R>(&mut self, segment_data: &[u8], sign: S, read: R) -> (r: Result<
        Vec<u8>,
        Error,
    >) where
        S: Fn(&str, &LiveVideoSegment, &[u8]) -> Result<Vec<u8>, Error>,
        R: Fn(&[u8]) -> Result<ManifestReport, Error>,

        requires
            forall|definition: &str, claim: &LiveVideoSegment, data: &[u8]|
                call_requires(sign, (definition, claim, data)),
            forall|data: &[u8]| call_requires(read, (data,)),
        ensures
            media_signing_outcome(old(self)@, segment_data@, sign, read, final(self)@, r),
    {
        let claim: LiveVideoSegment = self.begin_media_segment(segment_data)?;
        let signed: Result<Vec<u8>, Error> = sign(
            self.base_manifest_json.as_str(),
            &claim,
            segment_data,
        );
        assert(media_embedding_outcome(
            old(self)@.base_manifest_json,
            claim@,
            segment_data@,
            sign,
            signed,
        ));
        let bytes: Vec<u8> = signed?;
        let report: Result<ManifestReport, Error> = read(bytes.as_slice());
        assert(reading_outcome(bytes@, read, report));
        self.complete_media_segment(&report?)?;
        Ok(bytes)
    }

    /// The identifier of the manifest that was signed last, if any.
    pub fn previous_manifest_id(&self) -> (r: Option<&str>)
        ensures
            match self@.previous_manifest_id {
                Some(id) => r matches Some(s) && s@ == id,
                None => r is None,
            },
    {
        match &self.previous_manifest_id {
            Some(id) => Some(id.as_str()),
            None => None,
        }
    }

    /// The number of the next media segment.
    ///
    /// Where the definition gives no number, it is provisional until the first media segment, whose
    /// own number is then taken.
    pub fn next_sequence_number(&self) -> (r: u64)
        ensures
            r == self@.next_sequence_number,
    {
        self.next_sequence_number
    }

    fn build_live_video_assertion(&self) -> (r: LiveVideoSegment)
        ensures
            r@ == next_claim(self@),
    {
        LiveVideoSegment {
            sequence_number: self.next_sequence_number,
            stream_id: self.stream_id.clone(),
            continuity_method: ContinuityMethod::ManifestId,
            previous_manifest_id: match &self.previous_manifest_id {
                Some(id) => Some(id.clone()),
                None => None,
            },
        }
    }
}

/// Whether the data of the live segment assertion, if there is one, can take fields.
fn manifest_takes_state(manifest: &serde_json::Value) -> (r: bool)
    ensures
        r == takes_state(json_of(*manifest)),
{
    match json_get(manifest, "assertions") {
        None => true,
        Some(assertions) => match json_items(assertions) {
            None => true,
            Some(items) => match find_live_assertion(items) {
                None => true,
                Some(i) => {
                    assert(jsons_of(items@)[i as int] == json_of(items@[i as int]));
                    match json_get(&items[i], "data") {
                        None => true,
                        Some(data) => json_is_object(data) || json_is_null(data),
                    }
                },
            },
        },
    }
}

} // verus!
