//! Validation of a live stream, segment by segment.
//!
//! The host says what only it can find out (whether a signature holds, whether a manifest can be
//! trusted) in functions that the validator calls with the segment, what was read from it and the
//! stream so far. The validator adds what follows from those, logs the failures, and keeps the state
//! that the next segment is held to.

use std::collections::HashSet;
use vstd::prelude::*;
use vstd::slice::slice_subrange;
use vstd::std_specs::hash::*;
use vstd::string::StringExecFns;

use crate::bmff::{
    box_extent, init_info, media_info, parse_init_segment, parse_media_segment, read_box_extent,
    MediaSegmentInfo,
};
use crate::bmff_faults::BoxKind;
use crate::bytes::same_bytes;
use crate::error::{agrees, Error, Failure};
use crate::manifest_report::{check_c2pa_urn, is_c2pa_urn, text_view};
use crate::segment_info::{parse_vsi, vsi_outcome, ParsedVsi, SegmentInfoMap};
use crate::session_keys::{key_views, SessionKey, SessionKeyView, SessionKeys};
use crate::signing::{LiveVideoSegment, SegmentClaim};
use crate::status_tracker::{
    fail_validation, item, item_views, logged, push_item, push_items, verdict, ItemView, LogItem,
    StatusTracker, TrackerView, LIVEVIDEO_INIT_INVALID, LIVEVIDEO_MANIFEST_INVALID,
    LIVEVIDEO_SEGMENT_INVALID, LIVEVIDEO_SESSIONKEY_INVALID,
};
use crate::text::same_text;
use crate::verifiable_segment_info::{
    extract_vsi_emsg_from_segment, vsi_event, EmsgEvent, VsiEmsg,
};

verus! {

/// The segment that the next one is held to.
pub struct SegmentState {
    pub sequence_number: u64,
    pub stream_id: String,
    pub manifest_id: String,
}

/// What a [`SegmentState`] holds.
pub struct SegmentStateView {
    pub sequence_number: u64,
    pub stream_id: Seq<char>,
    pub manifest_id: Seq<char>,
}

impl View for SegmentState {
    type V = SegmentStateView;

    open spec fn view(&self) -> SegmentStateView {
        SegmentStateView {
            sequence_number: self.sequence_number,
            stream_id: self.stream_id@,
            manifest_id: self.manifest_id@,
        }
    }
}

/// Validates a sequence of live video segments.
///
/// Create one per stream. For segments with Verifiable Segment Info, call
/// [`validate_session_keys`] after [`validate_init_segment`].
///
/// [`validate_session_keys`]: LiveVideoValidator::validate_session_keys
/// [`validate_init_segment`]: LiveVideoValidator::validate_init_segment
pub struct LiveVideoValidator {
    previous_segment: Option<SegmentState>,
    session_keys: Vec<SessionKey>,
    expected_manifest_id: Option<String>,
    manifest_box_init_id: Option<String>,
    init_track_id: Option<u32>,
    init_timescale: Option<u32>,
    init_default_sample_duration: Option<u32>,
    seen_emsg_ids: HashSet<u32>,
}

/// The state of a [`LiveVideoValidator`].
pub struct ValidatorState {
    pub previous_segment: Option<SegmentStateView>,
    pub session_keys: Seq<SessionKeyView>,
    pub expected_manifest_id: Option<Seq<char>>,
    pub manifest_box_init_id: Option<Seq<char>>,
    pub init_track_id: Option<u32>,
    pub init_timescale: Option<u32>,
    pub init_default_sample_duration: Option<u32>,
    pub seen_emsg_ids: Set<u32>,
}

impl View for LiveVideoValidator {
    type V = ValidatorState;

    closed spec fn view(&self) -> ValidatorState {
        ValidatorState {
            previous_segment: match self.previous_segment {
                Some(segment) => Some(segment@),
                None => None,
            },
            session_keys: key_views(self.session_keys@),
            expected_manifest_id: text_view(self.expected_manifest_id),
            manifest_box_init_id: text_view(self.manifest_box_init_id),
            init_track_id: self.init_track_id,
            init_timescale: self.init_timescale,
            init_default_sample_duration: self.init_default_sample_duration,
            seen_emsg_ids: self.seen_emsg_ids@,
        }
    }
}

/// The state before any segment.
pub open spec fn fresh_state() -> ValidatorState {
    ValidatorState {
        previous_segment: None,
        session_keys: seq![],
        expected_manifest_id: None,
        manifest_box_init_id: None,
        init_track_id: None,
        init_timescale: None,
        init_default_sample_duration: None,
        seen_emsg_ids: Set::empty(),
    }
}

// The initialization segment.

/// Whether a run of boxes that starts at `pos` holds a box of a type, as far as the run can be
/// read.
pub open spec fn holds_box_from(data: Seq<u8>, pos: int, kind: BoxKind) -> bool
    decreases data.len() - pos,
{
    if pos >= data.len() {
        false
    } else {
        match box_extent(data, pos) {
            Err(_) => false,
            Ok((_, end)) => data.subrange(pos + 4, pos + 8) == kind.code() || holds_box_from(
                data,
                end,
                kind,
            ),
        }
    }
}

/// Whether a segment holds a box of a type, as far as its boxes can be read.
pub fn segment_contains_box_type(segment_data: &[u8], kind: BoxKind) -> (r: bool)
    ensures
        r == holds_box_from(segment_data@, 0, kind),
{
    let code: [u8; 4] = kind.bytes();
    let mut pos: usize = 0;
    while pos < segment_data.len()
        invariant
            pos <= segment_data@.len(),
            code@ == kind.code(),
            holds_box_from(segment_data@, 0, kind) == holds_box_from(
                segment_data@,
                pos as int,
                kind,
            ),
        decreases segment_data@.len() - pos,
    {
        let (_header, end): (usize, usize) = match read_box_extent(segment_data, pos) {
            Ok(extent) => extent,
            Err(_) => {
                return false;
            },
        };
        if same_bytes(slice_subrange(segment_data, pos + 4, pos + 8), &code) {
            return true;
        }
        pos = end;
    }
    false
}

/// The failures of an initialization segment.
pub open spec fn init_failures(segment: Seq<u8>) -> Seq<ItemView> {
    let media = if holds_box_from(segment, 0, BoxKind::Mdat) {
        seq![
            item(
                "initialization segment must not contain an mdat box"@,
                LIVEVIDEO_INIT_INVALID@,
            ),
        ]
    } else {
        seq![]
    };
    match init_info(segment) {
        Ok(_) => media,
        Err(failure) => media + seq![
            item(
                "invalid initialization segment layout or track timing: "@ + failure.text(),
                LIVEVIDEO_INIT_INVALID@,
            ),
        ],
    }
}

/// The state behind an initialization segment: whatever came before is forgotten, and the timing of
/// the track is taken over where it can be read.
pub open spec fn init_state(segment: Seq<u8>) -> ValidatorState {
    match init_info(segment) {
        Ok(info) => ValidatorState {
            init_track_id: Some(info.track_id),
            init_timescale: Some(info.timescale),
            init_default_sample_duration: info.default_sample_duration,
            ..fresh_state()
        },
        Err(_) => fresh_state(),
    }
}

fn join_text(front: &str, back: &str) -> (r: String)
    ensures
        r@ == front@ + back@,
{
    let mut text: String = front.to_string();
    text.append(back);
    text
}

// Segments with a manifest each.

/// What the host found out about a media segment with a manifest of its own.
pub struct ManifestChecks {
    /// What is wrong with the boxes of the segment and with its claim of continuity.
    pub layout: Vec<LogItem>,
    /// What is wrong with its number and its stream, given the segment before it.
    pub sequence: Vec<LogItem>,
}

/// The failure of a first segment that does not refer to the initialization segment.
pub open spec fn init_link_failures(state: ValidatorState, claim: SegmentClaim) -> Seq<ItemView> {
    if state.previous_segment is None && state.manifest_box_init_id is Some
        && claim.previous_manifest_id != state.manifest_box_init_id {
        seq![
            item(
                "first media segment previousManifestId must reference the signed initialization manifest"@,
                LIVEVIDEO_SEGMENT_INVALID@,
            ),
        ]
    } else {
        seq![]
    }
}

/// The failures of a media segment with a manifest of its own.
pub open spec fn segment_failures(
    state: ValidatorState,
    claim: SegmentClaim,
    layout: Seq<ItemView>,
    sequence: Seq<ItemView>,
) -> Seq<ItemView> {
    let found = layout + init_link_failures(state, claim);
    if state.previous_segment is Some {
        found + sequence
    } else {
        found
    }
}

/// What a segment that may be absent holds.
pub open spec fn previous_view(segment: Option<&SegmentState>) -> Option<SegmentStateView> {
    match segment {
        Some(s) => Some(s@),
        None => None,
    }
}

/// The state behind a media segment without failures.
pub open spec fn followed_by(
    state: ValidatorState,
    sequence_number: u64,
    stream_id: Seq<char>,
    manifest_id: Seq<char>,
) -> ValidatorState {
    ValidatorState {
        previous_segment: Some(SegmentStateView { sequence_number, stream_id, manifest_id }),
        ..state
    }
}

/// What comes of validating a media segment with a manifest of its own, given the failures of its
/// boxes and those of its number and stream.
pub open spec fn segment_result(
    state: ValidatorState,
    tracker: TrackerView,
    manifest_id: Seq<char>,
    claim: SegmentClaim,
    layout: Seq<ItemView>,
    sequence: Seq<ItemView>,
    after: ValidatorState,
    tracker_after: TrackerView,
    r: Result<(), Error>,
) -> bool {
    let failures = segment_failures(state, claim, layout, sequence);
    &&& tracker_after == logged(tracker, failures)
    &&& agrees(r, verdict(tracker, failures))
    &&& after == if failures.len() > 0 {
        state
    } else {
        followed_by(state, claim.sequence_number, claim.stream_id, manifest_id)
    }
}

/// What comes of validating a media segment with a manifest of its own: the host is asked about the
/// segment, its manifest, its claim and the segment before it, and what it answers counts.
pub open spec fn segment_outcome<
    C: Fn(&[u8], &str, &LiveVideoSegment, Option<&SegmentState>) -> ManifestChecks,
>(
    state: ValidatorState,
    tracker: TrackerView,
    segment: Seq<u8>,
    manifest_id: Seq<char>,
    claim: SegmentClaim,
    check: C,
    after: ValidatorState,
    tracker_after: TrackerView,
    r: Result<(), Error>,
) -> bool {
    exists|
        data: &[u8],
        id: &str,
        assertion: &LiveVideoSegment,
        previous: Option<&SegmentState>,
        checks: ManifestChecks,
    | #[trigger]
        call_ensures(check, (data, id, assertion, previous), checks) && data@ == segment && id@
            == manifest_id && assertion@ == claim && previous_view(previous)
            == state.previous_segment && segment_result(
            state,
            tracker,
            manifest_id,
            claim,
            item_views(checks.layout@),
            item_views(checks.sequence@),
            after,
            tracker_after,
            r,
        )
}

// Session keys.

/// What the host found out about the binding of a session key to the manifest signer.
pub struct BindingCheck {
    pub failures: Vec<LogItem>,
    pub verified: bool,
}

/// What a vector of binding checks stands for.
pub open spec fn binding_views(bindings: Seq<BindingCheck>) -> Seq<(Seq<ItemView>, bool)> {
    Seq::new(bindings.len(), |i: int| (item_views(bindings[i].failures@), bindings[i].verified))
}

/// A failure of a session key.
pub open spec fn key_item(description: Seq<char>) -> ItemView {
    item(description, LIVEVIDEO_SESSIONKEY_INVALID@)
}

/// What is wrong with the key at `i` itself.
pub open spec fn key_fault(keys: Seq<SessionKeyView>, i: int) -> Option<Seq<char>> {
    let key = keys[i];
    if key.key.kid is None || key.key.kid == Some(Seq::<u8>::empty()) {
        Some("session key COSE_Key must include a non-empty kid (key identifier)"@)
    } else if exists|j: int| 0 <= j < i && (#[trigger] keys[j]).key.kid == key.key.kid {
        Some("session key COSE_Key kid values must be unique"@)
    } else if key.key.alg is None || key.key.public_key is None {
        Some("session COSE_Key has an unsupported or inconsistent algorithm/public key"@)
    } else if key.validity_period == 0 {
        Some("session key validityPeriod must be greater than zero"@)
    } else {
        None
    }
}

/// Whether the first `n` keys are sound in themselves and the next, if there is one, is not.
pub open spec fn sound_up_to(keys: Seq<SessionKeyView>, n: int) -> bool {
    &&& 0 <= n <= keys.len()
    &&& forall|i: int| 0 <= i < n ==> #[trigger] key_fault(keys, i) is None
    &&& n < keys.len() ==> key_fault(keys, n) is Some
}

/// The failures of the bindings, in order.
pub open spec fn binding_failures(bindings: Seq<(Seq<ItemView>, bool)>) -> Seq<ItemView>
    decreases bindings.len(),
{
    if bindings.len() == 0 {
        seq![]
    } else {
        binding_failures(bindings.drop_last()) + bindings.last().0
    }
}

/// The failures of the keys: those of the bindings of the keys that are sound in themselves, up to
/// the first key that is not, and that of this key.
pub open spec fn key_failures(
    keys: Seq<SessionKeyView>,
    bindings: Seq<(Seq<ItemView>, bool)>,
) -> Seq<ItemView> {
    let n = bindings.len() as int;
    if n < keys.len() && key_fault(keys, n) is Some {
        binding_failures(bindings) + seq![key_item(key_fault(keys, n)->Some_0)]
    } else {
        binding_failures(bindings)
    }
}

/// Whether the host was asked about the binding of every key before the first that is wrong in
/// itself, and answered with `checks`.
pub open spec fn bindings_asked<V: Fn(&SessionKey, &[u8]) -> BindingCheck>(
    keys: Seq<SessionKey>,
    cert: &[u8],
    verify: V,
    checks: Seq<BindingCheck>,
) -> bool {
    &&& sound_up_to(key_views(keys), checks.len() as int)
    &&& forall|i: int|
        0 <= i < checks.len() ==> call_ensures(verify, (&keys[i], cert), #[trigger] checks[i])
}

/// The keys before `n` whose binding was verified, in order.
pub open spec fn bound_keys(
    keys: Seq<SessionKeyView>,
    bindings: Seq<(Seq<ItemView>, bool)>,
    n: int,
) -> Seq<SessionKeyView>
    decreases n,
{
    if n <= 0 {
        seq![]
    } else if bindings[n - 1].1 {
        bound_keys(keys, bindings, n - 1).push(keys[n - 1])
    } else {
        bound_keys(keys, bindings, n - 1)
    }
}

/// What is wrong with a session-keys assertion as a whole.
pub open spec fn assertion_fault(
    keys: Seq<SessionKeyView>,
    manifest_id: Seq<char>,
    has_cert: bool,
) -> Option<Seq<char>> {
    if !is_c2pa_urn(manifest_id) {
        Some("session-keys manifest ID must be a non-empty urn:c2pa: identifier"@)
    } else if keys.len() == 0 {
        Some("session-keys assertion must contain at least one key"@)
    } else if !has_cert {
        Some(NO_CERTIFICATE@)
    } else {
        None
    }
}

/// Why no key can be verified without the certificate of the manifest signer.
pub const NO_CERTIFICATE: &'static str =
    "cannot verify session key signerBinding without the manifest signer's end-entity certificate; per §19.7.3 a key that cannot be verified shall not be used";

/// The failures of a session-keys assertion, given what came of verifying the bindings of the keys
/// before the first that is wrong in itself.
pub open spec fn session_key_failures(
    keys: Seq<SessionKeyView>,
    manifest_id: Seq<char>,
    has_cert: bool,
    bindings: Seq<(Seq<ItemView>, bool)>,
) -> Seq<ItemView> {
    match assertion_fault(keys, manifest_id, has_cert) {
        Some(description) => seq![key_item(description)],
        None => key_failures(keys, bindings),
    }
}

/// The state behind a session-keys assertion: the keys with a verified binding, where the assertion
/// was looked at to its end; else none.
pub open spec fn keyed_state(
    state: ValidatorState,
    tracker: TrackerView,
    keys: Seq<SessionKeyView>,
    manifest_id: Seq<char>,
    has_cert: bool,
    bindings: Seq<(Seq<ItemView>, bool)>,
) -> ValidatorState {
    let failures = session_key_failures(keys, manifest_id, has_cert, bindings);
    if assertion_fault(keys, manifest_id, has_cert) is None && bindings.len() == keys.len()
        && verdict(tracker, failures) is Ok {
        ValidatorState {
            session_keys: bound_keys(keys, bindings, keys.len() as int),
            expected_manifest_id: Some(manifest_id),
            ..state
        }
    } else {
        ValidatorState { session_keys: seq![], expected_manifest_id: None, ..state }
    }
}

/// What comes of validating a session-keys assertion, where the host answers what it is asked about
/// the bindings.
pub open spec fn session_keys_outcome<V: Fn(&SessionKey, &[u8]) -> BindingCheck>(
    state: ValidatorState,
    tracker: TrackerView,
    keys: Seq<SessionKey>,
    manifest_id: Seq<char>,
    ee_cert_der: Option<&[u8]>,
    verify: V,
    after: ValidatorState,
    tracker_after: TrackerView,
    r: Result<(), Error>,
) -> bool {
    exists|checks: Seq<BindingCheck>|
        {
            let all = key_views(keys);
            let bindings = #[trigger] binding_views(checks);
            let failures = session_key_failures(all, manifest_id, ee_cert_der is Some, bindings);
            &&& assertion_fault(all, manifest_id, ee_cert_der is Some) is None ==> bindings_asked(
                keys,
                ee_cert_der->Some_0,
                verify,
                checks,
            )
            &&& tracker_after == logged(tracker, failures)
            &&& agrees(r, verdict(tracker, failures))
            &&& after == keyed_state(
                state,
                tracker,
                all,
                manifest_id,
                ee_cert_der is Some,
                bindings,
            )
        }
}

// Segments with Verifiable Segment Info.

/// What the validator reads of a segment whose Verifiable Segment Info could be opened.
pub struct OpenedVsi {
    pub sequence_number: u64,
    pub manifest_id: String,
    pub event: VsiEmsg,
}

/// What an [`OpenedVsi`] holds.
pub struct OpenedView {
    pub sequence_number: u64,
    pub manifest_id: Seq<char>,
    pub event: EmsgEvent,
}

impl View for OpenedVsi {
    type V = OpenedView;

    open spec fn view(&self) -> OpenedView {
        OpenedView {
            sequence_number: self.sequence_number,
            manifest_id: self.manifest_id@,
            event: self.event@,
        }
    }
}

/// What the host found out about a segment with Verifiable Segment Info.
pub struct VsiChecks {
    /// What is wrong with its manifest identifier.
    pub manifest: Vec<LogItem>,
    /// What is wrong with its number, its key, its signature, its place in the stream and its hash.
    pub signature: Vec<LogItem>,
}

/// A failure of a media segment.
pub open spec fn segment_item(description: Seq<char>) -> ItemView {
    item(description, LIVEVIDEO_SEGMENT_INVALID@)
}

/// One failure, if a condition holds.
pub open spec fn when(condition: bool, description: Seq<char>) -> Seq<ItemView> {
    if condition {
        seq![segment_item(description)]
    } else {
        seq![]
    }
}

/// The failures of the event message of a segment.
pub open spec fn event_failures(
    state: ValidatorState,
    event: EmsgEvent,
    media: MediaSegmentInfo,
) -> Seq<ItemView> {
    when(
        event.presentation_time_delta != 0,
        "VSI emsg presentation_time_delta must be zero"@,
    ) + when(
        event.timescale == 0 || state.init_timescale != Some(event.timescale),
        "VSI emsg timescale must be non-zero and match the initialization track timescale"@,
    ) + when(
        event.event_duration != media.duration_ticks,
        "VSI emsg event_duration must cover the complete media segment"@,
    ) + when(
        state.seen_emsg_ids.contains(event.id),
        "VSI emsg id must be unique within the live session"@,
    ) + when(event.id == 0, "VSI emsg id must be nonzero"@)
}

/// The failures of the number and the track of a segment.
pub open spec fn number_failures(
    state: ValidatorState,
    sequence_number: u64,
    media: MediaSegmentInfo,
) -> Seq<ItemView> {
    when(
        sequence_number != media.sequence_number,
        "VSI sequenceNumber must match moof/mfhd.sequence_number"@,
    ) + when(
        state.init_track_id is Some && state.init_track_id != Some(media.track_id),
        "media segment tfhd track_ID does not match the initialization track_ID"@,
    )
}

/// The failures of a segment whose Verifiable Segment Info could be opened and whose timing is
/// known.
pub open spec fn vsi_failures(
    state: ValidatorState,
    opened: OpenedView,
    media: MediaSegmentInfo,
    manifest: Seq<ItemView>,
    signature: Seq<ItemView>,
) -> Seq<ItemView> {
    event_failures(state, opened.event, media) + manifest + number_failures(
        state,
        opened.sequence_number,
        media,
    ) + signature
}

/// The failures of a segment whose Verifiable Segment Info could be opened.
pub open spec fn opened_failures(
    state: ValidatorState,
    segment: Seq<u8>,
    opened: OpenedView,
    manifest: Seq<ItemView>,
    signature: Seq<ItemView>,
) -> Seq<ItemView> {
    match media_info(segment, state.init_default_sample_duration) {
        Err(failure) => seq![
            segment_item(
                "invalid Milestone 1 media segment layout or timing: "@ + failure.text(),
            ),
        ],
        Ok(media) => vsi_failures(state, opened, media, manifest, signature),
    }
}

/// The state behind a segment whose Verifiable Segment Info could be opened: the segment becomes the
/// one that the next is held to, and its event identifier is taken, only if nothing was wrong with
/// it.
pub open spec fn opened_state(
    state: ValidatorState,
    segment: Seq<u8>,
    opened: OpenedView,
    manifest: Seq<ItemView>,
    signature: Seq<ItemView>,
) -> ValidatorState {
    if opened_failures(state, segment, opened, manifest, signature).len() > 0 {
        state
    } else {
        ValidatorState {
            seen_emsg_ids: state.seen_emsg_ids.insert(opened.event.id),
            ..followed_by(state, opened.sequence_number, seq![], opened.manifest_id)
        }
    }
}

/// What comes of validating a segment whose Verifiable Segment Info could be opened.
pub open spec fn opened_result(
    state: ValidatorState,
    tracker: TrackerView,
    segment: Seq<u8>,
    opened: OpenedView,
    manifest: Seq<ItemView>,
    signature: Seq<ItemView>,
    after: ValidatorState,
    tracker_after: TrackerView,
    r: Result<(), Error>,
) -> bool {
    let failures = opened_failures(state, segment, opened, manifest, signature);
    &&& tracker_after == logged(tracker, failures)
    &&& agrees(r, verdict(tracker, failures))
    &&& after == opened_state(state, segment, opened, manifest, signature)
}

/// What the validator reads of a segment once its event and the message in it are known.
pub open spec fn opened_of(event: EmsgEvent, parsed: ParsedVsi) -> OpenedView {
    OpenedView {
        sequence_number: parsed.segment_info_map.sequence_number,
        manifest_id: parsed.segment_info_map.manifest_id@,
        event,
    }
}

/// What a text that may be absent holds.
pub open spec fn borrowed_view(text: Option<&str>) -> Option<Seq<char>> {
    match text {
        Some(s) => Some(s@),
        None => None,
    }
}

/// What comes of validating a segment whose Verifiable Segment Info could be opened, with the
/// session key that it names: where the timing of the segment is known, the host is asked about the
/// message, the segment, the key and the stream so far, and what it answers counts.
pub open spec fn checked_outcome<
    C: Fn(&ParsedVsi, &[u8], &SessionKey, Option<&SegmentState>, Option<&str>) -> VsiChecks,
>(
    state: ValidatorState,
    tracker: TrackerView,
    segment: Seq<u8>,
    event: EmsgEvent,
    parsed: ParsedVsi,
    session_key: SessionKeyView,
    check: C,
    after: ValidatorState,
    tracker_after: TrackerView,
    r: Result<(), Error>,
) -> bool {
    let opened = opened_of(event, parsed);
    if media_info(segment, state.init_default_sample_duration) is Err {
        opened_result(
            state,
            tracker,
            segment,
            opened,
            seq![],
            seq![],
            after,
            tracker_after,
            r,
        )
    } else {
        exists|
            message: &ParsedVsi,
            data: &[u8],
            key: &SessionKey,
            previous: Option<&SegmentState>,
            expected_id: Option<&str>,
            checks: VsiChecks,
        | #[trigger]
            call_ensures(check, (message, data, key, previous, expected_id), checks) && *message
                == parsed && data@ == segment && key@ == session_key && previous_view(previous)
                == state.previous_segment && borrowed_view(expected_id)
                == state.expected_manifest_id && opened_result(
                state,
                tracker,
                segment,
                opened,
                item_views(checks.manifest@),
                item_views(checks.signature@),
                after,
                tracker_after,
                r,
            )
    }
}

/// Why a segment cannot be verified before session keys were validated.
pub const NO_SESSION_KEYS: &'static str =
    "no validated session keys are available for Verifiable Segment Info";

/// Why a segment without the event of Verifiable Segment Info cannot be verified.
pub const NO_VSI_EVENT: &'static str = "media segment does not contain a VSI emsg box";

/// Why a segment that was signed with an unknown key cannot be verified.
pub const UNKNOWN_KID: &'static str = "VSI kid does not name a validated session key";

/// Whether a segment was refused before it could be opened: the failure is logged and ends the
/// validation, and the state stays as it was.
pub open spec fn refused(
    state: ValidatorState,
    tracker: TrackerView,
    failure: ItemView,
    after: ValidatorState,
    tracker_after: TrackerView,
    r: Result<(), Error>,
) -> bool {
    &&& r matches Err(e) && e@ == Failure::BadParam(failure.code)
    &&& tracker_after == (TrackerView { failures: tracker.failures.push(failure), ..tracker })
    &&& after == state
}

/// The place of the first key from `i` on with the given identifier.
pub open spec fn key_place(keys: Seq<SessionKeyView>, kid: Seq<u8>, i: int) -> Option<int>
    decreases keys.len() - i,
{
    if i < 0 || i >= keys.len() {
        None
    } else if keys[i].key.kid == Some(kid) {
        Some(i)
    } else {
        key_place(keys, kid, i + 1)
    }
}

/// What comes of validating a media segment with Verifiable Segment Info.
///
/// The event is that of the segment, the message the one in the event, and the session key the one
/// that the message names. A segment is refused where one of these is missing or malformed.
pub open spec fn vsi_validation_outcome<
    D: Fn(&[u8]) -> Result<SegmentInfoMap, String>,
    C: Fn(&ParsedVsi, &[u8], &SessionKey, Option<&SegmentState>, Option<&str>) -> VsiChecks,
>(
    state: ValidatorState,
    tracker: TrackerView,
    segment: Seq<u8>,
    decode: D,
    check: C,
    after: ValidatorState,
    tracker_after: TrackerView,
    r: Result<(), Error>,
) -> bool {
    if state.session_keys.len() == 0 {
        refused(state, tracker, key_item(NO_SESSION_KEYS@), after, tracker_after, r)
    } else {
        match vsi_event(segment) {
            Err(failure) => refused(
                state,
                tracker,
                segment_item(failure.text()),
                after,
                tracker_after,
                r,
            ),
            Ok(None) => refused(
                state,
                tracker,
                segment_item(NO_VSI_EVENT@),
                after,
                tracker_after,
                r,
            ),
            Ok(Some(event)) => exists|parsed: Result<ParsedVsi, Error>| #[trigger]
                vsi_outcome(event.message_data, decode, parsed) && match parsed {
                    Err(e) => refused(
                        state,
                        tracker,
                        segment_item(e@.text()),
                        after,
                        tracker_after,
                        r,
                    ),
                    Ok(p) => match key_place(state.session_keys, p.sign1@.key_id, 0) {
                        None => refused(
                            state,
                            tracker,
                            key_item(UNKNOWN_KID@),
                            after,
                            tracker_after,
                            r,
                        ),
                        Some(i) => checked_outcome(
                            state,
                            tracker,
                            segment,
                            event,
                            p,
                            state.session_keys[i],
                            check,
                            after,
                            tracker_after,
                            r,
                        ),
                    },
                },
        }
    }
}

/// Logs the failure that ends a validation, and returns the error with its code.
fn refuse_segment(description: &str, code: &str, tracker: &mut StatusTracker) -> (r: Error)
    ensures
        r@ == Failure::BadParam(code@),
        final(tracker)@ == (TrackerView {
            failures: old(tracker)@.failures.push(item(description@, code@)),
            ..old(tracker)@
        }),
{
    push_item(&mut tracker.failures, description, code);
    assert(tracker@.failures =~= old(tracker)@.failures.push(item(description@, code@)));
    Error::BadParam(code.to_string())
}

/// Appends a failure to a list, if a condition holds.
fn push_when(items: &mut Vec<LogItem>, condition: bool, description: &str)
    ensures
        item_views(final(items)@) == item_views(old(items)@) + when(condition, description@),
{
    if condition {
        push_item(items, description, LIVEVIDEO_SEGMENT_INVALID);
    } else {
        assert(item_views(items@) + seq![] =~= item_views(items@));
    }
}

impl LiveVideoValidator {
    /// A validator that has seen nothing.
    pub fn new() -> (r: Self)
        ensures
            r@ == fresh_state(),
    {
        broadcast use group_hash_axioms;

        let session_keys: Vec<SessionKey> = Vec::new();
        assert(key_views(session_keys@) =~= seq![]);
        LiveVideoValidator {
            previous_segment: None,
            session_keys,
            expected_manifest_id: None,
            manifest_box_init_id: None,
            init_track_id: None,
            init_timescale: None,
            init_default_sample_duration: None,
            seen_emsg_ids: HashSet::new(),
        }
    }

    /// The segment that the next one is held to.
    pub fn previous_segment(&self) -> (r: Option<&SegmentState>)
        ensures
            match self@.previous_segment {
                Some(segment) => r matches Some(s) && s@ == segment,
                None => r is None,
            },
    {
        match &self.previous_segment {
            Some(segment) => Some(segment),
            None => None,
        }
    }

    /// The session keys against which segments are verified.
    pub fn session_keys(&self) -> (r: &Vec<SessionKey>)
        ensures
            key_views(r@) == self@.session_keys,
    {
        &self.session_keys
    }

    /// The identifier of the manifest that published the session keys.
    pub fn expected_manifest_id(&self) -> (r: Option<&str>)
        ensures
            match self@.expected_manifest_id {
                Some(id) => r matches Some(s) && s@ == id,
                None => r is None,
            },
    {
        match &self.expected_manifest_id {
            Some(id) => Some(id.as_str()),
            None => None,
        }
    }

    /// Validates an initialization segment and starts the stream over.
    pub fn validate_init_segment(&mut self, segment_data: &[u8], tracker: &mut StatusTracker) -> (r:
        Result<(), Error>)
        ensures
            final(self)@ == init_state(segment_data@),
            final(tracker)@ == logged(old(tracker)@, init_failures(segment_data@)),
            agrees(r, verdict(old(tracker)@, init_failures(segment_data@))),
    {
        *self = Self::new();
        let mut failures: Vec<LogItem> = Vec::new();
        assert(item_views(failures@) =~= seq![]);
        if segment_contains_box_type(segment_data, BoxKind::Mdat) {
            push_item(
                &mut failures,
                "initialization segment must not contain an mdat box",
                LIVEVIDEO_INIT_INVALID,
            );
            assert(item_views(failures@) =~= seq![
                item(
                    "initialization segment must not contain an mdat box"@,
                    LIVEVIDEO_INIT_INVALID@,
                ),
            ]);
        }
        match parse_init_segment(segment_data) {
            Ok(info) => {
                self.init_track_id = Some(info.track_id);
                self.init_timescale = Some(info.timescale);
                self.init_default_sample_duration = info.default_sample_duration;
            },
            Err(error) => {
                let words: String = join_text(
                    "invalid initialization segment layout or track timing: ",
                    error.message().as_str(),
                );
                push_item(&mut failures, words.as_str(), LIVEVIDEO_INIT_INVALID);
            },
        }
        assert(item_views(failures@) =~= init_failures(segment_data@));
        tracker.record(&failures)
    }

    /// Logs that the manifest of a segment cannot be read or has no active manifest.
    pub fn fail_segment_manifest(&self, description: &str, tracker: &mut StatusTracker) -> (r:
        Result<(), Error>)
        ensures
            final(tracker)@ == logged(
                old(tracker)@,
                seq![item(description@, LIVEVIDEO_MANIFEST_INVALID@)],
            ),
            agrees(
                r,
                verdict(old(tracker)@, seq![item(description@, LIVEVIDEO_MANIFEST_INVALID@)]),
            ),
    {
        fail_validation(description, LIVEVIDEO_MANIFEST_INVALID, tracker)
    }

    /// Logs that the manifest of the initialization segment cannot be read, has no active manifest,
    /// or is not valid and trusted.
    pub fn fail_init_manifest(&self, description: &str, tracker: &mut StatusTracker) -> (r: Result<
        (),
        Error,
    >)
        ensures
            final(tracker)@ == logged(
                old(tracker)@,
                seq![item(description@, LIVEVIDEO_INIT_INVALID@)],
            ),
            agrees(r, verdict(old(tracker)@, seq![item(description@, LIVEVIDEO_INIT_INVALID@)])),
    {
        fail_validation(description, LIVEVIDEO_INIT_INVALID, tracker)
    }

    /// Logs that the session-keys assertion is malformed or cannot be verified.
    pub fn fail_session_keys(&self, description: &str, tracker: &mut StatusTracker) -> (r: Result<
        (),
        Error,
    >)
        ensures
            final(tracker)@ == logged(old(tracker)@, seq![key_item(description@)]),
            agrees(r, verdict(old(tracker)@, seq![key_item(description@)])),
    {
        fail_validation(description, LIVEVIDEO_SESSIONKEY_INVALID, tracker)
    }

    /// Registers the trusted manifest of the signed initialization segment as the predecessor of the
    /// first media segment with a manifest of its own.
    pub fn register_manifest_box_init(
        &mut self,
        manifest_id: &str,
        tracker: &mut StatusTracker,
    ) -> (r: Result<(), Error>)
        ensures
            if is_c2pa_urn(manifest_id@) {
                &&& r is Ok
                &&& final(tracker)@ == old(tracker)@
                &&& final(self)@ == (ValidatorState {
                    manifest_box_init_id: Some(manifest_id@),
                    ..old(self)@
                })
            } else {
                let failure = item(
                    "initialization manifest label must be a non-empty urn:c2pa: identifier"@,
                    LIVEVIDEO_INIT_INVALID@,
                );
                &&& agrees(r, verdict(old(tracker)@, seq![failure]))
                &&& final(tracker)@ == logged(old(tracker)@, seq![failure])
                &&& final(self)@ == old(self)@
            },
    {
        if !check_c2pa_urn(manifest_id) {
            return fail_validation(
                "initialization manifest label must be a non-empty urn:c2pa: identifier",
                LIVEVIDEO_INIT_INVALID,
                tracker,
            );
        }
        self.manifest_box_init_id = Some(manifest_id.to_string());
        Ok(())
    }

    /// Whether a first segment fails to refer to the initialization segment.
    fn breaks_init_link(&self, assertion: &LiveVideoSegment) -> (r: bool)
        ensures
            r == (self@.previous_segment is None && self@.manifest_box_init_id is Some
                && assertion@.previous_manifest_id != self@.manifest_box_init_id),
    {
        if self.previous_segment.is_some() {
            return false;
        }
        match &self.manifest_box_init_id {
            None => false,
            Some(expected) => match &assertion.previous_manifest_id {
                None => true,
                Some(found) => !same_text(expected.as_str(), found.as_str()),
            },
        }
    }

    /// Validates a media segment with a manifest of its own.
    ///
    /// `manifest_id` is the identifier of that manifest, and `assertion` its claim. `check` is asked
    /// about the segment, these two and the segment before it. A segment with failures does not
    /// become the one that the next is held to.
    pub fn validate_media_segment<
        C: Fn(&[u8], &str, &LiveVideoSegment, Option<&SegmentState>) -> ManifestChecks,
    >(
        &mut self,
        segment_data: &[u8],
        manifest_id: &str,
        assertion: &LiveVideoSegment,
        check: &C,
        tracker: &mut StatusTracker,
    ) -> (r: Result<(), Error>)
        requires
            forall|data: &[u8], id: &str, claim: &LiveVideoSegment, previous: Option<&SegmentState>|
                call_requires(*check, (data, id, claim, previous)),
        ensures
            segment_outcome(
                old(self)@,
                old(tracker)@,
                segment_data@,
                manifest_id@,
                assertion@,
                *check,
                final(self)@,
                final(tracker)@,
                r,
            ),
            r is Err || final(tracker)@.failures.len() > old(tracker)@.failures.len()
                ==> final(self)@ == old(self)@,
    {
        let checks: ManifestChecks = check(
            segment_data,
            manifest_id,
            assertion,
            self.previous_segment(),
        );
        self.validate_checked_segment(manifest_id, assertion, &checks, tracker)
    }

    /// Validates a media segment with a manifest of its own, given what the host found out about it.
    pub fn validate_checked_segment(
        &mut self,
        manifest_id: &str,
        assertion: &LiveVideoSegment,
        checks: &ManifestChecks,
        tracker: &mut StatusTracker,
    ) -> (r: Result<(), Error>)
        ensures
            segment_result(
                old(self)@,
                old(tracker)@,
                manifest_id@,
                assertion@,
                item_views(checks.layout@),
                item_views(checks.sequence@),
                final(self)@,
                final(tracker)@,
                r,
            ),
            r is Err || final(tracker)@.failures.len() > old(tracker)@.failures.len()
                ==> final(self)@ == old(self)@,
    {
        let mut failures: Vec<LogItem> = Vec::new();
        assert(item_views(failures@) =~= seq![]);
        push_items(&mut failures, &checks.layout);
        assert(item_views(failures@) =~= item_views(checks.layout@));
        push_when(
            &mut failures,
            self.breaks_init_link(assertion),
            "first media segment previousManifestId must reference the signed initialization manifest",
        );
        if self.previous_segment.is_some() {
            push_items(&mut failures, &checks.sequence);
        }
        assert(item_views(failures@) == segment_failures(
            old(self)@,
            assertion@,
            item_views(checks.layout@),
            item_views(checks.sequence@),
        ));
        if failures.len() == 0 {
            self.previous_segment = Some(
                SegmentState {
                    sequence_number: assertion.sequence_number,
                    stream_id: assertion.stream_id.clone(),
                    manifest_id: manifest_id.to_string(),
                },
            );
        }
        tracker.record(&failures)
    }
}

/// Whether a key before `i` has the given identifier.
fn kid_is_taken(keys: &Vec<SessionKey>, i: usize, kid: &Vec<u8>) -> (r: bool)
    requires
        i <= keys@.len(),
    ensures
        r == exists|j: int|
            0 <= j < i && (#[trigger] key_views(keys@)[j]).key.kid == Some(kid@),
{
    let mut j: usize = 0;
    while j < i
        invariant
            j <= i <= keys@.len(),
            forall|k: int|
                0 <= k < j ==> (#[trigger] key_views(keys@)[k]).key.kid != Some(kid@),
        decreases i - j,
    {
        assert(key_views(keys@)[j as int] == keys@[j as int]@);
        match &keys[j].key.kid {
            None => {},
            Some(other) => {
                if same_bytes(other.as_slice(), kid.as_slice()) {
                    assert(key_views(keys@)[j as int].key.kid == Some(kid@));
                    return true;
                }
            },
        }
        j = j + 1;
    }
    false
}

/// Says what is wrong with the key at `i` itself.
fn find_key_fault(keys: &Vec<SessionKey>, i: usize) -> (r: Option<&'static str>)
    requires
        i < keys@.len(),
    ensures
        match key_fault(key_views(keys@), i as int) {
            Some(description) => r matches Some(s) && s@ == description,
            None => r is None,
        },
{
    let key = &keys[i];
    assert(key_views(keys@)[i as int] == key@);
    let kid: &Vec<u8> = match &key.key.kid {
        Some(kid) => kid,
        None => {
            return Some("session key COSE_Key must include a non-empty kid (key identifier)");
        },
    };
    if kid.len() == 0 {
        assert(kid@ =~= Seq::<u8>::empty());
        return Some("session key COSE_Key must include a non-empty kid (key identifier)");
    }
    if kid_is_taken(keys, i, kid) {
        return Some("session key COSE_Key kid values must be unique");
    }
    if key.key.alg.is_none() || key.key.public_key.is_none() {
        return Some("session COSE_Key has an unsupported or inconsistent algorithm/public key");
    }
    if key.validity_period == 0 {
        return Some("session key validityPeriod must be greater than zero");
    }
    None
}

/// Collects the failures of the keys, and the keys whose binding was verified where no key is wrong
/// in itself. `verify` is asked about each binding.
fn scan_keys<V: Fn(&SessionKey, &[u8]) -> BindingCheck>(
    keys: &Vec<SessionKey>,
    cert: &[u8],
    verify: &V,
) -> (r: (Vec<LogItem>, Option<Vec<SessionKey>>))
    requires
        forall|key: &SessionKey, der: &[u8]| call_requires(*verify, (key, der)),
    ensures
        exists|checks: Seq<BindingCheck>|
            {
                let all = key_views(keys@);
                let bindings = #[trigger] binding_views(checks);
                &&& bindings_asked(keys@, cert, *verify, checks)
                &&& item_views(r.0@) == key_failures(all, bindings)
                &&& r.1 is Some <==> bindings.len() == all.len()
                &&& r.1 matches Some(bound) ==> key_views(bound@) == bound_keys(
                    all,
                    bindings,
                    all.len() as int,
                )
            },
{
    let ghost all = key_views(keys@);
    let ghost mut checks: Seq<BindingCheck> = seq![];
    let mut failures: Vec<LogItem> = Vec::new();
    let mut bound: Vec<SessionKey> = Vec::new();
    let mut i: usize = 0;
    proof {
        assert(item_views(failures@) =~= seq![]);
        assert(binding_views(checks) =~= seq![]);
        assert(key_views(bound@) =~= seq![]);
    }
    while i < keys.len()
        invariant
            i <= keys@.len(),
            checks.len() == i,
            all == key_views(keys@),
            forall|key: &SessionKey, der: &[u8]| call_requires(*verify, (key, der)),
            forall|j: int|
                0 <= j < i ==> call_ensures(*verify, (&keys@[j], cert), #[trigger] checks[j]),
            item_views(failures@) == binding_failures(binding_views(checks)),
            key_views(bound@) == bound_keys(all, binding_views(checks), i as int),
            forall|j: int| 0 <= j < i ==> #[trigger] key_fault(all, j) is None,
        decreases keys@.len() - i,
    {
        match find_key_fault(keys, i) {
            Some(description) => {
                push_item(&mut failures, description, LIVEVIDEO_SESSIONKEY_INVALID);
                assert(key_fault(all, i as int) is Some);
                assert(bindings_asked(keys@, cert, *verify, checks));
                assert(item_views(failures@) == key_failures(all, binding_views(checks)));
                return (failures, None);
            },
            None => {},
        }
        let check: BindingCheck = verify(&keys[i], cert);
        let ghost before = checks;
        proof {
            checks = before.push(check);
            assert(binding_views(checks).drop_last() =~= binding_views(before));
            assert(binding_views(checks).last() == (item_views(check.failures@), check.verified));
            bound_by_the_first(all, binding_views(before), binding_views(checks), i as int);
        }
        push_items(&mut failures, &check.failures);
        if check.verified {
            let ghost sofar = key_views(bound@);
            bound.push(keys[i].copy());
            assert(key_views(bound@) =~= sofar.push(all[i as int]));
        }
        i = i + 1;
    }
    assert(bindings_asked(keys@, cert, *verify, checks));
    (failures, Some(bound))
}

/// The keys that are kept of the first `n` depend on their bindings alone.
proof fn bound_by_the_first(
    keys: Seq<SessionKeyView>,
    shorter: Seq<(Seq<ItemView>, bool)>,
    longer: Seq<(Seq<ItemView>, bool)>,
    n: int,
)
    requires
        0 <= n <= shorter.len() <= longer.len(),
        forall|i: int| 0 <= i < n ==> shorter[i] == #[trigger] longer[i],
    ensures
        bound_keys(keys, shorter, n) == bound_keys(keys, longer, n),
    decreases n,
{
    if n > 0 {
        assert(shorter[n - 1] == longer[n - 1]);
        bound_by_the_first(keys, shorter, longer, n - 1);
    }
}

impl LiveVideoValidator {
    /// Validates a session-keys assertion and keeps the keys with which segments can be verified.
    ///
    /// `manifest_id` is the identifier of the trusted manifest that carries the assertion. Without
    /// the certificate of its signer no binding can be verified, so no key is kept. `verify` is asked
    /// about the binding of each key to that certificate, up to the first key that is wrong in
    /// itself; a key whose binding does not verify is not kept.
    pub fn validate_session_keys<V: Fn(&SessionKey, &[u8]) -> BindingCheck>(
        &mut self,
        assertion: &SessionKeys,
        manifest_id: &str,
        ee_cert_der: Option<&[u8]>,
        verify: &V,
        tracker: &mut StatusTracker,
    ) -> (r: Result<(), Error>)
        requires
            forall|key: &SessionKey, der: &[u8]| call_requires(*verify, (key, der)),
        ensures
            session_keys_outcome(
                old(self)@,
                old(tracker)@,
                assertion.keys@,
                manifest_id@,
                ee_cert_der,
                *verify,
                final(self)@,
                final(tracker)@,
                r,
            ),
    {
        self.session_keys = Vec::new();
        assert(key_views(self.session_keys@) =~= seq![]);
        self.expected_manifest_id = None;
        assert(key_views(assertion.keys@).len() == assertion.keys@.len());
        // Nothing is asked about the bindings where the assertion as a whole is wrong.
        let ghost unasked = binding_views(seq![]);

        if !check_c2pa_urn(manifest_id) {
            return fail_validation(
                "session-keys manifest ID must be a non-empty urn:c2pa: identifier",
                LIVEVIDEO_SESSIONKEY_INVALID,
                tracker,
            );
        }
        if assertion.keys.len() == 0 {
            return fail_validation(
                "session-keys assertion must contain at least one key",
                LIVEVIDEO_SESSIONKEY_INVALID,
                tracker,
            );
        }
        let cert: &[u8] = match ee_cert_der {
            Some(cert) => cert,
            None => {
                return fail_validation(NO_CERTIFICATE, LIVEVIDEO_SESSIONKEY_INVALID, tracker);
            },
        };
        let (failures, bound) = scan_keys(&assertion.keys, cert, verify);
        tracker.record(&failures)?;
        match bound {
            None => {},
            Some(keys) => {
                self.session_keys = keys;
                self.expected_manifest_id = Some(manifest_id.to_string());
            },
        }
        Ok(())
    }

    /// Lists the failures of the event message of a segment.
    fn list_event_failures(&self, event: &VsiEmsg, media: &MediaSegmentInfo) -> (r: Vec<LogItem>)
        ensures
            item_views(r@) == event_failures(self@, event@, *media),
    {
        broadcast use group_hash_axioms;

        let mut failures: Vec<LogItem> = Vec::new();
        assert(item_views(failures@) =~= seq![]);
        push_when(
            &mut failures,
            event.presentation_time_delta != 0,
            "VSI emsg presentation_time_delta must be zero",
        );
        assert(item_views(failures@) =~= when(
            event@.presentation_time_delta != 0,
            "VSI emsg presentation_time_delta must be zero"@,
        ));
        let same_timescale: bool = match self.init_timescale {
            Some(timescale) => timescale == event.timescale,
            None => false,
        };
        push_when(
            &mut failures,
            event.timescale == 0 || !same_timescale,
            "VSI emsg timescale must be non-zero and match the initialization track timescale",
        );
        push_when(
            &mut failures,
            event.event_duration != media.duration_ticks,
            "VSI emsg event_duration must cover the complete media segment",
        );
        let seen: bool = self.seen_emsg_ids.contains(&event.id);
        push_when(&mut failures, seen, "VSI emsg id must be unique within the live session");
        push_when(&mut failures, event.id == 0, "VSI emsg id must be nonzero");
        failures
    }

    /// Lists the failures of a segment whose Verifiable Segment Info could be opened.
    fn list_opened_failures(&self, segment_data: &[u8], opened: &OpenedVsi, checks: &VsiChecks) -> (r:
        Vec<LogItem>)
        ensures
            item_views(r@) == opened_failures(
                self@,
                segment_data@,
                opened@,
                item_views(checks.manifest@),
                item_views(checks.signature@),
            ),
    {
        let media: MediaSegmentInfo = match parse_media_segment(
            segment_data,
            self.init_default_sample_duration,
        ) {
            Ok(media) => media,
            Err(error) => {
                let words: String = join_text(
                    "invalid Milestone 1 media segment layout or timing: ",
                    error.message().as_str(),
                );
                let mut failures: Vec<LogItem> = Vec::new();
                assert(item_views(failures@) =~= seq![]);
                push_item(&mut failures, words.as_str(), LIVEVIDEO_SEGMENT_INVALID);
                assert(item_views(failures@) =~= seq![segment_item(words@)]);
                return failures;
            },
        };
        let mut failures: Vec<LogItem> = self.list_event_failures(&opened.event, &media);
        push_items(&mut failures, &checks.manifest);
        let ghost before = item_views(failures@);
        let number_differs: bool = opened.sequence_number != media.sequence_number as u64;
        push_when(
            &mut failures,
            number_differs,
            "VSI sequenceNumber must match moof/mfhd.sequence_number",
        );
        let track_differs: bool = match self.init_track_id {
            Some(track_id) => track_id != media.track_id,
            None => false,
        };
        push_when(
            &mut failures,
            track_differs,
            "media segment tfhd track_ID does not match the initialization track_ID",
        );
        proof {
            assert(item_views(failures@) =~= before + number_failures(
                self@,
                opened@.sequence_number,
                media,
            ));
        }
        push_items(&mut failures, &checks.signature);
        failures
    }

    /// The place of the session key with the given identifier.
    fn find_session_key(&self, kid: &[u8]) -> (r: Option<usize>)
        ensures
            match key_place(self@.session_keys, kid@, 0) {
                Some(i) => r matches Some(place) && place == i && place < self.session_keys@.len(),
                None => r is None,
            },
    {
        let ghost all = key_views(self.session_keys@);
        let mut i: usize = 0;
        while i < self.session_keys.len()
            invariant
                i <= self.session_keys@.len(),
                all == key_views(self.session_keys@),
                key_place(all, kid@, 0) == key_place(all, kid@, i as int),
            decreases self.session_keys@.len() - i,
        {
            assert(all[i as int] == self.session_keys@[i as int]@);
            match &self.session_keys[i].key.kid {
                None => {},
                Some(other) => {
                    if same_bytes(other.as_slice(), kid) {
                        return Some(i);
                    }
                },
            }
            i = i + 1;
        }
        None
    }

    /// Validates a media segment with Verifiable Segment Info.
    ///
    /// `decode` decodes the map in the message that the event of the segment carries. `check` is
    /// asked about that message, the segment, the session key that the message names, the segment
    /// before it and the identifier of the manifest that published the keys. A segment with failures
    /// does not become the one that the next is held to, and does not take its event identifier.
    pub fn validate_verifiable_segment_info<
        D: Fn(&[u8]) -> Result<SegmentInfoMap, String>,
        C: Fn(&ParsedVsi, &[u8], &SessionKey, Option<&SegmentState>, Option<&str>) -> VsiChecks,
    >(
        &mut self,
        segment_data: &[u8],
        decode: &D,
        check: &C,
        tracker: &mut StatusTracker,
    ) -> (r: Result<(), Error>)
        requires
            forall|payload: &[u8]| call_requires(*decode, (payload,)),
            forall|
                parsed: &ParsedVsi,
                data: &[u8],
                key: &SessionKey,
                previous: Option<&SegmentState>,
                expected_id: Option<&str>,
            |
                call_requires(*check, (parsed, data, key, previous, expected_id)),
        ensures
            vsi_validation_outcome(
                old(self)@,
                old(tracker)@,
                segment_data@,
                *decode,
                *check,
                final(self)@,
                final(tracker)@,
                r,
            ),
            r is Err || final(tracker)@.failures.len() > old(tracker)@.failures.len()
                ==> final(self)@ == old(self)@,
    {
        assert(self@.session_keys.len() == self.session_keys@.len());
        if self.session_keys.len() == 0 {
            return Err(refuse_segment(NO_SESSION_KEYS, LIVEVIDEO_SESSIONKEY_INVALID, tracker));
        }
        let event: VsiEmsg = match extract_vsi_emsg_from_segment(segment_data) {
            Ok(Some(event)) => event,
            Ok(None) => {
                return Err(refuse_segment(NO_VSI_EVENT, LIVEVIDEO_SEGMENT_INVALID, tracker));
            },
            Err(error) => {
                return Err(
                    refuse_segment(error.message().as_str(), LIVEVIDEO_SEGMENT_INVALID, tracker),
                );
            },
        };
        let outcome: Result<ParsedVsi, Error> = parse_vsi(event.message_data.as_slice(), decode);
        let ghost seen = outcome;
        assert(vsi_outcome(event@.message_data, *decode, seen));
        let parsed: ParsedVsi = match outcome {
            Ok(parsed) => parsed,
            Err(error) => {
                return Err(
                    refuse_segment(error.message().as_str(), LIVEVIDEO_SEGMENT_INVALID, tracker),
                );
            },
        };
        let place: usize = match self.find_session_key(parsed.sign1.key_id.as_slice()) {
            Some(place) => place,
            None => {
                return Err(refuse_segment(UNKNOWN_KID, LIVEVIDEO_SESSIONKEY_INVALID, tracker));
            },
        };
        let checks: VsiChecks = self.ask_about_segment(&parsed, segment_data, place, check);
        let ghost found = event@;
        let opened = OpenedVsi {
            sequence_number: parsed.segment_info_map.sequence_number,
            manifest_id: parsed.segment_info_map.manifest_id.clone(),
            event,
        };
        let r: Result<(), Error> = self.validate_opened_vsi(segment_data, opened, &checks, tracker);
        assert(checked_outcome(
            old(self)@,
            old(tracker)@,
            segment_data@,
            found,
            parsed,
            old(self)@.session_keys[place as int],
            *check,
            self@,
            tracker@,
            r,
        ));
        r
    }

    /// Asks the host about a segment whose timing is known.
    fn ask_about_segment<
        C: Fn(&ParsedVsi, &[u8], &SessionKey, Option<&SegmentState>, Option<&str>) -> VsiChecks,
    >(&self, parsed: &ParsedVsi, segment_data: &[u8], place: usize, check: &C) -> (r: VsiChecks)
        requires
            place < self.session_keys@.len(),
            forall|
                parsed: &ParsedVsi,
                data: &[u8],
                key: &SessionKey,
                previous: Option<&SegmentState>,
                expected_id: Option<&str>,
            |
                call_requires(*check, (parsed, data, key, previous, expected_id)),
        ensures
            if media_info(segment_data@, self@.init_default_sample_duration) is Err {
                item_views(r.manifest@) == Seq::<ItemView>::empty() && item_views(r.signature@)
                    == Seq::<ItemView>::empty()
            } else {
                exists|
                    message: &ParsedVsi,
                    data: &[u8],
                    key: &SessionKey,
                    previous: Option<&SegmentState>,
                    expected_id: Option<&str>,
                | #[trigger]
                    call_ensures(*check, (message, data, key, previous, expected_id), r) && *message
                        == *parsed && data@ == segment_data@ && key@
                        == self@.session_keys[place as int] && previous_view(previous)
                        == self@.previous_segment && borrowed_view(expected_id)
                        == self@.expected_manifest_id
            },
    {
        match parse_media_segment(segment_data, self.init_default_sample_duration) {
            Err(_) => {
                let r = VsiChecks { manifest: Vec::new(), signature: Vec::new() };
                assert(item_views(r.manifest@) =~= Seq::<ItemView>::empty());
                assert(item_views(r.signature@) =~= Seq::<ItemView>::empty());
                r
            },
            Ok(_) => {
                assert(key_views(self.session_keys@)[place as int]
                    == self.session_keys@[place as int]@);
                check(
                    parsed,
                    segment_data,
                    &self.session_keys[place],
                    self.previous_segment(),
                    self.expected_manifest_id(),
                )
            },
        }
    }

    /// Validates a media segment whose Verifiable Segment Info could be opened, given what the host
    /// found out about it.
    pub fn validate_opened_vsi(
        &mut self,
        segment_data: &[u8],
        opened: OpenedVsi,
        checks: &VsiChecks,
        tracker: &mut StatusTracker,
    ) -> (r: Result<(), Error>)
        ensures
            opened_result(
                old(self)@,
                old(tracker)@,
                segment_data@,
                opened@,
                item_views(checks.manifest@),
                item_views(checks.signature@),
                final(self)@,
                final(tracker)@,
                r,
            ),
            r is Err || final(tracker)@.failures.len() > old(tracker)@.failures.len()
                ==> final(self)@ == old(self)@,
    {
        broadcast use group_hash_axioms;

        let failures: Vec<LogItem> = self.list_opened_failures(segment_data, &opened, checks);
        assert(item_views(failures@).len() == failures@.len());
        tracker.record(&failures)?;
        if failures.len() > 0 {
            return Ok(());
        }
        let stream_id: String = "".to_string();
        proof {
            reveal_strlit("");
            assert(stream_id@ =~= seq![]);
        }
        let id: u32 = opened.event.id;
        self.previous_segment = Some(
            SegmentState {
                sequence_number: opened.sequence_number,
                stream_id,
                manifest_id: opened.manifest_id,
            },
        );
        self.seen_emsg_ids.insert(id);
        Ok(())
    }
}

impl Default for LiveVideoValidator {
    fn default() -> (r: Self)
        ensures
            r@ == fresh_state(),
    {
        Self::new()
    }
}

} // verus!
