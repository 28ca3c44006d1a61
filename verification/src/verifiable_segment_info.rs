//! Verifiable Segment Info (VSI): the event message that carries it in a media segment.
//!
//! VSI is a tagged `COSE_Sign1` in an ISO BMFF `emsg` box of version 0 with the scheme identifier
//! `urn:c2pa:verifiable-segment-info` and the value `fseg`.

use vstd::prelude::*;
use vstd::slice::slice_subrange;
use vstd::utf8::encode_utf8;

use crate::bmff::{box_extent, read_box_extent};
use crate::bmff_faults::BoxKind;
use crate::bytes::{
    be32, be32_at, has_prefix, push_be32, push_bytes, read_be32, same_bytes, starts_with, to_vec,
};
use crate::error::{bad_param, Error, Failure};

verus! {

/// The scheme identifier of the event message.
pub const VSI_SCHEME_ID_URI: &'static str = "urn:c2pa:verifiable-segment-info";

/// The value of the event message.
pub const VSI_VALUE_FSEG: &'static str = "fseg";

/// Byte offset of the scheme identifier from the start of an `emsg` box: behind the box header
/// and the version and flags.
pub const VSI_URI_OFFSET_IN_EMSG: u64 = 12;

/// An event message that carries VSI.
#[derive(Clone, Debug, PartialEq, Eq)]
pub struct VsiEmsg {
    /// The tagged `COSE_Sign1`.
    pub message_data: Vec<u8>,
    pub timescale: u32,
    pub presentation_time_delta: u32,
    pub event_duration: u32,
    pub id: u32,
}

/// What a [`VsiEmsg`] holds.
pub struct EmsgEvent {
    pub message_data: Seq<u8>,
    pub timescale: u32,
    pub presentation_time_delta: u32,
    pub event_duration: u32,
    pub id: u32,
}

impl View for VsiEmsg {
    type V = EmsgEvent;

    open spec fn view(&self) -> EmsgEvent {
        EmsgEvent {
            message_data: self.message_data@,
            timescale: self.timescale,
            presentation_time_delta: self.presentation_time_delta,
            event_duration: self.event_duration,
            id: self.id,
        }
    }
}

/// The bytes of the scheme identifier.
pub open spec fn vsi_scheme() -> Seq<u8> {
    encode_utf8(VSI_SCHEME_ID_URI@)
}

/// The two zero-terminated strings that begin the body of a VSI event message.
pub open spec fn vsi_preamble() -> Seq<u8> {
    vsi_scheme() + seq![0u8] + encode_utf8(VSI_VALUE_FSEG@) + seq![0u8]
}

/// The `emsg` boxes of a run of boxes that starts at `pos`, as far as the run can be read.
pub open spec fn emsg_boxes_from(data: Seq<u8>, pos: int) -> Seq<Seq<u8>>
    decreases data.len() - pos,
{
    if pos >= data.len() {
        Seq::empty()
    } else {
        match box_extent(data, pos) {
            Err(_) => Seq::empty(),
            Ok((_, end)) => if data.subrange(pos + 4, pos + 8) == BoxKind::Emsg.code() {
                seq![data.subrange(pos, end)] + emsg_boxes_from(data, end)
            } else {
                emsg_boxes_from(data, end)
            },
        }
    }
}

/// Whether an `emsg` box has the VSI scheme identifier where a hash exclusion looks for it.
pub open spec fn is_vsi_candidate(emsg_box: Seq<u8>) -> bool {
    let start = VSI_URI_OFFSET_IN_EMSG as int;
    start + vsi_scheme().len() <= emsg_box.len() && emsg_box.subrange(
        start,
        start + vsi_scheme().len(),
    ) == vsi_scheme()
}

/// The `emsg` boxes of a segment that have the VSI scheme identifier.
pub open spec fn vsi_candidates(data: Seq<u8>) -> Seq<Seq<u8>> {
    emsg_boxes_from(data, 0).filter(|b: Seq<u8>| is_vsi_candidate(b))
}

/// The event in the body of an `emsg` box, behind its version and flags.
pub open spec fn event_of_body(body: Seq<u8>) -> Option<EmsgEvent> {
    let n = vsi_preamble().len() as int;
    if starts_with(body, vsi_preamble()) && n + 16 <= body.len() {
        Some(
            EmsgEvent {
                timescale: be32_at(body, n) as u32,
                presentation_time_delta: be32_at(body, n + 4) as u32,
                event_duration: be32_at(body, n + 8) as u32,
                id: be32_at(body, n + 12) as u32,
                message_data: body.skip(n + 16),
            },
        )
    } else {
        None
    }
}

/// The length of the header of an `emsg` box.
pub open spec fn emsg_header_len(emsg_box: Seq<u8>) -> int {
    if be32_at(emsg_box, 0) == 1 {
        16
    } else {
        8
    }
}

/// The event that an `emsg` box of version 0 without flags carries.
pub open spec fn event_of_box(emsg_box: Seq<u8>) -> Option<EmsgEvent> {
    let header = emsg_header_len(emsg_box);
    if emsg_box.len() < 4 || emsg_box.len() < header + 4 || emsg_box.subrange(header, header + 4)
        != seq![0u8, 0, 0, 0] {
        None
    } else {
        event_of_body(emsg_box.skip(header + 4))
    }
}

/// The VSI event of a segment: the one candidate, which must be well-formed.
pub open spec fn vsi_event(data: Seq<u8>) -> Result<Option<EmsgEvent>, Failure> {
    let candidates = vsi_candidates(data);
    if candidates.len() > 1 {
        Err(Failure::BadParam("segment contains multiple C2PA VSI emsg candidates"@))
    } else if candidates.len() == 0 {
        Ok(None)
    } else {
        match event_of_box(candidates[0]) {
            None => Err(
                Failure::BadParam("segment contains a malformed C2PA VSI emsg candidate"@),
            ),
            Some(event) => Ok(Some(event)),
        }
    }
}

/// What a vector of byte slices stands for.
pub open spec fn slice_views(slices: Seq<&[u8]>) -> Seq<Seq<u8>> {
    Seq::new(slices.len(), |i: int| slices[i]@)
}

/// Collects the `emsg` boxes of a segment up to the first box that cannot be read.
fn find_emsg_boxes<'a>(segment_data: &'a [u8]) -> (r: Vec<&'a [u8]>)
    ensures
        slice_views(r@) == emsg_boxes_from(segment_data@, 0),
{
    let code: [u8; 4] = BoxKind::Emsg.bytes();
    let mut found: Vec<&'a [u8]> = Vec::new();
    let mut pos: usize = 0;
    let ghost all = emsg_boxes_from(segment_data@, 0);
    proof {
        assert(slice_views(found@) + all =~= all);
    }
    while pos < segment_data.len()
        invariant
            pos <= segment_data@.len(),
            code@ == BoxKind::Emsg.code(),
            all == emsg_boxes_from(segment_data@, 0),
            all == slice_views(found@) + emsg_boxes_from(segment_data@, pos as int),
        decreases segment_data@.len() - pos,
    {
        let (_header, end): (usize, usize) = match read_box_extent(segment_data, pos) {
            Ok(extent) => extent,
            Err(_) => {
                assert(all =~= slice_views(found@));
                return found;
            },
        };
        let box_type: &[u8] = slice_subrange(segment_data, pos + 4, pos + 8);
        if same_bytes(box_type, &code) {
            let emsg_box: &'a [u8] = slice_subrange(segment_data, pos, end);
            let ghost before = slice_views(found@);
            found.push(emsg_box);
            proof {
                assert(slice_views(found@) =~= before + seq![emsg_box@]);
                let rest = emsg_boxes_from(segment_data@, end as int);
                assert(before + (seq![emsg_box@] + rest) =~= (before + seq![emsg_box@]) + rest);
            }
        }
        pos = end;
    }
    assert(all =~= slice_views(found@));
    found
}

fn is_vsi_exclusion_candidate(emsg_box: &[u8]) -> (r: bool)
    ensures
        r == is_vsi_candidate(emsg_box@),
{
    let start: usize = VSI_URI_OFFSET_IN_EMSG as usize;
    let scheme: &[u8] = VSI_SCHEME_ID_URI.as_bytes();
    if emsg_box.len() < start || emsg_box.len() - start < scheme.len() {
        return false;
    }
    same_bytes(slice_subrange(emsg_box, start, start + scheme.len()), scheme)
}

/// Picks the VSI candidates among `emsg` boxes.
fn select_candidates<'a>(boxes: &Vec<&'a [u8]>) -> (r: Vec<&'a [u8]>)
    ensures
        slice_views(r@) == slice_views(boxes@).filter(|b: Seq<u8>| is_vsi_candidate(b)),
{
    let ghost all = slice_views(boxes@);
    let ghost pred = |b: Seq<u8>| is_vsi_candidate(b);
    let mut picked: Vec<&'a [u8]> = Vec::new();
    let mut i: usize = 0;
    proof {
        reveal(Seq::filter);
        assert(all.take(0).filter(pred) =~= slice_views(picked@));
    }
    while i < boxes.len()
        invariant
            i <= boxes@.len(),
            all == slice_views(boxes@),
            pred == (|b: Seq<u8>| is_vsi_candidate(b)),
            slice_views(picked@) == all.take(i as int).filter(pred),
        decreases boxes@.len() - i,
    {
        let b: &'a [u8] = boxes[i];
        proof {
            reveal(Seq::filter);
            assert(all.take(i + 1).drop_last() =~= all.take(i as int));
            assert(all.take(i + 1).last() == b@);
        }
        if is_vsi_exclusion_candidate(b) {
            let ghost before = slice_views(picked@);
            picked.push(b);
            assert(slice_views(picked@) =~= before.push(b@));
        }
        i = i + 1;
    }
    assert(all.take(all.len() as int) =~= all);
    picked
}

/// Reads the body of an `emsg` box of version 0.
fn parse_emsg_v0_body(body: &[u8]) -> (r: Option<VsiEmsg>)
    ensures
        match event_of_body(body@) {
            None => r is None,
            Some(event) => r matches Some(e) && e@ == event,
        },
{
    let preamble: Vec<u8> = preamble_bytes();
    let n: usize = preamble.len();
    if !has_prefix(body, preamble.as_slice()) {
        return None;
    }
    if body.len() - n < 16 {
        return None;
    }
    let message: &[u8] = slice_subrange(body, n + 16, body.len());
    assert(message@ =~= body@.skip(n + 16));
    Some(
        VsiEmsg {
            message_data: to_vec(message),
            timescale: read_be32(body, n),
            presentation_time_delta: read_be32(body, n + 4),
            event_duration: read_be32(body, n + 8),
            id: read_be32(body, n + 12),
        },
    )
}

fn preamble_bytes() -> (r: Vec<u8>)
    ensures
        r@ == vsi_preamble(),
{
    let mut out: Vec<u8> = to_vec(VSI_SCHEME_ID_URI.as_bytes());
    out.push(0);
    push_bytes(&mut out, VSI_VALUE_FSEG.as_bytes());
    out.push(0);
    assert(out@ =~= vsi_preamble());
    out
}

/// Reads the event of one `emsg` box.
fn extract_vsi_from_emsg_box(emsg_box: &[u8]) -> (r: Option<VsiEmsg>)
    ensures
        match event_of_box(emsg_box@) {
            None => r is None,
            Some(event) => r matches Some(e) && e@ == event,
        },
{
    if emsg_box.len() < 4 {
        return None;
    }
    let header: usize = if read_be32(emsg_box, 0) == 1 {
        16
    } else {
        8
    };
    if emsg_box.len() < header + 4 {
        return None;
    }
    let zeros: [u8; 4] = [0, 0, 0, 0];
    proof {
        assert(zeros@ =~= seq![0u8, 0, 0, 0]);
    }
    if !same_bytes(slice_subrange(emsg_box, header, header + 4), &zeros) {
        return None;
    }
    let body: &[u8] = slice_subrange(emsg_box, header + 4, emsg_box.len());
    assert(body@ =~= emsg_box@.skip(header + 4));
    parse_emsg_v0_body(body)
}

/// Returns the VSI event of a segment, if there is one.
///
/// More than one candidate, or one that is malformed, is refused.
pub fn extract_vsi_emsg_from_segment(segment_data: &[u8]) -> (r: Result<Option<VsiEmsg>, Error>)
    ensures
        match vsi_event(segment_data@) {
            Err(failure) => r matches Err(e) && e@ == failure,
            Ok(None) => r matches Ok(None),
            Ok(Some(event)) => r matches Ok(Some(e)) && e@ == event,
        },
{
    let boxes = find_emsg_boxes(segment_data);
    let candidates = select_candidates(&boxes);
    assert(slice_views(candidates@).len() == candidates@.len());
    if candidates.len() > 1 {
        return Err(bad_param("segment contains multiple C2PA VSI emsg candidates"));
    }
    if candidates.len() == 0 {
        return Ok(None);
    }
    assert(slice_views(candidates@)[0] == candidates@[0]@);
    match extract_vsi_from_emsg_box(candidates[0]) {
        Some(event) => Ok(Some(event)),
        None => Err(bad_param("segment contains a malformed C2PA VSI emsg candidate")),
    }
}

/// Returns the tagged `COSE_Sign1` of the VSI event in a segment, if there is one.
pub fn extract_vsi_payload_from_segment(segment_data: &[u8]) -> (r: Option<Vec<u8>>)
    ensures
        match vsi_event(segment_data@) {
            Ok(Some(event)) => r matches Some(bytes) && bytes@ == event.message_data,
            _ => r is None,
        },
{
    match extract_vsi_emsg_from_segment(segment_data) {
        Ok(Some(event)) => Some(event.message_data),
        _ => None,
    }
}

/// Whether a segment holds an `emsg` box with the VSI scheme identifier.
pub fn contains_c2pa_vsi_scheme(segment_data: &[u8]) -> (r: bool)
    ensures
        r == (vsi_candidates(segment_data@).len() > 0),
{
    let boxes = find_emsg_boxes(segment_data);
    let candidates = select_candidates(&boxes);
    assert(slice_views(candidates@).len() == candidates@.len());
    candidates.len() > 0
}

// Writing the event message.

/// The body of the `emsg` box that carries an event, behind its version and flags.
pub open spec fn emsg_body(event: EmsgEvent) -> Seq<u8> {
    vsi_preamble() + be32(event.timescale) + be32(event.presentation_time_delta) + be32(
        event.event_duration,
    ) + be32(event.id) + event.message_data
}

/// The `emsg` box of version 0 that carries an event.
pub open spec fn emsg_box_bytes(event: EmsgEvent) -> Seq<u8> {
    be32((12 + emsg_body(event).len()) as u32) + BoxKind::Emsg.code() + seq![0u8, 0, 0, 0]
        + emsg_body(event)
}

/// The event that spans a segment from its start.
pub open spec fn segment_event(
    message_data: Seq<u8>,
    timescale: u32,
    event_duration: u32,
    id: u32,
) -> EmsgEvent {
    EmsgEvent { message_data, timescale, presentation_time_delta: 0, event_duration, id }
}

/// The `emsg` box for a `COSE_Sign1`, if it fits a 32-bit box size.
pub open spec fn built_emsg_box(event: EmsgEvent) -> Result<Seq<u8>, Failure> {
    if 12 + emsg_body(event).len() > usize::MAX {
        Err(Failure::BadParam("VSI emsg size overflow"@))
    } else if 12 + emsg_body(event).len() > u32::MAX {
        Err(Failure::BadParam("VSI emsg is too large for a 32-bit BMFF box"@))
    } else {
        Ok(emsg_box_bytes(event))
    }
}

/// Builds the `emsg` box that carries a `COSE_Sign1` for a whole segment.
pub fn build_emsg_box(cose_sign1_bytes: &[u8], timescale: u32, event_duration: u32, id: u32) -> (r:
    Result<Vec<u8>, Error>)
    ensures
        match built_emsg_box(segment_event(cose_sign1_bytes@, timescale, event_duration, id)) {
            Err(failure) => r matches Err(e) && e@ == failure,
            Ok(bytes) => r matches Ok(v) && v@ == bytes,
        },
{
    let ghost event = segment_event(cose_sign1_bytes@, timescale, event_duration, id);
    let mut body: Vec<u8> = preamble_bytes();
    push_be32(&mut body, timescale);
    push_be32(&mut body, 0);
    push_be32(&mut body, event_duration);
    push_be32(&mut body, id);
    push_bytes(&mut body, cose_sign1_bytes);
    assert(body@ == emsg_body(event));

    if body.len() > usize::MAX - 12 {
        return Err(bad_param("VSI emsg size overflow"));
    }
    let total: usize = 12 + body.len();
    if total > u32::MAX as usize {
        return Err(bad_param("VSI emsg is too large for a 32-bit BMFF box"));
    }
    let mut emsg: Vec<u8> = Vec::new();
    push_be32(&mut emsg, total as u32);
    let code: [u8; 4] = BoxKind::Emsg.bytes();
    push_bytes(&mut emsg, &code);
    let zeros: [u8; 4] = [0, 0, 0, 0];
    push_bytes(&mut emsg, &zeros);
    push_bytes(&mut emsg, body.as_slice());
    assert(emsg@ =~= emsg_box_bytes(event));
    Ok(emsg)
}

} // verus!
