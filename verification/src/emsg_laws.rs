//! What a media segment keeps when an event message is put in front of it.

use vstd::prelude::*;
use vstd::utf8::is_ascii_chars_encode_utf8;

use crate::bmff::{
    box_at, box_extent, boxes_from, has_kind, media_info, media_sequence_number, of_kind,
    sole_moof, BoxView,
};
use crate::bmff_faults::{BoxKind, HeaderFault};
use crate::bytes::{be32, be32_at, be32_round_trip};
use crate::error::Failure;
use crate::verifiable_segment_info::{
    emsg_body, emsg_box_bytes, emsg_boxes_from, event_of_body, event_of_box, is_vsi_candidate,
    vsi_candidates, vsi_event, vsi_preamble, vsi_scheme, EmsgEvent, VSI_SCHEME_ID_URI,
    VSI_VALUE_FSEG,
};

verus! {

/// A box keeps its header and its length when bytes are put in front of the run it stands in.
pub proof fn box_extent_shift(front: Seq<u8>, rest: Seq<u8>, pos: int)
    requires
        0 <= pos < rest.len(),
        front.len() + rest.len() <= usize::MAX,
    ensures
        match box_extent(rest, pos) {
            Err(_) => box_extent(front + rest, front.len() + pos) is Err,
            Ok((header, end)) => box_extent(front + rest, front.len() + pos) == Ok::<
                (int, int),
                HeaderFault,
            >((header, front.len() + end)),
        },
{
    let all = front + rest;
    let n = front.len() as int;
    assert forall|i: int| 0 <= i < rest.len() implies all[n + i] == rest[i] by {}
    if pos + 4 <= rest.len() {
        assert(be32_at(all, n + pos) == be32_at(rest, pos));
    }
    if pos + 16 <= rest.len() {
        assert(be32_at(all, n + pos + 8) == be32_at(rest, pos + 8));
        assert(be32_at(all, n + pos + 12) == be32_at(rest, pos + 12));
    }
}

/// A run of boxes stays the same run when bytes are put in front of it.
pub proof fn boxes_from_shift(front: Seq<u8>, rest: Seq<u8>, pos: int)
    requires
        0 <= pos <= rest.len(),
        front.len() + rest.len() <= usize::MAX,
    ensures
        match boxes_from(rest, pos) {
            Err(_) => boxes_from(front + rest, front.len() + pos) is Err,
            Ok(boxes) => boxes_from(front + rest, front.len() + pos) matches Ok(b) && b == boxes,
        },
    decreases rest.len() - pos,
{
    let all = front + rest;
    let n = front.len() as int;
    if pos < rest.len() {
        box_extent_shift(front, rest, pos);
        match box_extent(rest, pos) {
            Err(_) => {},
            Ok((header, end)) => {
                boxes_from_shift(front, rest, end);
                assert(all.subrange(n + pos + 4, n + pos + 8) =~= rest.subrange(pos + 4, pos + 8));
                assert(all.subrange(n + pos + header, n + end) =~= rest.subrange(
                    pos + header,
                    end,
                ));
                assert(box_at(all, n + pos, header, n + end) == box_at(rest, pos, header, end));
            },
        }
    }
}

/// The `emsg` boxes of a run stay the same when bytes are put in front of it.
pub proof fn emsg_boxes_shift(front: Seq<u8>, rest: Seq<u8>, pos: int)
    requires
        0 <= pos <= rest.len(),
        front.len() + rest.len() <= usize::MAX,
    ensures
        emsg_boxes_from(front + rest, front.len() + pos) == emsg_boxes_from(rest, pos),
    decreases rest.len() - pos,
{
    let all = front + rest;
    let n = front.len() as int;
    if pos < rest.len() {
        box_extent_shift(front, rest, pos);
        match box_extent(rest, pos) {
            Err(_) => {},
            Ok((header, end)) => {
                emsg_boxes_shift(front, rest, end);
                assert(all.subrange(n + pos + 4, n + pos + 8) =~= rest.subrange(pos + 4, pos + 8));
                assert(all.subrange(n + pos, n + end) =~= rest.subrange(pos, end));
            },
        }
    }
}

/// The two strings of the event message take 38 bytes, the scheme identifier 32 of them.
pub proof fn vsi_preamble_len()
    ensures
        vsi_scheme().len() == 32,
        vsi_preamble().len() == 38,
{
    reveal_strlit("urn:c2pa:verifiable-segment-info");
    reveal_strlit("fseg");
    is_ascii_chars_encode_utf8(VSI_SCHEME_ID_URI@);
    is_ascii_chars_encode_utf8(VSI_VALUE_FSEG@);
}

/// Reading the body that was built for an event gives the event back.
proof fn emsg_body_round_trip(event: EmsgEvent)
    ensures
        event_of_body(emsg_body(event)) == Some(event),
        emsg_body(event).take(32) == vsi_scheme(),
        emsg_body(event).len() == 54 + event.message_data.len(),
{
    vsi_preamble_len();
    let start = vsi_preamble();
    let timing = be32(event.timescale) + be32(event.presentation_time_delta) + be32(
        event.event_duration,
    ) + be32(event.id);
    let body = emsg_body(event);
    assert(body =~= start + timing + event.message_data);
    assert(timing.len() == 16);
    be32_round_trip(event.timescale);
    be32_round_trip(event.presentation_time_delta);
    be32_round_trip(event.event_duration);
    be32_round_trip(event.id);
    assert(be32_at(timing, 0) == event.timescale);
    assert(be32_at(timing, 4) == event.presentation_time_delta);
    assert(be32_at(timing, 8) == event.event_duration);
    assert(be32_at(timing, 12) == event.id);
    assert forall|i: int| 0 <= i < 16 implies body[38 + i] == timing[i] by {}
    assert(body.take(38) =~= start);
    assert(body.take(32) =~= start.take(32));
    assert(start.take(32) =~= vsi_scheme());
    assert(body.skip(54) =~= event.message_data);
}

/// Reading the `emsg` box that was built for an event gives the event back.
pub proof fn emsg_round_trip(event: EmsgEvent)
    requires
        12 + emsg_body(event).len() <= u32::MAX,
    ensures
        is_vsi_candidate(emsg_box_bytes(event)),
        event_of_box(emsg_box_bytes(event)) == Some(event),
{
    emsg_body_round_trip(event);
    vsi_preamble_len();
    let body = emsg_body(event);
    let size = (12 + body.len()) as u32;
    let head = be32(size) + BoxKind::Emsg.code() + seq![0u8, 0, 0, 0];
    let bytes = emsg_box_bytes(event);
    assert(bytes == head + body);
    be32_round_trip(size);
    assert(be32_at(bytes, 0) == be32_at(be32(size), 0));
    assert(bytes.subrange(8, 12) =~= seq![0u8, 0, 0, 0]);
    assert(bytes.skip(12) =~= body);
    assert(bytes.subrange(12, 44) =~= body.take(32));
}

/// The built `emsg` box is the first box of the segment that it is put in front of.
proof fn emsg_box_comes_first(event: EmsgEvent, segment: Seq<u8>)
    requires
        12 + emsg_body(event).len() <= u32::MAX,
        emsg_box_bytes(event).len() + segment.len() <= usize::MAX,
    ensures
        ({
            let front = emsg_box_bytes(event);
            let all = front + segment;
            &&& front.len() >= 12
            &&& box_extent(all, 0) == Ok::<(int, int), HeaderFault>(
                (8, front.len() as int),
            )
            &&& all.subrange(4, 8) == BoxKind::Emsg.code()
            &&& all.subrange(0, front.len() as int) == front
        }),
{
    let front = emsg_box_bytes(event);
    let all = front + segment;
    let size = (12 + emsg_body(event).len()) as u32;
    be32_round_trip(size);
    assert(be32_at(all, 0) == be32_at(be32(size), 0));
    assert(all.subrange(4, 8) =~= BoxKind::Emsg.code());
    assert(all.subrange(0, front.len() as int) =~= front);
}

/// A segment that held no VSI candidate holds exactly the built one once it is put in front.
pub proof fn prepended_event_is_sole_candidate(event: EmsgEvent, segment: Seq<u8>)
    requires
        12 + emsg_body(event).len() <= u32::MAX,
        emsg_box_bytes(event).len() + segment.len() <= usize::MAX,
        vsi_candidates(segment).len() == 0,
    ensures
        vsi_candidates(emsg_box_bytes(event) + segment) == seq![emsg_box_bytes(event)],
{
    let front = emsg_box_bytes(event);
    let all = front + segment;
    let pred = |b: Seq<u8>| is_vsi_candidate(b);
    emsg_box_comes_first(event, segment);
    emsg_boxes_shift(front, segment, 0);
    emsg_round_trip(event);
    let rest = emsg_boxes_from(segment, 0);
    assert(emsg_boxes_from(all, 0) == seq![front] + rest);
    Seq::filter_distributes_over_add(seq![front], rest, pred);
    assert(seq![front].filter(pred) =~= seq![front]) by {
        reveal(Seq::filter);
        assert(seq![front].drop_last() =~= Seq::<Seq<u8>>::empty());
        assert(Seq::<Seq<u8>>::empty().filter(pred) =~= Seq::<Seq<u8>>::empty());
    }
    assert(rest.filter(pred) =~= Seq::<Seq<u8>>::empty());
}

/// The event that was put in front of a segment without a VSI candidate is the event that is
/// read back from it.
pub proof fn prepended_event_is_read_back(event: EmsgEvent, segment: Seq<u8>)
    requires
        12 + emsg_body(event).len() <= u32::MAX,
        emsg_box_bytes(event).len() + segment.len() <= usize::MAX,
        vsi_candidates(segment).len() == 0,
    ensures
        vsi_event(emsg_box_bytes(event) + segment) == Ok::<
            Option<EmsgEvent>,
            Failure,
        >(Some(event)),
{
    prepended_event_is_sole_candidate(event, segment);
    emsg_round_trip(event);
}

/// A box of another type in front of a run leaves the movie fragments of the run as they are.
proof fn other_box_keeps_fragments(first: BoxView, boxes: Seq<BoxView>)
    requires
        first.code == BoxKind::Emsg.code(),
    ensures
        of_kind(seq![first] + boxes, BoxKind::Moof) == of_kind(boxes, BoxKind::Moof),
{
    let pred = has_kind(BoxKind::Moof);
    let none = Seq::<BoxView>::empty();
    assert(first.code[0] != BoxKind::Moof.code()[0]);
    assert(seq![first].filter(pred) == none) by {
        reveal(Seq::filter);
        assert(seq![first].drop_last() =~= none);
        assert(none.filter(pred) =~= none);
    }
    Seq::filter_distributes_over_add(seq![first], boxes, pred);
    assert(none + boxes.filter(pred) =~= boxes.filter(pred));
}

/// The movie fragment of a segment is that of the segment with an event message in front.
proof fn prepended_event_keeps_fragment(event: EmsgEvent, segment: Seq<u8>)
    requires
        12 + emsg_body(event).len() <= u32::MAX,
        emsg_box_bytes(event).len() + segment.len() <= usize::MAX,
    ensures
        match boxes_from(segment, 0) {
            Err(_) => boxes_from(emsg_box_bytes(event) + segment, 0) is Err,
            Ok(_) => sole_moof(emsg_box_bytes(event) + segment) == sole_moof(segment),
        },
{
    let front = emsg_box_bytes(event);
    let all = front + segment;
    emsg_box_comes_first(event, segment);
    boxes_from_shift(front, segment, 0);
    match boxes_from(segment, 0) {
        Err(_) => {},
        Ok(boxes) => {
            other_box_keeps_fragments(box_at(all, 0, 8, front.len() as int), boxes);
        },
    }
}

/// An event message in front of a media segment changes neither the timing that the parser reads
/// from the segment, nor that it is refused, nor the number that is read from it.
pub proof fn prepended_event_keeps_timing(
    event: EmsgEvent,
    segment: Seq<u8>,
    init_default: Option<u32>,
)
    requires
        12 + emsg_body(event).len() <= u32::MAX,
        emsg_box_bytes(event).len() + segment.len() <= usize::MAX,
    ensures
        media_info(segment, init_default) is Ok ==> media_info(
            emsg_box_bytes(event) + segment,
            init_default,
        ) == media_info(segment, init_default),
        media_info(segment, init_default) is Err ==> media_info(
            emsg_box_bytes(event) + segment,
            init_default,
        ) is Err,
        media_sequence_number(emsg_box_bytes(event) + segment) == media_sequence_number(segment),
{
    prepended_event_keeps_fragment(event, segment);
}

} // verus!
