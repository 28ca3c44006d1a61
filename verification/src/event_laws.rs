//! That the event of Verifiable Segment Info is read as it is written, and that nothing else is read.

use vstd::prelude::*;
use vstd::utf8::is_ascii_chars_encode_utf8;

use crate::bmff::{box_at, box_extent};
use crate::bmff_faults::BoxKind;
use crate::bmff_laws::{first_box_is_read, number_is_read, number_is_written};
use crate::bmff_writing::{holds_run, is_run, run_bytes, word, SizeForm, WrittenBox};
use crate::bytes::be32_at;
use crate::emsg_laws::{emsg_boxes_shift, vsi_preamble_len};
use crate::error::{Error, Failure};
use crate::filter_laws::{
    nothing_is_picked, only_at, only_item_is_picked, picked_item_is_the_only_one,
};
use crate::verifiable_segment_info::{
    emsg_boxes_from, event_of_body, event_of_box, is_vsi_candidate, vsi_candidates, vsi_event,
    vsi_preamble, vsi_scheme, EmsgEvent, VsiEmsg,
};

verus! {

/// The bytes of the scheme identifier `urn:c2pa:verifiable-segment-info`.
pub open spec fn scheme_bytes() -> Seq<u8> {
    seq![
        0x75u8, 0x72u8, 0x6eu8, 0x3au8, 0x63u8, 0x32u8, 0x70u8, 0x61u8, 0x3au8, 0x76u8, 0x65u8,
        0x72u8, 0x69u8, 0x66u8, 0x69u8, 0x61u8, 0x62u8, 0x6cu8, 0x65u8, 0x2du8, 0x73u8, 0x65u8,
        0x67u8, 0x6du8, 0x65u8, 0x6eu8, 0x74u8, 0x2du8, 0x69u8, 0x6eu8, 0x66u8, 0x6fu8,
    ]
}

/// The bytes of the value `fseg`, ended by a zero like the identifier before it.
pub open spec fn value_bytes() -> Seq<u8> {
    seq![0u8, 0x66u8, 0x73u8, 0x65u8, 0x67u8, 0u8]
}

/// The payload of the event message box that carries an event: version zero without flags, the two
/// texts, the four numbers, and the message.
pub open spec fn event_payload(event: EmsgEvent) -> Seq<u8> {
    seq![0u8, 0u8, 0u8, 0u8] + scheme_bytes() + value_bytes() + word(event.timescale) + word(
        event.presentation_time_delta,
    ) + word(event.event_duration) + word(event.id) + event.message_data
}

/// Whether a box is an event message with the scheme identifier at its twelfth byte.
pub open spec fn announces_info(b: WrittenBox) -> bool {
    &&& b.code == seq![0x65u8, 0x6du8, 0x73u8, 0x67u8]
    &&& b.bytes().len() >= 44
    &&& b.bytes().subrange(12, 44) == scheme_bytes()
}

/// Whether a box carries an event.
pub open spec fn carries_event(b: WrittenBox, event: EmsgEvent) -> bool {
    &&& b.form !is Large
    &&& b.payload == event_payload(event)
}

/// Whether exactly one box of a run announces Verifiable Segment Info: that at `k`.
pub open spec fn only_info(boxes: Seq<WrittenBox>, k: int) -> bool {
    &&& 0 <= k < boxes.len()
    &&& announces_info(boxes[k])
    &&& forall|j: int| 0 <= j < boxes.len() && j != k ==> !announces_info(#[trigger] boxes[j])
}

/// The texts of the event message are what they are.
pub proof fn texts_are_bytes()
    ensures
        vsi_scheme() == scheme_bytes(),
        vsi_preamble() == scheme_bytes() + value_bytes(),
        vsi_scheme().len() == 32,
{
    vsi_preamble_len();
    reveal_strlit("urn:c2pa:verifiable-segment-info");
    reveal_strlit("fseg");
    is_ascii_chars_encode_utf8("urn:c2pa:verifiable-segment-info"@);
    is_ascii_chars_encode_utf8("fseg"@);
    assert(vsi_scheme() =~= scheme_bytes());
    assert(vsi_preamble() =~= scheme_bytes() + value_bytes());
}

/// The test that picks the boxes which announce Verifiable Segment Info.
spec fn announcing() -> spec_fn(WrittenBox) -> bool {
    |b: WrittenBox| announces_info(b)
}

/// The test that picks the event message boxes with the scheme identifier.
spec fn candidate() -> spec_fn(Seq<u8>) -> bool {
    |b: Seq<u8>| is_vsi_candidate(b)
}

/// The bytes of the event message boxes of a run, in order.
spec fn emsg_of(boxes: Seq<WrittenBox>) -> Seq<Seq<u8>>
    decreases boxes.len(),
{
    if boxes.len() == 0 {
        Seq::empty()
    } else if boxes[0].code == BoxKind::Emsg.code() {
        seq![boxes[0].bytes()] + emsg_of(boxes.skip(1))
    } else {
        emsg_of(boxes.skip(1))
    }
}

/// The bytes of boxes.
spec fn all_bytes(boxes: Seq<WrittenBox>) -> Seq<Seq<u8>> {
    Seq::new(boxes.len(), |i: int| boxes[i].bytes())
}

/// What stands behind the first box of a run is a run.
proof fn rest_is_run(boxes: Seq<WrittenBox>)
    requires
        is_run(boxes),
        boxes.len() > 0,
    ensures
        is_run(boxes.skip(1)),
        boxes[0].form is ToEnd ==> boxes.skip(1).len() == 0,
{
    let rest = boxes.skip(1);
    assert forall|i: int| 0 <= i < rest.len() implies (#[trigger] rest[i]).fits() by {
        assert(boxes[i + 1].fits());
    }
    assert forall|i: int| 0 <= i < rest.len() - 1 implies (#[trigger] rest[i]).form !is ToEnd by {
        assert(boxes[i + 1].form !is ToEnd);
    }
}

/// The event message boxes of a run are found.
proof fn emsg_boxes_are_found(boxes: Seq<WrittenBox>)
    requires
        is_run(boxes),
        run_bytes(boxes).len() <= usize::MAX,
    ensures
        emsg_boxes_from(run_bytes(boxes), 0) == emsg_of(boxes),
    decreases boxes.len(),
{
    if boxes.len() > 0 {
        let b = boxes[0];
        let rest = boxes.skip(1);
        let data = run_bytes(boxes);
        rest_is_run(boxes);
        if b.form is ToEnd {
            assert(run_bytes(rest) =~= Seq::<u8>::empty());
        }
        first_box_is_read(b, run_bytes(rest));
        emsg_boxes_are_found(rest);
        emsg_boxes_shift(b.bytes(), run_bytes(rest), 0);
        let end = b.bytes().len() as int;
        let header = box_extent(data, 0)->Ok_0.0;
        assert(box_at(data, 0, header, end).code == data.subrange(4, 8));
        assert(data.subrange(0, end) =~= b.bytes());
    }
}

/// What a test picks of one item.
proof fn picked_of_one<A>(item: A, test: spec_fn(A) -> bool)
    ensures
        seq![item].filter(test) == if test(item) {
            seq![item]
        } else {
            Seq::<A>::empty()
        },
{
    reveal(Seq::filter);
    assert(seq![item].drop_last() =~= Seq::<A>::empty());
    assert(Seq::<A>::empty().filter(test) =~= Seq::<A>::empty());
    assert(seq![item].filter(test) =~= if test(item) {
        seq![item]
    } else {
        Seq::<A>::empty()
    });
}

/// The candidates of a run are the boxes that announce Verifiable Segment Info.
proof fn candidates_are_those_that_announce(boxes: Seq<WrittenBox>)
    ensures
        emsg_of(boxes).filter(candidate()) == all_bytes(boxes.filter(announcing())),
    decreases boxes.len(),
{
    texts_are_bytes();
    if boxes.len() == 0 {
        reveal(Seq::filter);
        assert(emsg_of(boxes).filter(candidate()) =~= all_bytes(boxes.filter(announcing())));
    } else {
        let b = boxes[0];
        let rest = boxes.skip(1);
        candidates_are_those_that_announce(rest);
        assert(boxes =~= seq![b] + rest);
        Seq::filter_distributes_over_add(seq![b], rest, announcing());
        picked_of_one(b, announcing());
        if b.code == BoxKind::Emsg.code() {
            Seq::filter_distributes_over_add(seq![b.bytes()], emsg_of(rest), candidate());
            picked_of_one(b.bytes(), candidate());
            assert(candidate()(b.bytes()) == announcing()(b));
        }
        assert(emsg_of(boxes).filter(candidate()) =~= all_bytes(boxes.filter(announcing())));
    }
}

/// The header of a box of one of the short forms is eight bytes long and does not say one.
proof fn short_form_has_short_header(b: WrittenBox)
    requires
        b.fits(),
        b.form !is Large,
    ensures
        b.bytes().len() == 8 + b.payload.len(),
        be32_at(b.bytes(), 0) != 1,
        b.bytes().skip(8) == b.payload,
{
    let size = if b.form is Compact {
        (8 + b.payload.len()) as u32
    } else {
        0u32
    };
    number_is_read(Seq::empty(), size, b.code + b.payload);
    assert(b.bytes() =~= Seq::<u8>::empty() + word(size) + (b.code + b.payload));
    assert(b.bytes().skip(8) =~= b.payload);
}

/// A box of the long form that announces Verifiable Segment Info carries no event.
proof fn long_form_carries_nothing(b: WrittenBox)
    requires
        b.fits(),
        b.form is Large,
        announces_info(b),
    ensures
        event_of_box(b.bytes()) is None,
{
    let size = 16 + b.payload.len();
    let high = (size / 0x1_0000_0000) as u32;
    let low = (size % 0x1_0000_0000) as u32;
    let behind = b.code + word(high) + word(low) + b.payload;
    number_is_read(Seq::empty(), 1, behind);
    assert(b.bytes() =~= Seq::<u8>::empty() + word(1) + behind);
    assert(b.bytes().subrange(12, 44)[4] == scheme_bytes()[4]);
    assert(b.bytes().subrange(16, 20)[0] == b.bytes()[16]);
    assert(b.bytes()[16] != 0);
}

/// The event in a body is read exactly if it was written.
proof fn body_is_read_exactly_as_written(body: Seq<u8>, event: EmsgEvent)
    ensures
        event_of_body(body) == Some(event) <==> body == scheme_bytes() + value_bytes() + word(
            event.timescale,
        ) + word(event.presentation_time_delta) + word(event.event_duration) + word(event.id)
            + event.message_data,
{
    texts_are_bytes();
    let start = scheme_bytes() + value_bytes();
    assert(start.len() == 38);
    let a = word(event.timescale);
    let b = word(event.presentation_time_delta);
    let c = word(event.event_duration);
    let d = word(event.id);
    let tail = event.message_data;
    let written = start + a + b + c + d + tail;
    if event_of_body(body) == Some(event) {
        number_is_written(body, 38);
        number_is_written(body, 42);
        number_is_written(body, 46);
        number_is_written(body, 50);
        assert(body.take(38) == start);
        assert(body =~= body.take(38) + body.subrange(38, 42) + body.subrange(42, 46)
            + body.subrange(46, 50) + body.subrange(50, 54) + body.skip(54));
        assert(written =~= body);
    }
    if body == written {
        number_is_read(start, event.timescale, b + c + d + tail);
        assert(written =~= start + a + (b + c + d + tail));
        number_is_read(start + a, event.presentation_time_delta, c + d + tail);
        assert(written =~= (start + a) + b + (c + d + tail));
        number_is_read(start + a + b, event.event_duration, d + tail);
        assert(written =~= (start + a + b) + c + (d + tail));
        number_is_read(start + a + b + c, event.id, tail);
        assert(body.take(38) =~= start);
        assert(body.skip(54) =~= tail);
    }
}

/// The event in a box that announces one is read exactly if it was written.
proof fn box_is_read_exactly_as_written(b: WrittenBox, event: EmsgEvent)
    requires
        b.fits(),
        announces_info(b),
    ensures
        event_of_box(b.bytes()) == Some(event) <==> carries_event(b, event),
{
    if b.form is Large {
        long_form_carries_nothing(b);
    } else {
        short_form_has_short_header(b);
        let bytes = b.bytes();
        let zeros = seq![0u8, 0u8, 0u8, 0u8];
        let body = bytes.skip(12);
        assert(bytes.subrange(8, 12) =~= b.payload.take(4));
        assert(body =~= b.payload.skip(4));
        assert(b.payload =~= b.payload.take(4) + b.payload.skip(4));
        body_is_read_exactly_as_written(body, event);
        let written = scheme_bytes() + value_bytes() + word(event.timescale) + word(
            event.presentation_time_delta,
        ) + word(event.event_duration) + word(event.id) + event.message_data;
        assert(event_payload(event) =~= zeros + written);
        if carries_event(b, event) {
            assert(b.payload.take(4) =~= zeros);
            assert(b.payload.skip(4) =~= written);
        }
        if event_of_box(bytes) == Some(event) {
            assert(b.payload =~= zeros + written);
        }
    }
}

/// The boxes that are picked are boxes of the run.
proof fn info_is_picked(boxes: Seq<WrittenBox>)
    ensures
        boxes.filter(announcing()).len() == 0 <==> forall|j: int|
            0 <= j < boxes.len() ==> !announces_info(#[trigger] boxes[j]),
        forall|k: int| #[trigger]
            only_info(boxes, k) ==> boxes.filter(announcing()) == seq![boxes[k]],
        boxes.filter(announcing()).len() == 1 ==> exists|k: int| #[trigger] only_info(boxes, k),
{
    let test = announcing();
    nothing_is_picked(boxes, test);
    if boxes.filter(test).len() == 0 {
        assert forall|j: int| 0 <= j < boxes.len() implies !announces_info(#[trigger] boxes[j]) by {
            assert(!test(boxes[j]));
        }
    }
    if forall|j: int| 0 <= j < boxes.len() ==> !announces_info(#[trigger] boxes[j]) {
        assert forall|j: int| 0 <= j < boxes.len() implies !test(#[trigger] boxes[j]) by {
            assert(!announces_info(boxes[j]));
        }
    }
    assert forall|k: int| #[trigger] only_info(boxes, k) implies boxes.filter(test)
        == seq![boxes[k]] by {
        assert forall|j: int| 0 <= j < boxes.len() && j != k implies !test(#[trigger] boxes[j]) by {
            assert(!announces_info(boxes[j]));
        }
        assert(only_at(boxes, test, k));
        only_item_is_picked(boxes, test, k);
    }
    if boxes.filter(test).len() == 1 {
        let k = picked_item_is_the_only_one(boxes, test);
        assert forall|j: int| 0 <= j < boxes.len() && j != k implies !announces_info(
            #[trigger] boxes[j],
        ) by {
            assert(!test(boxes[j]));
        }
        assert(only_info(boxes, k));
    }
}

/// The event of a run of boxes, by the boxes.
proof fn event_of_run(data: Seq<u8>, boxes: Seq<WrittenBox>)
    requires
        data.len() <= usize::MAX,
        holds_run(data, boxes),
    ensures
        vsi_candidates(data).len() == 0 <==> forall|j: int|
            0 <= j < boxes.len() ==> !announces_info(#[trigger] boxes[j]),
        vsi_event(data) == Ok::<Option<EmsgEvent>, Failure>(None) <==> forall|j: int|
            0 <= j < boxes.len() ==> !announces_info(#[trigger] boxes[j]),
        forall|event: EmsgEvent|
            #![trigger event_payload(event)]
            vsi_event(data) == Ok::<Option<EmsgEvent>, Failure>(Some(event)) <==> exists|k: int|
                #[trigger] only_info(boxes, k) && carries_event(boxes[k], event),
{
    emsg_boxes_are_found(boxes);
    candidates_are_those_that_announce(boxes);
    info_is_picked(boxes);
    let picked = boxes.filter(announcing());
    assert(candidate() =~= (|b: Seq<u8>| is_vsi_candidate(b)));
    assert(vsi_candidates(data) == all_bytes(picked));
    assert(all_bytes(picked).len() == picked.len());
    assert forall|event: EmsgEvent| #![trigger event_payload(event)] vsi_event(data) == Ok::<
        Option<EmsgEvent>,
        Failure,
    >(Some(event)) <==> exists|k: int| #[trigger]
        only_info(boxes, k) && carries_event(boxes[k], event) by {
        if vsi_event(data) == Ok::<Option<EmsgEvent>, Failure>(Some(event)) {
            let k = choose|k: int| #[trigger] only_info(boxes, k);
            assert(picked == seq![boxes[k]]);
            assert(all_bytes(picked)[0] == boxes[k].bytes());
            assert(boxes[k].fits());
            box_is_read_exactly_as_written(boxes[k], event);
        }
        if exists|k: int| #[trigger] only_info(boxes, k) && carries_event(boxes[k], event) {
            let k = choose|k: int| #[trigger]
                only_info(boxes, k) && carries_event(boxes[k], event);
            assert(picked == seq![boxes[k]]);
            assert(all_bytes(picked)[0] == boxes[k].bytes());
            assert(boxes[k].fits());
            box_is_read_exactly_as_written(boxes[k], event);
        }
    }
}

/// The event of a segment is read exactly as it was written: there is none where no box announces
/// Verifiable Segment Info; there is one where exactly one box does, and it is the event that the box
/// carries; and everything else is refused.
pub proof fn event_is_read_exactly_as_written(
    data: &[u8],
    r: Result<Option<VsiEmsg>, Error>,
    boxes: Seq<WrittenBox>,
)
    requires
        call_ensures(crate::verifiable_segment_info::extract_vsi_emsg_from_segment, (data,), r),
        holds_run(data@, boxes),
    ensures
        r is Ok && r->Ok_0 is None <==> forall|j: int|
            0 <= j < boxes.len() ==> !announces_info(#[trigger] boxes[j]),
        r is Ok && r->Ok_0 is Some ==> exists|k: int| #[trigger]
            only_info(boxes, k) && carries_event(boxes[k], r->Ok_0->Some_0@),
        forall|k: int, event: EmsgEvent|
            #![trigger only_info(boxes, k), event_payload(event)]
            only_info(boxes, k) && carries_event(boxes[k], event) ==> r is Ok && r->Ok_0 is Some
                && r->Ok_0->Some_0@ == event,
{
    assert(data@.len() == data.len());
    event_of_run(data@, boxes);
    if r is Ok && r->Ok_0 is Some {
        let event = r->Ok_0->Some_0@;
        let payload = event_payload(event);
        assert(vsi_event(data@) == Ok::<Option<EmsgEvent>, Failure>(Some(event)));
    }
    assert forall|k: int, event: EmsgEvent|
        #![trigger only_info(boxes, k), event_payload(event)]
        only_info(boxes, k) && carries_event(boxes[k], event) implies r is Ok && r->Ok_0 is Some
        && r->Ok_0->Some_0@ == event by {
        assert(vsi_event(data@) == Ok::<Option<EmsgEvent>, Failure>(Some(event)));
    }
}

/// A segment is said to carry Verifiable Segment Info exactly if one of its boxes announces it.
pub proof fn info_is_found_exactly_if_announced(data: &[u8], r: bool, boxes: Seq<WrittenBox>)
    requires
        call_ensures(crate::verifiable_segment_info::contains_c2pa_vsi_scheme, (data,), r),
        holds_run(data@, boxes),
    ensures
        r <==> exists|j: int| 0 <= j < boxes.len() && announces_info(#[trigger] boxes[j]),
{
    assert(data@.len() == data.len());
    event_of_run(data@, boxes);
}

/// The message of a segment is that of its event, and there is none where there is no event.
pub proof fn message_is_that_of_the_event(
    data: &[u8],
    event: Result<Option<VsiEmsg>, Error>,
    r: Option<Vec<u8>>,
)
    requires
        call_ensures(crate::verifiable_segment_info::extract_vsi_emsg_from_segment, (data,), event),
        call_ensures(crate::verifiable_segment_info::extract_vsi_payload_from_segment, (data,), r),
    ensures
        r is Some <==> event is Ok && event->Ok_0 is Some,
        r is Some ==> r->Some_0@ == event->Ok_0->Some_0@.message_data,
{
}

/// The box of an event is written with its size, and can be built exactly if the size fits four bytes.
pub proof fn event_box_is_written(message: Seq<u8>, timescale: u32, duration: u32, id: u32)
    ensures
        ({
            let event = EmsgEvent {
                message_data: message,
                timescale,
                presentation_time_delta: 0,
                event_duration: duration,
                id,
            };
            let built = crate::verifiable_segment_info::built_emsg_box(event);
            &&& built is Ok <==> 66 + message.len() <= u32::MAX && 66 + message.len() <= usize::MAX
            &&& built is Ok ==> built->Ok_0 == (WrittenBox {
                code: seq![0x65u8, 0x6du8, 0x73u8, 0x67u8],
                payload: event_payload(event),
                form: SizeForm::Compact,
            }).bytes() && built->Ok_0.len() == 66 + message.len()
        }),
{
    reveal(word);
    texts_are_bytes();
    let event = EmsgEvent {
        message_data: message,
        timescale,
        presentation_time_delta: 0,
        event_duration: duration,
        id,
    };
    let built = crate::verifiable_segment_info::built_emsg_box(event);
    let body = crate::verifiable_segment_info::emsg_body(event);
    assert(body.len() == 54 + message.len());
    if built is Ok {
        let code = seq![0x65u8, 0x6du8, 0x73u8, 0x67u8];
        let b = WrittenBox { code, payload: event_payload(event), form: SizeForm::Compact };
        assert(event_payload(event) =~= seq![0u8, 0u8, 0u8, 0u8] + body);
        assert(built->Ok_0 =~= b.bytes());
    }
}

/// The box that is built for a message is an event message box of version zero with its size, the two
/// texts, the given timescale, no delay, the given duration and identifier, and the message; it is
/// built exactly if its size fits four bytes.
pub proof fn built_box_carries_the_event(
    message: &[u8],
    timescale: u32,
    duration: u32,
    id: u32,
    r: Result<Vec<u8>, Error>,
)
    requires
        call_ensures(
            crate::verifiable_segment_info::build_emsg_box,
            (message, timescale, duration, id),
            r,
        ),
    ensures
        r is Ok <==> 66 + message@.len() <= u32::MAX && 66 + message@.len() <= usize::MAX,
        r is Ok ==> r->Ok_0@ == (WrittenBox {
            code: seq![0x65u8, 0x6du8, 0x73u8, 0x67u8],
            payload: event_payload(
                EmsgEvent {
                    message_data: message@,
                    timescale,
                    presentation_time_delta: 0,
                    event_duration: duration,
                    id,
                },
            ),
            form: SizeForm::Compact,
        }).bytes(),
{
    event_box_is_written(message@, timescale, duration, id);
}

} // verus!
