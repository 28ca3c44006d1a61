//! That boxes are read as they are written, and that nothing else is read.

use vstd::arithmetic::div_mod::lemma_fundamental_div_mod_converse;
use vstd::prelude::*;

use crate::bmff::{
    after_field, box_at, box_extent, boxes_from, dated_field, full_box_of, mfhd_sequence_number,
    sample_duration, sample_total, sample_width, tfhd_defaults, tfhd_duration, tfhd_duration_pos,
    tfhd_end, tfhd_optional, trex_defaults, trun_duration, trun_samples, trun_table, BoxView,
    TFHD_ALLOWED_FLAGS, TFHD_DURATION_IS_EMPTY, TRUN_ALLOWED_FLAGS,
};
use crate::bmff_faults::{BoxKind, Container, Field, HeaderFault};
use crate::bmff_writing::{
    bit_for, contents, dated_bytes, dates_fit, entry, full_header, holds_run, is_run, mfhd_bytes,
    optional, run_bytes, sum, trex_bytes, word, SizeForm, TfhdBox, TrunBox, WrittenBox,
};
use crate::bytes::{be32, be32_at, be32_round_trip, be64_at};
use crate::emsg_laws::boxes_from_shift;
use crate::error::Failure;

verus! {

// Numbers.

/// A number in the middle of bytes is read as it was written.
pub proof fn number_is_read(front: Seq<u8>, x: u32, back: Seq<u8>)
    ensures
        word(x).len() == 4,
        be32_at(front + word(x) + back, front.len() as int) == x,
{
    reveal(word);
    be32_round_trip(x);
    let all = front + word(x) + back;
    let n = front.len() as int;
    assert(all[n] == be32(x)[0]);
    assert(all[n + 1] == be32(x)[1]);
    assert(all[n + 2] == be32(x)[2]);
    assert(all[n + 3] == be32(x)[3]);
}

/// The bytes of the number that four bytes hold.
proof fn bytes_of_number(a: u8, b: u8, c: u8, d: u8)
    ensures
        ({
            let x = a * 0x100_0000 + b * 0x1_0000 + c * 0x100 + d;
            &&& 0 <= x <= u32::MAX
            &&& be32(x as u32) == seq![a, b, c, d]
        }),
{
    let x = a * 0x100_0000 + b * 0x1_0000 + c * 0x100 + d;
    lemma_fundamental_div_mod_converse(x, 0x100_0000, a as int, b * 0x1_0000 + c * 0x100 + d);
    lemma_fundamental_div_mod_converse(x, 0x1_0000, a * 0x100 + b, c * 0x100 + d);
    lemma_fundamental_div_mod_converse(a * 0x100 + b, 0x100, a as int, b as int);
    lemma_fundamental_div_mod_converse(x, 0x100, a * 0x1_0000 + b * 0x100 + c, d as int);
    lemma_fundamental_div_mod_converse(
        a * 0x1_0000 + b * 0x100 + c,
        0x100,
        a * 0x100 + b,
        c as int,
    );
    assert(be32(x as u32) =~= seq![a, b, c, d]);
}

/// Four bytes are what is written for the number in them.
pub proof fn number_is_written(data: Seq<u8>, pos: int)
    requires
        0 <= pos,
        pos + 4 <= data.len(),
    ensures
        word(be32_at(data, pos) as u32) == data.subrange(pos, pos + 4),
        0 <= be32_at(data, pos) <= u32::MAX,
{
    reveal(word);
    bytes_of_number(data[pos], data[pos + 1], data[pos + 2], data[pos + 3]);
    assert(word(be32_at(data, pos) as u32) =~= data.subrange(pos, pos + 4));
}

// Runs of boxes.

/// What the header and the content of the first box of a run are to be.
pub open spec fn reads_first(b: WrittenBox, rest: Seq<u8>) -> bool {
    let data = b.bytes() + rest;
    &&& b.bytes().len() >= 8
    &&& box_extent(data, 0) is Ok
    &&& box_extent(data, 0)->Ok_0.1 == b.bytes().len()
    &&& box_at(data, 0, box_extent(data, 0)->Ok_0.0, b.bytes().len() as int) == b.content()
}

proof fn first_compact_box_is_read(b: WrittenBox, rest: Seq<u8>)
    requires
        b.fits(),
        (b.bytes() + rest).len() <= usize::MAX,
        b.form is Compact,
    ensures
        reads_first(b, rest),
{
    let data = b.bytes() + rest;
    let size = (8 + b.payload.len()) as u32;
    number_is_read(Seq::empty(), size, b.code + b.payload + rest);
    assert(data =~= Seq::<u8>::empty() + word(size) + (b.code + b.payload + rest));
    assert(data.subrange(4, 8) =~= b.code);
    assert(data.subrange(8, b.bytes().len() as int) =~= b.payload);
}

proof fn first_large_box_is_read(b: WrittenBox, rest: Seq<u8>)
    requires
        b.fits(),
        (b.bytes() + rest).len() <= usize::MAX,
        b.form is Large,
    ensures
        reads_first(b, rest),
{
    let data = b.bytes() + rest;
    let size = 16 + b.payload.len();
    let high = (size / 0x1_0000_0000) as u32;
    let low = (size % 0x1_0000_0000) as u32;
    let behind = word(high) + word(low) + b.payload + rest;
    number_is_read(Seq::empty(), 1, b.code + behind);
    assert(data =~= Seq::<u8>::empty() + word(1) + (b.code + behind));
    number_is_read(word(1) + b.code, high, word(low) + b.payload + rest);
    assert(data =~= (word(1) + b.code) + word(high) + (word(low) + b.payload + rest));
    number_is_read(word(1) + b.code + word(high), low, b.payload + rest);
    assert(data =~= (word(1) + b.code + word(high)) + word(low) + (b.payload + rest));
    assert(be32_at(data, 0) == 1);
    assert(be32_at(data, 8) == high);
    assert(be32_at(data, 12) == low);
    assert(be64_at(data, 8) == size);
    assert(data.subrange(4, 8) =~= b.code);
    assert(data.subrange(16, b.bytes().len() as int) =~= b.payload);
}

proof fn last_box_is_read(b: WrittenBox)
    requires
        b.fits(),
        b.bytes().len() <= usize::MAX,
        b.form is ToEnd,
    ensures
        reads_first(b, Seq::empty()),
{
    let data = b.bytes() + Seq::<u8>::empty();
    number_is_read(Seq::empty(), 0, b.code + b.payload);
    assert(data =~= Seq::<u8>::empty() + word(0) + (b.code + b.payload));
    assert(data.subrange(4, 8) =~= b.code);
    assert(data.subrange(8, b.bytes().len() as int) =~= b.payload);
}

/// The first box of a run is read as it was written, and the run goes on behind it.
pub proof fn first_box_is_read(b: WrittenBox, rest: Seq<u8>)
    requires
        b.fits(),
        (b.bytes() + rest).len() <= usize::MAX,
        b.form is ToEnd ==> rest.len() == 0,
    ensures
        reads_first(b, rest),
{
    match b.form {
        SizeForm::Compact => first_compact_box_is_read(b, rest),
        SizeForm::Large => first_large_box_is_read(b, rest),
        SizeForm::ToEnd => {
            assert(rest =~= Seq::<u8>::empty());
            assert(b.bytes() + rest =~= b.bytes());
            last_box_is_read(b);
        },
    }
}

/// A run of boxes is read as it was written.
pub proof fn run_is_read(boxes: Seq<WrittenBox>)
    requires
        is_run(boxes),
        run_bytes(boxes).len() <= usize::MAX,
    ensures
        boxes_from(run_bytes(boxes), 0) == Ok::<Seq<BoxView>, HeaderFault>(contents(boxes)),
    decreases boxes.len(),
{
    let data = run_bytes(boxes);
    if boxes.len() == 0 {
        assert(contents(boxes) =~= Seq::<BoxView>::empty());
    } else {
        let b = boxes[0];
        let rest = boxes.skip(1);
        assert forall|i: int| 0 <= i < rest.len() implies (#[trigger] rest[i]).fits() by {
            assert(boxes[i + 1].fits());
        }
        assert forall|i: int| 0 <= i < rest.len() - 1 implies (#[trigger] rest[i]).form !is ToEnd by {
            assert(boxes[i + 1].form !is ToEnd);
        }
        if b.form is ToEnd {
            assert(rest.len() == 0);
            assert(run_bytes(rest) =~= Seq::<u8>::empty());
        }
        first_box_is_read(b, run_bytes(rest));
        run_is_read(rest);
        boxes_from_shift(b.bytes(), run_bytes(rest), 0);
        assert(contents(boxes) =~= seq![b.content()] + contents(rest));
    }
}

/// A box that is read was written so.
proof fn box_was_written(data: Seq<u8>, pos: int, header: int, end: int, b: WrittenBox)
    requires
        0 <= pos < data.len(),
        data.len() <= usize::MAX,
        box_extent(data, pos) == Ok::<(int, int), HeaderFault>((header, end)),
        b.code == data.subrange(pos + 4, pos + 8),
        b.payload == data.subrange(pos + header, end),
        b.form is ToEnd <==> be32_at(data, pos) == 0,
        b.form is Large <==> be32_at(data, pos) == 1,
    ensures
        b.fits(),
        b.bytes() == data.subrange(pos, end),
        b.form is ToEnd ==> end == data.len(),
{
    number_is_written(data, pos);
    match b.form {
        SizeForm::Compact => {
            assert(b.bytes() =~= data.subrange(pos, end));
        },
        SizeForm::Large => {
            number_is_written(data, pos + 8);
            number_is_written(data, pos + 12);
            let high = be32_at(data, pos + 8);
            let low = be32_at(data, pos + 12);
            let whole = be64_at(data, pos + 8);
            assert(whole == high * 0x1_0000_0000 + low);
            lemma_fundamental_div_mod_converse(whole, 0x1_0000_0000, high, low);
            assert(b.bytes() =~= data.subrange(pos, end));
        },
        SizeForm::ToEnd => {
            assert(b.bytes() =~= data.subrange(pos, end));
        },
    }
}

/// A run of boxes that is read was written so.
pub proof fn run_was_written(data: Seq<u8>, pos: int) -> (boxes: Seq<WrittenBox>)
    requires
        0 <= pos <= data.len(),
        data.len() <= usize::MAX,
        boxes_from(data, pos) is Ok,
    ensures
        is_run(boxes),
        run_bytes(boxes) == data.skip(pos),
        contents(boxes) == boxes_from(data, pos)->Ok_0,
    decreases data.len() - pos,
{
    if pos >= data.len() {
        let boxes = Seq::<WrittenBox>::empty();
        assert(data.skip(pos) =~= Seq::<u8>::empty());
        assert(contents(boxes) =~= Seq::<BoxView>::empty());
        boxes
    } else {
        let (header, end) = box_extent(data, pos)->Ok_0;
        let size = be32_at(data, pos);
        let form = if size == 0 {
            SizeForm::ToEnd
        } else if size == 1 {
            SizeForm::Large
        } else {
            SizeForm::Compact
        };
        let b = WrittenBox {
            code: data.subrange(pos + 4, pos + 8),
            payload: data.subrange(pos + header, end),
            form,
        };
        let rest = run_was_written(data, end);
        let boxes = seq![b] + rest;
        box_was_written(data, pos, header, end, b);
        assert(b.fits());
        assert(boxes.skip(1) =~= rest);
        assert(run_bytes(boxes) =~= data.skip(pos)) by {
            assert(run_bytes(boxes) == b.bytes() + run_bytes(rest));
            assert(data.skip(pos) =~= data.subrange(pos, end) + data.skip(end));
        }
        if form is ToEnd {
            assert(end == data.len());
            if rest.len() > 0 {
                assert(contents(rest).len() == rest.len());
            }
        }
        assert forall|i: int| 0 <= i < boxes.len() implies (#[trigger] boxes[i]).fits() by {
            if i > 0 {
                assert(rest[i - 1].fits());
            }
        }
        assert forall|i: int| 0 <= i < boxes.len() - 1 implies (#[trigger] boxes[i]).form
            !is ToEnd by {
            if i > 0 {
                assert(rest[i - 1].form !is ToEnd);
            }
        }
        assert(contents(boxes) =~= seq![b.content()] + contents(rest));
        boxes
    }
}

/// Data is read as a run of boxes exactly if it was written as one, in whichever way the sizes are
/// given, and the boxes are those that were written.
pub proof fn boxes_are_read_exactly_as_written(
    data: &[u8],
    parent: Container,
    r: Result<Vec<crate::bmff::BmffBox<'_>>, crate::error::Error>,
)
    requires
        call_ensures(crate::bmff::parse_boxes, (data, parent), r),
    ensures
        r is Ok <==> exists|boxes: Seq<WrittenBox>| #[trigger] holds_run(data@, boxes),
        forall|boxes: Seq<WrittenBox>| #[trigger]
            holds_run(data@, boxes) ==> r is Ok && crate::bmff::box_views(r->Ok_0@) == contents(
                boxes,
            ),
{
    assert(data@.len() == data.len());
    assert forall|boxes: Seq<WrittenBox>| #[trigger] holds_run(data@, boxes) implies r is Ok
        && crate::bmff::box_views(r->Ok_0@) == contents(boxes) by {
        run_is_read(boxes);
    }
    if r is Ok {
        let boxes = run_was_written(data@, 0);
        assert(data@.skip(0) =~= data@);
        assert(holds_run(data@, boxes));
    }
}

// Headers.

/// The header of a full box is read as it was written.
proof fn full_header_is_read(version: u8, flags: int, fields: Seq<u8>, kind: BoxKind)
    requires
        0 <= flags < 0x100_0000,
    ensures
        full_box_of(full_header(version, flags) + fields, kind) == Ok::<
            (u8, u32, Seq<u8>),
            Failure,
        >((version, flags as u32, fields)),
{
    reveal(full_header);
    let payload = full_header(version, flags) + fields;
    let a = flags / 0x1_0000;
    let b = flags / 0x100 % 0x100;
    let c = flags % 0x100;
    assert(payload[1] == a && payload[2] == b && payload[3] == c);
    assert(a * 0x1_0000 + b * 0x100 + c == flags);
    assert(payload.skip(4) =~= fields);
}

/// The header of a full box that is read was written so.
proof fn full_header_was_written(payload: Seq<u8>, kind: BoxKind) -> (flags: int)
    requires
        full_box_of(payload, kind) is Ok,
    ensures
        0 <= flags < 0x100_0000,
        flags == full_box_of(payload, kind)->Ok_0.1,
        payload == full_header(full_box_of(payload, kind)->Ok_0.0, flags) + full_box_of(
            payload,
            kind,
        )->Ok_0.2,
{
    reveal(full_header);
    let a = payload[1] as int;
    let b = payload[2] as int;
    let c = payload[3] as int;
    let flags = a * 0x1_0000 + b * 0x100 + c;
    lemma_fundamental_div_mod_converse(flags, 0x1_0000, a, b * 0x100 + c);
    lemma_fundamental_div_mod_converse(flags, 0x100, a * 0x100 + b, c);
    lemma_fundamental_div_mod_converse(a * 0x100 + b, 0x100, a, b);
    assert(payload =~= full_header(payload[0], flags) + payload.skip(4));
    flags
}

/// A box with two dates gives the field behind them exactly if it was written so.
pub proof fn dated_field_is_read_exactly_as_written(
    payload: Seq<u8>,
    kind: BoxKind,
    field: Field,
    x: u32,
)
    requires
        payload.len() <= usize::MAX,
    ensures
        dated_field(payload, kind, field) == Ok::<u32, Failure>(x) <==> exists|
            version: u8,
            flags: int,
            dates: Seq<u8>,
            tail: Seq<u8>,
        | #[trigger]
            dated_bytes(version, flags, dates, x, tail) == payload && dates_fit(
                version,
                flags,
                dates,
            ),
{
    if dated_field(payload, kind, field) == Ok::<u32, Failure>(x) {
        let flags = full_header_was_written(payload, kind);
        let (version, _f, fields) = full_box_of(payload, kind)->Ok_0;
        let pos = crate::bmff::dates_end(version)->Some_0;
        let dates = fields.take(pos);
        let tail = fields.skip(pos + 4);
        number_is_written(fields, pos);
        assert(fields =~= dates + word(x) + tail);
        assert(dated_bytes(version, flags, dates, x, tail) =~= payload);
        assert(dates_fit(version, flags, dates));
    }
    if exists|version: u8, flags: int, dates: Seq<u8>, tail: Seq<u8>| #[trigger]
        dated_bytes(version, flags, dates, x, tail) == payload && dates_fit(version, flags, dates) {
        let (version, flags, dates, tail) = choose|
            version: u8,
            flags: int,
            dates: Seq<u8>,
            tail: Seq<u8>,
        | #[trigger]
            dated_bytes(version, flags, dates, x, tail) == payload && dates_fit(
                version,
                flags,
                dates,
            );
        let fields = dates + word(x) + tail;
        assert(payload =~= full_header(version, flags) + fields);
        full_header_is_read(version, flags, fields, kind);
        number_is_read(dates, x, tail);
    }
}

/// A movie fragment header gives a number exactly if it was written so.
pub proof fn fragment_number_is_read_exactly_as_written(payload: Seq<u8>, x: u32)
    requires
        payload.len() <= usize::MAX,
    ensures
        mfhd_sequence_number(payload) == Ok::<u32, Failure>(x) <==> exists|tail: Seq<u8>|
            #[trigger] mfhd_bytes(x, tail) == payload,
{
    if mfhd_sequence_number(payload) == Ok::<u32, Failure>(x) {
        let flags = full_header_was_written(payload, BoxKind::Mfhd);
        let fields = full_box_of(payload, BoxKind::Mfhd)->Ok_0.2;
        number_is_written(fields, 0);
        assert(fields =~= word(x) + fields.skip(4));
        assert(mfhd_bytes(x, fields.skip(4)) =~= payload);
    }
    if exists|tail: Seq<u8>| #[trigger] mfhd_bytes(x, tail) == payload {
        let tail = choose|tail: Seq<u8>| #[trigger] mfhd_bytes(x, tail) == payload;
        assert(payload =~= full_header(0, 0) + (word(x) + tail));
        full_header_is_read(0, 0, word(x) + tail, BoxKind::Mfhd);
        number_is_read(Seq::empty(), x, tail);
        assert(Seq::<u8>::empty() + word(x) + tail =~= word(x) + tail);
    }
}

/// A track extends box gives its track and its default duration, none for zero, exactly if it was
/// written so, for a track with an identifier.
pub proof fn track_defaults_are_read_exactly_as_written(
    payload: Seq<u8>,
    track_id: u32,
    ticks: u32,
)
    requires
        payload.len() <= usize::MAX,
    ensures
        trex_defaults(payload) == Ok::<(u32, Option<u32>), Failure>(
            (
                track_id,
                if ticks == 0 {
                    None
                } else {
                    Some(ticks)
                },
            ),
        ) <==> track_id != 0 && exists|description: u32, size: u32, flags: u32| #[trigger]
            trex_bytes(track_id, description, ticks, size, flags) == payload,
{
    let duration = if ticks == 0 {
        None
    } else {
        Some(ticks)
    };
    if trex_defaults(payload) == Ok::<(u32, Option<u32>), Failure>((track_id, duration)) {
        let _ = full_header_was_written(payload, BoxKind::Trex);
        let fields = full_box_of(payload, BoxKind::Trex)->Ok_0.2;
        number_is_written(fields, 0);
        number_is_written(fields, 4);
        number_is_written(fields, 8);
        number_is_written(fields, 12);
        number_is_written(fields, 16);
        let description = be32_at(fields, 4) as u32;
        let size = be32_at(fields, 12) as u32;
        let flags = be32_at(fields, 16) as u32;
        assert(fields =~= word(track_id) + word(description) + word(ticks) + word(size) + word(
            flags,
        ));
        assert(trex_bytes(track_id, description, ticks, size, flags) =~= payload);
    }
    if track_id != 0 && exists|description: u32, size: u32, flags: u32|
        #[trigger] trex_bytes(track_id, description, ticks, size, flags) == payload {
        let (description, size, flags) = choose|description: u32, size: u32, flags: u32|
            #[trigger] trex_bytes(track_id, description, ticks, size, flags) == payload;
        let back = word(size) + word(flags);
        let fields = word(track_id) + word(description) + word(ticks) + back;
        assert(payload =~= full_header(0, 0) + fields);
        full_header_is_read(0, 0, fields, BoxKind::Trex);
        number_is_read(Seq::empty(), track_id, word(description) + word(ticks) + back);
        assert(fields =~= Seq::<u8>::empty() + word(track_id) + (word(description) + word(ticks)
            + back));
        number_is_read(word(track_id), description, word(ticks) + back);
        number_is_read(word(track_id) + word(description), ticks, back);
        number_is_read(Seq::empty(), size, word(flags));
        number_is_read(Seq::empty(), flags, Seq::empty());
        assert(fields.len() == 20);
        assert(be32_at(fields, 8) == ticks);
    }
}

// Track fragment headers.

/// The flags of a track fragment header say which fields are there.
proof fn tfhd_bits(f: u32, a: u32, b: u32, c: u32, d: u32, e: u32, g: u32)
    requires
        a == 0 || a == 0x1,
        b == 0 || b == 0x2,
        c == 0 || c == 0x8,
        d == 0 || d == 0x10,
        e == 0 || e == 0x20,
        g == 0 || g == 0x2_0000,
        f == a + b + c + d + e + g,
    ensures
        f & 0x1 == a,
        f & 0x2 == b,
        f & 0x8 == c,
        f & 0x10 == d,
        f & 0x20 == e,
        f & 0x2_0000 == g,
        f & !0x3003bu32 == 0,
        f & 0x1_0000 == 0,
{
    assert(f & 0x1 == a && f & 0x2 == b && f & 0x8 == c && f & 0x10 == d && f & 0x20 == e && f
        & 0x2_0000 == g && f & !0x3003bu32 == 0 && f & 0x1_0000 == 0) by (bit_vector)
        requires
            a == 0 || a == 0x1,
            b == 0 || b == 0x2,
            c == 0 || c == 0x8,
            d == 0 || d == 0x10,
            e == 0 || e == 0x20,
            g == 0 || g == 0x2_0000,
            f == a + b + c + d + e + g,
    ;
}

/// A track fragment header without other flags has the sum of those that are set.
proof fn tfhd_flags_are_a_sum(f: u32)
    requires
        f & !0x3003bu32 == 0,
        f & 0x1_0000 == 0,
    ensures
        f == bit_for(f & 0x1 != 0, 0x1) + bit_for(f & 0x2 != 0, 0x2) + bit_for(
            f & 0x8 != 0,
            0x8,
        ) + bit_for(f & 0x10 != 0, 0x10) + bit_for(f & 0x20 != 0, 0x20) + bit_for(
            f & 0x2_0000 != 0,
            0x2_0000,
        ),
{
    assert(f == (f & 0x1) + (f & 0x2) + (f & 0x8) + (f & 0x10) + (f & 0x20) + (f & 0x2_0000))
        by (bit_vector)
        requires
            f & !0x3003bu32 == 0,
            f & 0x1_0000 == 0,
    ;
    assert((f & 0x1 == 0 || f & 0x1 == 0x1) && (f & 0x2 == 0 || f & 0x2 == 0x2) && (f & 0x8 == 0 || f
        & 0x8 == 0x8) && (f & 0x10 == 0 || f & 0x10 == 0x10) && (f & 0x20 == 0 || f & 0x20 == 0x20)
        && (f & 0x2_0000 == 0 || f & 0x2_0000 == 0x2_0000)) by (bit_vector);
}

/// The positions of the fields of a track fragment header are those at which they were written.
proof fn tfhd_fields_are_found(
    fields: Seq<u8>,
    f: u32,
    p1: int,
    p2: int,
    p3: int,
    p4: int,
    p5: int,
    duration: Option<u32>,
)
    requires
        fields.len() <= usize::MAX,
        fields.len() == p5,
        p1 == 4 + bit_for(f & 0x1 != 0, 8),
        p2 == p1 + bit_for(f & 0x2 != 0, 4),
        p3 == p2 + bit_for(f & 0x8 != 0, 4),
        p4 == p3 + bit_for(f & 0x10 != 0, 4),
        p5 == p4 + bit_for(f & 0x20 != 0, 4),
        duration is Some <==> f & 0x8 != 0,
        duration is Some ==> be32_at(fields, p2) == duration->Some_0 && duration->Some_0 != 0,
    ensures
        tfhd_optional(fields, f) == Ok::<Option<u32>, Failure>(duration),
{
    let base = after_field(fields, Ok(4), f & 0x1 != 0, 8, Field::TfhdBaseDataOffset);
    assert(base == Ok::<int, Failure>(p1));
    assert(tfhd_duration_pos(fields, f) == Ok::<int, Failure>(p2));
    assert(tfhd_duration(fields, f, p2) == Ok::<(Option<u32>, int), Failure>((duration, p3)));
    let size = after_field(fields, Ok(p3), f & 0x10 != 0, 4, Field::TfhdDefaultSampleSize);
    assert(size == Ok::<int, Failure>(p4));
    assert(tfhd_end(fields, f, p3) == Ok::<int, Failure>(p5));
}

/// The flags of a track fragment header announce its fields, and nothing else.
proof fn tfhd_flags_announce_the_fields(t: TfhdBox)
    ensures
        0 <= t.flags() < 0x100_0000,
        ({
            let f = t.flags() as u32;
            &&& f & 0x1 != 0 <==> t.base_data_offset is Some
            &&& f & 0x2 != 0 <==> t.description_index is Some
            &&& f & 0x8 != 0 <==> t.default_duration is Some
            &&& f & 0x10 != 0 <==> t.default_size is Some
            &&& f & 0x20 != 0 <==> t.default_flags is Some
            &&& f & !TFHD_ALLOWED_FLAGS == 0
            &&& f & TFHD_DURATION_IS_EMPTY == 0
        }),
{
    reveal(TfhdBox::flags);
    tfhd_bits(
        t.flags() as u32,
        bit_for(t.base_data_offset is Some, 0x1) as u32,
        bit_for(t.description_index is Some, 0x2) as u32,
        bit_for(t.default_duration is Some, 0x8) as u32,
        bit_for(t.default_size is Some, 0x10) as u32,
        bit_for(t.default_flags is Some, 0x20) as u32,
        bit_for(t.base_is_moof, 0x2_0000) as u32,
    );
}

/// The flags of a track fragment header are the sum of those that announce its fields.
proof fn tfhd_flags_are_those(t: TfhdBox, f: u32)
    requires
        f & !TFHD_ALLOWED_FLAGS == 0,
        f & TFHD_DURATION_IS_EMPTY == 0,
        f & 0x1 != 0 <==> t.base_data_offset is Some,
        f & 0x2 != 0 <==> t.description_index is Some,
        f & 0x8 != 0 <==> t.default_duration is Some,
        f & 0x10 != 0 <==> t.default_size is Some,
        f & 0x20 != 0 <==> t.default_flags is Some,
        f & 0x2_0000 != 0 <==> t.base_is_moof,
    ensures
        t.flags() == f,
{
    reveal(TfhdBox::flags);
    tfhd_flags_are_a_sum(f);
}

/// The fields of a track fragment header, one behind the other.
spec fn tfhd_fields(t: TfhdBox) -> Seq<u8> {
    word(t.track_id) + tfhd_base(t) + optional(t.description_index) + optional(t.default_duration)
        + optional(t.default_size) + optional(t.default_flags)
}

/// The base data offset of a track fragment header, if it is there.
spec fn tfhd_base(t: TfhdBox) -> Seq<u8> {
    match t.base_data_offset {
        Some(offset) => offset,
        None => Seq::empty(),
    }
}

proof fn tfhd_bytes_are_header_and_fields(t: TfhdBox)
    ensures
        t.bytes() == full_header(0, t.flags()) + tfhd_fields(t),
{
    assert(t.bytes() =~= full_header(0, t.flags()) + tfhd_fields(t));
}

proof fn tfhd_track_is_read(t: TfhdBox)
    ensures
        be32_at(tfhd_fields(t), 0) == t.track_id,
        tfhd_fields(t).len() >= 4,
{
    let behind = tfhd_base(t) + optional(t.description_index) + optional(t.default_duration)
        + optional(t.default_size) + optional(t.default_flags);
    number_is_read(Seq::empty(), t.track_id, behind);
    assert(tfhd_fields(t) =~= Seq::<u8>::empty() + word(t.track_id) + behind);
}

proof fn tfhd_duration_is_read(t: TfhdBox)
    requires
        t.default_duration is Some,
    ensures
        be32_at(
            tfhd_fields(t),
            (4 + tfhd_base(t).len() + optional(t.description_index).len()) as int,
        ) == t.default_duration->Some_0,
{
    let front = word(t.track_id) + tfhd_base(t) + optional(t.description_index);
    let back = optional(t.default_size) + optional(t.default_flags);
    let ticks = t.default_duration->Some_0;
    number_is_read(Seq::empty(), t.track_id, Seq::empty());
    number_is_read(front, ticks, back);
    assert(tfhd_fields(t) =~= front + word(ticks) + back);
}

proof fn tfhd_fields_have_the_length(t: TfhdBox)
    requires
        t.fits(),
    ensures
        tfhd_base(t).len() == bit_for(t.base_data_offset is Some, 8),
        optional(t.description_index).len() == bit_for(t.description_index is Some, 4),
        tfhd_fields(t).len() == 4 + bit_for(t.base_data_offset is Some, 8) + bit_for(
            t.description_index is Some,
            4,
        ) + bit_for(t.default_duration is Some, 4) + bit_for(t.default_size is Some, 4) + bit_for(
            t.default_flags is Some,
            4,
        ),
{
    number_is_read(Seq::empty(), t.track_id, Seq::empty());
    optional_has_four(t.description_index);
    optional_has_four(t.default_duration);
    optional_has_four(t.default_size);
    optional_has_four(t.default_flags);
}

/// A track fragment header is read as it was written.
proof fn tfhd_is_read(t: TfhdBox)
    requires
        t.fits(),
        t.bytes().len() <= usize::MAX,
    ensures
        tfhd_defaults(t.bytes()) == Ok::<(u32, Option<u32>), Failure>(
            (t.track_id, t.default_duration),
        ),
{
    let fields = tfhd_fields(t);
    let f = t.flags() as u32;
    tfhd_flags_announce_the_fields(t);
    tfhd_bytes_are_header_and_fields(t);
    full_header_is_read(0, t.flags(), fields, BoxKind::Tfhd);
    tfhd_track_is_read(t);
    tfhd_fields_have_the_length(t);
    if t.default_duration is Some {
        tfhd_duration_is_read(t);
    }
    let p1 = 4 + bit_for(f & 0x1 != 0, 8);
    let p2 = p1 + bit_for(f & 0x2 != 0, 4);
    let p3 = p2 + bit_for(f & 0x8 != 0, 4);
    let p4 = p3 + bit_for(f & 0x10 != 0, 4);
    let p5 = p4 + bit_for(f & 0x20 != 0, 4);
    assert(fields.len() == p5);
    tfhd_fields_are_found(fields, f, p1, p2, p3, p4, p5, t.default_duration);
}

/// A field that may be absent has four bytes or none.
proof fn optional_has_four(field: Option<u32>)
    ensures
        optional(field).len() == if field is Some {
            4nat
        } else {
            0nat
        },
{
    if field is Some {
        number_is_read(Seq::empty(), field->Some_0, Seq::empty());
    }
}

/// What is read of a field that may be absent.
spec fn field_at(fields: Seq<u8>, pos: int, present: bool) -> Option<u32> {
    if present {
        Some(be32_at(fields, pos) as u32)
    } else {
        None
    }
}

/// A field that may be absent and is read was written so.
proof fn field_was_written(fields: Seq<u8>, pos: int, present: bool)
    requires
        0 <= pos,
        present ==> pos + 4 <= fields.len(),
        pos <= fields.len(),
    ensures
        optional(field_at(fields, pos, present)) == fields.subrange(
            pos,
            if present {
                pos + 4
            } else {
                pos
            },
        ),
{
    if present {
        number_is_written(fields, pos);
    } else {
        assert(fields.subrange(pos, pos) =~= Seq::<u8>::empty());
    }
}

/// A track fragment header that is read was written so.
proof fn tfhd_was_written(payload: Seq<u8>) -> (t: TfhdBox)
    requires
        tfhd_defaults(payload) is Ok,
        payload.len() <= usize::MAX,
    ensures
        t.fits(),
        t.bytes() == payload,
        tfhd_defaults(payload)->Ok_0 == (t.track_id, t.default_duration),
{
    let flags = full_header_was_written(payload, BoxKind::Tfhd);
    let (_v, f, fields) = full_box_of(payload, BoxKind::Tfhd)->Ok_0;
    let has_base = f & 0x1 != 0;
    let has_index = f & 0x2 != 0;
    let has_duration = f & 0x8 != 0;
    let has_size = f & 0x10 != 0;
    let has_flags = f & 0x20 != 0;
    let p1 = 4 + bit_for(has_base, 8);
    let p2 = p1 + bit_for(has_index, 4);
    let p3 = p2 + bit_for(has_duration, 4);
    let p4 = p3 + bit_for(has_size, 4);
    let p5 = p4 + bit_for(has_flags, 4);
    tfhd_fields_were_there(fields, f, p1, p2, p3, p4, p5);
    let t = TfhdBox {
        track_id: be32_at(fields, 0) as u32,
        base_data_offset: if has_base {
            Some(fields.subrange(4, 12))
        } else {
            None
        },
        description_index: field_at(fields, p1, has_index),
        default_duration: field_at(fields, p2, has_duration),
        default_size: field_at(fields, p3, has_size),
        default_flags: field_at(fields, p4, has_flags),
        base_is_moof: f & 0x2_0000 != 0,
    };
    number_is_written(fields, 0);
    if has_duration {
        number_is_written(fields, p2);
    }
    field_was_written(fields, p1, has_index);
    field_was_written(fields, p2, has_duration);
    field_was_written(fields, p3, has_size);
    field_was_written(fields, p4, has_flags);
    tfhd_flags_are_those(t, f);
    tfhd_bytes_are_fields(t, fields, p1, p2, p3, p4);
    t
}

/// Where a track fragment header is read, its fields are there and fill it.
proof fn tfhd_fields_were_there(
    fields: Seq<u8>,
    f: u32,
    p1: int,
    p2: int,
    p3: int,
    p4: int,
    p5: int,
)
    requires
        fields.len() >= 4,
        tfhd_optional(fields, f) is Ok,
        p1 == 4 + bit_for(f & 0x1 != 0, 8),
        p2 == p1 + bit_for(f & 0x2 != 0, 4),
        p3 == p2 + bit_for(f & 0x8 != 0, 4),
        p4 == p3 + bit_for(f & 0x10 != 0, 4),
        p5 == p4 + bit_for(f & 0x20 != 0, 4),
    ensures
        p5 == fields.len(),
        tfhd_optional(fields, f)->Ok_0 == field_at(fields, p2, f & 0x8 != 0),
        f & 0x8 != 0 ==> be32_at(fields, p2) as u32 != 0,
{
    let base = after_field(fields, Ok(4), f & 0x1 != 0, 8, Field::TfhdBaseDataOffset);
    assert(base == Ok::<int, Failure>(p1));
    assert(tfhd_duration_pos(fields, f) == Ok::<int, Failure>(p2));
    assert(tfhd_duration(fields, f, p2)->Ok_0.1 == p3);
    let size = after_field(fields, Ok(p3), f & 0x10 != 0, 4, Field::TfhdDefaultSampleSize);
    assert(size == Ok::<int, Failure>(p4));
    assert(tfhd_end(fields, f, p3) == Ok::<int, Failure>(p5));
}

/// The parts of a track fragment header fill it.
proof fn tfhd_bytes_are_fields(
    t: TfhdBox,
    fields: Seq<u8>,
    p1: int,
    p2: int,
    p3: int,
    p4: int,
)
    requires
        4 <= p1 <= p2 <= p3 <= p4 <= fields.len(),
        word(t.track_id) == fields.subrange(0, 4),
        t.base_data_offset is Some ==> t.base_data_offset->Some_0 == fields.subrange(4, p1),
        t.base_data_offset is None ==> p1 == 4,
        optional(t.description_index) == fields.subrange(p1, p2),
        optional(t.default_duration) == fields.subrange(p2, p3),
        optional(t.default_size) == fields.subrange(p3, p4),
        optional(t.default_flags) == fields.subrange(p4, fields.len() as int),
    ensures
        t.bytes() == full_header(0, t.flags()) + fields,
{
    let base = match t.base_data_offset {
        Some(offset) => offset,
        None => Seq::empty(),
    };
    assert(base =~= fields.subrange(4, p1));
    let front = word(t.track_id) + base + optional(t.description_index) + optional(
        t.default_duration,
    );
    row_is_a_range(
        fields,
        0,
        4,
        p1,
        p2,
        p3,
        word(t.track_id),
        base,
        optional(t.description_index),
        optional(t.default_duration),
    );
    let back = optional(t.default_size) + optional(t.default_flags);
    assert(back =~= fields.subrange(p3, fields.len() as int));
    assert(front + back =~= fields);
    assert(t.bytes() =~= full_header(0, t.flags()) + (front + back));
}

/// A track fragment header is read exactly if it was written with a track and, if any, a default
/// duration that are not zero, and with nothing but the fields that its flags announce.
pub proof fn fragment_header_is_read_exactly_as_written(
    payload: Seq<u8>,
    track_id: u32,
    duration: Option<u32>,
)
    requires
        payload.len() <= usize::MAX,
    ensures
        tfhd_defaults(payload) == Ok::<(u32, Option<u32>), Failure>((track_id, duration)) <==> exists|
            t: TfhdBox,
        | #[trigger]
            t.bytes() == payload && t.fits() && t.track_id == track_id && t.default_duration
                == duration,
{
    if tfhd_defaults(payload) == Ok::<(u32, Option<u32>), Failure>((track_id, duration)) {
        let t = tfhd_was_written(payload);
        assert(t.bytes() == payload);
    }
    if exists|t: TfhdBox| #[trigger]
        t.bytes() == payload && t.fits() && t.track_id == track_id && t.default_duration
            == duration {
        let t = choose|t: TfhdBox| #[trigger]
            t.bytes() == payload && t.fits() && t.track_id == track_id && t.default_duration
                == duration;
        tfhd_is_read(t);
    }
}

// Track fragment runs.

/// The flags of a track fragment run say which fields and columns are there.
proof fn trun_bits(f: u32, a: u32, b: u32, c: u32, d: u32, e: u32, g: u32)
    requires
        a == 0 || a == 0x1,
        b == 0 || b == 0x4,
        c == 0 || c == 0x100,
        d == 0 || d == 0x200,
        e == 0 || e == 0x400,
        g == 0 || g == 0x800,
        f == a + b + c + d + e + g,
    ensures
        f & 0x1 == a,
        f & 0x4 == b,
        f & 0x100 == c,
        f & 0x200 == d,
        f & 0x400 == e,
        f & 0x800 == g,
        f & !0xf05u32 == 0,
{
    assert(f & 0x1 == a && f & 0x4 == b && f & 0x100 == c && f & 0x200 == d && f & 0x400 == e && f
        & 0x800 == g && f & !0xf05u32 == 0) by (bit_vector)
        requires
            a == 0 || a == 0x1,
            b == 0 || b == 0x4,
            c == 0 || c == 0x100,
            d == 0 || d == 0x200,
            e == 0 || e == 0x400,
            g == 0 || g == 0x800,
            f == a + b + c + d + e + g,
    ;
}

/// A track fragment run without other flags has the sum of those that are set.
proof fn trun_flags_are_a_sum(f: u32)
    requires
        f & !0xf05u32 == 0,
    ensures
        f == bit_for(f & 0x1 != 0, 0x1) + bit_for(f & 0x4 != 0, 0x4) + bit_for(
            f & 0x100 != 0,
            0x100,
        ) + bit_for(f & 0x200 != 0, 0x200) + bit_for(f & 0x400 != 0, 0x400) + bit_for(
            f & 0x800 != 0,
            0x800,
        ),
{
    assert(f == (f & 0x1) + (f & 0x4) + (f & 0x100) + (f & 0x200) + (f & 0x400) + (f & 0x800))
        by (bit_vector)
        requires
            f & !0xf05u32 == 0,
    ;
    assert((f & 0x1 == 0 || f & 0x1 == 0x1) && (f & 0x4 == 0 || f & 0x4 == 0x4) && (f & 0x100 == 0
        || f & 0x100 == 0x100) && (f & 0x200 == 0 || f & 0x200 == 0x200) && (f & 0x400 == 0 || f
        & 0x400 == 0x400) && (f & 0x800 == 0 || f & 0x800 == 0x800)) by (bit_vector);
}

/// The number of bytes that a track fragment run spends on each sample.
spec fn row_width(t: TrunBox) -> int {
    bit_for(t.durations is Some, 4) + bit_for(t.sizes is Some, 4) + bit_for(
        t.sample_flags is Some,
        4,
    ) + bit_for(t.offsets is Some, 4)
}

/// The entries of a sample have the width of a row.
proof fn row_has_the_width(t: TrunBox, i: int)
    ensures
        t.row(i).len() == row_width(t),
{
    entry_has_four(t.durations, i);
    entry_has_four(t.sizes, i);
    entry_has_four(t.sample_flags, i);
    entry_has_four(t.offsets, i);
}

proof fn entry_has_four(column: Option<Seq<u32>>, i: int)
    ensures
        entry(column, i).len() == bit_for(column is Some, 4),
{
    if column is Some {
        number_is_read(Seq::empty(), column->Some_0[i], Seq::empty());
    }
}

/// The sample table has a row for each sample.
proof fn table_has_the_length(t: TrunBox, n: int)
    requires
        0 <= n,
    ensures
        t.table(n).len() == n * row_width(t),
    decreases n,
{
    let w = row_width(t);
    if n == 0 {
        assert(0 * w == 0) by (nonlinear_arith);
    } else {
        table_has_the_length(t, n - 1);
        row_has_the_width(t, n - 1);
        assert((n - 1) * w + w == n * w) by (nonlinear_arith);
    }
}

/// The rows of the sample table stand one behind the other.
proof fn table_has_the_row(t: TrunBox, n: int, i: int)
    requires
        0 <= i < n,
    ensures
        0 <= i * row_width(t),
        i * row_width(t) + row_width(t) <= n * row_width(t),
        t.table(n).len() == n * row_width(t),
        t.table(n).subrange(i * row_width(t), i * row_width(t) + row_width(t)) == t.row(i),
    decreases n,
{
    let w = row_width(t);
    table_has_the_length(t, n);
    table_has_the_length(t, n - 1);
    row_has_the_width(t, n - 1);
    assert((n - 1) * w + w == n * w) by (nonlinear_arith);
    assert(0 <= i * w) by (nonlinear_arith)
        requires
            0 <= i,
            0 <= w,
    ;
    let whole = t.table(n);
    let shorter = t.table(n - 1);
    assert(whole == shorter + t.row(n - 1));
    if i == n - 1 {
        assert(i * w == shorter.len());
        assert(whole.subrange(i * w, i * w + w) =~= t.row(i));
    } else {
        table_has_the_row(t, n - 1, i);
        assert(whole.subrange(i * w, i * w + w) =~= shorter.subrange(i * w, i * w + w));
    }
}

/// Bytes that hold a number at a place give it there.
pub proof fn word_is_read(data: Seq<u8>, at: int, x: u32)
    requires
        0 <= at,
        at + 4 <= data.len(),
        data.subrange(at, at + 4) == word(x),
    ensures
        be32_at(data, at) == x,
{
    number_is_read(data.take(at), x, data.skip(at + 4));
    assert(data =~= data.take(at) + word(x) + data.skip(at + 4));
}

/// The duration of a sample is read as it was written.
proof fn duration_is_read(t: TrunBox, fields: Seq<u8>, pos: int, i: int)
    requires
        t.fits(),
        t.durations is Some,
        0 <= i < t.count,
        0 <= pos <= fields.len(),
        fields.skip(pos) == t.table(t.count as int),
    ensures
        sample_duration(fields, pos, row_width(t), i) == t.durations->Some_0[i],
{
    let w = row_width(t);
    let at = i * w;
    let row = t.row(i);
    let x = t.durations->Some_0[i];
    let table = t.table(t.count as int);
    table_has_the_row(t, t.count as int, i);
    row_has_the_width(t, i);
    entry_has_four(t.durations, i);
    assert(row.subrange(0, 4) =~= word(x));
    assert(fields.subrange(pos + at, pos + at + 4) =~= row.subrange(0, 4)) by {
        assert forall|k: int| 0 <= k < 4 implies fields.subrange(pos + at, pos + at + 4)[k]
            == row.subrange(0, 4)[k] by {
            assert(table.subrange(at, at + w)[k] == table[at + k]);
            assert(fields.skip(pos)[at + k] == fields[pos + (at + k)]);
        }
    }
    word_is_read(fields, pos + at, x);
}

/// The durations that are read of a sample table add up to the sum of those that were written.
proof fn durations_add_up(t: TrunBox, fields: Seq<u8>, pos: int, n: int)
    requires
        t.fits(),
        t.durations is Some,
        0 <= n <= t.count,
        0 <= pos <= fields.len(),
        fields.skip(pos) == t.table(t.count as int),
    ensures
        sample_total(fields, pos, row_width(t), n) == sum(t.durations->Some_0, n),
    decreases n,
{
    if n > 0 {
        durations_add_up(t, fields, pos, n - 1);
        duration_is_read(t, fields, pos, n - 1);
    }
}

/// The sample table of a track fragment run is found where it was written.
proof fn trun_table_is_found(fields: Seq<u8>, f: u32, q2: int, pos: int)
    requires
        fields.len() <= usize::MAX,
        pos <= fields.len(),
        q2 == 4 + bit_for(f & 0x1 != 0, 4),
        pos == q2 + bit_for(f & 0x4 != 0, 4),
    ensures
        trun_table(fields, f) == Ok::<int, Failure>(pos),
{
    let offset = after_field(fields, Ok(4), f & 0x1 != 0, 4, Field::TrunDataOffset);
    assert(offset == Ok::<int, Failure>(q2));
}

/// The samples of a track fragment run give the duration that was written.
proof fn samples_are_read(t: TrunBox, fields: Seq<u8>, f: u32, pos: int, default: Option<u32>)
    requires
        t.fits(),
        fields.len() <= usize::MAX,
        0 <= pos <= fields.len(),
        fields.skip(pos) == t.table(t.count as int),
        sample_width(f) == row_width(t),
        f & 0x100 != 0 <==> t.durations is Some,
    ensures
        match t.duration(default) {
            Some(ticks) => trun_samples(fields, f, t.count as int, pos, default) == Ok::<
                int,
                Failure,
            >(ticks),
            None => trun_samples(fields, f, t.count as int, pos, default) is Err,
        },
{
    let n = t.count as int;
    let w = row_width(t);
    table_has_the_length(t, n);
    assert(fields.skip(pos).len() == fields.len() - pos);
    if t.durations is Some {
        durations_add_up(t, fields, pos, n);
        assert forall|i: int| 0 <= i < n implies #[trigger] sample_duration(fields, pos, w, i)
            != 0 by {
            duration_is_read(t, fields, pos, i);
            assert(t.durations->Some_0[i] != 0);
        }
    }
}

/// The flags of a track fragment run announce its fields and columns, and nothing else.
proof fn trun_flags_announce_the_fields(t: TrunBox)
    ensures
        0 <= t.flags() < 0x100_0000,
        ({
            let f = t.flags() as u32;
            &&& f & 0x1 != 0 <==> t.data_offset is Some
            &&& f & 0x4 != 0 <==> t.first_flags is Some
            &&& f & 0x100 != 0 <==> t.durations is Some
            &&& f & !TRUN_ALLOWED_FLAGS == 0
            &&& sample_width(f) == row_width(t)
        }),
{
    reveal(TrunBox::flags);
    trun_bits(
        t.flags() as u32,
        bit_for(t.data_offset is Some, 0x1) as u32,
        bit_for(t.first_flags is Some, 0x4) as u32,
        bit_for(t.durations is Some, 0x100) as u32,
        bit_for(t.sizes is Some, 0x200) as u32,
        bit_for(t.sample_flags is Some, 0x400) as u32,
        bit_for(t.offsets is Some, 0x800) as u32,
    );
}

/// The flags of a track fragment run are the sum of those that announce its fields and columns.
proof fn trun_flags_are_those(t: TrunBox, f: u32)
    requires
        f & !TRUN_ALLOWED_FLAGS == 0,
        f & 0x1 != 0 <==> t.data_offset is Some,
        f & 0x4 != 0 <==> t.first_flags is Some,
        f & 0x100 != 0 <==> t.durations is Some,
        f & 0x200 != 0 <==> t.sizes is Some,
        f & 0x400 != 0 <==> t.sample_flags is Some,
        f & 0x800 != 0 <==> t.offsets is Some,
    ensures
        t.flags() == f,
        sample_width(f) == row_width(t),
{
    reveal(TrunBox::flags);
    trun_flags_are_a_sum(f);
}

/// A track fragment run is read as it was written: with any of its fields and columns, it gives the
/// sum of the durations, or the default for each sample.
proof fn trun_is_read(t: TrunBox, default: Option<u32>)
    requires
        t.fits(),
        t.bytes().len() <= usize::MAX,
    ensures
        match t.duration(default) {
            Some(ticks) => trun_duration(t.bytes(), default) == Ok::<int, Failure>(ticks),
            None => trun_duration(t.bytes(), default) is Err,
        },
{
    trun_flags_announce_the_fields(t);
    let f = t.flags() as u32;
    let n = t.count as int;
    let offset = optional(t.data_offset);
    let first = optional(t.first_flags);
    let table = t.table(n);
    let front = word(t.count) + offset + first;
    let fields = front + table;
    assert(t.bytes() =~= full_header(t.version, t.flags()) + fields);
    full_header_is_read(t.version, t.flags(), fields, BoxKind::Trun);
    number_is_read(Seq::empty(), t.count, offset + first + table);
    assert(fields =~= Seq::<u8>::empty() + word(t.count) + (offset + first + table));
    optional_has_four(t.data_offset);
    optional_has_four(t.first_flags);
    let q2 = 4 + offset.len();
    let pos = q2 + first.len();
    assert(fields.skip(pos as int) =~= table);
    trun_table_is_found(fields, f, q2 as int, pos as int);
    samples_are_read(t, fields, f, pos as int, default);
    assert(full_box_of(t.bytes(), BoxKind::Trun) == Ok::<(u8, u32, Seq<u8>), Failure>(
        (t.version, f, fields),
    ));
    assert(be32_at(fields, 0) == t.count);
}

/// A column of a sample table, as it is read.
spec fn column_at(
    fields: Seq<u8>,
    pos: int,
    width: int,
    count: int,
    present: bool,
) -> Option<Seq<u32>> {
    if present {
        Some(Seq::new(count as nat, |i: int| be32_at(fields, pos + i * width) as u32))
    } else {
        None
    }
}

/// An entry of a column that is read was written so.
proof fn entry_was_written(
    fields: Seq<u8>,
    pos: int,
    width: int,
    count: int,
    present: bool,
    i: int,
)
    requires
        0 <= i < count,
        0 <= pos + i * width,
        present ==> pos + i * width + 4 <= fields.len(),
        pos + i * width <= fields.len(),
    ensures
        entry(column_at(fields, pos, width, count, present), i) == fields.subrange(
            pos + i * width,
            pos + i * width + bit_for(present, 4),
        ),
{
    if present {
        number_is_written(fields, pos + i * width);
    } else {
        assert(fields.subrange(pos + i * width, pos + i * width) =~= Seq::<u8>::empty());
    }
}

/// A sample table that is read was written so.
proof fn table_was_written(t: TrunBox, fields: Seq<u8>, pos: int, n: int)
    requires
        0 <= n <= t.count,
        0 <= pos,
        pos + t.count * row_width(t) == fields.len(),
        ({
            let w = row_width(t);
            let c = t.count as int;
            let p1 = pos + bit_for(t.durations is Some, 4);
            let p2 = p1 + bit_for(t.sizes is Some, 4);
            let p3 = p2 + bit_for(t.sample_flags is Some, 4);
            &&& t.durations == column_at(fields, pos, w, c, t.durations is Some)
            &&& t.sizes == column_at(fields, p1, w, c, t.sizes is Some)
            &&& t.sample_flags == column_at(fields, p2, w, c, t.sample_flags is Some)
            &&& t.offsets == column_at(fields, p3, w, c, t.offsets is Some)
        }),
    ensures
        0 <= n * row_width(t) <= t.count * row_width(t),
        t.table(n) == fields.subrange(pos, pos + n * row_width(t)),
    decreases n,
{
    let w = row_width(t);
    let c = t.count as int;
    assert(0 <= n * w <= c * w) by (nonlinear_arith)
        requires
            0 <= n <= c,
            0 <= w,
    ;
    if n == 0 {
        assert(0 * w == 0) by (nonlinear_arith);
        assert(fields.subrange(pos, pos) =~= Seq::<u8>::empty());
    } else {
        let i = n - 1;
        table_was_written(t, fields, pos, i);
        assert(i * w + w == n * w) by (nonlinear_arith)
            requires
                i == n - 1,
        ;
        let p1 = pos + bit_for(t.durations is Some, 4);
        let p2 = p1 + bit_for(t.sizes is Some, 4);
        let p3 = p2 + bit_for(t.sample_flags is Some, 4);
        let at = i * w;
        entry_was_written(fields, pos, w, c, t.durations is Some, i);
        entry_was_written(fields, p1, w, c, t.sizes is Some, i);
        entry_was_written(fields, p2, w, c, t.sample_flags is Some, i);
        entry_was_written(fields, p3, w, c, t.offsets is Some, i);
        row_is_a_range(
            fields,
            pos + at,
            p1 + at,
            p2 + at,
            p3 + at,
            pos + n * w,
            entry(t.durations, i),
            entry(t.sizes, i),
            entry(t.sample_flags, i),
            entry(t.offsets, i),
        );
        assert(t.row(i) == fields.subrange(pos + at, pos + n * w));
        assert(t.table(n) == t.table(i) + t.row(i));
        assert(fields.subrange(pos, pos + at) + fields.subrange(pos + at, pos + n * w)
            =~= fields.subrange(pos, pos + n * w));
    }
}

/// Ranges that stand one behind the other make one range.
proof fn row_is_a_range(
    fields: Seq<u8>,
    a: int,
    b: int,
    c: int,
    d: int,
    e: int,
    w: Seq<u8>,
    x: Seq<u8>,
    y: Seq<u8>,
    z: Seq<u8>,
)
    requires
        0 <= a <= b <= c <= d <= e <= fields.len(),
        w == fields.subrange(a, b),
        x == fields.subrange(b, c),
        y == fields.subrange(c, d),
        z == fields.subrange(d, e),
    ensures
        w + x + y + z == fields.subrange(a, e),
{
    assert(w + x + y + z =~= fields.subrange(a, e));
}

/// A track fragment run that is read was written so.
proof fn trun_was_written(payload: Seq<u8>, default: Option<u32>) -> (t: TrunBox)
    requires
        trun_duration(payload, default) is Ok,
        payload.len() <= usize::MAX,
    ensures
        t.fits(),
        t.bytes() == payload,
{
    let flags = full_header_was_written(payload, BoxKind::Trun);
    let (version, f, fields) = full_box_of(payload, BoxKind::Trun)->Ok_0;
    let count = be32_at(fields, 0);
    let has_offset = f & 0x1 != 0;
    let has_first = f & 0x4 != 0;
    let q1: int = 4;
    let q2 = q1 + bit_for(has_offset, 4);
    let pos = q2 + bit_for(has_first, 4);
    trun_front_was_there(fields, f, q2, pos);
    let w = sample_width(f);
    let has_durations = f & 0x100 != 0;
    let has_sizes = f & 0x200 != 0;
    let has_flags = f & 0x400 != 0;
    let has_offsets = f & 0x800 != 0;
    let p1 = pos + bit_for(has_durations, 4);
    let p2 = p1 + bit_for(has_sizes, 4);
    let p3 = p2 + bit_for(has_flags, 4);
    let t = TrunBox {
        version,
        data_offset: field_at(fields, q1, has_offset),
        first_flags: field_at(fields, q2, has_first),
        count: count as u32,
        durations: column_at(fields, pos, w, count, has_durations),
        sizes: column_at(fields, p1, w, count, has_sizes),
        sample_flags: column_at(fields, p2, w, count, has_flags),
        offsets: column_at(fields, p3, w, count, has_offsets),
    };
    trun_flags_are_those(t, f);
    number_is_written(fields, 0);
    field_was_written(fields, q1, has_offset);
    field_was_written(fields, q2, has_first);
    assert(trun_samples(fields, f, count, pos, default) is Ok);
    samples_were_there(fields, f, count, pos, default);
    table_was_written(t, fields, pos, count);
    trun_bytes_are_fields(t, fields, q2, pos);
    t
}

/// Where the samples of a track fragment run are read, their table fills it and no duration is zero.
proof fn samples_were_there(
    fields: Seq<u8>,
    f: u32,
    count: int,
    pos: int,
    default: Option<u32>,
)
    requires
        trun_samples(fields, f, count, pos, default) is Ok,
        0 <= pos,
        0 <= count,
    ensures
        pos + count * sample_width(f) == fields.len(),
        f & 0x100 != 0 ==> forall|i: int|
            0 <= i < count ==> #[trigger] column_at(
                fields,
                pos,
                sample_width(f),
                count,
                true,
            )->Some_0[i] != 0,
{
    let w = sample_width(f);
    if f & 0x100 != 0 {
        let column = column_at(fields, pos, w, count, true)->Some_0;
        assert forall|i: int| 0 <= i < count implies #[trigger] column[i] != 0 by {
            assert(sample_duration(fields, pos, w, i) != 0);
            assert(0 <= i * w && i * w + w <= count * w) by (nonlinear_arith)
                requires
                    0 <= i < count,
                    0 <= w,
            ;
            number_is_written(fields, pos + i * w);
        }
    }
}

/// Where the sample table of a track fragment run is found, the fields before it are there.
proof fn trun_front_was_there(fields: Seq<u8>, f: u32, q2: int, pos: int)
    requires
        trun_table(fields, f) is Ok,
        fields.len() >= 4,
        q2 == 4 + bit_for(f & 0x1 != 0, 4),
        pos == q2 + bit_for(f & 0x4 != 0, 4),
    ensures
        trun_table(fields, f) == Ok::<int, Failure>(pos),
        pos <= fields.len(),
{
    let offset = after_field(fields, Ok(4), f & 0x1 != 0, 4, Field::TrunDataOffset);
    assert(offset == Ok::<int, Failure>(q2));
}

/// The parts of a track fragment run fill it.
proof fn trun_bytes_are_fields(t: TrunBox, fields: Seq<u8>, q2: int, pos: int)
    requires
        4 <= q2 <= pos <= fields.len(),
        word(t.count) == fields.subrange(0, 4),
        optional(t.data_offset) == fields.subrange(4, q2),
        optional(t.first_flags) == fields.subrange(q2, pos),
        t.table(t.count as int) == fields.subrange(pos, fields.len() as int),
    ensures
        t.bytes() == full_header(t.version, t.flags()) + fields,
{
    row_is_a_range(
        fields,
        0,
        4,
        q2,
        pos,
        fields.len() as int,
        word(t.count),
        optional(t.data_offset),
        optional(t.first_flags),
        t.table(t.count as int),
    );
    assert(fields.subrange(0, fields.len() as int) =~= fields);
    let header = full_header(t.version, t.flags());
    assert(t.bytes() =~= header + (word(t.count) + optional(t.data_offset) + optional(
        t.first_flags,
    ) + t.table(t.count as int)));
}

/// A track fragment run is read exactly if it was written with at least one sample, with any of its
/// fields and of its four columns, four bytes for each entry, and with no duration of zero; it gives
/// the sum of the durations that were written or, where it has none, the default for each sample.
pub proof fn fragment_run_is_read_exactly_as_written(
    payload: Seq<u8>,
    default: Option<u32>,
    ticks: int,
)
    requires
        payload.len() <= usize::MAX,
    ensures
        trun_duration(payload, default) == Ok::<int, Failure>(ticks) <==> exists|t: TrunBox|
            #[trigger] t.bytes() == payload && t.fits() && t.duration(default) == Some(ticks),
{
    if trun_duration(payload, default) == Ok::<int, Failure>(ticks) {
        let t = trun_was_written(payload, default);
        trun_is_read(t, default);
        assert(t.bytes() == payload);
    }
    if exists|t: TrunBox| #[trigger]
        t.bytes() == payload && t.fits() && t.duration(default) == Some(ticks) {
        let t = choose|t: TrunBox| #[trigger]
            t.bytes() == payload && t.fits() && t.duration(default) == Some(ticks);
        trun_is_read(t, default);
    }
}

} // verus!
