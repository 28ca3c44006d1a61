//! That segments are read as they are written, and that nothing else is read.

use vstd::prelude::*;

use crate::bmff::{
    children, dated_field, fragment_duration, fragment_number, fragment_timing, has_kind, init_info,
    media_info, media_sequence_number, movie_default_duration, of_kind, sole, sole_children,
    sole_moof, tfhd_defaults, total_duration, track_timing, trex_defaults, trun_duration, BoxView,
    InitSegmentInfo, MediaSegmentInfo,
};
use crate::bmff_faults::{BoxKind, Container, Field};
use crate::bmff_laws::{
    dated_field_is_read_exactly_as_written, fragment_header_is_read_exactly_as_written,
    fragment_number_is_read_exactly_as_written, fragment_run_is_read_exactly_as_written,
    run_is_read, run_was_written, track_defaults_are_read_exactly_as_written,
};
use crate::bmff_writing::{
    contents, dated_bytes, dates_fit, holds_run, mfhd_bytes, no_box, only_box, run_bytes,
    trex_bytes, TfhdBox, TrunBox, WrittenBox,
};
use crate::error::{Error, Failure};
use crate::filter_laws::{
    nothing_is_picked, only_at, only_item_is_picked, picked_item_is_the_only_one,
};

verus! {

/// The test that picks the boxes of a type.
pub open spec fn has_code(code: Seq<u8>) -> spec_fn(BoxView) -> bool {
    |b: BoxView| b.code == code
}

/// The only box of a type is found exactly if there is one.
proof fn only_box_is_found(boxes: Seq<WrittenBox>, kind: BoxKind, parent: Container)
    ensures
        forall|k: int| #[trigger]
            only_box(boxes, kind.code(), k) ==> sole(contents(boxes), kind, parent) == Ok::<
                BoxView,
                Failure,
            >(boxes[k].content()),
        sole(contents(boxes), kind, parent) matches Ok(b) ==> exists|k: int| #[trigger]
            only_box(boxes, kind.code(), k) && b == boxes[k].content(),
        of_kind(contents(boxes), kind).len() == 0 <==> no_box(boxes, kind.code()),
        of_kind(contents(boxes), kind).len() == 1 ==> exists|k: int| #[trigger]
            only_box(boxes, kind.code(), k) && of_kind(contents(boxes), kind)[0]
                == boxes[k].content(),
        forall|k: int| #[trigger]
            only_box(boxes, kind.code(), k) ==> of_kind(contents(boxes), kind).len() == 1,
{
    let views = contents(boxes);
    let test = has_kind(kind);
    assert forall|k: int| #[trigger] only_box(boxes, kind.code(), k) implies sole(
        views,
        kind,
        parent,
    ) == Ok::<BoxView, Failure>(boxes[k].content()) && of_kind(views, kind).len() == 1 by {
        assert forall|j: int| 0 <= j < views.len() && j != k implies !test(#[trigger] views[j]) by {
            assert(boxes[j].code != kind.code());
        }
        assert(only_at(views, test, k));
        only_item_is_picked(views, test, k);
    }
    if of_kind(views, kind).len() == 1 {
        let k = picked_item_is_the_only_one(views, test);
        assert forall|j: int| 0 <= j < boxes.len() && j != k implies (#[trigger] boxes[j]).code
            != kind.code() by {
            assert(!test(views[j]));
        }
        assert(only_box(boxes, kind.code(), k));
    }
    nothing_is_picked(views, test);
    if no_box(boxes, kind.code()) {
        assert forall|j: int| 0 <= j < views.len() implies !test(#[trigger] views[j]) by {
            assert(boxes[j].code != kind.code());
        }
    }
    if of_kind(views, kind).len() == 0 {
        assert forall|j: int| 0 <= j < boxes.len() implies (#[trigger] boxes[j]).code
            != kind.code() by {
            assert(!test(views[j]));
        }
    }
}

/// A payload is not longer than the run that its box stands in.
proof fn payload_is_within(boxes: Seq<WrittenBox>, k: int)
    requires
        0 <= k < boxes.len(),
    ensures
        boxes[k].payload.len() <= run_bytes(boxes).len(),
    decreases boxes.len(),
{
    if k > 0 {
        payload_is_within(boxes.skip(1), k - 1);
    }
}

/// Data holds a run of boxes exactly if it is read so.
proof fn run_is_held(data: Seq<u8>, parent: Container)
    requires
        data.len() <= usize::MAX,
    ensures
        forall|boxes: Seq<WrittenBox>| #[trigger]
            holds_run(data, boxes) ==> children(data, parent) == Ok::<Seq<BoxView>, Failure>(
                contents(boxes),
            ),
        children(data, parent) matches Ok(views) ==> exists|boxes: Seq<WrittenBox>| #[trigger]
            holds_run(data, boxes) && contents(boxes) == views,
{
    assert forall|boxes: Seq<WrittenBox>| #[trigger] holds_run(data, boxes) implies children(
        data,
        parent,
    ) == Ok::<Seq<BoxView>, Failure>(contents(boxes)) by {
        run_is_read(boxes);
    }
    if children(data, parent) is Ok {
        let boxes = run_was_written(data, 0);
        assert(data.skip(0) =~= data);
        assert(holds_run(data, boxes));
    }
}

// Media segments.

/// The parts of a media segment.
pub struct MediaParts {
    pub top: Seq<WrittenBox>,
    pub moof_at: int,
    pub moof: Seq<WrittenBox>,
    pub mfhd_at: int,
    pub mfhd_tail: Seq<u8>,
    pub traf_at: int,
    pub traf: Seq<WrittenBox>,
    pub tfhd_at: int,
    pub tfhd: TfhdBox,
    pub truns: Seq<TrunBox>,
}

/// What the given track fragment runs look like as boxes.
pub open spec fn run_contents(truns: Seq<TrunBox>) -> Seq<BoxView> {
    Seq::new(
        truns.len(),
        |i: int|
            BoxView { code: seq![0x74u8, 0x72u8, 0x75u8, 0x6eu8], payload: truns[i].bytes() },
    )
}

/// Whether each of the given track fragment runs can be so and has a duration.
pub open spec fn runs_fit(truns: Seq<TrunBox>, default: Option<u32>) -> bool {
    forall|i: int|
        0 <= i < truns.len() ==> (#[trigger] truns[i]).fits() && truns[i].duration(default) is Some
}

/// The duration of the first `n` of the given track fragment runs together.
pub open spec fn total_ticks(truns: Seq<TrunBox>, default: Option<u32>, n: int) -> int
    decreases n,
{
    if n <= 0 {
        0
    } else {
        total_ticks(truns, default, n - 1) + truns[n - 1].duration(default)->Some_0
    }
}

impl MediaParts {
    /// The default sample duration: that of the track fragment header or else that of the
    /// initialization segment.
    pub open spec fn default(self, init_default: Option<u32>) -> Option<u32> {
        if self.tfhd.default_duration is Some {
            self.tfhd.default_duration
        } else {
            init_default
        }
    }

    /// Whether a segment has one movie fragment with these parts: a header with a number, and one
    /// track fragment, which is a run of boxes.
    pub open spec fn numbers(self, data: Seq<u8>, number: u32) -> bool {
        &&& holds_run(data, self.top)
        &&& only_box(self.top, seq![0x6du8, 0x6fu8, 0x6fu8, 0x66u8], self.moof_at)
        &&& holds_run(self.top[self.moof_at].payload, self.moof)
        &&& only_box(self.moof, seq![0x6du8, 0x66u8, 0x68u8, 0x64u8], self.mfhd_at)
        &&& self.moof[self.mfhd_at].payload == mfhd_bytes(number, self.mfhd_tail)
        &&& only_box(self.moof, seq![0x74u8, 0x72u8, 0x61u8, 0x66u8], self.traf_at)
        &&& holds_run(self.moof[self.traf_at].payload, self.traf)
    }

    /// Whether a segment has these parts and says so much of its number, its track and its duration:
    /// the track fragment has one header, with the track, and at least one run of samples, and the
    /// durations of the runs add up to that of the segment, which is not zero.
    pub open spec fn describes(
        self,
        data: Seq<u8>,
        init_default: Option<u32>,
        info: MediaSegmentInfo,
    ) -> bool {
        &&& self.numbers(data, info.sequence_number)
        &&& only_box(self.traf, seq![0x74u8, 0x66u8, 0x68u8, 0x64u8], self.tfhd_at)
        &&& self.traf[self.tfhd_at].payload == self.tfhd.bytes()
        &&& self.tfhd.fits()
        &&& self.tfhd.track_id == info.track_id
        &&& contents(self.traf).filter(has_code(seq![0x74u8, 0x72u8, 0x75u8, 0x6eu8]))
            == run_contents(self.truns)
        &&& self.truns.len() > 0
        &&& runs_fit(self.truns, self.default(init_default))
        &&& total_ticks(self.truns, self.default(init_default), self.truns.len() as int)
            == info.duration_ticks
        &&& info.duration_ticks > 0
    }
}

/// Runs of samples that were written add up.
proof fn written_runs_add_up(truns: Seq<TrunBox>, default: Option<u32>, n: int)
    requires
        0 <= n <= truns.len(),
        runs_fit(truns, default),
        forall|i: int| 0 <= i < truns.len() ==> (#[trigger] truns[i]).bytes().len() <= usize::MAX,
        total_ticks(truns, default, truns.len() as int) <= u32::MAX,
    ensures
        total_duration(run_contents(truns).take(n), default) == Ok::<int, Failure>(
            total_ticks(truns, default, n),
        ),
        0 <= total_ticks(truns, default, n) <= total_ticks(truns, default, truns.len() as int),
    decreases n,
{
    ticks_grow(truns, default, n, truns.len() as int);
    let views = run_contents(truns).take(n);
    if n > 0 {
        written_runs_add_up(truns, default, n - 1);
        assert(views.drop_last() =~= run_contents(truns).take(n - 1));
        let t = truns[n - 1];
        assert(views.last().payload == t.bytes());
        fragment_run_is_read_exactly_as_written(
            t.bytes(),
            default,
            t.duration(default)->Some_0,
        );
        assert(t.bytes() == t.bytes());
        assert(t.fits());
    }
}

/// Durations of runs only add.
proof fn ticks_grow(truns: Seq<TrunBox>, default: Option<u32>, n: int, m: int)
    requires
        0 <= n <= m <= truns.len(),
        runs_fit(truns, default),
    ensures
        0 <= total_ticks(truns, default, n) <= total_ticks(truns, default, m),
    decreases m,
{
    if m > 0 {
        duration_is_natural(truns[m - 1], default);
        assert(truns[m - 1].fits());
        if n == m {
            ticks_grow(truns, default, n - 1, m - 1);
        } else {
            ticks_grow(truns, default, n, m - 1);
        }
    }
}

proof fn duration_is_natural(t: TrunBox, default: Option<u32>)
    ensures
        t.duration(default) is Some ==> t.duration(default)->Some_0 >= 0,
{
    match t.durations {
        Some(values) => sum_is_natural(values, t.count as int),
        None => {
            if default is Some {
                let a = default->Some_0 as int;
                let b = t.count as int;
                assert(a * b >= 0) by (nonlinear_arith)
                    requires
                        a >= 0,
                        b >= 0,
                ;
            }
        },
    }
}

proof fn sum_is_natural(values: Seq<u32>, n: int)
    ensures
        crate::bmff_writing::sum(values, n) >= 0,
    decreases n,
{
    if n > 0 {
        sum_is_natural(values, n - 1);
    }
}

/// Runs of samples that are read were written.
proof fn read_runs_were_written(views: Seq<BoxView>, default: Option<u32>) -> (truns: Seq<TrunBox>)
    requires
        total_duration(views, default) is Ok,
        forall|i: int|
            0 <= i < views.len() ==> (#[trigger] views[i]).payload.len() <= usize::MAX
                && views[i].code == BoxKind::Trun.code(),
    ensures
        run_contents(truns) == views,
        runs_fit(truns, default),
        total_ticks(truns, default, truns.len() as int) == total_duration(views, default)->Ok_0,
    decreases views.len(),
{
    if views.len() == 0 {
        let truns = Seq::<TrunBox>::empty();
        assert(run_contents(truns) =~= views);
        truns
    } else {
        assert forall|i: int| 0 <= i < views.drop_last().len() implies (
        #[trigger] views.drop_last()[i]).payload.len() <= usize::MAX && views.drop_last()[i].code
            == BoxKind::Trun.code() by {
            assert(views[i].payload.len() <= usize::MAX);
        }
        let front = read_runs_were_written(views.drop_last(), default);
        let payload = views.last().payload;
        assert(views[views.len() - 1].payload.len() <= usize::MAX);
        let ticks = trun_duration(payload, default)->Ok_0;
        fragment_run_is_read_exactly_as_written(payload, default, ticks);
        let t = choose|t: TrunBox| #[trigger]
            t.bytes() == payload && t.fits() && t.duration(default) == Some(ticks);
        let truns = front.push(t);
        assert(run_contents(truns) =~= views) by {
            assert forall|i: int| 0 <= i < views.len() implies run_contents(truns)[i]
                == views[i] by {
                if i < front.len() {
                    assert(run_contents(front)[i] == views.drop_last()[i]);
                }
            }
            assert(run_contents(front).len() == front.len());
        }
        assert forall|i: int| 0 <= i < truns.len() implies (#[trigger] truns[i]).fits()
            && truns[i].duration(default) is Some by {
            if i < front.len() {
                assert(front[i].fits());
            }
        }
        same_ticks(front, truns, default, front.len() as int);
        truns
    }
}

proof fn same_ticks(a: Seq<TrunBox>, b: Seq<TrunBox>, default: Option<u32>, n: int)
    requires
        0 <= n <= a.len() <= b.len(),
        forall|i: int| 0 <= i < a.len() ==> #[trigger] a[i] == b[i],
    ensures
        total_ticks(a, default, n) == total_ticks(b, default, n),
    decreases n,
{
    if n > 0 {
        same_ticks(a, b, default, n - 1);
        assert(a[n - 1] == b[n - 1]);
    }
}

/// The items that are picked are items of the sequence.
proof fn picked_are_items(views: Seq<BoxView>, test: spec_fn(BoxView) -> bool, i: int)
    requires
        0 <= i < views.filter(test).len(),
    ensures
        exists|j: int| 0 <= j < views.len() && #[trigger] views[j] == views.filter(test)[i],
        test(views.filter(test)[i]),
    decreases views.len(),
{
    reveal(Seq::filter);
    if views.len() > 0 {
        let front = views.drop_last();
        if i < front.filter(test).len() {
            picked_are_items(front, test, i);
            let j = choose|j: int|
                0 <= j < front.len() && #[trigger] front[j] == front.filter(test)[i];
            assert(views[j] == views.filter(test)[i]);
        } else {
            assert(views[views.len() - 1] == views.filter(test)[i]);
        }
    }
}

/// The number of a segment is read exactly if it was written so.
proof fn number_is_read_as_written(data: Seq<u8>, number: u32)
    requires
        data.len() <= usize::MAX,
    ensures
        media_sequence_number(data) == Some(number) <==> exists|parts: MediaParts| #[trigger]
            parts.numbers(data, number),
{
    if media_sequence_number(data) == Some(number) {
        let parts = parts_with_number(data, number, arbitrary());
        assert(parts.numbers(data, number));
    }
    if exists|parts: MediaParts| #[trigger] parts.numbers(data, number) {
        let parts = choose|parts: MediaParts| #[trigger] parts.numbers(data, number);
        numbered_parts_are_read(data, number, parts);
    }
}

/// A segment whose number is read has the parts that give it.
proof fn parts_with_number(data: Seq<u8>, number: u32, given: MediaParts) -> (parts: MediaParts)
    requires
        data.len() <= usize::MAX,
        media_sequence_number(data) == Some(number),
    ensures
        parts.numbers(data, number),
        sole_moof(data) == Ok::<Seq<BoxView>, Failure>(contents(parts.moof)),
        sole_children(contents(parts.moof), BoxKind::Traf, Container::Moof, Container::Traf)
            == Ok::<Seq<BoxView>, Failure>(contents(parts.traf)),
        parts.moof[parts.traf_at].payload.len() <= usize::MAX,
        parts.tfhd_at == given.tfhd_at,
        parts.tfhd == given.tfhd,
        parts.truns == given.truns,
{
    run_is_held(data, Container::MediaSegment);
    let top = choose|boxes: Seq<WrittenBox>| #[trigger]
        holds_run(data, boxes) && contents(boxes) == children(data, Container::MediaSegment)->Ok_0;
    only_box_is_found(top, BoxKind::Moof, Container::MediaSegment);
    let moof_at = choose|k: int| #[trigger]
        only_box(top, BoxKind::Moof.code(), k) && sole(
            contents(top),
            BoxKind::Moof,
            Container::MediaSegment,
        )->Ok_0 == top[k].content();
    payload_is_within(top, moof_at);
    let moof_bytes = top[moof_at].payload;
    run_is_held(moof_bytes, Container::Moof);
    let moof = choose|boxes: Seq<WrittenBox>| #[trigger]
        holds_run(moof_bytes, boxes) && contents(boxes) == children(
            moof_bytes,
            Container::Moof,
        )->Ok_0;
    only_box_is_found(moof, BoxKind::Mfhd, Container::Moof);
    let mfhd_at = choose|k: int| #[trigger]
        only_box(moof, BoxKind::Mfhd.code(), k) && sole(
            contents(moof),
            BoxKind::Mfhd,
            Container::Moof,
        )->Ok_0 == moof[k].content();
    payload_is_within(moof, mfhd_at);
    fragment_number_is_read_exactly_as_written(moof[mfhd_at].payload, number);
    let mfhd_tail = choose|tail: Seq<u8>| #[trigger]
        mfhd_bytes(number, tail) == moof[mfhd_at].payload;
    only_box_is_found(moof, BoxKind::Traf, Container::Moof);
    let traf_at = choose|k: int| #[trigger]
        only_box(moof, BoxKind::Traf.code(), k) && sole(
            contents(moof),
            BoxKind::Traf,
            Container::Moof,
        )->Ok_0 == moof[k].content();
    payload_is_within(moof, traf_at);
    let traf_bytes = moof[traf_at].payload;
    run_is_held(traf_bytes, Container::Traf);
    let traf = choose|boxes: Seq<WrittenBox>| #[trigger]
        holds_run(traf_bytes, boxes) && contents(boxes) == children(
            traf_bytes,
            Container::Traf,
        )->Ok_0;
    MediaParts { top, moof_at, moof, mfhd_at, mfhd_tail, traf_at, traf, ..given }
}

/// Parts that give a number are read so.
proof fn numbered_parts_are_read(data: Seq<u8>, number: u32, parts: MediaParts)
    requires
        data.len() <= usize::MAX,
        parts.numbers(data, number),
    ensures
        media_sequence_number(data) == Some(number),
        sole_moof(data) == Ok::<Seq<BoxView>, Failure>(contents(parts.moof)),
        fragment_number(contents(parts.moof)) == Ok::<u32, Failure>(number),
        sole_children(contents(parts.moof), BoxKind::Traf, Container::Moof, Container::Traf)
            == Ok::<Seq<BoxView>, Failure>(contents(parts.traf)),
        parts.moof[parts.traf_at].payload.len() <= usize::MAX,
{
    run_is_held(data, Container::MediaSegment);
    only_box_is_found(parts.top, BoxKind::Moof, Container::MediaSegment);
    assert(only_box(parts.top, BoxKind::Moof.code(), parts.moof_at));
    payload_is_within(parts.top, parts.moof_at);
    run_is_held(parts.top[parts.moof_at].payload, Container::Moof);
    only_box_is_found(parts.moof, BoxKind::Mfhd, Container::Moof);
    assert(only_box(parts.moof, BoxKind::Mfhd.code(), parts.mfhd_at));
    payload_is_within(parts.moof, parts.mfhd_at);
    fragment_number_is_read_exactly_as_written(parts.moof[parts.mfhd_at].payload, number);
    assert(mfhd_bytes(number, parts.mfhd_tail) == parts.moof[parts.mfhd_at].payload);
    only_box_is_found(parts.moof, BoxKind::Traf, Container::Moof);
    assert(only_box(parts.moof, BoxKind::Traf.code(), parts.traf_at));
    payload_is_within(parts.moof, parts.traf_at);
    run_is_held(parts.moof[parts.traf_at].payload, Container::Traf);
}

/// The runs of samples of a track fragment are the boxes of that type.
proof fn runs_are_picked(traf: Seq<WrittenBox>, bytes: Seq<u8>)
    requires
        holds_run(bytes, traf),
        bytes.len() <= usize::MAX,
    ensures
        of_kind(contents(traf), BoxKind::Trun) == contents(traf).filter(
            has_code(seq![0x74u8, 0x72u8, 0x75u8, 0x6eu8]),
        ),
        forall|i: int|
            0 <= i < of_kind(contents(traf), BoxKind::Trun).len() ==> (#[trigger] of_kind(
                contents(traf),
                BoxKind::Trun,
            )[i]).payload.len() <= usize::MAX && of_kind(contents(traf), BoxKind::Trun)[i].code
                == BoxKind::Trun.code(),
{
    let code = seq![0x74u8, 0x72u8, 0x75u8, 0x6eu8];
    assert(has_kind(BoxKind::Trun) =~= has_code(code));
    let picked = of_kind(contents(traf), BoxKind::Trun);
    assert forall|i: int| 0 <= i < picked.len() implies (#[trigger] picked[i]).payload.len()
        <= usize::MAX && picked[i].code == BoxKind::Trun.code() by {
        picked_are_items(contents(traf), has_kind(BoxKind::Trun), i);
        let j = choose|j: int|
            0 <= j < contents(traf).len() && #[trigger] contents(traf)[j] == picked[i];
        payload_is_within(traf, j);
        assert(traf[j].content() == picked[i]);
    }
}

/// A media segment that is read has the parts that describe it.
proof fn read_segment_has_parts(data: Seq<u8>, init_default: Option<u32>) -> (parts: MediaParts)
    requires
        data.len() <= usize::MAX,
        media_info(data, init_default) is Ok,
    ensures
        parts.describes(data, init_default, media_info(data, init_default)->Ok_0),
{
    let info = media_info(data, init_default)->Ok_0;
    assert(media_sequence_number(data) == Some(info.sequence_number));
    let found = parts_with_number(data, info.sequence_number, arbitrary());
    let traf = found.traf;
    only_box_is_found(traf, BoxKind::Tfhd, Container::Traf);
    let tfhd_at = choose|k: int| #[trigger]
        only_box(traf, BoxKind::Tfhd.code(), k) && sole(
            contents(traf),
            BoxKind::Tfhd,
            Container::Traf,
        )->Ok_0 == traf[k].content();
    payload_is_within(traf, tfhd_at);
    let (track_id, duration) = tfhd_defaults(traf[tfhd_at].payload)->Ok_0;
    fragment_header_is_read_exactly_as_written(traf[tfhd_at].payload, track_id, duration);
    let tfhd = choose|t: TfhdBox| #[trigger]
        t.bytes() == traf[tfhd_at].payload && t.fits() && t.track_id == track_id
            && t.default_duration == duration;
    let default = if duration is Some {
        duration
    } else {
        init_default
    };
    runs_are_picked(traf, found.moof[found.traf_at].payload);
    let picked = of_kind(contents(traf), BoxKind::Trun);
    let truns = read_runs_were_written(picked, default);
    assert(run_contents(truns).len() == truns.len());
    let parts = MediaParts { tfhd_at, tfhd, truns, ..found };
    assert(parts.numbers(data, info.sequence_number));
    assert(parts.default(init_default) == default);
    assert(fragment_timing(contents(traf), init_default) == Ok::<(u32, u32), Failure>(
        (info.track_id, info.duration_ticks),
    ));
    assert(fragment_duration(contents(traf), default) == Ok::<u32, Failure>(info.duration_ticks));
    ticks_grow(truns, default, 0, truns.len() as int);
    parts
}

/// Parts that describe a segment are read so.
proof fn described_segment_is_read(
    data: Seq<u8>,
    init_default: Option<u32>,
    info: MediaSegmentInfo,
    parts: MediaParts,
)
    requires
        data.len() <= usize::MAX,
        parts.describes(data, init_default, info),
    ensures
        media_info(data, init_default) == Ok::<MediaSegmentInfo, Failure>(info),
{
    numbered_parts_are_read(data, info.sequence_number, parts);
    let traf = parts.traf;
    let default = parts.default(init_default);
    only_box_is_found(traf, BoxKind::Tfhd, Container::Traf);
    assert(only_box(traf, BoxKind::Tfhd.code(), parts.tfhd_at));
    payload_is_within(traf, parts.tfhd_at);
    fragment_header_is_read_exactly_as_written(
        traf[parts.tfhd_at].payload,
        info.track_id,
        parts.tfhd.default_duration,
    );
    assert(parts.tfhd.bytes() == traf[parts.tfhd_at].payload);
    runs_are_picked(traf, parts.moof[parts.traf_at].payload);
    let picked = of_kind(contents(traf), BoxKind::Trun);
    assert(picked == run_contents(parts.truns));
    assert forall|i: int| 0 <= i < parts.truns.len() implies (#[trigger] parts.truns[i]).bytes().len()
        <= usize::MAX by {
        assert(picked[i].payload == parts.truns[i].bytes());
    }
    written_runs_add_up(parts.truns, default, parts.truns.len() as int);
    assert(picked.take(picked.len() as int) =~= picked);
}

/// A media segment is read exactly if it was written with one movie fragment that has one header and
/// one track fragment, with one header and at least one run of samples; number, track and duration are
/// those that were written, and the duration is the sum over all runs.
pub proof fn media_segment_is_read_exactly_as_written(
    data: &[u8],
    init_default: Option<u32>,
    r: Result<MediaSegmentInfo, Error>,
    info: MediaSegmentInfo,
)
    requires
        call_ensures(crate::bmff::parse_media_segment, (data, init_default), r),
    ensures
        r == Ok::<MediaSegmentInfo, Error>(info) <==> exists|parts: MediaParts| #[trigger]
            parts.describes(data@, init_default, info),
{
    assert(data@.len() == data.len());
    if r == Ok::<MediaSegmentInfo, Error>(info) {
        let parts = read_segment_has_parts(data@, init_default);
        assert(parts.describes(data@, init_default, info));
    }
    if exists|parts: MediaParts| #[trigger] parts.describes(data@, init_default, info) {
        let parts = choose|parts: MediaParts| #[trigger]
            parts.describes(data@, init_default, info);
        described_segment_is_read(data@, init_default, info, parts);
    }
}

/// The number of a media segment is read exactly if it was written in one movie fragment with one
/// header and one track fragment, which is a run of boxes.
pub proof fn segment_number_is_read_exactly_as_written(data: &[u8], r: Option<u32>, number: u32)
    requires
        call_ensures(crate::bmff::moof_sequence_number, (data,), r),
    ensures
        r == Some(number) <==> exists|parts: MediaParts| #[trigger] parts.numbers(data@, number),
{
    assert(data@.len() == data.len());
    number_is_read_as_written(data@, number);
}

// Initialization segments.

/// The parts of a header with two dates, but for the field behind them.
pub struct DatedParts {
    pub version: u8,
    pub flags: int,
    pub dates: Seq<u8>,
    pub tail: Seq<u8>,
}

impl DatedParts {
    /// Whether a payload is such a header with the given field.
    pub open spec fn holds(self, payload: Seq<u8>, field: u32) -> bool {
        &&& dates_fit(self.version, self.flags, self.dates)
        &&& dated_bytes(self.version, self.flags, self.dates, field, self.tail) == payload
    }
}

/// The parts of an initialization segment.
pub struct InitParts {
    pub top: Seq<WrittenBox>,
    pub moov_at: int,
    pub moov: Seq<WrittenBox>,
    pub trak_at: int,
    pub trak: Seq<WrittenBox>,
    pub tkhd_at: int,
    pub tkhd: DatedParts,
    pub mdia_at: int,
    pub mdia: Seq<WrittenBox>,
    pub mdhd_at: int,
    pub mdhd: DatedParts,
    pub extends: Option<ExtendsParts>,
}

/// The parts of the box that extends the movie by fragments.
pub struct ExtendsParts {
    pub at: int,
    pub boxes: Seq<WrittenBox>,
    pub trex_at: int,
    pub description: u32,
    pub duration: u32,
    pub size: u32,
    pub flags: u32,
}

impl ExtendsParts {
    /// Whether a movie has these parts and gives its track so much as default duration.
    pub open spec fn describes(
        self,
        moov: Seq<WrittenBox>,
        track_id: u32,
        default: Option<u32>,
    ) -> bool {
        &&& only_box(moov, seq![0x6du8, 0x76u8, 0x65u8, 0x78u8], self.at)
        &&& holds_run(moov[self.at].payload, self.boxes)
        &&& only_box(self.boxes, seq![0x74u8, 0x72u8, 0x65u8, 0x78u8], self.trex_at)
        &&& self.boxes[self.trex_at].payload == trex_bytes(
            track_id,
            self.description,
            self.duration,
            self.size,
            self.flags,
        )
        &&& default == if self.duration == 0 {
            None
        } else {
            Some(self.duration)
        }
    }
}

impl InitParts {
    /// Whether a segment has one track with these parts, and the track has the given identifier and
    /// timescale.
    pub open spec fn has_track(self, data: Seq<u8>, track_id: u32, timescale: u32) -> bool {
        &&& holds_run(data, self.top)
        &&& no_box(self.top, seq![0x6du8, 0x64u8, 0x61u8, 0x74u8])
        &&& only_box(self.top, seq![0x6du8, 0x6fu8, 0x6fu8, 0x76u8], self.moov_at)
        &&& holds_run(self.top[self.moov_at].payload, self.moov)
        &&& only_box(self.moov, seq![0x74u8, 0x72u8, 0x61u8, 0x6bu8], self.trak_at)
        &&& holds_run(self.moov[self.trak_at].payload, self.trak)
        &&& only_box(self.trak, seq![0x74u8, 0x6bu8, 0x68u8, 0x64u8], self.tkhd_at)
        &&& self.tkhd.holds(self.trak[self.tkhd_at].payload, track_id)
        &&& track_id != 0
        &&& only_box(self.trak, seq![0x6du8, 0x64u8, 0x69u8, 0x61u8], self.mdia_at)
        &&& holds_run(self.trak[self.mdia_at].payload, self.mdia)
        &&& only_box(self.mdia, seq![0x6du8, 0x64u8, 0x68u8, 0x64u8], self.mdhd_at)
        &&& self.mdhd.holds(self.mdia[self.mdhd_at].payload, timescale)
        &&& timescale != 0
    }

    /// Whether a segment has these parts and says so much of its track: no media data, one movie with
    /// one track that has an identifier and a timescale, and the default duration of the box that
    /// extends the movie, if there is one, for that track.
    pub open spec fn describes(self, data: Seq<u8>, info: InitSegmentInfo) -> bool {
        &&& self.has_track(data, info.track_id, info.timescale)
        &&& match self.extends {
            None => no_box(self.moov, seq![0x6du8, 0x76u8, 0x65u8, 0x78u8])
                && info.default_sample_duration is None,
            Some(parts) => parts.describes(self.moov, info.track_id, info.default_sample_duration),
        }
    }
}

/// A field behind two dates that is read has the parts that give it.
proof fn dated_parts(payload: Seq<u8>, kind: BoxKind, field: Field) -> (parts: DatedParts)
    requires
        payload.len() <= usize::MAX,
        dated_field(payload, kind, field) is Ok,
    ensures
        parts.holds(payload, dated_field(payload, kind, field)->Ok_0),
{
    let x = dated_field(payload, kind, field)->Ok_0;
    dated_field_is_read_exactly_as_written(payload, kind, field, x);
    let (version, flags, dates, tail) = choose|
        version: u8,
        flags: int,
        dates: Seq<u8>,
        tail: Seq<u8>,
    | #[trigger]
        dated_bytes(version, flags, dates, x, tail) == payload && dates_fit(version, flags, dates);
    DatedParts { version, flags, dates, tail }
}

/// The only box of a type among those that are read.
proof fn place_of(boxes: Seq<WrittenBox>, kind: BoxKind, parent: Container) -> (k: int)
    requires
        sole(contents(boxes), kind, parent) is Ok,
    ensures
        only_box(boxes, kind.code(), k),
        sole(contents(boxes), kind, parent)->Ok_0 == boxes[k].content(),
        boxes[k].payload.len() <= run_bytes(boxes).len(),
{
    only_box_is_found(boxes, kind, parent);
    let k = choose|k: int| #[trigger]
        only_box(boxes, kind.code(), k) && sole(contents(boxes), kind, parent)->Ok_0
            == boxes[k].content();
    payload_is_within(boxes, k);
    k
}

/// The boxes that data holds, where it is read as a run of boxes.
proof fn held_run(data: Seq<u8>, parent: Container) -> (boxes: Seq<WrittenBox>)
    requires
        data.len() <= usize::MAX,
        children(data, parent) is Ok,
    ensures
        holds_run(data, boxes),
        contents(boxes) == children(data, parent)->Ok_0,
{
    run_is_held(data, parent);
    choose|boxes: Seq<WrittenBox>| #[trigger]
        holds_run(data, boxes) && contents(boxes) == children(data, parent)->Ok_0
}

/// The box that extends a movie has the parts that give the default duration.
proof fn extends_parts(moov: Seq<WrittenBox>, bytes: Seq<u8>, track_id: u32) -> (parts: ExtendsParts)
    requires
        holds_run(bytes, moov),
        bytes.len() <= usize::MAX,
        movie_default_duration(contents(moov), track_id) is Ok,
        of_kind(contents(moov), BoxKind::Mvex).len() == 1,
    ensures
        parts.describes(moov, track_id, movie_default_duration(contents(moov), track_id)->Ok_0),
{
    only_box_is_found(moov, BoxKind::Mvex, Container::Moov);
    let at = choose|k: int| #[trigger]
        only_box(moov, BoxKind::Mvex.code(), k) && of_kind(contents(moov), BoxKind::Mvex)[0]
            == moov[k].content();
    payload_is_within(moov, at);
    let boxes = held_run(moov[at].payload, Container::Mvex);
    let trex_at = place_of(boxes, BoxKind::Trex, Container::Mvex);
    let payload = boxes[trex_at].payload;
    let (_id, default) = trex_defaults(payload)->Ok_0;
    let duration = if default is Some {
        default->Some_0
    } else {
        0
    };
    assert(default != Some(0u32));
    track_defaults_are_read_exactly_as_written(payload, track_id, duration);
    let (description, size, flags) = choose|description: u32, size: u32, flags: u32| #[trigger]
        trex_bytes(track_id, description, duration, size, flags) == payload;
    ExtendsParts { at, boxes, trex_at, description, duration, size, flags }
}

/// An initialization segment that is read has the parts that describe it.
proof fn read_init_has_parts(data: Seq<u8>) -> (parts: InitParts)
    requires
        data.len() <= usize::MAX,
        init_info(data) is Ok,
    ensures
        parts.describes(data, init_info(data)->Ok_0),
{
    let info = init_info(data)->Ok_0;
    let top = held_run(data, Container::InitSegment);
    only_box_is_found(top, BoxKind::Mdat, Container::InitSegment);
    assert(no_box(top, BoxKind::Mdat.code()));
    let moov_at = place_of(top, BoxKind::Moov, Container::InitSegment);
    let moov = held_run(top[moov_at].payload, Container::Moov);
    let trak_at = place_of(moov, BoxKind::Trak, Container::Moov);
    let trak = held_run(moov[trak_at].payload, Container::Trak);
    let tkhd_at = place_of(trak, BoxKind::Tkhd, Container::Trak);
    let tkhd = dated_parts(trak[tkhd_at].payload, BoxKind::Tkhd, Field::TkhdTrackId);
    let mdia_at = place_of(trak, BoxKind::Mdia, Container::Trak);
    let mdia = held_run(trak[mdia_at].payload, Container::Mdia);
    let mdhd_at = place_of(mdia, BoxKind::Mdhd, Container::Mdia);
    let mdhd = dated_parts(mdia[mdhd_at].payload, BoxKind::Mdhd, Field::MdhdTimescale);
    only_box_is_found(moov, BoxKind::Mvex, Container::Moov);
    let extends = if of_kind(contents(moov), BoxKind::Mvex).len() == 0 {
        None
    } else {
        Some(extends_parts(moov, top[moov_at].payload, info.track_id))
    };
    InitParts {
        top,
        moov_at,
        moov,
        trak_at,
        trak,
        tkhd_at,
        tkhd,
        mdia_at,
        mdia,
        mdhd_at,
        mdhd,
        extends,
    }
}

/// Parts of a header with two dates are read so.
proof fn dated_parts_are_read(
    payload: Seq<u8>,
    kind: BoxKind,
    field: Field,
    x: u32,
    parts: DatedParts,
)
    requires
        payload.len() <= usize::MAX,
        parts.holds(payload, x),
    ensures
        dated_field(payload, kind, field) == Ok::<u32, Failure>(x),
{
    dated_field_is_read_exactly_as_written(payload, kind, field, x);
    assert(dated_bytes(parts.version, parts.flags, parts.dates, x, parts.tail) == payload);
}

/// The only box of a type is read.
proof fn only_box_is_read(boxes: Seq<WrittenBox>, kind: BoxKind, parent: Container, k: int)
    requires
        only_box(boxes, kind.code(), k),
    ensures
        sole(contents(boxes), kind, parent) == Ok::<BoxView, Failure>(boxes[k].content()),
        boxes[k].payload.len() <= run_bytes(boxes).len(),
{
    only_box_is_found(boxes, kind, parent);
    payload_is_within(boxes, k);
}

/// Parts that extend a movie are read so.
proof fn extends_parts_are_read(
    moov: Seq<WrittenBox>,
    bytes: Seq<u8>,
    track_id: u32,
    default: Option<u32>,
    parts: ExtendsParts,
)
    requires
        holds_run(bytes, moov),
        bytes.len() <= usize::MAX,
        track_id != 0,
        parts.describes(moov, track_id, default),
    ensures
        movie_default_duration(contents(moov), track_id) == Ok::<Option<u32>, Failure>(default),
{
    only_box_is_found(moov, BoxKind::Mvex, Container::Moov);
    only_box_is_read(moov, BoxKind::Mvex, Container::Moov, parts.at);
    let payload = moov[parts.at].payload;
    assert(of_kind(contents(moov), BoxKind::Mvex)[0] == moov[parts.at].content());
    run_is_held(payload, Container::Mvex);
    only_box_is_read(parts.boxes, BoxKind::Trex, Container::Mvex, parts.trex_at);
    let trex = parts.boxes[parts.trex_at].payload;
    track_defaults_are_read_exactly_as_written(trex, track_id, parts.duration);
    assert(trex_bytes(
        track_id,
        parts.description,
        parts.duration,
        parts.size,
        parts.flags,
    ) == trex);
}

/// Parts that describe an initialization segment are read so.
proof fn described_init_is_read(data: Seq<u8>, info: InitSegmentInfo, parts: InitParts)
    requires
        data.len() <= usize::MAX,
        parts.describes(data, info),
    ensures
        init_info(data) == Ok::<InitSegmentInfo, Failure>(info),
{
    run_is_held(data, Container::InitSegment);
    only_box_is_found(parts.top, BoxKind::Mdat, Container::InitSegment);
    assert(no_box(parts.top, BoxKind::Mdat.code()));
    only_box_is_read(parts.top, BoxKind::Moov, Container::InitSegment, parts.moov_at);
    let moov_bytes = parts.top[parts.moov_at].payload;
    run_is_held(moov_bytes, Container::Moov);
    only_box_is_read(parts.moov, BoxKind::Trak, Container::Moov, parts.trak_at);
    run_is_held(parts.moov[parts.trak_at].payload, Container::Trak);
    only_box_is_read(parts.trak, BoxKind::Tkhd, Container::Trak, parts.tkhd_at);
    dated_parts_are_read(
        parts.trak[parts.tkhd_at].payload,
        BoxKind::Tkhd,
        Field::TkhdTrackId,
        info.track_id,
        parts.tkhd,
    );
    only_box_is_read(parts.trak, BoxKind::Mdia, Container::Trak, parts.mdia_at);
    run_is_held(parts.trak[parts.mdia_at].payload, Container::Mdia);
    only_box_is_read(parts.mdia, BoxKind::Mdhd, Container::Mdia, parts.mdhd_at);
    dated_parts_are_read(
        parts.mdia[parts.mdhd_at].payload,
        BoxKind::Mdhd,
        Field::MdhdTimescale,
        info.timescale,
        parts.mdhd,
    );
    assert(track_timing(contents(parts.trak)) == Ok::<(u32, u32), Failure>(
        (info.track_id, info.timescale),
    ));
    match parts.extends {
        None => {
            only_box_is_found(parts.moov, BoxKind::Mvex, Container::Moov);
            assert(no_box(parts.moov, BoxKind::Mvex.code()));
        },
        Some(extends) => {
            extends_parts_are_read(
                parts.moov,
                moov_bytes,
                info.track_id,
                info.default_sample_duration,
                extends,
            );
        },
    }
}

/// An initialization segment is read exactly if it was written without media data and with one movie
/// that has one track, with an identifier and a timescale, and at most one box that extends it, for
/// that track; identifier, timescale and default duration are those that were written.
pub proof fn init_segment_is_read_exactly_as_written(
    data: &[u8],
    r: Result<InitSegmentInfo, Error>,
    info: InitSegmentInfo,
)
    requires
        call_ensures(crate::bmff::parse_init_segment, (data,), r),
    ensures
        r == Ok::<InitSegmentInfo, Error>(info) <==> exists|parts: InitParts| #[trigger]
            parts.describes(data@, info),
{
    assert(data@.len() == data.len());
    if r == Ok::<InitSegmentInfo, Error>(info) {
        let parts = read_init_has_parts(data@);
        assert(parts.describes(data@, info));
    }
    if exists|parts: InitParts| #[trigger] parts.describes(data@, info) {
        let parts = choose|parts: InitParts| #[trigger] parts.describes(data@, info);
        described_init_is_read(data@, info, parts);
    }
}

} // verus!
