//! Checked ISO BMFF parsing for the single-track live video profile.
//!
//! A segment is a run of boxes, and the payload of a container box is again a run of boxes. The
//! contracts read such a run as a sequence of [`BoxView`]s and say of each box that the profile
//! needs what its fields mean; the parsers compute exactly that.

use vstd::prelude::*;
use vstd::slice::slice_subrange;

use crate::bmff_faults::{BmffFault, BoxKind, Container, Field, HeaderFault};
use crate::bytes::{be32_at, be64_at, read_be32, read_be64, same_bytes};
use crate::error::{agrees, Error, Failure};

verus! {

/// Track timing of an initialization segment.
#[derive(Clone, Copy, Debug, PartialEq, Eq, Structural)]
pub struct InitSegmentInfo {
    /// Identifier of the only track.
    pub track_id: u32,
    /// Ticks per second of the track.
    pub timescale: u32,
    /// Duration of a sample where a fragment gives none.
    pub default_sample_duration: Option<u32>,
}

/// Number, track and duration of a media segment.
#[derive(Clone, Copy, Debug, PartialEq, Eq, Structural)]
pub struct MediaSegmentInfo {
    /// The number that the movie fragment header gives.
    pub sequence_number: u32,
    /// Identifier of the only track.
    pub track_id: u32,
    /// Sum of the sample durations.
    pub duration_ticks: u32,
}

/// The refusal that carries a layout fault.
pub open spec fn refusal(fault: BmffFault) -> Failure {
    Failure::BadParam(fault.text())
}

fn refuse(fault: BmffFault) -> (e: Error)
    ensures
        e@ == refusal(fault),
{
    Error::BadParam(fault.message())
}

// Box types.
impl BoxKind {
    /// The four bytes of the box type.
    pub open spec fn code(self) -> Seq<u8> {
        match self {
            BoxKind::Mdat => seq![0x6d, 0x64, 0x61, 0x74],
            BoxKind::Moov => seq![0x6d, 0x6f, 0x6f, 0x76],
            BoxKind::Trak => seq![0x74, 0x72, 0x61, 0x6b],
            BoxKind::Tkhd => seq![0x74, 0x6b, 0x68, 0x64],
            BoxKind::Mdia => seq![0x6d, 0x64, 0x69, 0x61],
            BoxKind::Mdhd => seq![0x6d, 0x64, 0x68, 0x64],
            BoxKind::Mvex => seq![0x6d, 0x76, 0x65, 0x78],
            BoxKind::Trex => seq![0x74, 0x72, 0x65, 0x78],
            BoxKind::Moof => seq![0x6d, 0x6f, 0x6f, 0x66],
            BoxKind::Mfhd => seq![0x6d, 0x66, 0x68, 0x64],
            BoxKind::Traf => seq![0x74, 0x72, 0x61, 0x66],
            BoxKind::Tfhd => seq![0x74, 0x66, 0x68, 0x64],
            BoxKind::Trun => seq![0x74, 0x72, 0x75, 0x6e],
            BoxKind::Emsg => seq![0x65, 0x6d, 0x73, 0x67],
        }
    }

    /// The four bytes of the box type.
    pub fn bytes(self) -> (r: [u8; 4])
        ensures
            r@ == self.code(),
    {
        let r: [u8; 4] = match self {
            BoxKind::Mdat => [0x6d, 0x64, 0x61, 0x74],
            BoxKind::Moov => [0x6d, 0x6f, 0x6f, 0x76],
            BoxKind::Trak => [0x74, 0x72, 0x61, 0x6b],
            BoxKind::Tkhd => [0x74, 0x6b, 0x68, 0x64],
            BoxKind::Mdia => [0x6d, 0x64, 0x69, 0x61],
            BoxKind::Mdhd => [0x6d, 0x64, 0x68, 0x64],
            BoxKind::Mvex => [0x6d, 0x76, 0x65, 0x78],
            BoxKind::Trex => [0x74, 0x72, 0x65, 0x78],
            BoxKind::Moof => [0x6d, 0x6f, 0x6f, 0x66],
            BoxKind::Mfhd => [0x6d, 0x66, 0x68, 0x64],
            BoxKind::Traf => [0x74, 0x72, 0x61, 0x66],
            BoxKind::Tfhd => [0x74, 0x66, 0x68, 0x64],
            BoxKind::Trun => [0x74, 0x72, 0x75, 0x6e],
            BoxKind::Emsg => [0x65, 0x6d, 0x73, 0x67],
        };
        assert(r@ =~= self.code());
        r
    }
}

// Runs of boxes.

/// One box: its type and what follows its header.
pub struct BoxView {
    pub code: Seq<u8>,
    pub payload: Seq<u8>,
}

/// Where a box whose size is known ends, given the length of its header.
pub open spec fn sized_extent(data: Seq<u8>, pos: int, header: int, size: int) -> Result<
    (int, int),
    HeaderFault,
> {
    if size < header {
        Err(HeaderFault::SmallerThanHeader)
    } else if pos + size > usize::MAX {
        Err(HeaderFault::SizeOverflow)
    } else if pos + size > data.len() {
        Err(HeaderFault::BeyondInput)
    } else {
        Ok((header, pos + size))
    }
}

/// The length of the header of the box at `pos`, and where the box ends.
///
/// A size of zero means that the box takes the rest of the container; a size of one means that
/// a 64-bit size follows the type.
pub open spec fn box_extent(data: Seq<u8>, pos: int) -> Result<(int, int), HeaderFault> {
    if pos + 8 > usize::MAX {
        Err(HeaderFault::OffsetOverflow)
    } else if pos + 8 > data.len() {
        Err(HeaderFault::Truncated)
    } else if be32_at(data, pos) == 0 {
        sized_extent(data, pos, 8, data.len() - pos)
    } else if be32_at(data, pos) != 1 {
        sized_extent(data, pos, 8, be32_at(data, pos))
    } else if pos + 16 > usize::MAX {
        Err(HeaderFault::LargeOffsetOverflow)
    } else if pos + 16 > data.len() {
        Err(HeaderFault::LargeTruncated)
    } else if be64_at(data, pos + 8) > usize::MAX {
        Err(HeaderFault::Unsupported)
    } else {
        sized_extent(data, pos, 16, be64_at(data, pos + 8))
    }
}

/// The box at `pos`, whose header and end are known.
pub open spec fn box_at(data: Seq<u8>, pos: int, header: int, end: int) -> BoxView {
    BoxView { code: data.subrange(pos + 4, pos + 8), payload: data.subrange(pos + header, end) }
}

/// The run of boxes that starts at `pos` and fills the container.
pub open spec fn boxes_from(data: Seq<u8>, pos: int) -> Result<Seq<BoxView>, HeaderFault>
    decreases data.len() - pos,
{
    if pos >= data.len() {
        Ok(Seq::empty())
    } else {
        match box_extent(data, pos) {
            Err(fault) => Err(fault),
            Ok((header, end)) => match boxes_from(data, end) {
                Err(fault) => Err(fault),
                Ok(rest) => Ok(seq![box_at(data, pos, header, end)] + rest),
            },
        }
    }
}

/// The boxes that a container holds.
pub open spec fn children(data: Seq<u8>, parent: Container) -> Result<Seq<BoxView>, Failure> {
    match boxes_from(data, 0) {
        Err(fault) => Err(refusal(BmffFault::Header(parent, fault))),
        Ok(boxes) => Ok(boxes),
    }
}

/// Reads the header of the box at `pos`: its length, and where the box ends.
pub fn read_box_extent(data: &[u8], pos: usize) -> (r: Result<(usize, usize), HeaderFault>)
    requires
        pos < data@.len(),
    ensures
        match box_extent(data@, pos as int) {
            Err(fault) => r == Err::<(usize, usize), HeaderFault>(fault),
            Ok((header, end)) => r matches Ok((h, e)) && h == header && e == end && (h == 8 || h
                == 16) && pos + h <= e <= data@.len(),
        },
{
    let length: usize = data.len();
    if pos > usize::MAX - 8 {
        return Err(HeaderFault::OffsetOverflow);
    }
    if pos + 8 > length {
        return Err(HeaderFault::Truncated);
    }
    let size32: u32 = read_be32(data, pos);
    let (header, size): (usize, usize) = if size32 == 0 {
        (8, length - pos)
    } else if size32 == 1 {
        if pos > usize::MAX - 16 {
            return Err(HeaderFault::LargeOffsetOverflow);
        }
        if pos + 16 > length {
            return Err(HeaderFault::LargeTruncated);
        }
        let size64: u64 = read_be64(data, pos + 8);
        if size64 > usize::MAX as u64 {
            return Err(HeaderFault::Unsupported);
        }
        (16, size64 as usize)
    } else {
        (8, size32 as usize)
    };
    if size < header {
        return Err(HeaderFault::SmallerThanHeader);
    }
    if pos > usize::MAX - size {
        return Err(HeaderFault::SizeOverflow);
    }
    let end: usize = pos + size;
    if end > length {
        return Err(HeaderFault::BeyondInput);
    }
    Ok((header, end))
}

/// A box of a segment that is being read.
#[derive(Clone, Copy)]
pub struct BmffBox<'a> {
    pub box_type: [u8; 4],
    pub payload: &'a [u8],
}

impl<'a> View for BmffBox<'a> {
    type V = BoxView;

    open spec fn view(&self) -> BoxView {
        BoxView { code: self.box_type@, payload: self.payload@ }
    }
}

/// What a vector of boxes stands for.
pub open spec fn box_views(boxes: Seq<BmffBox<'_>>) -> Seq<BoxView> {
    Seq::new(boxes.len(), |i: int| boxes[i]@)
}

/// A run of boxes with some boxes put before it.
pub open spec fn prepend_boxes(
    front: Seq<BoxView>,
    rest: Result<Seq<BoxView>, HeaderFault>,
) -> Result<Seq<BoxView>, HeaderFault> {
    match rest {
        Err(fault) => Err(fault),
        Ok(boxes) => Ok(front + boxes),
    }
}

/// Reads the run of boxes that fills `data`.
pub fn parse_boxes<'a>(data: &'a [u8], parent: Container) -> (r: Result<Vec<BmffBox<'a>>, Error>)
    ensures
        match children(data@, parent) {
            Err(e) => r matches Err(x) && x@ == e,
            Ok(boxes) => r matches Ok(v) && box_views(v@) == boxes,
        },
{
    let mut boxes: Vec<BmffBox<'a>> = Vec::new();
    let mut pos: usize = 0;
    proof {
        assert(box_views(boxes@) =~= Seq::<BoxView>::empty());
        match boxes_from(data@, 0) {
            Ok(all) => {
                assert(Seq::<BoxView>::empty() + all =~= all);
            },
            Err(_) => {},
        }
    }
    while pos < data.len()
        invariant
            pos <= data@.len(),
            boxes_from(data@, 0) == prepend_boxes(
                box_views(boxes@),
                boxes_from(data@, pos as int),
            ),
        decreases data@.len() - pos,
    {
        let (header, end): (usize, usize) = match read_box_extent(data, pos) {
            Ok(extent) => extent,
            Err(fault) => {
                return Err(refuse(BmffFault::Header(parent, fault)));
            },
        };
        let box_type: [u8; 4] = [data[pos + 4], data[pos + 5], data[pos + 6], data[pos + 7]];
        let payload: &'a [u8] = slice_subrange(data, pos + header, end);
        let next = BmffBox { box_type, payload };
        let ghost before = box_views(boxes@);
        boxes.push(next);
        proof {
            let whole = box_at(data@, pos as int, header as int, end as int);
            assert(box_type@ =~= data@.subrange(pos + 4, pos + 8));
            assert(next@ == whole);
            assert(box_views(boxes@) =~= before + seq![whole]);
            match boxes_from(data@, end as int) {
                Ok(rest) => {
                    assert(before + (seq![whole] + rest) =~= (before + seq![whole]) + rest);
                },
                Err(_) => {},
            }
        }
        pos = end;
    }
    proof {
        assert(box_views(boxes@) + Seq::<BoxView>::empty() =~= box_views(boxes@));
    }
    Ok(boxes)
}

// Selecting boxes.

/// The test that picks the boxes of one type.
pub open spec fn has_kind(kind: BoxKind) -> spec_fn(BoxView) -> bool {
    |b: BoxView| b.code == kind.code()
}

/// The boxes of one type, in order.
pub open spec fn of_kind(boxes: Seq<BoxView>, kind: BoxKind) -> Seq<BoxView> {
    boxes.filter(has_kind(kind))
}

/// The only box of a type that a container holds.
pub open spec fn sole(boxes: Seq<BoxView>, kind: BoxKind, parent: Container) -> Result<
    BoxView,
    Failure,
> {
    if of_kind(boxes, kind).len() == 0 {
        Err(refusal(BmffFault::MissingBox(parent, kind)))
    } else if of_kind(boxes, kind).len() > 1 {
        Err(refusal(BmffFault::RepeatedBox(parent, kind)))
    } else {
        Ok(of_kind(boxes, kind)[0])
    }
}

/// The boxes inside the only box of a type that a container holds.
pub open spec fn sole_children(
    boxes: Seq<BoxView>,
    kind: BoxKind,
    parent: Container,
    inner: Container,
) -> Result<Seq<BoxView>, Failure> {
    match sole(boxes, kind, parent) {
        Err(e) => Err(e),
        Ok(b) => children(b.payload, inner),
    }
}

/// Picks the boxes of one type, in order.
fn select<'a>(boxes: &Vec<BmffBox<'a>>, kind: BoxKind) -> (r: Vec<BmffBox<'a>>)
    ensures
        box_views(r@) == of_kind(box_views(boxes@), kind),
{
    let code: [u8; 4] = kind.bytes();
    let mut picked: Vec<BmffBox<'a>> = Vec::new();
    let mut i: usize = 0;
    let ghost all = box_views(boxes@);
    proof {
        reveal(Seq::filter);
        assert(all.take(0).filter(has_kind(kind)) =~= box_views(picked@));
    }
    while i < boxes.len()
        invariant
            i <= boxes@.len(),
            code@ == kind.code(),
            all == box_views(boxes@),
            box_views(picked@) == of_kind(all.take(i as int), kind),
        decreases boxes@.len() - i,
    {
        let b: BmffBox<'a> = boxes[i];
        proof {
            reveal(Seq::filter);
            assert(all.take(i + 1).drop_last() =~= all.take(i as int));
            assert(all.take(i + 1).last() == b@);
        }
        if same_bytes(&b.box_type, &code) {
            let ghost before = box_views(picked@);
            picked.push(b);
            assert(box_views(picked@) =~= before.push(b@));
        }
        i = i + 1;
    }
    assert(all.take(all.len() as int) =~= all);
    picked
}

/// The only box of a type, with the refusals of the profile.
fn exactly_one<'a>(boxes: &Vec<BmffBox<'a>>, kind: BoxKind, parent: Container) -> (r: Result<
    BmffBox<'a>,
    Error,
>)
    ensures
        match sole(box_views(boxes@), kind, parent) {
            Err(e) => r matches Err(x) && x@ == e,
            Ok(b) => r matches Ok(found) && found@ == b,
        },
{
    let picked: Vec<BmffBox<'a>> = select(boxes, kind);
    assert(box_views(picked@).len() == picked@.len());
    if picked.len() == 0 {
        return Err(refuse(BmffFault::MissingBox(parent, kind)));
    }
    if picked.len() > 1 {
        return Err(refuse(BmffFault::RepeatedBox(parent, kind)));
    }
    assert(box_views(picked@)[0] == picked@[0]@);
    Ok(picked[0])
}

/// The only box of a type, if there is one.
fn at_most_one<'a>(boxes: &Vec<BmffBox<'a>>, kind: BoxKind, parent: Container) -> (r: Result<
    Option<BmffBox<'a>>,
    Error,
>)
    ensures
        ({
            let matching = of_kind(box_views(boxes@), kind);
            if matching.len() > 1 {
                r matches Err(x) && x@ == refusal(BmffFault::RepeatedOptionalBox(parent, kind))
            } else if matching.len() == 1 {
                r matches Ok(Some(found)) && found@ == matching[0]
            } else {
                r == Ok::<Option<BmffBox<'a>>, Error>(None)
            }
        }),
{
    let picked: Vec<BmffBox<'a>> = select(boxes, kind);
    assert(box_views(picked@).len() == picked@.len());
    if picked.len() > 1 {
        return Err(refuse(BmffFault::RepeatedOptionalBox(parent, kind)));
    }
    if picked.len() == 1 {
        assert(box_views(picked@)[0] == picked@[0]@);
        return Ok(Some(picked[0]));
    }
    Ok(None)
}

// Fields.

/// The version, the flags and the fields of a full box.
pub open spec fn full_box_of(payload: Seq<u8>, kind: BoxKind) -> Result<
    (u8, u32, Seq<u8>),
    Failure,
> {
    if payload.len() < 4 {
        Err(refusal(BmffFault::FullBoxTruncated(kind)))
    } else {
        Ok(
            (
                payload[0],
                (payload[1] * 0x1_0000 + payload[2] * 0x100 + payload[3]) as u32,
                payload.skip(4),
            ),
        )
    }
}

/// The 32-bit field at `pos`.
pub open spec fn u32_field(fields: Seq<u8>, pos: int, field: Field) -> Result<u32, Failure> {
    if pos + 4 > usize::MAX {
        Err(refusal(BmffFault::OffsetOverflow(field)))
    } else if pos + 4 > fields.len() {
        Err(refusal(BmffFault::FieldTruncated(field)))
    } else {
        Ok(be32_at(fields, pos) as u32)
    }
}

/// The position behind a field that may be absent.
pub open spec fn after_field(
    fields: Seq<u8>,
    pos: Result<int, Failure>,
    present: bool,
    count: int,
    field: Field,
) -> Result<int, Failure> {
    match pos {
        Err(e) => Err(e),
        Ok(p) => if !present {
            Ok(p)
        } else if p + count > usize::MAX {
            Err(refusal(BmffFault::OffsetOverflow(field)))
        } else if p + count > fields.len() {
            Err(refusal(BmffFault::FieldTruncated(field)))
        } else {
            Ok(p + count)
        },
    }
}

fn full_box<'a>(payload: &'a [u8], kind: BoxKind) -> (r: Result<(u8, u32, &'a [u8]), Error>)
    ensures
        match full_box_of(payload@, kind) {
            Err(e) => r matches Err(x) && x@ == e,
            Ok((version, flags, fields)) => r matches Ok((v, f, rest)) && v == version && f == flags
                && rest@ == fields,
        },
{
    if payload.len() < 4 {
        return Err(refuse(BmffFault::FullBoxTruncated(kind)));
    }
    let flags: u32 = payload[1] as u32 * 0x1_0000 + payload[2] as u32 * 0x100 + payload[3] as u32;
    let fields: &'a [u8] = slice_subrange(payload, 4, payload.len());
    assert(fields@ =~= payload@.skip(4));
    Ok((payload[0], flags, fields))
}

fn read_u32(data: &[u8], pos: usize, field: Field) -> (r: Result<u32, Error>)
    ensures
        agrees(r, u32_field(data@, pos as int, field)),
{
    if pos > usize::MAX - 4 {
        return Err(refuse(BmffFault::OffsetOverflow(field)));
    }
    if pos + 4 > data.len() {
        return Err(refuse(BmffFault::FieldTruncated(field)));
    }
    Ok(read_be32(data, pos))
}

fn skip_field(data: &[u8], pos: usize, present: bool, count: usize, field: Field) -> (r: Result<
    usize,
    Error,
>)
    ensures
        match after_field(data@, Ok(pos as int), present, count as int, field) {
            Err(e) => r matches Err(x) && x@ == e,
            Ok(p) => r matches Ok(q) && q == p,
        },
{
    if !present {
        return Ok(pos);
    }
    if pos > usize::MAX - count {
        return Err(refuse(BmffFault::OffsetOverflow(field)));
    }
    if pos + count > data.len() {
        return Err(refuse(BmffFault::FieldTruncated(field)));
    }
    Ok(pos + count)
}

// Header boxes.

/// Where the field behind the two dates of a header box stands, by the version of the box.
pub open spec fn dates_end(version: u8) -> Option<int> {
    if version == 0 {
        Some(8)
    } else if version == 1 {
        Some(16)
    } else {
        None
    }
}

/// The 32-bit field behind the two dates of a header box.
pub open spec fn dated_field(payload: Seq<u8>, kind: BoxKind, field: Field) -> Result<
    u32,
    Failure,
> {
    match full_box_of(payload, kind) {
        Err(e) => Err(e),
        Ok((version, _, fields)) => match dates_end(version) {
            None => Err(refusal(BmffFault::UnsupportedVersion(kind))),
            Some(pos) => u32_field(fields, pos, field),
        },
    }
}

/// A value that must not be zero.
pub open spec fn nonzero(value: Result<u32, Failure>, fault: BmffFault) -> Result<u32, Failure> {
    match value {
        Err(e) => Err(e),
        Ok(x) => if x == 0 {
            Err(refusal(fault))
        } else {
            Ok(x)
        },
    }
}

/// The track identifier that a `tkhd` box holds.
pub open spec fn tkhd_track_id(payload: Seq<u8>) -> Result<u32, Failure> {
    nonzero(
        dated_field(payload, BoxKind::Tkhd, Field::TkhdTrackId),
        BmffFault::ZeroTrackId(BoxKind::Tkhd),
    )
}

/// The timescale that an `mdhd` box holds.
pub open spec fn mdhd_timescale(payload: Seq<u8>) -> Result<u32, Failure> {
    nonzero(
        dated_field(payload, BoxKind::Mdhd, Field::MdhdTimescale),
        BmffFault::ZeroTimescale,
    )
}

/// The sequence number that an `mfhd` box holds.
pub open spec fn mfhd_sequence_number(payload: Seq<u8>) -> Result<u32, Failure> {
    match full_box_of(payload, BoxKind::Mfhd) {
        Err(e) => Err(e),
        Ok((version, flags, fields)) => if version != 0 || flags != 0 {
            Err(refusal(BmffFault::MfhdVersionOrFlags))
        } else {
            u32_field(fields, 0, Field::MfhdSequenceNumber)
        },
    }
}

/// The track identifier and the default sample duration that a `trex` box holds; a duration of
/// zero means that there is none.
pub open spec fn trex_defaults(payload: Seq<u8>) -> Result<(u32, Option<u32>), Failure> {
    match full_box_of(payload, BoxKind::Trex) {
        Err(e) => Err(e),
        Ok((version, flags, fields)) => if version != 0 || flags != 0 || fields.len() != 20 {
            Err(refusal(BmffFault::TrexLayout))
        } else if be32_at(fields, 0) == 0 {
            Err(refusal(BmffFault::ZeroTrackId(BoxKind::Trex)))
        } else if be32_at(fields, 8) == 0 {
            Ok((be32_at(fields, 0) as u32, None))
        } else {
            Ok((be32_at(fields, 0) as u32, Some(be32_at(fields, 8) as u32)))
        },
    }
}

fn parse_dated_field(payload: &[u8], kind: BoxKind, field: Field) -> (r: Result<u32, Error>)
    ensures
        agrees(r, dated_field(payload@, kind, field)),
{
    let (version, _flags, fields) = full_box(payload, kind)?;
    let pos: usize = match version {
        0 => 8,
        1 => 16,
        _ => {
            return Err(refuse(BmffFault::UnsupportedVersion(kind)));
        },
    };
    read_u32(fields, pos, field)
}

fn parse_tkhd_track_id(payload: &[u8]) -> (r: Result<u32, Error>)
    ensures
        agrees(r, tkhd_track_id(payload@)),
{
    let track_id: u32 = parse_dated_field(payload, BoxKind::Tkhd, Field::TkhdTrackId)?;
    if track_id == 0 {
        return Err(refuse(BmffFault::ZeroTrackId(BoxKind::Tkhd)));
    }
    Ok(track_id)
}

fn parse_mdhd_timescale(payload: &[u8]) -> (r: Result<u32, Error>)
    ensures
        agrees(r, mdhd_timescale(payload@)),
{
    let timescale: u32 = parse_dated_field(payload, BoxKind::Mdhd, Field::MdhdTimescale)?;
    if timescale == 0 {
        return Err(refuse(BmffFault::ZeroTimescale));
    }
    Ok(timescale)
}

fn parse_mfhd_sequence_number(payload: &[u8]) -> (r: Result<u32, Error>)
    ensures
        agrees(r, mfhd_sequence_number(payload@)),
{
    let (version, flags, fields) = full_box(payload, BoxKind::Mfhd)?;
    if version != 0 || flags != 0 {
        return Err(refuse(BmffFault::MfhdVersionOrFlags));
    }
    read_u32(fields, 0, Field::MfhdSequenceNumber)
}

fn parse_trex(payload: &[u8]) -> (r: Result<(u32, Option<u32>), Error>)
    ensures
        agrees(r, trex_defaults(payload@)),
{
    let (version, flags, fields) = full_box(payload, BoxKind::Trex)?;
    if version != 0 || flags != 0 || fields.len() != 20 {
        return Err(refuse(BmffFault::TrexLayout));
    }
    let track_id: u32 = read_be32(fields, 0);
    if track_id == 0 {
        return Err(refuse(BmffFault::ZeroTrackId(BoxKind::Trex)));
    }
    let duration: u32 = read_be32(fields, 8);
    if duration == 0 {
        Ok((track_id, None))
    } else {
        Ok((track_id, Some(duration)))
    }
}

// Track fragments.

/// Flags that a `tfhd` box may carry.
pub const TFHD_ALLOWED_FLAGS: u32 = 0x03003b;

/// The `tfhd` flag which says that the fragment has no samples.
pub const TFHD_DURATION_IS_EMPTY: u32 = 0x010000;

/// Flags that a `trun` box may carry.
pub const TRUN_ALLOWED_FLAGS: u32 = 0x000f05;

/// The default sample duration that a `tfhd` box gives at `pos`, and the position behind it.
pub open spec fn tfhd_duration(fields: Seq<u8>, flags: u32, pos: int) -> Result<
    (Option<u32>, int),
    Failure,
> {
    if flags & 0x08 == 0 {
        Ok((None, pos))
    } else {
        match nonzero(
            u32_field(fields, pos, Field::TfhdDefaultSampleDuration),
            BmffFault::TfhdZeroDuration,
        ) {
            Err(e) => Err(e),
            Ok(duration) => Ok((Some(duration), pos + 4)),
        }
    }
}

/// Where the optional fields of a `tfhd` box end that precede the default sample duration.
pub open spec fn tfhd_duration_pos(fields: Seq<u8>, flags: u32) -> Result<int, Failure> {
    let base = after_field(fields, Ok(4), flags & 0x01 != 0, 8, Field::TfhdBaseDataOffset);
    after_field(fields, base, flags & 0x02 != 0, 4, Field::TfhdSampleDescriptionIndex)
}

/// Where the optional fields of a `tfhd` box end that follow the default sample duration.
pub open spec fn tfhd_end(fields: Seq<u8>, flags: u32, pos: int) -> Result<int, Failure> {
    let size = after_field(fields, Ok(pos), flags & 0x10 != 0, 4, Field::TfhdDefaultSampleSize);
    after_field(fields, size, flags & 0x20 != 0, 4, Field::TfhdDefaultSampleFlags)
}

/// The default sample duration among the optional fields of a `tfhd` box, which fill it.
pub open spec fn tfhd_optional(fields: Seq<u8>, flags: u32) -> Result<Option<u32>, Failure> {
    match tfhd_duration_pos(fields, flags) {
        Err(e) => Err(e),
        Ok(pos) => match tfhd_duration(fields, flags, pos) {
            Err(e) => Err(e),
            Ok((duration, next)) => match tfhd_end(fields, flags, next) {
                Err(e) => Err(e),
                Ok(end) => if end != fields.len() {
                    Err(refusal(BmffFault::TfhdTrailingBytes))
                } else {
                    Ok(duration)
                },
            },
        },
    }
}

/// The track identifier and the default sample duration that a `tfhd` box holds.
pub open spec fn tfhd_defaults(payload: Seq<u8>) -> Result<(u32, Option<u32>), Failure> {
    match full_box_of(payload, BoxKind::Tfhd) {
        Err(e) => Err(e),
        Ok((version, flags, fields)) => if version != 0 {
            Err(refusal(BmffFault::UnsupportedVersion(BoxKind::Tfhd)))
        } else if flags & !TFHD_ALLOWED_FLAGS != 0 || flags & TFHD_DURATION_IS_EMPTY != 0 {
            Err(refusal(BmffFault::TfhdFlags))
        } else {
            match nonzero(
                u32_field(fields, 0, Field::TfhdTrackId),
                BmffFault::ZeroTrackId(BoxKind::Tfhd),
            ) {
                Err(e) => Err(e),
                Ok(track_id) => match tfhd_optional(fields, flags) {
                    Err(e) => Err(e),
                    Ok(duration) => Ok((track_id, duration)),
                },
            }
        },
    }
}

fn parse_tfhd(payload: &[u8]) -> (r: Result<(u32, Option<u32>), Error>)
    ensures
        agrees(r, tfhd_defaults(payload@)),
{
    let (version, flags, fields) = full_box(payload, BoxKind::Tfhd)?;
    if version != 0 {
        return Err(refuse(BmffFault::UnsupportedVersion(BoxKind::Tfhd)));
    }
    if flags & !TFHD_ALLOWED_FLAGS != 0 || flags & TFHD_DURATION_IS_EMPTY != 0 {
        return Err(refuse(BmffFault::TfhdFlags));
    }
    let track_id: u32 = read_u32(fields, 0, Field::TfhdTrackId)?;
    if track_id == 0 {
        return Err(refuse(BmffFault::ZeroTrackId(BoxKind::Tfhd)));
    }
    let mut pos: usize = 4;
    pos = skip_field(fields, pos, flags & 0x01 != 0, 8, Field::TfhdBaseDataOffset)?;
    pos = skip_field(fields, pos, flags & 0x02 != 0, 4, Field::TfhdSampleDescriptionIndex)?;
    let mut duration: Option<u32> = None;
    if flags & 0x08 != 0 {
        let ticks: u32 = read_u32(fields, pos, Field::TfhdDefaultSampleDuration)?;
        if ticks == 0 {
            return Err(refuse(BmffFault::TfhdZeroDuration));
        }
        duration = Some(ticks);
        pos = pos + 4;
    }
    pos = skip_field(fields, pos, flags & 0x10 != 0, 4, Field::TfhdDefaultSampleSize)?;
    pos = skip_field(fields, pos, flags & 0x20 != 0, 4, Field::TfhdDefaultSampleFlags)?;
    if pos != fields.len() {
        return Err(refuse(BmffFault::TfhdTrailingBytes));
    }
    Ok((track_id, duration))
}

/// Whether a flag is set, as a count.
pub open spec fn flag_count(flags: u32, flag: u32) -> int {
    if flags & flag != 0 {
        1
    } else {
        0
    }
}

/// The number of bytes that a `trun` box spends on each sample.
pub open spec fn sample_width(flags: u32) -> int {
    4 * (flag_count(flags, 0x100) + flag_count(flags, 0x200) + flag_count(flags, 0x400)
        + flag_count(flags, 0x800))
}

/// The duration of sample `i` of a sample table that starts at `table`.
pub open spec fn sample_duration(fields: Seq<u8>, table: int, width: int, i: int) -> int {
    be32_at(fields, table + i * width)
}

/// The sum of the first `n` sample durations of a sample table.
pub open spec fn sample_total(fields: Seq<u8>, table: int, width: int, n: int) -> int
    decreases n,
{
    if n <= 0 {
        0
    } else {
        sample_total(fields, table, width, n - 1) + sample_duration(fields, table, width, n - 1)
    }
}

/// Where the sample table of a `trun` box starts.
pub open spec fn trun_table(fields: Seq<u8>, flags: u32) -> Result<int, Failure> {
    let offset = after_field(fields, Ok(4), flags & 0x01 != 0, 4, Field::TrunDataOffset);
    after_field(fields, offset, flags & 0x04 != 0, 4, Field::TrunFirstSampleFlags)
}

/// The duration of `count` samples whose table starts at `table` and must fill the box.
pub open spec fn trun_samples(
    fields: Seq<u8>,
    flags: u32,
    count: int,
    table: int,
    default: Option<u32>,
) -> Result<int, Failure> {
    let width = sample_width(flags);
    if count * width > usize::MAX {
        Err(refusal(BmffFault::TrunTableOverflow))
    } else if table + count * width > usize::MAX {
        Err(refusal(BmffFault::TrunTableOffsetOverflow))
    } else if table + count * width != fields.len() {
        Err(refusal(BmffFault::TrunTableLength))
    } else if flags & 0x100 == 0 {
        match default {
            None => Err(refusal(BmffFault::TrunNoDuration)),
            Some(duration) => Ok(duration * count),
        }
    } else if exists|i: int|
        0 <= i < count && #[trigger] sample_duration(fields, table, width, i) == 0 {
        Err(refusal(BmffFault::TrunZeroDuration))
    } else {
        Ok(sample_total(fields, table, width, count))
    }
}

/// The duration of the samples of a `trun` box.
pub open spec fn trun_duration(payload: Seq<u8>, default: Option<u32>) -> Result<int, Failure> {
    match full_box_of(payload, BoxKind::Trun) {
        Err(e) => Err(e),
        Ok((version, flags, fields)) => if version > 1 || flags & !TRUN_ALLOWED_FLAGS != 0 {
            Err(refusal(BmffFault::TrunVersionOrFlags))
        } else {
            match nonzero(u32_field(fields, 0, Field::TrunSampleCount), BmffFault::TrunNoSamples) {
                Err(e) => Err(e),
                Ok(count) => match trun_table(fields, flags) {
                    Err(e) => Err(e),
                    Ok(table) => trun_samples(fields, flags, count as int, table, default),
                },
            }
        },
    }
}

fn flag_width(flags: u32, flag: u32) -> (r: usize)
    ensures
        r == 4 * flag_count(flags, flag),
{
    if flags & flag != 0 {
        4
    } else {
        0
    }
}

/// Adds up the sample durations of a sample table.
fn sum_samples(fields: &[u8], table: usize, width: usize, count: u32) -> (r: Result<u64, Error>)
    requires
        width >= 4,
        table + count * width <= fields@.len(),
    ensures
        if exists|i: int|
            0 <= i < count && #[trigger] sample_duration(
                fields@,
                table as int,
                width as int,
                i,
            ) == 0 {
            r matches Err(x) && x@ == refusal(BmffFault::TrunZeroDuration)
        } else {
            r matches Ok(total) && total == sample_total(
                fields@,
                table as int,
                width as int,
                count as int,
            )
        },
{
    let mut i: u32 = 0;
    let mut pos: usize = table;
    let mut total: u64 = 0;
    assert(fields.len() == fields@.len());
    while i < count
        invariant
            i <= count,
            width >= 4,
            fields@.len() <= usize::MAX,
            table + count * width <= fields@.len(),
            pos == table + i * width,
            total == sample_total(fields@, table as int, width as int, i as int),
            total <= i * 0xffff_ffff,
            forall|j: int|
                0 <= j < i ==> #[trigger] sample_duration(
                    fields@,
                    table as int,
                    width as int,
                    j,
                ) != 0,
        decreases count - i,
    {
        assert((i + 1) * width <= count * width) by (nonlinear_arith)
            requires
                i + 1 <= count,
                width >= 4,
        ;
        assert((i + 1) * width == i * width + width) by (nonlinear_arith);
        assert(i * 0xffff_ffff <= 0xffff_ffff * 0xffff_ffff);
        let duration: u32 = read_be32(fields, pos);
        assert(duration == sample_duration(fields@, table as int, width as int, i as int));
        if duration == 0 {
            return Err(refuse(BmffFault::TrunZeroDuration));
        }
        total = total + duration as u64;
        pos = pos + width;
        i = i + 1;
    }
    Ok(total)
}

fn parse_trun_duration(payload: &[u8], default_sample_duration: Option<u32>) -> (r: Result<
    u64,
    Error,
>)
    ensures
        match trun_duration(payload@, default_sample_duration) {
            Err(e) => r matches Err(x) && x@ == e,
            Ok(duration) => r matches Ok(d) && d == duration,
        },
{
    let (version, flags, fields) = full_box(payload, BoxKind::Trun)?;
    if version > 1 || flags & !TRUN_ALLOWED_FLAGS != 0 {
        return Err(refuse(BmffFault::TrunVersionOrFlags));
    }
    let sample_count: u32 = read_u32(fields, 0, Field::TrunSampleCount)?;
    if sample_count == 0 {
        return Err(refuse(BmffFault::TrunNoSamples));
    }
    let mut pos: usize = 4;
    pos = skip_field(fields, pos, flags & 0x01 != 0, 4, Field::TrunDataOffset)?;
    pos = skip_field(fields, pos, flags & 0x04 != 0, 4, Field::TrunFirstSampleFlags)?;

    let width: usize = flag_width(flags, 0x100) + flag_width(flags, 0x200) + flag_width(
        flags,
        0x400,
    ) + flag_width(flags, 0x800);
    let sample_bytes: usize = match (sample_count as usize).checked_mul(width) {
        Some(bytes) => bytes,
        None => {
            return Err(refuse(BmffFault::TrunTableOverflow));
        },
    };
    let expected_end: usize = match pos.checked_add(sample_bytes) {
        Some(end) => end,
        None => {
            return Err(refuse(BmffFault::TrunTableOffsetOverflow));
        },
    };
    if expected_end != fields.len() {
        return Err(refuse(BmffFault::TrunTableLength));
    }
    if flags & 0x100 == 0 {
        return match default_sample_duration {
            None => Err(refuse(BmffFault::TrunNoDuration)),
            Some(duration) => {
                assert(duration * sample_count <= 0xffff_ffff * 0xffff_ffff) by (nonlinear_arith)
                    requires
                        duration <= 0xffff_ffff,
                        sample_count <= 0xffff_ffff,
                ;
                Ok(duration as u64 * sample_count as u64)
            },
        };
    }
    sum_samples(fields, pos, width, sample_count)
}

// Segments.

/// The sum of the durations of a run of `trun` boxes; the first that is refused decides.
pub open spec fn total_duration(truns: Seq<BoxView>, default: Option<u32>) -> Result<int, Failure>
    decreases truns.len(),
{
    if truns.len() == 0 {
        Ok(0)
    } else {
        match total_duration(truns.drop_last(), default) {
            Err(e) => Err(e),
            Ok(total) => match trun_duration(truns.last().payload, default) {
                Err(e) => Err(e),
                Ok(duration) => if total + duration > u64::MAX {
                    Err(refusal(BmffFault::DurationOverflow))
                } else {
                    Ok(total + duration)
                },
            },
        }
    }
}

/// The duration of a track fragment, as it fits an event message.
pub open spec fn fragment_duration(traf: Seq<BoxView>, default: Option<u32>) -> Result<
    u32,
    Failure,
> {
    if of_kind(traf, BoxKind::Trun).len() == 0 {
        Err(refusal(BmffFault::NoTrun))
    } else {
        match total_duration(of_kind(traf, BoxKind::Trun), default) {
            Err(e) => Err(e),
            Ok(total) => if total > u32::MAX {
                Err(refusal(BmffFault::DurationTooLarge))
            } else if total == 0 {
                Err(refusal(BmffFault::DurationZero))
            } else {
                Ok(total as u32)
            },
        }
    }
}

/// The track identifier and the duration of a track fragment.
pub open spec fn fragment_timing(traf: Seq<BoxView>, init_default: Option<u32>) -> Result<
    (u32, u32),
    Failure,
> {
    match sole(traf, BoxKind::Tfhd, Container::Traf) {
        Err(e) => Err(e),
        Ok(tfhd) => match tfhd_defaults(tfhd.payload) {
            Err(e) => Err(e),
            Ok((track_id, duration)) => match fragment_duration(
                traf,
                if duration is Some {
                    duration
                } else {
                    init_default
                },
            ) {
                Err(e) => Err(e),
                Ok(ticks) => Ok((track_id, ticks)),
            },
        },
    }
}

/// The sequence number in the header of a movie fragment.
pub open spec fn fragment_number(moof: Seq<BoxView>) -> Result<u32, Failure> {
    match sole(moof, BoxKind::Mfhd, Container::Moof) {
        Err(e) => Err(e),
        Ok(mfhd) => mfhd_sequence_number(mfhd.payload),
    }
}

/// What the movie fragment of a media segment says.
pub open spec fn fragment_info(moof: Seq<BoxView>, init_default: Option<u32>) -> Result<
    MediaSegmentInfo,
    Failure,
> {
    match fragment_number(moof) {
        Err(e) => Err(e),
        Ok(sequence_number) => match sole_children(
            moof,
            BoxKind::Traf,
            Container::Moof,
            Container::Traf,
        ) {
            Err(e) => Err(e),
            Ok(traf) => match fragment_timing(traf, init_default) {
                Err(e) => Err(e),
                Ok((track_id, duration_ticks)) => Ok(
                    MediaSegmentInfo { sequence_number, track_id, duration_ticks },
                ),
            },
        },
    }
}

/// The boxes of the only movie fragment of a media segment.
pub open spec fn sole_moof(data: Seq<u8>) -> Result<Seq<BoxView>, Failure> {
    match children(data, Container::MediaSegment) {
        Err(e) => Err(e),
        Ok(top) => sole_children(top, BoxKind::Moof, Container::MediaSegment, Container::Moof),
    }
}

/// Number, track and duration of a media segment.
pub open spec fn media_info(data: Seq<u8>, init_default: Option<u32>) -> Result<
    MediaSegmentInfo,
    Failure,
> {
    match sole_moof(data) {
        Err(e) => Err(e),
        Ok(moof) => fragment_info(moof, init_default),
    }
}

/// The track identifier and the timescale of a track.
pub open spec fn track_timing(trak: Seq<BoxView>) -> Result<(u32, u32), Failure> {
    match sole(trak, BoxKind::Tkhd, Container::Trak) {
        Err(e) => Err(e),
        Ok(tkhd) => match tkhd_track_id(tkhd.payload) {
            Err(e) => Err(e),
            Ok(track_id) => match sole_children(
                trak,
                BoxKind::Mdia,
                Container::Trak,
                Container::Mdia,
            ) {
                Err(e) => Err(e),
                Ok(mdia) => match sole(mdia, BoxKind::Mdhd, Container::Mdia) {
                    Err(e) => Err(e),
                    Ok(mdhd) => match mdhd_timescale(mdhd.payload) {
                        Err(e) => Err(e),
                        Ok(timescale) => Ok((track_id, timescale)),
                    },
                },
            },
        },
    }
}

/// The default sample duration that the movie gives its track.
pub open spec fn movie_default_duration(moov: Seq<BoxView>, track_id: u32) -> Result<
    Option<u32>,
    Failure,
> {
    let mvex = of_kind(moov, BoxKind::Mvex);
    if mvex.len() > 1 {
        Err(refusal(BmffFault::RepeatedOptionalBox(Container::Moov, BoxKind::Mvex)))
    } else if mvex.len() == 0 {
        Ok(None)
    } else {
        match children(mvex[0].payload, Container::Mvex) {
            Err(e) => Err(e),
            Ok(boxes) => match sole(boxes, BoxKind::Trex, Container::Mvex) {
                Err(e) => Err(e),
                Ok(trex) => match trex_defaults(trex.payload) {
                    Err(e) => Err(e),
                    Ok((trex_track_id, duration)) => if trex_track_id != track_id {
                        Err(refusal(BmffFault::TrexTrackMismatch))
                    } else {
                        Ok(duration)
                    },
                },
            },
        }
    }
}

/// Track timing of the movie box of an initialization segment.
pub open spec fn movie_info(moov: Seq<BoxView>) -> Result<InitSegmentInfo, Failure> {
    match sole_children(moov, BoxKind::Trak, Container::Moov, Container::Trak) {
        Err(e) => Err(e),
        Ok(trak) => match track_timing(trak) {
            Err(e) => Err(e),
            Ok((track_id, timescale)) => match movie_default_duration(moov, track_id) {
                Err(e) => Err(e),
                Ok(default_sample_duration) => Ok(
                    InitSegmentInfo { track_id, timescale, default_sample_duration },
                ),
            },
        },
    }
}

/// Track timing of an initialization segment.
pub open spec fn init_info(data: Seq<u8>) -> Result<InitSegmentInfo, Failure> {
    match children(data, Container::InitSegment) {
        Err(e) => Err(e),
        Ok(top) => if of_kind(top, BoxKind::Mdat).len() > 0 {
            Err(refusal(BmffFault::InitHasMdat))
        } else {
            match sole_children(top, BoxKind::Moov, Container::InitSegment, Container::Moov) {
                Err(e) => Err(e),
                Ok(moov) => movie_info(moov),
            }
        },
    }
}

/// Reads the track timing of an initialization segment.
pub fn parse_init_segment(data: &[u8]) -> (r: Result<InitSegmentInfo, Error>)
    ensures
        agrees(r, init_info(data@)),
{
    let top_level = parse_boxes(data, Container::InitSegment)?;
    let media = select(&top_level, BoxKind::Mdat);
    assert(box_views(media@).len() == media@.len());
    if media.len() > 0 {
        return Err(refuse(BmffFault::InitHasMdat));
    }
    let moov = exactly_one(&top_level, BoxKind::Moov, Container::InitSegment)?;
    let moov_children = parse_boxes(moov.payload, Container::Moov)?;
    let trak = exactly_one(&moov_children, BoxKind::Trak, Container::Moov)?;
    let trak_children = parse_boxes(trak.payload, Container::Trak)?;

    let tkhd = exactly_one(&trak_children, BoxKind::Tkhd, Container::Trak)?;
    let track_id: u32 = parse_tkhd_track_id(tkhd.payload)?;

    let mdia = exactly_one(&trak_children, BoxKind::Mdia, Container::Trak)?;
    let mdia_children = parse_boxes(mdia.payload, Container::Mdia)?;
    let mdhd = exactly_one(&mdia_children, BoxKind::Mdhd, Container::Mdia)?;
    let timescale: u32 = parse_mdhd_timescale(mdhd.payload)?;

    let default_sample_duration: Option<u32> = match at_most_one(
        &moov_children,
        BoxKind::Mvex,
        Container::Moov,
    )? {
        Some(mvex) => {
            let mvex_children = parse_boxes(mvex.payload, Container::Mvex)?;
            let trex = exactly_one(&mvex_children, BoxKind::Trex, Container::Mvex)?;
            let (trex_track_id, duration) = parse_trex(trex.payload)?;
            if trex_track_id != track_id {
                return Err(refuse(BmffFault::TrexTrackMismatch));
            }
            duration
        },
        None => None,
    };

    Ok(InitSegmentInfo { track_id, timescale, default_sample_duration })
}

/// Reads number, track and duration of a media segment.
///
/// The profile takes one movie fragment with one track fragment. A sample duration comes from the
/// sample table, else from the track fragment header, else from `init_default_sample_duration`.
pub fn parse_media_segment(data: &[u8], init_default_sample_duration: Option<u32>) -> (r: Result<
    MediaSegmentInfo,
    Error,
>)
    ensures
        agrees(r, media_info(data@, init_default_sample_duration)),
{
    let top_level = parse_boxes(data, Container::MediaSegment)?;
    let moof = exactly_one(&top_level, BoxKind::Moof, Container::MediaSegment)?;
    let moof_children = parse_boxes(moof.payload, Container::Moof)?;

    let mfhd = exactly_one(&moof_children, BoxKind::Mfhd, Container::Moof)?;
    let sequence_number: u32 = parse_mfhd_sequence_number(mfhd.payload)?;

    let traf = exactly_one(&moof_children, BoxKind::Traf, Container::Moof)?;
    let traf_children = parse_boxes(traf.payload, Container::Traf)?;
    let tfhd = exactly_one(&traf_children, BoxKind::Tfhd, Container::Traf)?;
    let (track_id, tfhd_default_sample_duration) = parse_tfhd(tfhd.payload)?;
    let default_sample_duration: Option<u32> = match tfhd_default_sample_duration {
        Some(duration) => Some(duration),
        None => init_default_sample_duration,
    };

    let truns = select(&traf_children, BoxKind::Trun);
    assert(box_views(truns@).len() == truns@.len());
    if truns.len() == 0 {
        return Err(refuse(BmffFault::NoTrun));
    }
    let duration: u64 = sum_truns(&truns, default_sample_duration)?;
    if duration > u32::MAX as u64 {
        return Err(refuse(BmffFault::DurationTooLarge));
    }
    if duration == 0 {
        return Err(refuse(BmffFault::DurationZero));
    }
    Ok(MediaSegmentInfo { sequence_number, track_id, duration_ticks: duration as u32 })
}

/// A refused run of `trun` boxes stays refused, for the same reason, when boxes follow.
proof fn total_duration_keeps_refusal(truns: Seq<BoxView>, default: Option<u32>, n: int)
    requires
        0 <= n <= truns.len(),
        total_duration(truns.take(n), default) is Err,
    ensures
        total_duration(truns, default) == total_duration(truns.take(n), default),
    decreases truns.len() - n,
{
    if n == truns.len() {
        assert(truns.take(n) =~= truns);
    } else {
        assert(truns.take(n + 1).drop_last() =~= truns.take(n));
        total_duration_keeps_refusal(truns, default, n + 1);
    }
}

fn sum_truns(truns: &Vec<BmffBox<'_>>, default_sample_duration: Option<u32>) -> (r: Result<
    u64,
    Error,
>)
    ensures
        match total_duration(box_views(truns@), default_sample_duration) {
            Err(e) => r matches Err(x) && x@ == e,
            Ok(total) => r matches Ok(t) && t == total,
        },
{
    let ghost all = box_views(truns@);
    let mut total: u64 = 0;
    let mut i: usize = 0;
    while i < truns.len()
        invariant
            i <= truns@.len(),
            all == box_views(truns@),
            total_duration(all.take(i as int), default_sample_duration) == Ok::<int, Failure>(
                total as int,
            ),
        decreases truns@.len() - i,
    {
        let b = truns[i];
        proof {
            assert(all.take(i + 1).drop_last() =~= all.take(i as int));
            assert(all.take(i + 1).last() == b@);
            if total_duration(all.take(i + 1), default_sample_duration) is Err {
                total_duration_keeps_refusal(all, default_sample_duration, i + 1);
            }
        }
        let duration: u64 = parse_trun_duration(b.payload, default_sample_duration)?;
        total = match total.checked_add(duration) {
            Some(sum) => sum,
            None => {
                return Err(refuse(BmffFault::DurationOverflow));
            },
        };
        i = i + 1;
    }
    assert(all.take(all.len() as int) =~= all);
    Ok(total)
}

/// The number of a media segment that has one movie fragment with one track fragment, which must be
/// a run of boxes.
pub open spec fn media_sequence_number(data: Seq<u8>) -> Option<u32> {
    match sole_moof(data) {
        Err(_) => None,
        Ok(moof) => if sole_children(moof, BoxKind::Traf, Container::Moof, Container::Traf) is Err {
            None
        } else {
            match fragment_number(moof) {
                Err(_) => None,
                Ok(number) => Some(number),
            }
        },
    }
}

/// Reads the number of a media segment without asking for its timing.
pub fn moof_sequence_number(data: &[u8]) -> (r: Option<u32>)
    ensures
        r == media_sequence_number(data@),
{
    match checked_moof_sequence_number(data) {
        Ok(number) => Some(number),
        Err(_) => None,
    }
}

fn checked_moof_sequence_number(data: &[u8]) -> (r: Result<u32, Error>)
    ensures
        match media_sequence_number(data@) {
            Some(number) => r == Ok::<u32, Error>(number),
            None => r is Err,
        },
{
    let top_level = parse_boxes(data, Container::MediaSegment)?;
    let moof = exactly_one(&top_level, BoxKind::Moof, Container::MediaSegment)?;
    let moof_children = parse_boxes(moof.payload, Container::Moof)?;
    let mfhd = exactly_one(&moof_children, BoxKind::Mfhd, Container::Moof)?;
    let traf = exactly_one(&moof_children, BoxKind::Traf, Container::Moof)?;
    let _traf_children = parse_boxes(traf.payload, Container::Traf)?;
    parse_mfhd_sequence_number(mfhd.payload)
}

} // verus!
