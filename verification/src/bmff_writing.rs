//! How boxes are laid out in bytes.
//!
//! Each box is described by its fields and by the bytes that hold them, so that reading can be held
//! to writing.

use vstd::prelude::*;

use crate::bmff::BoxView;
use crate::bytes::be32;

verus! {

/// Four bytes that hold a number, the most significant first.
#[verifier::opaque]
pub open spec fn word(x: u32) -> Seq<u8> {
    be32(x)
}

/// The version and the flags of a full box.
#[verifier::opaque]
pub open spec fn full_header(version: u8, flags: int) -> Seq<u8> {
    seq![
        version,
        (flags / 0x1_0000 % 0x100) as u8,
        (flags / 0x100 % 0x100) as u8,
        (flags % 0x100) as u8,
    ]
}

/// A field of four bytes that may be absent.
pub open spec fn optional(field: Option<u32>) -> Seq<u8> {
    match field {
        Some(x) => word(x),
        None => Seq::empty(),
    }
}

/// A flag that says whether a field is there.
pub open spec fn bit_for(present: bool, bit: int) -> int {
    if present {
        bit
    } else {
        0
    }
}

// Runs of boxes.

/// How the header of a box gives its size.
pub enum SizeForm {
    /// In four bytes.
    Compact,
    /// In eight bytes behind the type.
    Large,
    /// Not at all: the box takes the rest of its container.
    ToEnd,
}

/// A box: its type, what follows its header, and how its size is given.
pub struct WrittenBox {
    pub code: Seq<u8>,
    pub payload: Seq<u8>,
    pub form: SizeForm,
}

impl WrittenBox {
    /// Whether the type has four bytes and the size fits the header.
    pub open spec fn fits(self) -> bool {
        &&& self.code.len() == 4
        &&& match self.form {
            SizeForm::Compact => 8 + self.payload.len() <= u32::MAX,
            SizeForm::Large => 16 + self.payload.len() <= u64::MAX,
            SizeForm::ToEnd => true,
        }
    }

    /// The bytes of the box.
    pub open spec fn bytes(self) -> Seq<u8> {
        match self.form {
            SizeForm::Compact => word((8 + self.payload.len()) as u32) + self.code + self.payload,
            SizeForm::Large => {
                let size = 16 + self.payload.len();
                word(1) + self.code + word((size / 0x1_0000_0000) as u32) + word(
                    (size % 0x1_0000_0000) as u32,
                ) + self.payload
            },
            SizeForm::ToEnd => word(0) + self.code + self.payload,
        }
    }

    /// What the box holds.
    pub open spec fn content(self) -> BoxView {
        BoxView { code: self.code, payload: self.payload }
    }
}

/// What a run of boxes holds.
pub open spec fn contents(boxes: Seq<WrittenBox>) -> Seq<BoxView> {
    Seq::new(boxes.len(), |i: int| boxes[i].content())
}

/// The bytes of a run of boxes.
pub open spec fn run_bytes(boxes: Seq<WrittenBox>) -> Seq<u8>
    decreases boxes.len(),
{
    if boxes.len() == 0 {
        Seq::empty()
    } else {
        boxes[0].bytes() + run_bytes(boxes.skip(1))
    }
}

/// Whether boxes can stand one behind the other: each fits its header, and only the last takes the
/// rest of the container.
pub open spec fn is_run(boxes: Seq<WrittenBox>) -> bool {
    &&& forall|i: int| 0 <= i < boxes.len() ==> (#[trigger] boxes[i]).fits()
    &&& forall|i: int| 0 <= i < boxes.len() - 1 ==> (#[trigger] boxes[i]).form !is ToEnd
}

/// Whether data is a run of boxes that holds the given ones.
pub open spec fn holds_run(data: Seq<u8>, boxes: Seq<WrittenBox>) -> bool {
    is_run(boxes) && run_bytes(boxes) == data
}

/// Whether exactly one of a run of boxes has the given type: that at `k`.
pub open spec fn only_box(boxes: Seq<WrittenBox>, code: Seq<u8>, k: int) -> bool {
    &&& 0 <= k < boxes.len()
    &&& boxes[k].code == code
    &&& forall|j: int| 0 <= j < boxes.len() && j != k ==> (#[trigger] boxes[j]).code != code
}

/// Whether no box of a run has the given type.
pub open spec fn no_box(boxes: Seq<WrittenBox>, code: Seq<u8>) -> bool {
    forall|j: int| 0 <= j < boxes.len() ==> (#[trigger] boxes[j]).code != code
}

// Headers.

/// The payload of a box with two dates and a field behind them, such as a track header with its track
/// identifier or a media header with its timescale. The dates have four bytes each in version zero and
/// eight in version one.
pub open spec fn dated_bytes(
    version: u8,
    flags: int,
    dates: Seq<u8>,
    field: u32,
    tail: Seq<u8>,
) -> Seq<u8> {
    full_header(version, flags) + dates + word(field) + tail
}

/// Whether dates have the length that the version asks for.
pub open spec fn dates_fit(version: u8, flags: int, dates: Seq<u8>) -> bool {
    &&& version == 0 && dates.len() == 8 || version == 1 && dates.len() == 16
    &&& 0 <= flags < 0x100_0000
}

/// The payload of a movie fragment header with a sequence number.
pub open spec fn mfhd_bytes(number: u32, tail: Seq<u8>) -> Seq<u8> {
    full_header(0, 0) + word(number) + tail
}

/// The payload of a track extends box.
pub open spec fn trex_bytes(
    track_id: u32,
    description: u32,
    duration: u32,
    size: u32,
    flags: u32,
) -> Seq<u8> {
    full_header(0, 0) + word(track_id) + word(description) + word(duration) + word(size) + word(
        flags,
    )
}

// Track fragments.

/// A track fragment header.
pub struct TfhdBox {
    pub track_id: u32,
    /// Eight bytes, if the offset is there.
    pub base_data_offset: Option<Seq<u8>>,
    pub description_index: Option<u32>,
    pub default_duration: Option<u32>,
    pub default_size: Option<u32>,
    pub default_flags: Option<u32>,
    /// Whether offsets count from the movie fragment.
    pub base_is_moof: bool,
}

impl TfhdBox {
    /// Whether the fields can be so: the track has an identifier, an offset has eight bytes, and a
    /// default duration is not zero.
    pub open spec fn fits(self) -> bool {
        &&& self.track_id != 0
        &&& self.base_data_offset is Some ==> self.base_data_offset->Some_0.len() == 8
        &&& self.default_duration != Some(0u32)
    }

    /// The flags that say which fields are there.
    #[verifier::opaque]
    pub open spec fn flags(self) -> int {
        bit_for(self.base_data_offset is Some, 0x1) + bit_for(self.description_index is Some, 0x2)
            + bit_for(self.default_duration is Some, 0x8) + bit_for(
            self.default_size is Some,
            0x10,
        ) + bit_for(self.default_flags is Some, 0x20) + bit_for(self.base_is_moof, 0x2_0000)
    }

    /// The payload of the box.
    pub open spec fn bytes(self) -> Seq<u8> {
        full_header(0, self.flags()) + word(self.track_id) + match self.base_data_offset {
            Some(offset) => offset,
            None => Seq::empty(),
        } + optional(self.description_index) + optional(self.default_duration) + optional(
            self.default_size,
        ) + optional(self.default_flags)
    }
}

/// The entry of a column of a sample table for a sample, if the table has the column.
pub open spec fn entry(column: Option<Seq<u32>>, i: int) -> Seq<u8> {
    match column {
        Some(values) => word(values[i]),
        None => Seq::empty(),
    }
}

/// The sum of the first `n` numbers of a sequence.
pub open spec fn sum(values: Seq<u32>, n: int) -> int
    decreases n,
{
    if n <= 0 {
        0
    } else {
        sum(values, n - 1) + values[n - 1]
    }
}

/// A track fragment run: a table of samples whose columns may be absent.
pub struct TrunBox {
    pub version: u8,
    pub data_offset: Option<u32>,
    pub first_flags: Option<u32>,
    /// The number of samples.
    pub count: u32,
    pub durations: Option<Seq<u32>>,
    pub sizes: Option<Seq<u32>>,
    pub sample_flags: Option<Seq<u32>>,
    /// Composition time offsets.
    pub offsets: Option<Seq<u32>>,
}

impl TrunBox {
    /// Whether the fields can be so: the version is known, there is a sample, each column has an
    /// entry for each sample, and no duration is zero.
    pub open spec fn fits(self) -> bool {
        &&& self.version <= 1
        &&& self.count > 0
        &&& self.durations is Some ==> self.durations->Some_0.len() == self.count && forall|i: int|
            0 <= i < self.count ==> #[trigger] self.durations->Some_0[i] != 0
        &&& self.sizes is Some ==> self.sizes->Some_0.len() == self.count
        &&& self.sample_flags is Some ==> self.sample_flags->Some_0.len() == self.count
        &&& self.offsets is Some ==> self.offsets->Some_0.len() == self.count
    }

    /// The flags that say which fields and columns are there.
    #[verifier::opaque]
    pub open spec fn flags(self) -> int {
        bit_for(self.data_offset is Some, 0x1) + bit_for(self.first_flags is Some, 0x4) + bit_for(
            self.durations is Some,
            0x100,
        ) + bit_for(self.sizes is Some, 0x200) + bit_for(self.sample_flags is Some, 0x400)
            + bit_for(self.offsets is Some, 0x800)
    }

    /// The entries of a sample.
    pub open spec fn row(self, i: int) -> Seq<u8> {
        entry(self.durations, i) + entry(self.sizes, i) + entry(self.sample_flags, i) + entry(
            self.offsets,
            i,
        )
    }

    /// The entries of the first `n` samples.
    pub open spec fn table(self, n: int) -> Seq<u8>
        decreases n,
    {
        if n <= 0 {
            Seq::empty()
        } else {
            self.table(n - 1) + self.row(n - 1)
        }
    }

    /// The payload of the box.
    pub open spec fn bytes(self) -> Seq<u8> {
        full_header(self.version, self.flags()) + word(self.count) + optional(self.data_offset)
            + optional(self.first_flags) + self.table(self.count as int)
    }

    /// The duration of the samples: the sum of their durations, or the default for each of them.
    pub open spec fn duration(self, default: Option<u32>) -> Option<int> {
        match self.durations {
            Some(values) => Some(sum(values, self.count as int)),
            None => match default {
                Some(ticks) => Some(ticks * self.count),
                None => None,
            },
        }
    }
}

} // verus!
