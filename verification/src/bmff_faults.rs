//! The vocabulary of ISO BMFF parsing: box types, containers, fields, and what can be wrong.

use vstd::prelude::*;
use vstd::string::StringExecFns;

verus! {

/// The box types that the parsers look for.
#[derive(Clone, Copy, Debug, PartialEq, Eq, Structural)]
pub enum BoxKind {
    /// Media data.
    Mdat,
    /// Movie.
    Moov,
    /// Track.
    Trak,
    /// Track header.
    Tkhd,
    /// Media.
    Mdia,
    /// Media header.
    Mdhd,
    /// Movie extends.
    Mvex,
    /// Track extends.
    Trex,
    /// Movie fragment.
    Moof,
    /// Movie fragment header.
    Mfhd,
    /// Track fragment.
    Traf,
    /// Track fragment header.
    Tfhd,
    /// Track fragment run.
    Trun,
    /// Event message.
    Emsg,
}

impl BoxKind {
    /// The characters of the four letters.
    pub open spec fn text(self) -> Seq<char> {
        match self {
            BoxKind::Mdat => "mdat"@,
            BoxKind::Moov => "moov"@,
            BoxKind::Trak => "trak"@,
            BoxKind::Tkhd => "tkhd"@,
            BoxKind::Mdia => "mdia"@,
            BoxKind::Mdhd => "mdhd"@,
            BoxKind::Mvex => "mvex"@,
            BoxKind::Trex => "trex"@,
            BoxKind::Moof => "moof"@,
            BoxKind::Mfhd => "mfhd"@,
            BoxKind::Traf => "traf"@,
            BoxKind::Tfhd => "tfhd"@,
            BoxKind::Trun => "trun"@,
            BoxKind::Emsg => "emsg"@,
        }
    }

    /// Renders the four letters.
    pub fn message(&self) -> (r: String)
        ensures
            r@ == self.text(),
    {
        match self {
            BoxKind::Mdat => "mdat".to_string(),
            BoxKind::Moov => "moov".to_string(),
            BoxKind::Trak => "trak".to_string(),
            BoxKind::Tkhd => "tkhd".to_string(),
            BoxKind::Mdia => "mdia".to_string(),
            BoxKind::Mdhd => "mdhd".to_string(),
            BoxKind::Mvex => "mvex".to_string(),
            BoxKind::Trex => "trex".to_string(),
            BoxKind::Moof => "moof".to_string(),
            BoxKind::Mfhd => "mfhd".to_string(),
            BoxKind::Traf => "traf".to_string(),
            BoxKind::Tfhd => "tfhd".to_string(),
            BoxKind::Trun => "trun".to_string(),
            BoxKind::Emsg => "emsg".to_string(),
        }
    }
}

/// The byte sequences that hold a run of boxes.
#[derive(Clone, Copy, Debug, PartialEq, Eq, Structural)]
pub enum Container {
    /// An initialization segment.
    InitSegment,
    /// A media segment.
    MediaSegment,
    /// The payload of a `moov` box.
    Moov,
    /// The payload of a `trak` box.
    Trak,
    /// The payload of a `mdia` box.
    Mdia,
    /// The payload of a `mvex` box.
    Mvex,
    /// The payload of a `moof` box.
    Moof,
    /// The payload of a `traf` box.
    Traf,
}

impl Container {
    /// The characters of the name.
    pub open spec fn text(self) -> Seq<char> {
        match self {
            Container::InitSegment => "initialization segment"@,
            Container::MediaSegment => "media segment"@,
            Container::Moov => "moov"@,
            Container::Trak => "trak"@,
            Container::Mdia => "mdia"@,
            Container::Mvex => "mvex"@,
            Container::Moof => "moof"@,
            Container::Traf => "traf"@,
        }
    }

    /// Renders the name.
    pub fn message(&self) -> (r: String)
        ensures
            r@ == self.text(),
    {
        match self {
            Container::InitSegment => "initialization segment".to_string(),
            Container::MediaSegment => "media segment".to_string(),
            Container::Moov => "moov".to_string(),
            Container::Trak => "trak".to_string(),
            Container::Mdia => "mdia".to_string(),
            Container::Mvex => "mvex".to_string(),
            Container::Moof => "moof".to_string(),
            Container::Traf => "traf".to_string(),
        }
    }
}

/// The fields that are read or skipped by position.
#[derive(Clone, Copy, Debug, PartialEq, Eq, Structural)]
pub enum Field {
    /// `tkhd track_ID`.
    TkhdTrackId,
    /// `mdhd timescale`.
    MdhdTimescale,
    /// `mfhd sequence_number`.
    MfhdSequenceNumber,
    /// `tfhd track_ID`.
    TfhdTrackId,
    /// `tfhd base_data_offset`.
    TfhdBaseDataOffset,
    /// `tfhd sample_description_index`.
    TfhdSampleDescriptionIndex,
    /// `tfhd default_sample_duration`.
    TfhdDefaultSampleDuration,
    /// `tfhd default_sample_size`.
    TfhdDefaultSampleSize,
    /// `tfhd default_sample_flags`.
    TfhdDefaultSampleFlags,
    /// `trun sample_count`.
    TrunSampleCount,
    /// `trun data_offset`.
    TrunDataOffset,
    /// `trun first_sample_flags`.
    TrunFirstSampleFlags,
}

impl Field {
    /// The characters of the name.
    pub open spec fn text(self) -> Seq<char> {
        match self {
            Field::TkhdTrackId => "tkhd track_ID"@,
            Field::MdhdTimescale => "mdhd timescale"@,
            Field::MfhdSequenceNumber => "mfhd sequence_number"@,
            Field::TfhdTrackId => "tfhd track_ID"@,
            Field::TfhdBaseDataOffset => "tfhd base_data_offset"@,
            Field::TfhdSampleDescriptionIndex => "tfhd sample_description_index"@,
            Field::TfhdDefaultSampleDuration => "tfhd default_sample_duration"@,
            Field::TfhdDefaultSampleSize => "tfhd default_sample_size"@,
            Field::TfhdDefaultSampleFlags => "tfhd default_sample_flags"@,
            Field::TrunSampleCount => "trun sample_count"@,
            Field::TrunDataOffset => "trun data_offset"@,
            Field::TrunFirstSampleFlags => "trun first_sample_flags"@,
        }
    }

    /// Renders the name.
    pub fn message(&self) -> (r: String)
        ensures
            r@ == self.text(),
    {
        match self {
            Field::TkhdTrackId => "tkhd track_ID".to_string(),
            Field::MdhdTimescale => "mdhd timescale".to_string(),
            Field::MfhdSequenceNumber => "mfhd sequence_number".to_string(),
            Field::TfhdTrackId => "tfhd track_ID".to_string(),
            Field::TfhdBaseDataOffset => "tfhd base_data_offset".to_string(),
            Field::TfhdSampleDescriptionIndex => "tfhd sample_description_index".to_string(),
            Field::TfhdDefaultSampleDuration => "tfhd default_sample_duration".to_string(),
            Field::TfhdDefaultSampleSize => "tfhd default_sample_size".to_string(),
            Field::TfhdDefaultSampleFlags => "tfhd default_sample_flags".to_string(),
            Field::TrunSampleCount => "trun sample_count".to_string(),
            Field::TrunDataOffset => "trun data_offset".to_string(),
            Field::TrunFirstSampleFlags => "trun first_sample_flags".to_string(),
        }
    }
}

/// What can be wrong with a box header at its position in a container.
#[derive(Clone, Copy, Debug, PartialEq, Eq, Structural)]
pub enum HeaderFault {
    /// The end of the header is not a representable offset.
    OffsetOverflow,
    /// The header reaches past the end of the container.
    Truncated,
    /// The end of the 64-bit size is not a representable offset.
    LargeOffsetOverflow,
    /// The 64-bit size reaches past the end of the container.
    LargeTruncated,
    /// The 64-bit size is not a representable length.
    Unsupported,
    /// The size does not cover the header.
    SmallerThanHeader,
    /// The end of the box is not a representable offset.
    SizeOverflow,
    /// The box reaches past the end of the container.
    BeyondInput,
}

impl HeaderFault {
    /// The characters of the words that follow the name of the container.
    pub open spec fn text(self) -> Seq<char> {
        match self {
            HeaderFault::OffsetOverflow => " BMFF box header offset overflow"@,
            HeaderFault::Truncated => " contains a truncated BMFF box header"@,
            HeaderFault::LargeOffsetOverflow => " large-size box header overflow"@,
            HeaderFault::LargeTruncated => " contains a truncated large-size box header"@,
            HeaderFault::Unsupported => " box size is unsupported"@,
            HeaderFault::SmallerThanHeader => " contains a BMFF box smaller than its header"@,
            HeaderFault::SizeOverflow => " BMFF box size overflows the input"@,
            HeaderFault::BeyondInput => " contains a BMFF box extending beyond the input"@,
        }
    }

    /// Renders the words that follow the name of the container.
    pub fn message(&self) -> (r: String)
        ensures
            r@ == self.text(),
    {
        match self {
            HeaderFault::OffsetOverflow => " BMFF box header offset overflow".to_string(),
            HeaderFault::Truncated => " contains a truncated BMFF box header".to_string(),
            HeaderFault::LargeOffsetOverflow => " large-size box header overflow".to_string(),
            HeaderFault::LargeTruncated => " contains a truncated large-size box header".to_string(),
            HeaderFault::Unsupported => " box size is unsupported".to_string(),
            HeaderFault::SmallerThanHeader => " contains a BMFF box smaller than its header".to_string(),
            HeaderFault::SizeOverflow => " BMFF box size overflows the input".to_string(),
            HeaderFault::BeyondInput => " contains a BMFF box extending beyond the input".to_string(),
        }
    }
}

/// Why a segment does not have the supported layout.
#[derive(Clone, Copy, Debug, PartialEq, Eq, Structural)]
pub enum BmffFault {
    /// A box header is malformed.
    Header(Container, HeaderFault),
    /// A required box is absent.
    MissingBox(Container, BoxKind),
    /// A required box occurs more than once.
    RepeatedBox(Container, BoxKind),
    /// An optional box occurs more than once.
    RepeatedOptionalBox(Container, BoxKind),
    /// An initialization segment holds media data.
    InitHasMdat,
    /// A box is shorter than its version and flags.
    FullBoxTruncated(BoxKind),
    /// A box has a version that is not supported.
    UnsupportedVersion(BoxKind),
    /// A track identifier is zero.
    ZeroTrackId(BoxKind),
    /// The timescale is zero.
    ZeroTimescale,
    /// `mfhd` has a version or flags other than zero.
    MfhdVersionOrFlags,
    /// `trex` does not have the supported layout.
    TrexLayout,
    /// `trex` speaks of another track.
    TrexTrackMismatch,
    /// `tfhd` has flags that are not supported.
    TfhdFlags,
    /// The default sample duration of `tfhd` is zero.
    TfhdZeroDuration,
    /// `tfhd` goes on after its last field.
    TfhdTrailingBytes,
    /// A track fragment holds no run.
    NoTrun,
    /// `trun` has a version or flags that are not supported.
    TrunVersionOrFlags,
    /// `trun` counts no samples.
    TrunNoSamples,
    /// The size of the sample table is not representable.
    TrunTableOverflow,
    /// The end of the sample table is not a representable offset.
    TrunTableOffsetOverflow,
    /// The sample table does not end where `trun` ends.
    TrunTableLength,
    /// `trun` gives no durations and there is no default.
    TrunNoDuration,
    /// A sample lasts no time.
    TrunZeroDuration,
    /// The durations do not add up to a 64-bit number.
    DurationOverflow,
    /// The duration does not fit the event.
    DurationTooLarge,
    /// The segment lasts no time.
    DurationZero,
    /// The end of a field is not a representable offset.
    OffsetOverflow(Field),
    /// A field reaches past the end of its box.
    FieldTruncated(Field),
}

impl BmffFault {
    /// The characters of the message.
    pub open spec fn text(self) -> Seq<char> {
        match self {
            BmffFault::Header(a, b) => a.text() + b.text(),
            BmffFault::MissingBox(a, b) => a.text() + " must contain exactly one "@ + b.text() + " box"@,
            BmffFault::RepeatedBox(a, b) => a.text() + " must contain exactly one "@ + b.text() + " box; muxed/multi-track live video is not supported in Milestone 1"@,
            BmffFault::RepeatedOptionalBox(a, b) => a.text() + " must not contain multiple "@ + b.text() + " boxes"@,
            BmffFault::InitHasMdat => "initialization segment must not contain an mdat box"@,
            BmffFault::FullBoxTruncated(a) => a.text() + " box is truncated"@,
            BmffFault::UnsupportedVersion(a) => "unsupported "@ + a.text() + " version"@,
            BmffFault::ZeroTrackId(a) => a.text() + " track_ID must not be zero"@,
            BmffFault::ZeroTimescale => "mdhd timescale must be greater than zero"@,
            BmffFault::MfhdVersionOrFlags => "mfhd must use version 0 with zero flags"@,
            BmffFault::TrexLayout => "trex must use the supported version 0 layout"@,
            BmffFault::TrexTrackMismatch => "trex track_ID does not match the initialization track"@,
            BmffFault::TfhdFlags => "tfhd uses unsupported flags for Milestone 1 live video"@,
            BmffFault::TfhdZeroDuration => "tfhd default_sample_duration must be greater than zero"@,
            BmffFault::TfhdTrailingBytes => "tfhd contains unexpected trailing bytes"@,
            BmffFault::NoTrun => "media segment traf must contain at least one trun box"@,
            BmffFault::TrunVersionOrFlags => "trun uses an unsupported version or flags"@,
            BmffFault::TrunNoSamples => "trun sample_count must be greater than zero"@,
            BmffFault::TrunTableOverflow => "trun sample table size overflow"@,
            BmffFault::TrunTableOffsetOverflow => "trun sample table offset overflow"@,
            BmffFault::TrunTableLength => "trun sample table length does not match sample_count and flags"@,
            BmffFault::TrunNoDuration => "trun omits sample durations and tfhd has no default_sample_duration"@,
            BmffFault::TrunZeroDuration => "trun sample_duration must be greater than zero"@,
            BmffFault::DurationOverflow => "media segment duration overflow"@,
            BmffFault::DurationTooLarge => "media segment duration does not fit in an emsg event_duration"@,
            BmffFault::DurationZero => "media segment duration must be greater than zero"@,
            BmffFault::OffsetOverflow(a) => a.text() + " offset overflow"@,
            BmffFault::FieldTruncated(a) => a.text() + " is truncated"@,
        }
    }

    /// Renders the message.
    pub fn message(&self) -> (r: String)
        ensures
            r@ == self.text(),
    {
        match self {
            BmffFault::Header(a, b) => {
                let mut s = a.message();
                s.append(b.message().as_str());
                s
            },
            BmffFault::MissingBox(a, b) => {
                let mut s = a.message();
                s.append(" must contain exactly one ");
                s.append(b.message().as_str());
                s.append(" box");
                s
            },
            BmffFault::RepeatedBox(a, b) => {
                let mut s = a.message();
                s.append(" must contain exactly one ");
                s.append(b.message().as_str());
                s.append(" box; muxed/multi-track live video is not supported in Milestone 1");
                s
            },
            BmffFault::RepeatedOptionalBox(a, b) => {
                let mut s = a.message();
                s.append(" must not contain multiple ");
                s.append(b.message().as_str());
                s.append(" boxes");
                s
            },
            BmffFault::InitHasMdat => "initialization segment must not contain an mdat box".to_string(),
            BmffFault::FullBoxTruncated(a) => {
                let mut s = a.message();
                s.append(" box is truncated");
                s
            },
            BmffFault::UnsupportedVersion(a) => {
                let mut s = "unsupported ".to_string();
                s.append(a.message().as_str());
                s.append(" version");
                s
            },
            BmffFault::ZeroTrackId(a) => {
                let mut s = a.message();
                s.append(" track_ID must not be zero");
                s
            },
            BmffFault::ZeroTimescale => "mdhd timescale must be greater than zero".to_string(),
            BmffFault::MfhdVersionOrFlags => "mfhd must use version 0 with zero flags".to_string(),
            BmffFault::TrexLayout => "trex must use the supported version 0 layout".to_string(),
            BmffFault::TrexTrackMismatch => "trex track_ID does not match the initialization track".to_string(),
            BmffFault::TfhdFlags => "tfhd uses unsupported flags for Milestone 1 live video".to_string(),
            BmffFault::TfhdZeroDuration => "tfhd default_sample_duration must be greater than zero".to_string(),
            BmffFault::TfhdTrailingBytes => "tfhd contains unexpected trailing bytes".to_string(),
            BmffFault::NoTrun => "media segment traf must contain at least one trun box".to_string(),
            BmffFault::TrunVersionOrFlags => "trun uses an unsupported version or flags".to_string(),
            BmffFault::TrunNoSamples => "trun sample_count must be greater than zero".to_string(),
            BmffFault::TrunTableOverflow => "trun sample table size overflow".to_string(),
            BmffFault::TrunTableOffsetOverflow => "trun sample table offset overflow".to_string(),
            BmffFault::TrunTableLength => "trun sample table length does not match sample_count and flags".to_string(),
            BmffFault::TrunNoDuration => "trun omits sample durations and tfhd has no default_sample_duration".to_string(),
            BmffFault::TrunZeroDuration => "trun sample_duration must be greater than zero".to_string(),
            BmffFault::DurationOverflow => "media segment duration overflow".to_string(),
            BmffFault::DurationTooLarge => "media segment duration does not fit in an emsg event_duration".to_string(),
            BmffFault::DurationZero => "media segment duration must be greater than zero".to_string(),
            BmffFault::OffsetOverflow(a) => {
                let mut s = a.message();
                s.append(" offset overflow");
                s
            },
            BmffFault::FieldTruncated(a) => {
                let mut s = a.message();
                s.append(" is truncated");
                s
            },
        }
    }
}
} // verus!
