//! Segment parsing.

use live_video::bmff::{
    moof_sequence_number, parse_init_segment, parse_media_segment, InitSegmentInfo,
    MediaSegmentInfo,
};

fn make_box(box_type: &[u8; 4], payload: &[u8]) -> Vec<u8> {
    let mut data = Vec::new();
    data.extend_from_slice(&u32::try_from(8 + payload.len()).unwrap().to_be_bytes());
    data.extend_from_slice(box_type);
    data.extend_from_slice(payload);
    data
}

fn make_versioned_box(box_type: &[u8; 4], version: u8, flags: u32, payload: &[u8]) -> Vec<u8> {
    let mut body = vec![version];
    body.extend_from_slice(&flags.to_be_bytes()[1..]);
    body.extend_from_slice(payload);
    make_box(box_type, &body)
}

fn make_full_box(box_type: &[u8; 4], flags: u32, payload: &[u8]) -> Vec<u8> {
    make_versioned_box(box_type, 0, flags, payload)
}

fn words(values: &[u32]) -> Vec<u8> {
    let mut out = Vec::new();
    for value in values {
        out.extend_from_slice(&value.to_be_bytes());
    }
    out
}

fn media_segment(sequence: u32, traf_count: usize) -> Vec<u8> {
    let mfhd = make_full_box(b"mfhd", 0, &sequence.to_be_bytes());
    let mut tfhd_payload = 1u32.to_be_bytes().to_vec();
    tfhd_payload.extend_from_slice(&1000u32.to_be_bytes());
    let tfhd = make_full_box(b"tfhd", 0x000008, &tfhd_payload);
    let trun = make_full_box(b"trun", 0, &2u32.to_be_bytes());
    let traf = make_box(b"traf", &[tfhd, trun].concat());
    let mut moof_payload = mfhd;
    for _ in 0..traf_count {
        moof_payload.extend_from_slice(&traf);
    }
    [make_box(b"moof", &moof_payload), make_box(b"mdat", &[])].concat()
}

/// A segment with the given track fragment header and runs.
fn segment_of(tfhd: Vec<u8>, truns: &[Vec<u8>]) -> Vec<u8> {
    let mut traf_payload = tfhd;
    for trun in truns {
        traf_payload.extend_from_slice(trun);
    }
    let mfhd = make_full_box(b"mfhd", 0, &words(&[3]));
    make_box(b"moof", &[mfhd, make_box(b"traf", &traf_payload)].concat())
}

fn init_segment(mvex: Option<Vec<u8>>) -> Vec<u8> {
    let tkhd = make_full_box(b"tkhd", 0, &words(&[0, 0, 7]));
    let mdhd = make_full_box(b"mdhd", 0, &words(&[0, 0, 90_000, 0]));
    let trak = make_box(b"trak", &[tkhd, make_box(b"mdia", &mdhd)].concat());
    let mut moov = trak;
    if let Some(mvex) = mvex {
        moov.extend_from_slice(&mvex);
    }
    make_box(b"moov", &moov)
}

fn make_test_init_segment(timescale: u32) -> Vec<u8> {
    let mut tkhd_payload = Vec::new();
    tkhd_payload.extend_from_slice(&0u32.to_be_bytes()); // creation_time
    tkhd_payload.extend_from_slice(&0u32.to_be_bytes()); // modification_time
    tkhd_payload.extend_from_slice(&1u32.to_be_bytes()); // track_ID
    let tkhd = make_full_box(b"tkhd", 0, &tkhd_payload);

    let mut mdhd_payload = Vec::new();
    mdhd_payload.extend_from_slice(&0u32.to_be_bytes()); // creation_time
    mdhd_payload.extend_from_slice(&0u32.to_be_bytes()); // modification_time
    mdhd_payload.extend_from_slice(&timescale.to_be_bytes());
    mdhd_payload.extend_from_slice(&0u32.to_be_bytes()); // duration
    mdhd_payload.extend_from_slice(&0u16.to_be_bytes()); // language
    mdhd_payload.extend_from_slice(&0u16.to_be_bytes()); // pre_defined
    let mdhd = make_full_box(b"mdhd", 0, &mdhd_payload);
    let mdia = make_box(b"mdia", &mdhd);
    let trak = make_box(b"trak", &[tkhd, mdia].concat());
    make_box(b"moov", &trak)
}

fn make_test_media_segment_with_moof(sequence_number: u32, sample_durations: &[u32]) -> Vec<u8> {
    let mfhd = make_full_box(b"mfhd", 0, &sequence_number.to_be_bytes());
    let tfhd = make_full_box(b"tfhd", 0, &1u32.to_be_bytes());
    let mut trun_payload = Vec::new();
    trun_payload.extend_from_slice(&(sample_durations.len() as u32).to_be_bytes());
    for d in sample_durations {
        trun_payload.extend_from_slice(&d.to_be_bytes());
    }
    let trun = make_full_box(b"trun", 0x000100, &trun_payload);
    let traf = make_box(b"traf", &[tfhd, trun].concat());
    let moof = make_box(b"moof", &[mfhd, traf].concat());
    let mdat = make_box(b"mdat", &[0u8; 4]);
    [moof, mdat].concat()
}

fn media_error(segment: &[u8], default: Option<u32>) -> String {
    parse_media_segment(segment, default).unwrap_err().message()
}

fn init_error(segment: &[u8]) -> String {
    parse_init_segment(segment).unwrap_err().message()
}

#[test]
fn parses_single_traf_media_timing() {
    assert_eq!(
        parse_media_segment(&media_segment(7, 1), None).unwrap(),
        MediaSegmentInfo {
            sequence_number: 7,
            track_id: 1,
            duration_ticks: 2000,
        }
    );
}

#[test]
fn rejects_multiple_traf_boxes() {
    let error = parse_media_segment(&media_segment(7, 2), None).unwrap_err();
    assert!(error.message().contains("exactly one traf"));
}

#[test]
fn rejects_truncated_and_undersized_boxes_without_panicking() {
    assert!(parse_media_segment(&[0, 0, 0, 1, b'm', b'o', b'o', b'f'], None).is_err());
    assert!(parse_media_segment(&[0, 0, 0, 4, b'm', b'o', b'o', b'f'], None).is_err());
}

#[test]
fn rejects_impossible_sample_table_without_iterating_sample_count() {
    let mfhd = make_full_box(b"mfhd", 0, &1u32.to_be_bytes());
    let tfhd = make_full_box(b"tfhd", 0, &1u32.to_be_bytes());
    let trun = make_full_box(b"trun", 0x000100, &u32::MAX.to_be_bytes());
    let traf = make_box(b"traf", &[tfhd, trun].concat());
    let segment = [
        make_box(b"moof", &[mfhd, traf].concat()),
        make_box(b"mdat", &[]),
    ]
    .concat();

    let error = parse_media_segment(&segment, None).unwrap_err();
    assert!(error.message().contains("sample table length"));
}

#[test]
fn parses_mdhd_timescale_from_init_segment() {
    let init = make_test_init_segment(48_000);
    assert_eq!(parse_init_segment(&init).unwrap().timescale, 48_000);
}

#[test]
fn parses_moof_duration_from_trun_sample_durations() {
    let seg = make_test_media_segment_with_moof(1, &[1000, 1000, 1000]);
    assert_eq!(
        parse_media_segment(&seg, None).unwrap().duration_ticks,
        3000
    );
}

#[test]
fn falls_back_to_tfhd_default_sample_duration_when_trun_omits_durations() {
    let mut tfhd_payload = Vec::new();
    tfhd_payload.extend_from_slice(&1u32.to_be_bytes()); // track_ID
    tfhd_payload.extend_from_slice(&2000u32.to_be_bytes()); // default_sample_duration
    let tfhd = make_full_box(b"tfhd", 0x000008, &tfhd_payload);

    let mut trun_payload = Vec::new();
    trun_payload.extend_from_slice(&4u32.to_be_bytes()); // sample_count, no per-sample durations
    let trun = make_full_box(b"trun", 0, &trun_payload);

    let traf = make_box(b"traf", &[tfhd, trun].concat());
    let mfhd = make_full_box(b"mfhd", 0, &1u32.to_be_bytes());
    let moof = make_box(b"moof", &[mfhd, traf].concat());

    assert_eq!(
        parse_media_segment(&moof, None).unwrap().duration_ticks,
        8000
    );
}

#[test]
fn parsers_reject_segments_without_the_relevant_boxes() {
    let plain_segment = make_box(b"mdat", &[]);
    assert!(parse_init_segment(&plain_segment).is_err());
    assert!(parse_media_segment(&plain_segment, None).is_err());
}

#[test]
fn init_segment_timing_is_read() {
    assert_eq!(
        parse_init_segment(&init_segment(None)).unwrap(),
        InitSegmentInfo {
            track_id: 7,
            timescale: 90_000,
            default_sample_duration: None,
        }
    );
    let trex = make_full_box(b"trex", 0, &words(&[7, 1, 512, 0, 0]));
    let with_trex = init_segment(Some(make_box(b"mvex", &trex)));
    assert_eq!(
        parse_init_segment(&with_trex)
            .unwrap()
            .default_sample_duration,
        Some(512)
    );
    let trex = make_full_box(b"trex", 0, &words(&[7, 1, 0, 0, 0]));
    let without_duration = init_segment(Some(make_box(b"mvex", &trex)));
    assert_eq!(
        parse_init_segment(&without_duration)
            .unwrap()
            .default_sample_duration,
        None
    );
}

#[test]
fn version_one_headers_have_longer_dates() {
    let tkhd = make_versioned_box(b"tkhd", 1, 0, &words(&[0, 0, 0, 0, 5]));
    let mdhd = make_versioned_box(b"mdhd", 1, 0, &words(&[0, 0, 0, 0, 600]));
    let trak = make_box(b"trak", &[tkhd, make_box(b"mdia", &mdhd)].concat());
    let info = parse_init_segment(&make_box(b"moov", &trak)).unwrap();
    assert_eq!((info.track_id, info.timescale), (5, 600));
}

#[test]
fn init_segment_refusals() {
    assert_eq!(
        init_error(&[init_segment(None), make_box(b"mdat", &[])].concat()),
        "initialization segment must not contain an mdat box"
    );
    assert_eq!(
        init_error(&[]),
        "initialization segment must contain exactly one moov box"
    );
    let trex = make_full_box(b"trex", 0, &words(&[8, 1, 512, 0, 0]));
    assert_eq!(
        init_error(&init_segment(Some(make_box(b"mvex", &trex)))),
        "trex track_ID does not match the initialization track"
    );
    let trex = make_full_box(b"trex", 0, &words(&[7, 1, 512, 0]));
    assert_eq!(
        init_error(&init_segment(Some(make_box(b"mvex", &trex)))),
        "trex must use the supported version 0 layout"
    );
    let trex = make_full_box(b"trex", 0, &words(&[0, 1, 512, 0, 0]));
    assert_eq!(
        init_error(&init_segment(Some(make_box(b"mvex", &trex)))),
        "trex track_ID must not be zero"
    );
    let mvex = make_box(b"mvex", &[]);
    assert_eq!(
        init_error(&init_segment(Some([mvex.clone(), mvex].concat()))),
        "moov must not contain multiple mvex boxes"
    );
    assert_eq!(
        init_error(&make_test_init_segment(0)),
        "mdhd timescale must be greater than zero"
    );
    let tkhd = make_full_box(b"tkhd", 0, &words(&[0, 0, 0]));
    assert_eq!(
        init_error(&make_box(b"moov", &make_box(b"trak", &tkhd))),
        "tkhd track_ID must not be zero"
    );
    let tkhd = make_versioned_box(b"tkhd", 2, 0, &words(&[0, 0, 1]));
    assert_eq!(
        init_error(&make_box(b"moov", &make_box(b"trak", &tkhd))),
        "unsupported tkhd version"
    );
    assert_eq!(
        init_error(&make_box(
            b"moov",
            &make_box(b"trak", &make_box(b"tkhd", &[0, 0]))
        )),
        "tkhd box is truncated"
    );
    let tkhd = make_full_box(b"tkhd", 0, &words(&[0, 0]));
    assert_eq!(
        init_error(&make_box(b"moov", &make_box(b"trak", &tkhd))),
        "tkhd track_ID is truncated"
    );
}

#[test]
fn box_header_refusals_name_the_container() {
    assert_eq!(
        media_error(&[0, 0, 0], None),
        "media segment contains a truncated BMFF box header"
    );
    assert_eq!(
        media_error(&[0, 0, 0, 1, b'm', b'o', b'o', b'f'], None),
        "media segment contains a truncated large-size box header"
    );
    assert_eq!(
        media_error(&[0, 0, 0, 4, b'm', b'o', b'o', b'f'], None),
        "media segment contains a BMFF box smaller than its header"
    );
    assert_eq!(
        media_error(&[0, 0, 0, 9, b'm', b'o', b'o', b'f'], None),
        "media segment contains a BMFF box extending beyond the input"
    );
    let inner = make_box(b"moof", &[0, 0, 0, 9, b'm', b'f', b'h', b'd']);
    assert_eq!(
        media_error(&inner, None),
        "moof contains a BMFF box extending beyond the input"
    );
    let mut huge = vec![0, 0, 0, 1, b'f', b'r', b'e', b'e'];
    huge.extend_from_slice(&u64::MAX.to_be_bytes());
    assert_eq!(
        media_error(&[make_box(b"free", &[]), huge].concat(), None),
        "media segment BMFF box size overflows the input"
    );
}

#[test]
fn large_and_open_sizes_are_read() {
    let segment = media_segment(9, 1);
    let moof_len = u32::from_be_bytes([segment[0], segment[1], segment[2], segment[3]]) as usize;
    let payload = &segment[8..moof_len];

    let mut large = vec![0, 0, 0, 1, b'm', b'o', b'o', b'f'];
    large.extend_from_slice(&((16 + payload.len()) as u64).to_be_bytes());
    large.extend_from_slice(payload);
    assert_eq!(
        parse_media_segment(&large, None).unwrap().sequence_number,
        9
    );

    let mut open = vec![0, 0, 0, 0, b'm', b'o', b'o', b'f'];
    open.extend_from_slice(payload);
    assert_eq!(parse_media_segment(&open, None).unwrap().sequence_number, 9);
}

#[test]
fn track_fragment_header_fields_are_skipped_by_their_flags() {
    // base_data_offset, sample_description_index, duration, size, flags
    let fields = words(&[4, 0, 0, 1, 250, 6, 7]);
    let tfhd = make_full_box(b"tfhd", 0x02003b, &fields);
    let trun = make_full_box(b"trun", 0, &words(&[8]));
    let info = parse_media_segment(&segment_of(tfhd, &[trun.clone()]), Some(1)).unwrap();
    assert_eq!((info.track_id, info.duration_ticks), (4, 2000));

    let truncated = make_full_box(b"tfhd", 0x000001, &words(&[4, 0]));
    assert_eq!(
        media_error(&segment_of(truncated, &[trun.clone()]), None),
        "tfhd base_data_offset is truncated"
    );
    let trailing = make_full_box(b"tfhd", 0, &words(&[4, 0]));
    assert_eq!(
        media_error(&segment_of(trailing, &[trun.clone()]), None),
        "tfhd contains unexpected trailing bytes"
    );
    let empty = make_full_box(b"tfhd", 0x010000, &words(&[4]));
    assert_eq!(
        media_error(&segment_of(empty, &[trun.clone()]), None),
        "tfhd uses unsupported flags for Milestone 1 live video"
    );
    let zero = make_full_box(b"tfhd", 0x000008, &words(&[4, 0]));
    assert_eq!(
        media_error(&segment_of(zero, &[trun.clone()]), None),
        "tfhd default_sample_duration must be greater than zero"
    );
    let no_track = make_full_box(b"tfhd", 0, &words(&[0]));
    assert_eq!(
        media_error(&segment_of(no_track, &[trun.clone()]), None),
        "tfhd track_ID must not be zero"
    );
    let version = make_versioned_box(b"tfhd", 1, 0, &words(&[4]));
    assert_eq!(
        media_error(&segment_of(version, &[trun]), None),
        "unsupported tfhd version"
    );
}

#[test]
fn sample_durations_come_from_the_table_or_from_a_default() {
    let tfhd = make_full_box(b"tfhd", 0, &words(&[1]));
    // data_offset, first_sample_flags, then duration and size of two samples
    let table = make_full_box(b"trun", 0x000305, &words(&[2, 0, 0, 10, 99, 20, 99]));
    let defaulted = make_full_box(b"trun", 0, &words(&[3]));
    let info = parse_media_segment(
        &segment_of(tfhd.clone(), &[table.clone(), defaulted.clone()]),
        Some(100),
    )
    .unwrap();
    assert_eq!(info.duration_ticks, 330);

    assert_eq!(
        media_error(&segment_of(tfhd.clone(), &[defaulted]), None),
        "trun omits sample durations and tfhd has no default_sample_duration"
    );
    assert_eq!(
        media_error(&segment_of(tfhd.clone(), &[]), None),
        "media segment traf must contain at least one trun box"
    );
    let zero = make_full_box(b"trun", 0x000100, &words(&[2, 10, 0]));
    assert_eq!(
        media_error(&segment_of(tfhd.clone(), &[zero]), None),
        "trun sample_duration must be greater than zero"
    );
    let none = make_full_box(b"trun", 0, &words(&[0]));
    assert_eq!(
        media_error(&segment_of(tfhd.clone(), &[none]), Some(1)),
        "trun sample_count must be greater than zero"
    );
    let flags = make_full_box(b"trun", 0x000002, &words(&[1]));
    assert_eq!(
        media_error(&segment_of(tfhd.clone(), &[flags]), Some(1)),
        "trun uses an unsupported version or flags"
    );
    let long = make_full_box(b"trun", 0, &words(&[2]));
    assert_eq!(
        media_error(&segment_of(tfhd, &[long]), Some(u32::MAX)),
        "media segment duration does not fit in an emsg event_duration"
    );
}

#[test]
fn sequence_number_needs_one_fragment_of_each_kind() {
    assert_eq!(moof_sequence_number(&media_segment(11, 1)), Some(11));
    assert_eq!(moof_sequence_number(&media_segment(11, 2)), None);
    assert_eq!(moof_sequence_number(&media_segment(11, 0)), None);
    let mfhd = make_full_box(b"mfhd", 1, &words(&[3]));
    let traf = make_box(b"traf", &[]);
    let flagged = make_box(b"moof", &[mfhd, traf].concat());
    assert_eq!(moof_sequence_number(&flagged), None);
    let mfhd = make_full_box(b"mfhd", 0, &words(&[7]));
    let torn = make_box(b"traf", &[1, 2, 3]);
    assert_eq!(
        moof_sequence_number(&make_box(b"moof", &[mfhd.clone(), torn].concat())),
        None
    );
    let empty = make_box(b"traf", &[]);
    assert_eq!(
        moof_sequence_number(&make_box(b"moof", &[mfhd, empty].concat())),
        Some(7)
    );
    assert_eq!(
        media_error(&flagged, None),
        "mfhd must use version 0 with zero flags"
    );
}
