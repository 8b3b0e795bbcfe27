use cargo_dfu::image::{extract, segment_qualifies, ElfImage, ExtractError, Segment, PT_LOAD};

fn load(offset: u64, file_size: u64, address: u64) -> Segment {
    Segment { kind: PT_LOAD, readable: true, offset, file_size, address }
}

fn file() -> Vec<u8> {
    (0u8..=255).collect()
}

#[test]
fn no_segment_gives_empty_image_at_zero() {
    let image = ElfImage { header_size: 0x34, segments: vec![] };
    let flat = extract(&image, &file()).unwrap();
    assert!(flat.bytes.is_empty());
    assert_eq!(flat.start_address, 0);
}

#[test]
fn only_unqualified_segments_give_empty_image_at_zero() {
    let image = ElfImage {
        header_size: 0x34,
        segments: vec![
            Segment { kind: 2, readable: true, offset: 0x40, file_size: 4, address: 0x100 },
            Segment { kind: PT_LOAD, readable: true, offset: 0x40, file_size: 0, address: 0x200 },
            Segment { kind: PT_LOAD, readable: true, offset: 0x10, file_size: 4, address: 0x300 },
            Segment { kind: PT_LOAD, readable: false, offset: 0x40, file_size: 4, address: 0x400 },
        ],
    };
    let flat = extract(&image, &file()).unwrap();
    assert!(flat.bytes.is_empty());
    assert_eq!(flat.start_address, 0);
}

#[test]
fn single_segment_is_copied() {
    let image = ElfImage { header_size: 0x34, segments: vec![load(0x40, 6, 0x0800_0000)] };
    let flat = extract(&image, &file()).unwrap();
    assert_eq!(flat.bytes, vec![0x40, 0x41, 0x42, 0x43, 0x44, 0x45]);
    assert_eq!(flat.start_address, 0x0800_0000);
}

#[test]
fn gap_between_segments_is_zero_filled() {
    let image = ElfImage {
        header_size: 0x34,
        segments: vec![load(0x40, 3, 0x1000), load(0x80, 2, 0x1000 + 3 + 5)],
    };
    let flat = extract(&image, &file()).unwrap();
    assert_eq!(flat.bytes.len(), 3 + 5 + 2);
    assert_eq!(flat.bytes, vec![0x40, 0x41, 0x42, 0, 0, 0, 0, 0, 0x80, 0x81]);
    assert_eq!(flat.start_address, 0x1000);
}

#[test]
fn contiguous_segments_get_no_padding() {
    let image = ElfImage {
        header_size: 0x34,
        segments: vec![load(0x40, 3, 0x1000), load(0x80, 2, 0x1003)],
    };
    let flat = extract(&image, &file()).unwrap();
    assert_eq!(flat.bytes, vec![0x40, 0x41, 0x42, 0x80, 0x81]);
    assert_eq!(flat.start_address, 0x1000);
}

#[test]
fn three_segments_keep_table_order() {
    let image = ElfImage {
        header_size: 0x34,
        segments: vec![load(0x40, 1, 0x10), load(0x50, 1, 0x12), load(0x60, 1, 0x13)],
    };
    let flat = extract(&image, &file()).unwrap();
    assert_eq!(flat.bytes, vec![0x40, 0, 0x50, 0x60]);
    assert_eq!(flat.start_address, 0x10);
}

#[test]
fn unqualified_segments_leave_no_trace() {
    let plain = ElfImage {
        header_size: 0x34,
        segments: vec![load(0x40, 3, 0x1000), load(0x80, 2, 0x1008)],
    };
    let mixed = ElfImage {
        header_size: 0x34,
        segments: vec![
            Segment { kind: 6, readable: true, offset: 0x34, file_size: 8, address: 0x10 },
            load(0x40, 3, 0x1000),
            Segment { kind: PT_LOAD, readable: false, offset: 0x50, file_size: 9, address: 0x1004 },
            Segment { kind: PT_LOAD, readable: true, offset: 0x33, file_size: 9, address: 0x1005 },
            Segment { kind: PT_LOAD, readable: true, offset: 0x60, file_size: 0, address: 0x1006 },
            load(0x80, 2, 0x1008),
            Segment { kind: 0, readable: true, offset: 0x90, file_size: 4, address: 0x2000 },
        ],
    };
    let a = extract(&plain, &file()).unwrap();
    let b = extract(&mixed, &file()).unwrap();
    assert_eq!(a.bytes, b.bytes);
    assert_eq!(a.start_address, b.start_address);
    assert_eq!(b.bytes, vec![0x40, 0x41, 0x42, 0, 0, 0, 0, 0, 0x80, 0x81]);
}

#[test]
fn segment_at_header_boundary_qualifies() {
    assert!(segment_qualifies(&load(0x34, 1, 0), 0x34));
    assert!(!segment_qualifies(&load(0x33, 1, 0), 0x34));
    assert!(!segment_qualifies(&load(0x34, 0, 0), 0x34));
    assert!(!segment_qualifies(
        &Segment { kind: PT_LOAD, readable: false, offset: 0x34, file_size: 1, address: 0 },
        0x34
    ));
    assert!(!segment_qualifies(
        &Segment { kind: 2, readable: true, offset: 0x34, file_size: 1, address: 0 },
        0x34
    ));
}

#[test]
fn two_segment_scenario() {
    let image = ElfImage {
        header_size: 0x34,
        segments: vec![load(0x74, 4, 0x0800_0000), load(0x78, 4, 0x0800_0010)],
    };
    let flat = extract(&image, &file()).unwrap();
    assert_eq!(flat.bytes.len(), 20);
    assert!(flat.bytes[4..16].iter().all(|b| *b == 0));
    assert_eq!(flat.bytes[0..4], [0x74, 0x75, 0x76, 0x77]);
    assert_eq!(flat.bytes[16..20], [0x78, 0x79, 0x7a, 0x7b]);
    assert_eq!(flat.start_address, 0x0800_0000);
}

#[test]
fn segment_outside_file_is_rejected() {
    let image = ElfImage { header_size: 0x34, segments: vec![load(0xfe, 3, 0x1000)] };
    assert_eq!(extract(&image, &file()).unwrap_err(), ExtractError::SegmentOutsideFile);
    let far = ElfImage { header_size: 0x34, segments: vec![load(u64::MAX, 2, 0x1000)] };
    assert_eq!(extract(&far, &file()).unwrap_err(), ExtractError::SegmentOutsideFile);
}

#[test]
fn segment_to_the_end_of_the_file_is_accepted() {
    let image = ElfImage { header_size: 0x34, segments: vec![load(0xfe, 2, 0x1000)] };
    assert_eq!(extract(&image, &file()).unwrap().bytes, vec![0xfe, 0xff]);
}

#[test]
fn start_address_beyond_32_bits_is_rejected() {
    let image = ElfImage { header_size: 0x34, segments: vec![load(0x40, 4, 0x1_0000_0000)] };
    assert_eq!(extract(&image, &file()).unwrap_err(), ExtractError::AddressOverflow);
    let last = ElfImage { header_size: 0x34, segments: vec![load(0x40, 4, 0xffff_ffff)] };
    assert_eq!(extract(&last, &file()).unwrap().start_address, 0xffff_ffff);
}

#[test]
fn segment_end_beyond_64_bits_is_rejected() {
    let image = ElfImage { header_size: 0x34, segments: vec![load(0x40, 4, u64::MAX - 2)] };
    assert_eq!(extract(&image, &file()).unwrap_err(), ExtractError::AddressOverflow);
}

#[test]
fn overlapping_segments_are_rejected() {
    let image = ElfImage {
        header_size: 0x34,
        segments: vec![load(0x40, 4, 0x1000), load(0x80, 4, 0x1003)],
    };
    assert_eq!(extract(&image, &file()).unwrap_err(), ExtractError::SegmentsOutOfOrder);
    let backwards = ElfImage {
        header_size: 0x34,
        segments: vec![load(0x40, 4, 0x2000), load(0x80, 4, 0x1000)],
    };
    assert_eq!(extract(&backwards, &file()).unwrap_err(), ExtractError::SegmentsOutOfOrder);
}

#[test]
fn oversized_gap_is_rejected() {
    let image = ElfImage {
        header_size: 0x34,
        segments: vec![load(0x40, 4, 0), load(0x80, 4, (1u64 << 63) + 100)],
    };
    assert_eq!(extract(&image, &file()).unwrap_err(), ExtractError::ImageTooLarge);
}

#[test]
fn first_failing_segment_decides_the_error() {
    let image = ElfImage {
        header_size: 0x34,
        segments: vec![load(0x40, 4, 0x2000), load(0x80, 4, 0x1000), load(0xfe, 9, 0x3000)],
    };
    assert_eq!(extract(&image, &file()).unwrap_err(), ExtractError::SegmentsOutOfOrder);
}

#[test]
fn error_descriptions_differ() {
    let all = [
        ExtractError::SegmentOutsideFile,
        ExtractError::AddressOverflow,
        ExtractError::SegmentsOutOfOrder,
        ExtractError::ImageTooLarge,
    ];
    for (i, a) in all.iter().enumerate() {
        assert!(!a.describe().is_empty());
        for b in all.iter().skip(i + 1) {
            assert_ne!(a.describe(), b.describe());
        }
    }
}
