use ttf_parser::{fonts_in_collection, NormalizedCoordinate, Rect, Tag};

#[test]
fn tag_round_trip() {
    let t = Tag::from_bytes(b"wght");
    assert_eq!(t.to_bytes(), *b"wght");
    let t2 = Tag::from_bytes(&[0x00, 0x7F, 0x80, 0xFF]);
    assert_eq!(t2.to_bytes(), [0x00, 0x7F, 0x80, 0xFF]);
}

#[test]
fn tag_from_bytes_lossy_pads_with_space() {
    assert_eq!(Tag::from_bytes_lossy(b"ab"), Tag::from_bytes(b"ab  "));
    assert_eq!(Tag::from_bytes_lossy(b"abc"), Tag::from_bytes(b"abc "));
    assert_eq!(Tag::from_bytes_lossy(b"abcd"), Tag::from_bytes(b"abcd"));
    assert_eq!(Tag::from_bytes_lossy(b"abcdef"), Tag::from_bytes(b"abcd"));
    assert!(Tag::from_bytes_lossy(b"").is_null());
}

#[test]
fn tag_value_and_chars() {
    let t = Tag::from_bytes(b"head");
    assert_eq!(t.as_u32(), 0x68656164);
    assert!(!t.is_null());
    assert_eq!(t.to_chars(), ['h', 'e', 'a', 'd']);
}

#[test]
fn normalized_coordinate_clamps() {
    assert_eq!(NormalizedCoordinate::from_i16(0).get(), 0);
    assert_eq!(NormalizedCoordinate::from_i16(20000).get(), 16384);
    assert_eq!(NormalizedCoordinate::from_i16(-20000).get(), -16384);
    assert_eq!(NormalizedCoordinate::from_i16(1234).get(), 1234);
}

#[test]
fn rect_width_height() {
    let r = Rect { x_min: 6, y_min: 0, x_max: 541, y_max: 656 };
    assert_eq!(r.width(), 535);
    assert_eq!(r.height(), 656);
}

#[test]
fn fonts_in_collection_reads_count() {
    let mut data = Vec::new();
    data.extend_from_slice(b"ttcf");
    data.extend_from_slice(&[0, 1, 0, 0]);
    data.extend_from_slice(&[0, 0, 0, 2]);
    assert_eq!(fonts_in_collection(&data), Some(2));
    assert_eq!(fonts_in_collection(&data[..8]), None);
    assert_eq!(fonts_in_collection(&[0, 1, 0, 0]), None);
    assert_eq!(fonts_in_collection(&[]), None);
}
