use ttf_parser::aat::{class, ExtendedStateTable};
use ttf_parser::parser::Stream;
use ttf_parser::GlyphId;

fn push16(out: &mut Vec<u8>, v: u16) {
    out.extend_from_slice(&[(v >> 8) as u8, (v & 0xFF) as u8]);
}

fn push32(out: &mut Vec<u8>, v: u32) {
    out.extend_from_slice(&v.to_be_bytes());
}

/// A state table with four classes, an empty format 8 lookup, a single
/// all-zero state row, and one entry record.
fn sample_table() -> Vec<u8> {
    let mut d = Vec::new();
    push32(&mut d, 4); // number of classes
    push32(&mut d, 16); // lookup offset
    push32(&mut d, 22); // state array offset
    push32(&mut d, 30); // entry table offset
    // Lookup, format 8 with no glyphs: 16..22.
    push16(&mut d, 8);
    push16(&mut d, 0);
    push16(&mut d, 0);
    // State array, one row of four classes: 22..30.
    push16(&mut d, 0);
    push16(&mut d, 0);
    push16(&mut d, 0);
    push16(&mut d, 0);
    // Entry table, one entry with no payload: 30..34.
    push16(&mut d, 0); // new state
    push16(&mut d, 0); // flags
    d
}

#[test]
fn deleted_glyph_class() {
    let data = sample_table();
    let mut s = Stream::new(&data);
    let table: ExtendedStateTable<()> = ExtendedStateTable::parse(10, &mut s).unwrap();
    assert_eq!(table.class(GlyphId(0xFFFF)), Some(class::DELETED_GLYPH));
    assert_eq!(table.class(GlyphId(0xFFFF)), Some(2));
}

#[test]
fn out_of_bounds_class_coerced() {
    let data = sample_table();
    let mut s = Stream::new(&data);
    let table: ExtendedStateTable<()> = ExtendedStateTable::parse(10, &mut s).unwrap();
    let via_oob = table.entry(0, 5).unwrap();
    let via_one = table.entry(0, 1).unwrap();
    assert_eq!(via_oob.new_state, via_one.new_state);
    assert_eq!(via_oob.flags, via_one.flags);
    let far = table.entry(0, 0xFFFF).unwrap();
    assert_eq!(far.new_state, via_one.new_state);
    assert_eq!(far.flags, via_one.flags);
}

#[test]
fn entry_reads_through_state_array() {
    let mut d = Vec::new();
    push32(&mut d, 2); // number of classes
    push32(&mut d, 16); // lookup offset
    push32(&mut d, 22); // state array offset
    push32(&mut d, 30); // entry table offset
    // Lookup, format 8 with no glyphs.
    push16(&mut d, 8);
    push16(&mut d, 0);
    push16(&mut d, 0);
    // State array: two rows of two classes: entry indices 0,1,1,0.
    push16(&mut d, 0);
    push16(&mut d, 1);
    push16(&mut d, 1);
    push16(&mut d, 0);
    // Entry table: two entries with a u16 payload, stride 6.
    push16(&mut d, 7); // entry 0: new state
    push16(&mut d, 1); // flags
    push16(&mut d, 42); // payload
    push16(&mut d, 9); // entry 1: new state
    push16(&mut d, 2); // flags
    push16(&mut d, 43); // payload
    let mut s = Stream::new(&d);
    let table: ExtendedStateTable<u16> = ExtendedStateTable::parse(10, &mut s).unwrap();
    let e00 = table.entry(0, 0).unwrap();
    assert_eq!((e00.new_state, e00.flags, e00.extra), (7, 1, 42));
    let e01 = table.entry(0, 1).unwrap();
    assert_eq!((e01.new_state, e01.flags, e01.extra), (9, 2, 43));
    let e10 = table.entry(1, 0).unwrap();
    assert_eq!((e10.new_state, e10.flags, e10.extra), (9, 2, 43));
    let e11 = table.entry(1, 1).unwrap();
    assert_eq!((e11.new_state, e11.flags, e11.extra), (7, 1, 42));
    // A state past the array reads out of bounds.
    assert!(table.entry(2, 0).is_none());
}

#[test]
fn truncated_header_fails() {
    let data = sample_table();
    let mut s = Stream::new(&data[..12]);
    let table: Option<ExtendedStateTable<()>> = ExtendedStateTable::parse(10, &mut s);
    assert!(table.is_none());
}

#[test]
fn glyph_class_comes_from_lookup() {
    let mut d = Vec::new();
    push32(&mut d, 4); // number of classes
    push32(&mut d, 16); // lookup offset
    push32(&mut d, 24); // state array offset
    push32(&mut d, 24); // entry table offset
    // Lookup, format 8: glyphs 3 and 4 have classes 3 and 1.
    push16(&mut d, 8);
    push16(&mut d, 3);
    push16(&mut d, 2);
    push16(&mut d, 3);
    push16(&mut d, 1);
    // Shared zero region for the state array and entry table.
    push32(&mut d, 0);
    let mut s = Stream::new(&d);
    let table: ExtendedStateTable<()> = ExtendedStateTable::parse(10, &mut s).unwrap();
    assert_eq!(table.class(GlyphId(3)), Some(3));
    assert_eq!(table.class(GlyphId(4)), Some(1));
    assert_eq!(table.class(GlyphId(5)), None);
}
