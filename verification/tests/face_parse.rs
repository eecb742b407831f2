use ttf_parser::face::{GlyphNameSource, OutlineSource, RasterImageSource};
use ttf_parser::{Face, FaceParsingError, Tag, TableName};

fn push16(out: &mut Vec<u8>, v: u16) {
    out.extend_from_slice(&[(v >> 8) as u8, (v & 0xFF) as u8]);
}

fn push32(out: &mut Vec<u8>, v: u32) {
    out.extend_from_slice(&v.to_be_bytes());
}

fn head_table(units_per_em: u16) -> Vec<u8> {
    let mut d = vec![0u8; 54];
    d[18] = (units_per_em >> 8) as u8;
    d[19] = (units_per_em & 0xFF) as u8;
    d
}

fn hhea_table(ascender: i16, descender: i16, line_gap: i16, number_of_metrics: u16) -> Vec<u8> {
    let mut d = vec![0u8; 36];
    d[4..6].copy_from_slice(&ascender.to_be_bytes());
    d[6..8].copy_from_slice(&descender.to_be_bytes());
    d[8..10].copy_from_slice(&line_gap.to_be_bytes());
    d[34..36].copy_from_slice(&number_of_metrics.to_be_bytes());
    d
}

fn maxp_table(number_of_glyphs: u16) -> Vec<u8> {
    let mut d = Vec::new();
    push32(&mut d, 0x00005000);
    push16(&mut d, number_of_glyphs);
    d
}

/// Assembles a face whose buffer begins at `base` of the final file:
/// table offsets are from the file start, records sorted by tag.
fn build_font_at(tables: &[([u8; 4], Vec<u8>)], base: usize) -> Vec<u8> {
    let n = tables.len();
    let mut out = Vec::new();
    push32(&mut out, 0x00010000);
    push16(&mut out, n as u16);
    out.extend_from_slice(&[0; 6]);
    let mut offset = base + 12 + 16 * n;
    for (tag, data) in tables {
        out.extend_from_slice(tag);
        push32(&mut out, 0); // checksum
        push32(&mut out, offset as u32);
        push32(&mut out, data.len() as u32);
        offset += data.len();
    }
    for (_, data) in tables {
        out.extend_from_slice(data);
    }
    out
}

/// Assembles a single-face buffer from records sorted by tag.
fn build_font(tables: &[([u8; 4], Vec<u8>)]) -> Vec<u8> {
    build_font_at(tables, 0)
}

fn minimal_font() -> Vec<u8> {
    build_font(&[
        (*b"head", head_table(1000)),
        (*b"hhea", hhea_table(800, -200, 90, 1)),
        (*b"maxp", maxp_table(4)),
    ])
}

#[test]
fn minimal_font_parses() {
    let data = minimal_font();
    let face = Face::from_slice(&data, 0).unwrap();
    assert_eq!(face.tables.units_per_em(), 1000);
    assert_eq!(face.tables.number_of_glyphs(), 4);
    assert_eq!(face.tables.ascender(), 800);
    assert_eq!(face.tables.descender(), -200);
    assert_eq!(face.tables.height(), 1000);
    assert_eq!(face.tables.line_gap(), 90);
}

#[test]
fn truncated_header_is_malformed() {
    // A bare magic without a table count.
    let data = [0x00, 0x01, 0x00, 0x00];
    assert_eq!(Face::from_slice(&data, 0).err(), Some(FaceParsingError::MalformedFont));
}

#[test]
fn unknown_magic_is_rejected() {
    assert_eq!(Face::from_slice(b"xxxxxxxx", 0).err(), Some(FaceParsingError::UnknownMagic));
    assert_eq!(Face::from_slice(&[], 0).err(), Some(FaceParsingError::UnknownMagic));
    assert_eq!(Face::from_slice(&[0x00], 0).err(), Some(FaceParsingError::UnknownMagic));
}

#[test]
fn truncated_collection_is_malformed() {
    let mut data = Vec::new();
    data.extend_from_slice(b"ttcf");
    push32(&mut data, 0x00010000);
    push32(&mut data, 2); // two faces
    push32(&mut data, 20); // only one offset follows
    assert_eq!(Face::from_slice(&data, 0).err(), Some(FaceParsingError::MalformedFont));
}

fn build_collection(faces: &[Vec<u8>]) -> Vec<u8> {
    let mut out = Vec::new();
    out.extend_from_slice(b"ttcf");
    push32(&mut out, 0x00010000);
    push32(&mut out, faces.len() as u32);
    let mut offset = 12 + 4 * faces.len();
    for face in faces {
        push32(&mut out, offset as u32);
        offset += face.len();
    }
    for face in faces {
        out.extend_from_slice(face);
    }
    out
}

#[test]
fn collection_indexing() {
    let tables = [
        (*b"head", head_table(1000)),
        (*b"hhea", hhea_table(800, -200, 90, 1)),
        (*b"maxp", maxp_table(4)),
    ];
    // Two faces after a 20-byte collection header; table offsets are
    // from the file start.
    let f0 = build_font_at(&tables, 20);
    let f1 = build_font_at(&tables, 20 + f0.len());
    let data = build_collection(&[f0, f1]);
    assert_eq!(Face::from_slice(&data, 0).unwrap().tables.units_per_em(), 1000);
    assert_eq!(Face::from_slice(&data, 1).unwrap().tables.number_of_glyphs(), 4);
    assert_eq!(Face::from_slice(&data, 2).err(), Some(FaceParsingError::FaceIndexOutOfBounds));
    assert_eq!(Face::from_slice(&data, 9).err(), Some(FaceParsingError::FaceIndexOutOfBounds));
}

#[test]
fn nested_collection_is_rejected() {
    let inner = build_collection(&[minimal_font()]);
    let data = build_collection(&[inner]);
    assert_eq!(Face::from_slice(&data, 0).err(), Some(FaceParsingError::UnknownMagic));
}

#[test]
fn zeroed_units_per_em_is_no_head() {
    let data = build_font(&[
        (*b"head", head_table(0)),
        (*b"hhea", hhea_table(800, -200, 90, 1)),
        (*b"maxp", maxp_table(4)),
    ]);
    assert_eq!(Face::from_slice(&data, 0).err(), Some(FaceParsingError::NoHeadTable));
}

#[test]
fn missing_head_is_no_head() {
    let data = build_font(&[
        (*b"hhea", hhea_table(800, -200, 90, 1)),
        (*b"maxp", maxp_table(4)),
    ]);
    assert_eq!(Face::from_slice(&data, 0).err(), Some(FaceParsingError::NoHeadTable));
}

#[test]
fn truncated_hhea_is_no_hhea() {
    let data = build_font(&[
        (*b"head", head_table(1000)),
        (*b"hhea", hhea_table(800, -200, 90, 1)[..35].to_vec()),
        (*b"maxp", maxp_table(4)),
    ]);
    assert_eq!(Face::from_slice(&data, 0).err(), Some(FaceParsingError::NoHheaTable));
}

#[test]
fn truncated_maxp_is_no_maxp() {
    let data = build_font(&[
        (*b"head", head_table(1000)),
        (*b"hhea", hhea_table(800, -200, 90, 1)),
        (*b"maxp", maxp_table(4)[..5].to_vec()),
    ]);
    assert_eq!(Face::from_slice(&data, 0).err(), Some(FaceParsingError::NoMaxpTable));
}

#[test]
fn repeated_construction_is_equal() {
    let data = build_font(&[
        (*b"head", head_table(2048)),
        (*b"hhea", hhea_table(1900, -500, 0, 1)),
        (*b"kern", vec![1, 2, 3, 4]),
        (*b"maxp", maxp_table(7)),
    ]);
    let f1 = Face::from_slice(&data, 0).unwrap();
    let f2 = Face::from_slice(&data, 0).unwrap();
    assert_eq!(f1.tables.units_per_em(), f2.tables.units_per_em());
    assert_eq!(f1.tables.number_of_glyphs(), f2.tables.number_of_glyphs());
    assert_eq!(f1.tables.ascender(), f2.tables.ascender());
    assert_eq!(f1.tables.descender(), f2.tables.descender());
    assert_eq!(f1.tables.line_gap(), f2.tables.line_gap());
    assert_eq!(f1.tables.is_variable(), f2.tables.is_variable());
    assert_eq!(
        f1.table_data(Tag::from_bytes(b"kern")),
        f2.table_data(Tag::from_bytes(b"kern"))
    );
    assert_eq!(
        f1.table_data(Tag::from_bytes(b"head")),
        f2.table_data(Tag::from_bytes(b"head"))
    );
}

#[test]
fn table_data_stays_inside_buffer() {
    let data = build_font(&[
        (*b"head", head_table(1000)),
        (*b"hhea", hhea_table(800, -200, 90, 1)),
        (*b"maxp", maxp_table(4)),
    ]);
    let face = Face::from_slice(&data, 0).unwrap();
    let head = face.table_data(Tag::from_bytes(b"head")).unwrap();
    assert_eq!(head.len(), 54);
    assert!(head.len() <= data.len());
    assert_eq!(head, &head_table(1000)[..]);
    assert_eq!(face.table_data(Tag::from_bytes(b"glyf")), None);
}

#[test]
fn has_table_reports_presence() {
    let data = build_font(&[
        (*b"head", head_table(1000)),
        (*b"hhea", hhea_table(800, -200, 90, 1)),
        (*b"kern", vec![0, 0]),
        (*b"maxp", maxp_table(4)),
    ]);
    let face = Face::from_slice(&data, 0).unwrap();
    assert!(face.tables.has_table(TableName::Header));
    assert!(face.tables.has_table(TableName::HorizontalHeader));
    assert!(face.tables.has_table(TableName::MaximumProfile));
    assert!(face.tables.has_table(TableName::Kerning));
    assert!(!face.tables.has_table(TableName::GlyphData));
    assert!(!face.tables.has_table(TableName::FontVariations));
    assert!(!face.tables.has_table(TableName::WindowsMetrics));
    assert!(!face.tables.has_table(TableName::VerticalOrigin));
}

#[test]
fn last_occurrence_of_a_tag_wins() {
    let data = build_font(&[
        (*b"head", head_table(1000)),
        (*b"head", head_table(2000)),
        (*b"hhea", hhea_table(800, -200, 90, 1)),
        (*b"maxp", maxp_table(4)),
    ]);
    let face = Face::from_slice(&data, 0).unwrap();
    assert_eq!(face.tables.units_per_em(), 2000);
}

#[test]
fn outline_routing_prefers_glyph_data() {
    let data = build_font(&[
        (*b"CFF ", vec![1, 0, 4, 1]),
        (*b"glyf", vec![0; 10]),
        (*b"head", head_table(1000)),
        (*b"hhea", hhea_table(800, -200, 90, 1)),
        (*b"loca", vec![0; 10]),
        (*b"maxp", maxp_table(4)),
    ]);
    let face = Face::from_slice(&data, 0).unwrap();
    assert_eq!(face.tables.outline_source(), Some(OutlineSource::GlyphData));

    let datb = build_font(&[
        (*b"CFF2", vec![2, 0]),
        (*b"head", head_table(1000)),
        (*b"hhea", hhea_table(800, -200, 90, 1)),
        (*b"maxp", maxp_table(4)),
    ]);
    let faceb = Face::from_slice(&datb, 0).unwrap();
    assert_eq!(faceb.tables.outline_source(), Some(OutlineSource::CompactFontFormat2));

    let datc = build_font(&[
        (*b"head", head_table(1000)),
        (*b"hhea", hhea_table(800, -200, 90, 1)),
        (*b"maxp", maxp_table(4)),
    ]);
    let facec = Face::from_slice(&datc, 0).unwrap();
    assert_eq!(facec.tables.outline_source(), None);
}

#[test]
fn raster_image_routing_prefers_sbix() {
    let data = build_font(&[
        (*b"CBDT", vec![0; 4]),
        (*b"CBLC", vec![0; 4]),
        (*b"head", head_table(1000)),
        (*b"hhea", hhea_table(800, -200, 90, 1)),
        (*b"maxp", maxp_table(4)),
        (*b"sbix", vec![0; 4]),
    ]);
    let face = Face::from_slice(&data, 0).unwrap();
    assert_eq!(
        face.tables.raster_image_source(),
        Some(RasterImageSource::StandardBitmapGraphics)
    );

    // Without sbix, the colour-bitmap pair is usable only whole.
    let datb = build_font(&[
        (*b"CBDT", vec![0; 4]),
        (*b"CBLC", vec![0; 4]),
        (*b"head", head_table(1000)),
        (*b"hhea", hhea_table(800, -200, 90, 1)),
        (*b"maxp", maxp_table(4)),
    ]);
    let faceb = Face::from_slice(&datb, 0).unwrap();
    assert_eq!(faceb.tables.raster_image_source(), Some(RasterImageSource::ColorBitmaps));

    let datc = build_font(&[
        (*b"CBDT", vec![0; 4]),
        (*b"head", head_table(1000)),
        (*b"hhea", hhea_table(800, -200, 90, 1)),
        (*b"maxp", maxp_table(4)),
    ]);
    let facec = Face::from_slice(&datc, 0).unwrap();
    assert_eq!(facec.tables.raster_image_source(), None);
}

#[test]
fn glyph_name_routing_prefers_post() {
    let mut post = vec![0u8; 16];
    post[0..4].copy_from_slice(&0x00020000u32.to_be_bytes());
    let data = build_font(&[
        (*b"CFF ", vec![1, 0, 4, 1]),
        (*b"head", head_table(1000)),
        (*b"hhea", hhea_table(800, -200, 90, 1)),
        (*b"maxp", maxp_table(4)),
        (*b"post", post),
    ]);
    let face = Face::from_slice(&data, 0).unwrap();
    assert_eq!(face.tables.glyph_name_source(), Some(GlyphNameSource::PostScript));

    let datb = build_font(&[
        (*b"CFF ", vec![1, 0, 4, 1]),
        (*b"head", head_table(1000)),
        (*b"hhea", hhea_table(800, -200, 90, 1)),
        (*b"maxp", maxp_table(4)),
    ]);
    let faceb = Face::from_slice(&datb, 0).unwrap();
    assert_eq!(faceb.tables.glyph_name_source(), Some(GlyphNameSource::CompactFontFormat));

    let datc = minimal_font();
    let facec = Face::from_slice(&datc, 0).unwrap();
    assert_eq!(facec.tables.glyph_name_source(), None);
}
