use ttf_parser::tables::{Style, Weight, Width};
use ttf_parser::{Face, GlyphId, LineMetrics};

fn push16(out: &mut Vec<u8>, v: u16) {
    out.extend_from_slice(&[(v >> 8) as u8, (v & 0xFF) as u8]);
}

fn push32(out: &mut Vec<u8>, v: u32) {
    out.extend_from_slice(&v.to_be_bytes());
}

fn set16(d: &mut [u8], at: usize, v: u16) {
    d[at..at + 2].copy_from_slice(&v.to_be_bytes());
}

fn seti16(d: &mut [u8], at: usize, v: i16) {
    d[at..at + 2].copy_from_slice(&v.to_be_bytes());
}

fn head_table(units_per_em: u16) -> Vec<u8> {
    let mut d = vec![0u8; 54];
    set16(&mut d, 18, units_per_em);
    d
}

fn hhea_table(ascender: i16, descender: i16, line_gap: i16, number_of_metrics: u16) -> Vec<u8> {
    let mut d = vec![0u8; 36];
    seti16(&mut d, 4, ascender);
    seti16(&mut d, 6, descender);
    seti16(&mut d, 8, line_gap);
    set16(&mut d, 34, number_of_metrics);
    d
}

fn maxp_table(number_of_glyphs: u16) -> Vec<u8> {
    let mut d = Vec::new();
    push32(&mut d, 0x00005000);
    push16(&mut d, number_of_glyphs);
    d
}

fn build_font(tables: &[([u8; 4], Vec<u8>)]) -> Vec<u8> {
    let n = tables.len();
    let mut out = Vec::new();
    push32(&mut out, 0x00010000);
    push16(&mut out, n as u16);
    out.extend_from_slice(&[0; 6]);
    let mut offset = 12 + 16 * n;
    for (tag, data) in tables {
        out.extend_from_slice(tag);
        push32(&mut out, 0);
        push32(&mut out, offset as u32);
        push32(&mut out, data.len() as u32);
        offset += data.len();
    }
    for (_, data) in tables {
        out.extend_from_slice(data);
    }
    out
}

fn os2_table(version: u16, fs_selection: u16) -> Vec<u8> {
    let mut d = vec![0u8; 78];
    set16(&mut d, 0, version);
    set16(&mut d, 62, fs_selection);
    d
}

#[test]
fn ascender_prefers_typographic_when_elected() {
    let mut os2 = os2_table(4, 1 << 7); // USE_TYPO_METRICS
    seti16(&mut os2, 68, 1100); // typographic ascender
    seti16(&mut os2, 70, -300);
    seti16(&mut os2, 72, 50);
    let data = build_font(&[
        (*b"OS/2", os2),
        (*b"head", head_table(1000)),
        (*b"hhea", hhea_table(800, -200, 90, 1)),
        (*b"maxp", maxp_table(4)),
    ]);
    let face = Face::from_slice(&data, 0).unwrap();
    assert_eq!(face.tables.ascender(), 1100);
    assert_eq!(face.tables.descender(), -300);
    assert_eq!(face.tables.line_gap(), 50);
    assert_eq!(face.tables.typographic_ascender(), Some(1100));
}

#[test]
fn ascender_falls_back_from_zero_hhea() {
    let mut os2 = os2_table(1, 0);
    seti16(&mut os2, 68, 777); // typographic ascender
    seti16(&mut os2, 74, 999); // windows ascender
    let data = build_font(&[
        (*b"OS/2", os2.clone()),
        (*b"head", head_table(1000)),
        (*b"hhea", hhea_table(0, 0, 0, 1)),
        (*b"maxp", maxp_table(4)),
    ]);
    let face = Face::from_slice(&data, 0).unwrap();
    assert_eq!(face.tables.ascender(), 777);

    // With a zero typographic value, the windows metric steps in.
    let mut os2b = os2_table(1, 0);
    seti16(&mut os2b, 74, 999);
    let datb = build_font(&[
        (*b"OS/2", os2b),
        (*b"head", head_table(1000)),
        (*b"hhea", hhea_table(0, 0, 0, 1)),
        (*b"maxp", maxp_table(4)),
    ]);
    let faceb = Face::from_slice(&datb, 0).unwrap();
    assert_eq!(faceb.tables.ascender(), 999);

    // A non-zero hhea value wins when typographic metrics are not elected.
    let datc = build_font(&[
        (*b"OS/2", os2),
        (*b"head", head_table(1000)),
        (*b"hhea", hhea_table(800, -200, 90, 1)),
        (*b"maxp", maxp_table(4)),
    ]);
    let facec = Face::from_slice(&datc, 0).unwrap();
    assert_eq!(facec.tables.ascender(), 800);
}

#[test]
fn style_flags() {
    let data = build_font(&[
        (*b"OS/2", os2_table(4, 1)), // italic bit
        (*b"head", head_table(1000)),
        (*b"hhea", hhea_table(800, -200, 90, 1)),
        (*b"maxp", maxp_table(4)),
    ]);
    let face = Face::from_slice(&data, 0).unwrap();
    assert!(face.tables.is_italic());
    assert!(!face.tables.is_bold());
    assert!(!face.tables.is_regular());
    assert_eq!(face.tables.style(), Style::Italic);

    let datb = build_font(&[
        (*b"OS/2", os2_table(4, (1 << 9) | (1 << 5))), // oblique and bold
        (*b"head", head_table(1000)),
        (*b"hhea", hhea_table(800, -200, 90, 1)),
        (*b"maxp", maxp_table(4)),
    ]);
    let faceb = Face::from_slice(&datb, 0).unwrap();
    assert!(faceb.tables.is_oblique());
    assert!(faceb.tables.is_bold());
    assert_eq!(faceb.tables.style(), Style::Oblique);

    // The oblique bit means nothing before version 4.
    let datc = build_font(&[
        (*b"OS/2", os2_table(3, 1 << 9)),
        (*b"head", head_table(1000)),
        (*b"hhea", hhea_table(800, -200, 90, 1)),
        (*b"maxp", maxp_table(4)),
    ]);
    let facec = Face::from_slice(&datc, 0).unwrap();
    assert!(!facec.tables.is_oblique());
    assert!(facec.tables.is_regular());
}

#[test]
fn weight_and_width() {
    let mut os2 = os2_table(2, 0);
    set16(&mut os2, 4, 700);
    set16(&mut os2, 6, 3);
    let data = build_font(&[
        (*b"OS/2", os2),
        (*b"head", head_table(1000)),
        (*b"hhea", hhea_table(800, -200, 90, 1)),
        (*b"maxp", maxp_table(4)),
    ]);
    let face = Face::from_slice(&data, 0).unwrap();
    assert_eq!(face.tables.weight(), Weight::Bold);
    assert_eq!(face.tables.width(), Width::Condensed);

    let mut os2b = os2_table(2, 0);
    set16(&mut os2b, 4, 351);
    set16(&mut os2b, 6, 77);
    let datb = build_font(&[
        (*b"OS/2", os2b),
        (*b"head", head_table(1000)),
        (*b"hhea", hhea_table(800, -200, 90, 1)),
        (*b"maxp", maxp_table(4)),
    ]);
    let faceb = Face::from_slice(&datb, 0).unwrap();
    assert_eq!(faceb.tables.weight(), Weight::Other(351));
    assert_eq!(faceb.tables.width(), Width::Normal);
}

#[test]
fn post_underline_and_monospace() {
    let mut post = vec![0u8; 16];
    post[0..4].copy_from_slice(&0x00030000u32.to_be_bytes());
    seti16(&mut post, 8, -120); // underline position
    seti16(&mut post, 10, 60); // underline thickness
    post[12..16].copy_from_slice(&1u32.to_be_bytes()); // fixed pitch
    let data = build_font(&[
        (*b"head", head_table(1000)),
        (*b"hhea", hhea_table(800, -200, 90, 1)),
        (*b"maxp", maxp_table(4)),
        (*b"post", post),
    ]);
    let face = Face::from_slice(&data, 0).unwrap();
    assert!(face.tables.is_monospaced());
    assert_eq!(
        face.tables.underline_metrics(),
        Some(LineMetrics { position: -120, thickness: 60 })
    );
}

#[test]
fn hmtx_advances_and_bearings() {
    // Two advance pairs, then one bare side bearing for glyph 2.
    let mut hmtx = Vec::new();
    push16(&mut hmtx, 500);
    seti16_push(&mut hmtx, 10);
    push16(&mut hmtx, 600);
    seti16_push(&mut hmtx, 20);
    seti16_push(&mut hmtx, 30);
    let data = build_font(&[
        (*b"head", head_table(1000)),
        (*b"hhea", hhea_table(800, -200, 90, 2)),
        (*b"hmtx", hmtx),
        (*b"maxp", maxp_table(3)),
    ]);
    let face = Face::from_slice(&data, 0).unwrap();
    assert_eq!(face.tables.glyph_hor_advance(GlyphId(0)), Some(500));
    assert_eq!(face.tables.glyph_hor_advance(GlyphId(1)), Some(600));
    assert_eq!(face.tables.glyph_hor_advance(GlyphId(2)), Some(600));
    assert_eq!(face.tables.glyph_hor_advance(GlyphId(3)), None);
    assert_eq!(face.tables.glyph_hor_side_bearing(GlyphId(0)), Some(10));
    assert_eq!(face.tables.glyph_hor_side_bearing(GlyphId(1)), Some(20));
    assert_eq!(face.tables.glyph_hor_side_bearing(GlyphId(2)), Some(30));
    assert_eq!(face.tables.glyph_hor_side_bearing(GlyphId(3)), None);
}

fn seti16_push(out: &mut Vec<u8>, v: i16) {
    out.extend_from_slice(&v.to_be_bytes());
}

#[test]
fn vorg_origins() {
    let mut vorg = Vec::new();
    push32(&mut vorg, 0x00010000);
    seti16_push(&mut vorg, 88); // default origin
    push16(&mut vorg, 1); // one metric
    push16(&mut vorg, 2); // glyph 2
    seti16_push(&mut vorg, -5);
    let data = build_font(&[
        (*b"VORG", vorg),
        (*b"head", head_table(1000)),
        (*b"hhea", hhea_table(800, -200, 90, 1)),
        (*b"maxp", maxp_table(4)),
    ]);
    let face = Face::from_slice(&data, 0).unwrap();
    assert_eq!(face.tables.glyph_y_origin(GlyphId(2)), Some(-5));
    assert_eq!(face.tables.glyph_y_origin(GlyphId(1)), Some(88));
}

#[test]
fn vertical_metrics() {
    let mut vhea = vec![0u8; 36];
    seti16(&mut vhea, 4, 500);
    seti16(&mut vhea, 6, -500);
    seti16(&mut vhea, 8, 10);
    set16(&mut vhea, 34, 1);
    let data = build_font(&[
        (*b"head", head_table(1000)),
        (*b"hhea", hhea_table(800, -200, 90, 1)),
        (*b"maxp", maxp_table(4)),
        (*b"vhea", vhea),
    ]);
    let face = Face::from_slice(&data, 0).unwrap();
    assert_eq!(face.tables.vertical_ascender(), Some(500));
    assert_eq!(face.tables.vertical_descender(), Some(-500));
    assert_eq!(face.tables.vertical_height(), Some(1000));
    assert_eq!(face.tables.vertical_line_gap(), Some(10));
}

#[test]
fn glyph_ranges_through_loca() {
    // Short-format entries store half the offset: 0, 8, 8, 20, 20.
    let mut loca = Vec::new();
    for v in [0u16, 4, 4, 10, 10] {
        push16(&mut loca, v);
    }
    let glyf = vec![0u8; 20];
    let data = build_font(&[
        (*b"glyf", glyf),
        (*b"head", head_table(1000)),
        (*b"hhea", hhea_table(800, -200, 90, 1)),
        (*b"loca", loca),
        (*b"maxp", maxp_table(4)),
    ]);
    let face = Face::from_slice(&data, 0).unwrap();
    assert!(face.tables.has_table(ttf_parser::TableName::GlyphData));
    assert!(face.tables.has_table(ttf_parser::TableName::IndexToLocation));
    let glyf_table = face.tables.glyf_table.unwrap();
    assert_eq!(glyf_table.loca.glyph_range(GlyphId(0)), Some((0, 8)));
    assert_eq!(glyf_table.loca.glyph_range(GlyphId(2)), Some((8, 20)));
    assert_eq!(glyf_table.loca.glyph_range(GlyphId(4)), None);
    assert_eq!(glyf_table.glyph_data(GlyphId(0)).unwrap().len(), 8);
    assert_eq!(glyf_table.glyph_data(GlyphId(1)).unwrap().len(), 0);
    assert_eq!(glyf_table.glyph_data(GlyphId(3)).unwrap().len(), 0);
    assert_eq!(glyf_table.glyph_data(GlyphId(4)), None);
}

#[test]
fn truncated_loca_leaves_glyphs_unbound() {
    let mut loca = Vec::new();
    for v in [0u16, 4, 4] {
        push16(&mut loca, v); // too short for four glyphs
    }
    let data = build_font(&[
        (*b"glyf", vec![0u8; 20]),
        (*b"head", head_table(1000)),
        (*b"hhea", hhea_table(800, -200, 90, 1)),
        (*b"loca", loca),
        (*b"maxp", maxp_table(4)),
    ]);
    let face = Face::from_slice(&data, 0).unwrap();
    assert!(!face.tables.has_table(ttf_parser::TableName::GlyphData));
    assert!(face.tables.glyf_table.is_none());
}
