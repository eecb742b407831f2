use ttf_parser::{Face, Tag};

fn push16(out: &mut Vec<u8>, v: u16) {
    out.extend_from_slice(&[(v >> 8) as u8, (v & 0xFF) as u8]);
}

fn push32(out: &mut Vec<u8>, v: u32) {
    out.extend_from_slice(&v.to_be_bytes());
}

fn pushi32(out: &mut Vec<u8>, v: i32) {
    out.extend_from_slice(&v.to_be_bytes());
}

fn head_table(units_per_em: u16) -> Vec<u8> {
    let mut d = vec![0u8; 54];
    d[18..20].copy_from_slice(&units_per_em.to_be_bytes());
    d
}

fn hhea_table() -> Vec<u8> {
    let mut d = vec![0u8; 36];
    d[4..6].copy_from_slice(&800i16.to_be_bytes());
    d[34..36].copy_from_slice(&1u16.to_be_bytes());
    d
}

fn maxp_table() -> Vec<u8> {
    let mut d = Vec::new();
    push32(&mut d, 0x00005000);
    push16(&mut d, 4);
    d
}

fn build_font(tables: &[([u8; 4], Vec<u8>)]) -> Vec<u8> {
    let n = tables.len();
    let mut out = Vec::new();
    push32(&mut out, 0x00010000);
    push16(&mut out, n as u16);
    out.extend_from_slice(&[0; 6]);
    let mut offset = 12 + 16 * n;
    for (tag, data) in tables {
        out.extend_from_slice(tag);
        push32(&mut out, 0);
        push32(&mut out, offset as u32);
        push32(&mut out, data.len() as u32);
        offset += data.len();
    }
    for (_, data) in tables {
        out.extend_from_slice(data);
    }
    out
}

/// An `fvar` table from axes given as (tag, min, default, max) in
/// whole design units.
fn fvar_table(axes: &[([u8; 4], i32, i32, i32)]) -> Vec<u8> {
    let mut d = Vec::new();
    push32(&mut d, 0x00010000);
    push16(&mut d, 16); // axes array offset
    push16(&mut d, 0); // reserved
    push16(&mut d, axes.len() as u16);
    push16(&mut d, 20); // axis size
    push16(&mut d, 0); // instance count
    push16(&mut d, 0); // instance size
    for (tag, min, def, max) in axes {
        d.extend_from_slice(tag);
        pushi32(&mut d, min << 16);
        pushi32(&mut d, def << 16);
        pushi32(&mut d, max << 16);
        push16(&mut d, 0); // flags
        push16(&mut d, 256); // name id
    }
    d
}

fn weight_font() -> Vec<u8> {
    build_font(&[
        (*b"fvar", fvar_table(&[(*b"wght", 100, 400, 900)])),
        (*b"head", head_table(1000)),
        (*b"hhea", hhea_table()),
        (*b"maxp", maxp_table()),
    ])
}

#[test]
fn set_variation_normalizes() {
    let data = weight_font();
    let mut face = Face::from_slice(&data, 0).unwrap();
    assert!(face.tables.is_variable());
    assert_eq!(face.tables.variation_coordinates().len(), 1);
    assert!(!face.tables.has_non_default_variation_coordinates());

    // 700 lies at (700-400)/(900-400) = 0.6 of the upper range:
    // 0.6 in 2.14 fixed point, truncated, is 9830.
    assert_eq!(face.tables.set_variation(Tag::from_bytes(b"wght"), 700 << 16), Some(()));
    assert_eq!(face.tables.variation_coordinates()[0].get(), 9830);
    assert!(face.tables.has_non_default_variation_coordinates());

    // 250 lies at (250-400)/(400-100) = -0.5 of the lower range.
    assert_eq!(face.tables.set_variation(Tag::from_bytes(b"wght"), 250 << 16), Some(()));
    assert_eq!(face.tables.variation_coordinates()[0].get(), -8192);

    // The default maps to zero; out-of-range values clamp to the ends.
    assert_eq!(face.tables.set_variation(Tag::from_bytes(b"wght"), 400 << 16), Some(()));
    assert_eq!(face.tables.variation_coordinates()[0].get(), 0);
    assert_eq!(face.tables.set_variation(Tag::from_bytes(b"wght"), 2000 << 16), Some(()));
    assert_eq!(face.tables.variation_coordinates()[0].get(), 16384);
    assert_eq!(face.tables.set_variation(Tag::from_bytes(b"wght"), -100 << 16), Some(()));
    assert_eq!(face.tables.variation_coordinates()[0].get(), -16384);
}

#[test]
fn set_variation_unknown_axis_fails() {
    let data = weight_font();
    let mut face = Face::from_slice(&data, 0).unwrap();
    assert_eq!(face.tables.set_variation(Tag::from_bytes(b"wdth"), 100 << 16), None);
    assert_eq!(face.tables.variation_coordinates()[0].get(), 0);
}

#[test]
fn set_variation_without_fvar_fails() {
    let data = build_font(&[
        (*b"head", head_table(1000)),
        (*b"hhea", hhea_table()),
        (*b"maxp", maxp_table()),
    ]);
    let mut face = Face::from_slice(&data, 0).unwrap();
    assert!(!face.tables.is_variable());
    assert_eq!(face.tables.variation_coordinates().len(), 0);
    assert_eq!(face.tables.set_variation(Tag::from_bytes(b"wght"), 700 << 16), None);
}

#[test]
fn set_variation_beyond_cap_fails() {
    // Thirty-three axes: the last stands past the coordinate cap.
    let mut axes = Vec::new();
    for i in 0..33u8 {
        axes.push(([b'a', b'x', b'0' + (i / 10), b'0' + (i % 10)], 0, 50, 100));
    }
    let data = build_font(&[
        (*b"fvar", fvar_table(&axes)),
        (*b"head", head_table(1000)),
        (*b"hhea", hhea_table()),
        (*b"maxp", maxp_table()),
    ]);
    let mut face = Face::from_slice(&data, 0).unwrap();
    assert_eq!(face.tables.variation_axes().len(), 33);
    assert_eq!(face.tables.variation_coordinates().len(), 32);

    // The thirty-second axis still works.
    let tag31 = Tag::from_bytes(&axes[31].0);
    assert_eq!(face.tables.set_variation(tag31, 100 << 16), Some(()));
    assert_eq!(face.tables.variation_coordinates()[31].get(), 16384);

    // The thirty-third is refused, and nothing moves.
    let before: Vec<i16> =
        face.tables.variation_coordinates().iter().map(|c| c.get()).collect();
    let tag32 = Tag::from_bytes(&axes[32].0);
    assert_eq!(face.tables.set_variation(tag32, 100 << 16), None);
    let after: Vec<i16> =
        face.tables.variation_coordinates().iter().map(|c| c.get()).collect();
    assert_eq!(before, after);
}

#[test]
fn variation_axes_report_the_table() {
    let data = weight_font();
    let face = Face::from_slice(&data, 0).unwrap();
    let axes = face.tables.variation_axes();
    assert_eq!(axes.len(), 1);
    assert_eq!(axes[0].tag, Tag::from_bytes(b"wght"));
    assert_eq!(axes[0].min_value, 100 << 16);
    assert_eq!(axes[0].def_value, 400 << 16);
    assert_eq!(axes[0].max_value, 900 << 16);
    assert!(!axes[0].hidden);
}

#[test]
fn metric_queries_ignore_coordinates_without_deltas() {
    // The face stores no metrics-variation table, so integer metrics
    // stay put when coordinates move.
    let data = weight_font();
    let mut face = Face::from_slice(&data, 0).unwrap();
    let before = face.tables.ascender();
    face.tables.set_variation(Tag::from_bytes(b"wght"), 700 << 16).unwrap();
    assert_eq!(face.tables.ascender(), before);
}
