use ttf_parser::{FaceParsingError, FaceTables, Tag};

fn head_table(units_per_em: u16) -> Vec<u8> {
    let mut d = vec![0u8; 54];
    d[18..20].copy_from_slice(&units_per_em.to_be_bytes());
    d
}

fn hhea_table(ascender: i16) -> Vec<u8> {
    let mut d = vec![0u8; 36];
    d[4..6].copy_from_slice(&ascender.to_be_bytes());
    d[34..36].copy_from_slice(&1u16.to_be_bytes());
    d
}

fn maxp_table(number_of_glyphs: u16) -> Vec<u8> {
    let mut d = 0x00005000u32.to_be_bytes().to_vec();
    d.extend_from_slice(&number_of_glyphs.to_be_bytes());
    d
}

#[test]
fn caller_supplied_provider_assembles() {
    let head = head_table(1000);
    let hhea = hhea_table(640);
    let maxp = maxp_table(9);
    let kern = [7u8, 7, 7];
    let provider: Vec<(Tag, Option<&[u8]>)> = vec![
        (Tag::from_bytes(b"head"), Some(&head)),
        (Tag::from_bytes(b"hhea"), Some(&hhea)),
        (Tag::from_bytes(b"maxp"), Some(&maxp)),
        (Tag::from_bytes(b"kern"), Some(&kern)),
        (Tag::from_bytes(b"zzzz"), Some(&kern)), // unrecognised tags are ignored
        (Tag::from_bytes(b"cmap"), None),
    ];
    let tables = FaceTables::from_table_provider(&provider).unwrap();
    assert_eq!(tables.units_per_em(), 1000);
    assert_eq!(tables.ascender(), 640);
    assert_eq!(tables.number_of_glyphs(), 9);
    assert!(tables.has_table(ttf_parser::TableName::Kerning));
    assert!(!tables.has_table(ttf_parser::TableName::CharacterToGlyphIndexMapping));
}

#[test]
fn provider_without_mandatory_tables_fails() {
    let hhea = hhea_table(640);
    let maxp = maxp_table(9);
    let provider: Vec<(Tag, Option<&[u8]>)> = vec![
        (Tag::from_bytes(b"hhea"), Some(&hhea)),
        (Tag::from_bytes(b"maxp"), Some(&maxp)),
    ];
    assert_eq!(
        FaceTables::from_table_provider(&provider).err(),
        Some(FaceParsingError::NoHeadTable)
    );

    let head = head_table(1000);
    let provider2: Vec<(Tag, Option<&[u8]>)> = vec![
        (Tag::from_bytes(b"head"), Some(&head)),
        (Tag::from_bytes(b"maxp"), Some(&maxp)),
    ];
    assert_eq!(
        FaceTables::from_table_provider(&provider2).err(),
        Some(FaceParsingError::NoHheaTable)
    );

    let provider3: Vec<(Tag, Option<&[u8]>)> = vec![
        (Tag::from_bytes(b"head"), Some(&head)),
        (Tag::from_bytes(b"hhea"), Some(&hhea)),
    ];
    assert_eq!(
        FaceTables::from_table_provider(&provider3).err(),
        Some(FaceParsingError::NoMaxpTable)
    );
}

#[test]
fn provider_italic_angle() {
    let head = head_table(1000);
    let hhea = hhea_table(640);
    let maxp = maxp_table(9);
    let mut post = vec![0u8; 16];
    post[0..4].copy_from_slice(&0x00030000u32.to_be_bytes());
    // -12.5 degrees in 16.16 fixed point.
    post[4..8].copy_from_slice(&(-(12 << 16) - (1 << 15) as i32).to_be_bytes());
    let provider: Vec<(Tag, Option<&[u8]>)> = vec![
        (Tag::from_bytes(b"head"), Some(&head)),
        (Tag::from_bytes(b"hhea"), Some(&hhea)),
        (Tag::from_bytes(b"maxp"), Some(&maxp)),
        (Tag::from_bytes(b"post"), Some(&post)),
    ];
    let tables = FaceTables::from_table_provider(&provider).unwrap();
    assert_eq!(tables.italic_angle(), Some(-(12 << 16) - (1 << 15)));
}

#[test]
fn err_result_has_no_face_tables() {
    let provider: Vec<(Tag, Option<&[u8]>)> = Vec::new();
    assert!(FaceTables::from_table_provider(&provider).is_err());
}
