//! The metadata tables the core reads itself: the mandatory `head`,
//! `hhea` and `maxp` records, and the fixed-offset metric tables that
//! the query surface consults. Each parser checks every bound and
//! returns `None` on any malformation.

use vstd::prelude::*;

use crate::parser::{be_i16, be_u16, be_u32, FromData, LazyArray16, Stream};
use crate::{LineMetrics, Rect, Tag};

verus! {

broadcast use vstd::slice::group_slice_axioms;

/// How the `loca` table stores its offsets.
#[derive(Clone, Copy, PartialEq, Eq, Structural, Debug)]
pub enum IndexToLocationFormat {
    Short,
    Long,
}

/// The font header record: the design grid size, the index-to-location
/// format, and the global bounding box.
#[derive(Clone, Copy, PartialEq, Eq, Structural, Debug)]
pub struct HeadTable {
    /// Units per em, always in 16..=16384.
    pub units_per_em: u16,
    /// How `loca` stores offsets.
    pub index_to_location_format: IndexToLocationFormat,
    /// A box large enough to enclose any glyph of the face.
    pub global_bbox: Rect,
}

/// The `head` record the bytes `s` describe: `None` unless the table is
/// at least 54 bytes, units-per-em lies in 16..=16384, and the
/// index-to-location format is 0 or 1.
pub open spec fn spec_parse_head(s: Seq<u8>) -> Option<HeadTable> {
    if s.len() >= 54 && 16 <= be_u16(s, 18) <= 16384 && be_u16(s, 50) <= 1 {
        Some(
            HeadTable {
                units_per_em: be_u16(s, 18),
                index_to_location_format: if be_u16(s, 50) == 0 {
                    IndexToLocationFormat::Short
                } else {
                    IndexToLocationFormat::Long
                },
                global_bbox: Rect {
                    x_min: be_i16(s, 36),
                    y_min: be_i16(s, 38),
                    x_max: be_i16(s, 40),
                    y_max: be_i16(s, 42),
                },
            },
        )
    } else {
        None
    }
}

/// Parses the `head` table.
pub fn parse_head(data: &[u8]) -> (r: Option<HeadTable>)
    ensures
        r == spec_parse_head(data@),
{
    if data.len() < 54 {
        return None;
    }
    let units_per_em = crate::parser::read_u16_at(data, 18).unwrap();
    if units_per_em < 16 || units_per_em > 16384 {
        return None;
    }
    let fmt = crate::parser::read_u16_at(data, 50).unwrap();
    if fmt > 1 {
        return None;
    }
    let x_min = crate::parser::read_i16_at(data, 36).unwrap();
    let y_min = crate::parser::read_i16_at(data, 38).unwrap();
    let x_max = crate::parser::read_i16_at(data, 40).unwrap();
    let y_max = crate::parser::read_i16_at(data, 42).unwrap();
    Some(
        HeadTable {
            units_per_em,
            index_to_location_format: if fmt == 0 {
                IndexToLocationFormat::Short
            } else {
                IndexToLocationFormat::Long
            },
            global_bbox: Rect { x_min, y_min, x_max, y_max },
        },
    )
}

/// The horizontal header record.
#[derive(Clone, Copy, PartialEq, Eq, Structural, Debug)]
pub struct HheaTable {
    pub ascender: i16,
    pub descender: i16,
    pub line_gap: i16,
    /// The number of advance-width entries the `hmtx` table holds.
    pub number_of_metrics: u16,
}

/// The `hhea` record the bytes `s` describe: `None` unless the table is
/// at least 36 bytes.
pub open spec fn spec_parse_hhea(s: Seq<u8>) -> Option<HheaTable> {
    if s.len() >= 36 {
        Some(
            HheaTable {
                ascender: be_i16(s, 4),
                descender: be_i16(s, 6),
                line_gap: be_i16(s, 8),
                number_of_metrics: be_u16(s, 34),
            },
        )
    } else {
        None
    }
}

/// Parses the `hhea` table.
pub fn parse_hhea(data: &[u8]) -> (r: Option<HheaTable>)
    ensures
        r == spec_parse_hhea(data@),
{
    if data.len() < 36 {
        return None;
    }
    Some(
        HheaTable {
            ascender: crate::parser::read_i16_at(data, 4).unwrap(),
            descender: crate::parser::read_i16_at(data, 6).unwrap(),
            line_gap: crate::parser::read_i16_at(data, 8).unwrap(),
            number_of_metrics: crate::parser::read_u16_at(data, 34).unwrap(),
        },
    )
}

/// The vertical header record, shaped like the horizontal one.
#[derive(Clone, Copy, PartialEq, Eq, Structural, Debug)]
pub struct VheaTable {
    pub ascender: i16,
    pub descender: i16,
    pub line_gap: i16,
    /// The number of advance-height entries the `vmtx` table holds.
    pub number_of_metrics: u16,
}

/// The `vhea` record the bytes `s` describe: `None` unless the table is
/// at least 36 bytes.
pub open spec fn spec_parse_vhea(s: Seq<u8>) -> Option<VheaTable> {
    if s.len() >= 36 {
        Some(
            VheaTable {
                ascender: be_i16(s, 4),
                descender: be_i16(s, 6),
                line_gap: be_i16(s, 8),
                number_of_metrics: be_u16(s, 34),
            },
        )
    } else {
        None
    }
}

/// Parses the `vhea` table.
pub fn parse_vhea(data: &[u8]) -> (r: Option<VheaTable>)
    ensures
        r == spec_parse_vhea(data@),
{
    if data.len() < 36 {
        return None;
    }
    Some(
        VheaTable {
            ascender: crate::parser::read_i16_at(data, 4).unwrap(),
            descender: crate::parser::read_i16_at(data, 6).unwrap(),
            line_gap: crate::parser::read_i16_at(data, 8).unwrap(),
            number_of_metrics: crate::parser::read_u16_at(data, 34).unwrap(),
        },
    )
}

/// The maximum profile record: the number of glyphs, never zero.
#[derive(Clone, Copy, PartialEq, Eq, Structural, Debug)]
pub struct MaxpTable {
    pub number_of_glyphs: u16,
}

/// The `maxp` record the bytes `s` describe: `None` unless the version
/// is recognised and the glyph count is positive.
pub open spec fn spec_parse_maxp(s: Seq<u8>) -> Option<MaxpTable> {
    if s.len() >= 6 && (be_u32(s, 0) == 0x00005000 || be_u32(s, 0) == 0x00010000) && be_u16(s, 4)
        >= 1 {
        Some(MaxpTable { number_of_glyphs: be_u16(s, 4) })
    } else {
        None
    }
}

/// Parses the `maxp` table.
pub fn parse_maxp(data: &[u8]) -> (r: Option<MaxpTable>)
    ensures
        r == spec_parse_maxp(data@),
{
    if data.len() < 6 {
        return None;
    }
    let version = crate::parser::read_u32_at(data, 0).unwrap();
    if version != 0x00005000 && version != 0x00010000 {
        return None;
    }
    let number_of_glyphs = crate::parser::read_u16_at(data, 4).unwrap();
    if number_of_glyphs == 0 {
        return None;
    }
    Some(MaxpTable { number_of_glyphs })
}

/// Subscript or superscript metrics, in font units.
#[derive(Clone, Copy, PartialEq, Eq, Structural, Debug)]
pub struct ScriptMetrics {
    pub x_size: i16,
    pub y_size: i16,
    pub x_offset: i16,
    pub y_offset: i16,
}

/// A face width class.
#[derive(Clone, Copy, PartialEq, Eq, Structural, Debug)]
pub enum Width {
    UltraCondensed,
    ExtraCondensed,
    Condensed,
    SemiCondensed,
    Normal,
    SemiExpanded,
    Expanded,
    ExtraExpanded,
    UltraExpanded,
}

/// A face style.
#[derive(Clone, Copy, PartialEq, Eq, Structural, Debug)]
pub enum Style {
    Normal,
    Italic,
    Oblique,
}

/// A face weight class: the named hundreds, or any other value as is.
#[derive(Clone, Copy, PartialEq, Eq, Structural, Debug)]
pub enum Weight {
    Thin,
    ExtraLight,
    Light,
    Normal,
    Medium,
    SemiBold,
    Bold,
    ExtraBold,
    Black,
    Other(u16),
}

/// The weight class the raw value denotes.
pub open spec fn spec_weight(value: u16) -> Weight {
    if value == 100 {
        Weight::Thin
    } else if value == 200 {
        Weight::ExtraLight
    } else if value == 300 {
        Weight::Light
    } else if value == 400 {
        Weight::Normal
    } else if value == 500 {
        Weight::Medium
    } else if value == 600 {
        Weight::SemiBold
    } else if value == 700 {
        Weight::Bold
    } else if value == 800 {
        Weight::ExtraBold
    } else if value == 900 {
        Weight::Black
    } else {
        Weight::Other(value)
    }
}

/// Reads a raw weight class as the enum.
pub fn weight_of(value: u16) -> (r: Weight)
    ensures
        r == spec_weight(value),
{
    if value == 100 {
        Weight::Thin
    } else if value == 200 {
        Weight::ExtraLight
    } else if value == 300 {
        Weight::Light
    } else if value == 400 {
        Weight::Normal
    } else if value == 500 {
        Weight::Medium
    } else if value == 600 {
        Weight::SemiBold
    } else if value == 700 {
        Weight::Bold
    } else if value == 800 {
        Weight::ExtraBold
    } else if value == 900 {
        Weight::Black
    } else {
        Weight::Other(value)
    }
}

/// The windows-metrics record: versioned, with the selection flags and
/// every fixed-offset metric the query surface reads.
#[derive(Clone, Copy, PartialEq, Eq, Structural, Debug)]
pub struct Os2Table {
    pub version: u16,
    pub weight: u16,
    pub width_class: u16,
    pub fs_selection: u16,
    pub typographic_ascender: i16,
    pub typographic_descender: i16,
    pub typographic_line_gap: i16,
    pub windows_ascender: i16,
    pub windows_descender: i16,
    pub strikeout_size: i16,
    pub strikeout_position: i16,
    pub subscript: ScriptMetrics,
    pub superscript: ScriptMetrics,
    /// Present from version 2 on.
    pub x_height: Option<i16>,
    /// Present from version 2 on.
    pub capital_height: Option<i16>,
}

/// The `OS/2` record the bytes `s` describe: `None` unless the version
/// is at most 5 and the table covers the version-0 fields; the x-height
/// and capital-height fields exist from version 2 on.
pub open spec fn spec_parse_os2(s: Seq<u8>) -> Option<Os2Table> {
    if s.len() >= 78 && be_u16(s, 0) <= 5 {
        Some(
            Os2Table {
                version: be_u16(s, 0),
                weight: be_u16(s, 4),
                width_class: be_u16(s, 6),
                fs_selection: be_u16(s, 62),
                typographic_ascender: be_i16(s, 68),
                typographic_descender: be_i16(s, 70),
                typographic_line_gap: be_i16(s, 72),
                windows_ascender: be_i16(s, 74),
                windows_descender: be_i16(s, 76),
                strikeout_size: be_i16(s, 26),
                strikeout_position: be_i16(s, 28),
                subscript: ScriptMetrics {
                    x_size: be_i16(s, 10),
                    y_size: be_i16(s, 12),
                    x_offset: be_i16(s, 14),
                    y_offset: be_i16(s, 16),
                },
                superscript: ScriptMetrics {
                    x_size: be_i16(s, 18),
                    y_size: be_i16(s, 20),
                    x_offset: be_i16(s, 22),
                    y_offset: be_i16(s, 24),
                },
                x_height: if be_u16(s, 0) >= 2 && s.len() >= 90 {
                    Some(be_i16(s, 86))
                } else {
                    None
                },
                capital_height: if be_u16(s, 0) >= 2 && s.len() >= 90 {
                    Some(be_i16(s, 88))
                } else {
                    None
                },
            },
        )
    } else {
        None
    }
}

/// Parses the `OS/2` table.
pub fn parse_os2(data: &[u8]) -> (r: Option<Os2Table>)
    ensures
        r == spec_parse_os2(data@),
{
    if data.len() < 78 {
        return None;
    }
    let version = crate::parser::read_u16_at(data, 0).unwrap();
    if version > 5 {
        return None;
    }
    let tall = version >= 2 && data.len() >= 90;
    Some(
        Os2Table {
            version,
            weight: crate::parser::read_u16_at(data, 4).unwrap(),
            width_class: crate::parser::read_u16_at(data, 6).unwrap(),
            fs_selection: crate::parser::read_u16_at(data, 62).unwrap(),
            typographic_ascender: crate::parser::read_i16_at(data, 68).unwrap(),
            typographic_descender: crate::parser::read_i16_at(data, 70).unwrap(),
            typographic_line_gap: crate::parser::read_i16_at(data, 72).unwrap(),
            windows_ascender: crate::parser::read_i16_at(data, 74).unwrap(),
            windows_descender: crate::parser::read_i16_at(data, 76).unwrap(),
            strikeout_size: crate::parser::read_i16_at(data, 26).unwrap(),
            strikeout_position: crate::parser::read_i16_at(data, 28).unwrap(),
            subscript: ScriptMetrics {
                x_size: crate::parser::read_i16_at(data, 10).unwrap(),
                y_size: crate::parser::read_i16_at(data, 12).unwrap(),
                x_offset: crate::parser::read_i16_at(data, 14).unwrap(),
                y_offset: crate::parser::read_i16_at(data, 16).unwrap(),
            },
            superscript: ScriptMetrics {
                x_size: crate::parser::read_i16_at(data, 18).unwrap(),
                y_size: crate::parser::read_i16_at(data, 20).unwrap(),
                x_offset: crate::parser::read_i16_at(data, 22).unwrap(),
                y_offset: crate::parser::read_i16_at(data, 24).unwrap(),
            },
            x_height: if tall {
                Some(crate::parser::read_i16_at(data, 86).unwrap())
            } else {
                None
            },
            capital_height: if tall {
                Some(crate::parser::read_i16_at(data, 88).unwrap())
            } else {
                None
            },
        },
    )
}

impl Os2Table {
    /// Bit 0 of the selection flags: the face is italic.
    pub open spec fn spec_is_italic(self) -> bool {
        self.fs_selection % 2 == 1
    }

    /// Bit 5 of the selection flags: the face is bold.
    pub open spec fn spec_is_bold(self) -> bool {
        (self.fs_selection / 32) % 2 == 1
    }

    /// Bit 9 of the selection flags, meaningful from version 4 on: the
    /// face is oblique.
    pub open spec fn spec_is_oblique(self) -> bool {
        self.version >= 4 && (self.fs_selection / 512) % 2 == 1
    }

    /// Bit 7 of the selection flags, meaningful from version 4 on: the
    /// typographic metrics are the ones to use.
    pub open spec fn spec_use_typographic_metrics(self) -> bool {
        self.version >= 4 && (self.fs_selection / 128) % 2 == 1
    }

    /// The face style: oblique wins over italic, and anything else is
    /// normal.
    pub open spec fn spec_style(self) -> Style {
        if self.spec_is_oblique() {
            Style::Oblique
        } else if self.spec_is_italic() {
            Style::Italic
        } else {
            Style::Normal
        }
    }

    /// The width class, as an enum; invalid classes read as normal.
    pub open spec fn spec_width(self) -> Width {
        if self.width_class == 1 {
            Width::UltraCondensed
        } else if self.width_class == 2 {
            Width::ExtraCondensed
        } else if self.width_class == 3 {
            Width::Condensed
        } else if self.width_class == 4 {
            Width::SemiCondensed
        } else if self.width_class == 5 {
            Width::Normal
        } else if self.width_class == 6 {
            Width::SemiExpanded
        } else if self.width_class == 7 {
            Width::Expanded
        } else if self.width_class == 8 {
            Width::ExtraExpanded
        } else if self.width_class == 9 {
            Width::UltraExpanded
        } else {
            Width::Normal
        }
    }

    /// Runtime test for the italic bit.
    pub fn is_italic(&self) -> (r: bool)
        ensures
            r == self.spec_is_italic(),
    {
        self.fs_selection % 2 == 1
    }

    /// Runtime test for the bold bit.
    pub fn is_bold(&self) -> (r: bool)
        ensures
            r == self.spec_is_bold(),
    {
        (self.fs_selection / 32) % 2 == 1
    }

    /// Runtime test for the oblique bit.
    pub fn is_oblique(&self) -> (r: bool)
        ensures
            r == self.spec_is_oblique(),
    {
        self.version >= 4 && (self.fs_selection / 512) % 2 == 1
    }

    /// Runtime test for the use-typographic-metrics bit.
    pub fn use_typographic_metrics(&self) -> (r: bool)
        ensures
            r == self.spec_use_typographic_metrics(),
    {
        self.version >= 4 && (self.fs_selection / 128) % 2 == 1
    }

    /// The face style.
    pub fn style(&self) -> (r: Style)
        ensures
            r == self.spec_style(),
    {
        if self.is_oblique() {
            Style::Oblique
        } else if self.is_italic() {
            Style::Italic
        } else {
            Style::Normal
        }
    }

    /// The width class.
    pub fn width(&self) -> (r: Width)
        ensures
            r == self.spec_width(),
    {
        if self.width_class == 1 {
            Width::UltraCondensed
        } else if self.width_class == 2 {
            Width::ExtraCondensed
        } else if self.width_class == 3 {
            Width::Condensed
        } else if self.width_class == 4 {
            Width::SemiCondensed
        } else if self.width_class == 5 {
            Width::Normal
        } else if self.width_class == 6 {
            Width::SemiExpanded
        } else if self.width_class == 7 {
            Width::Expanded
        } else if self.width_class == 8 {
            Width::ExtraExpanded
        } else if self.width_class == 9 {
            Width::UltraExpanded
        } else {
            Width::Normal
        }
    }

    /// The strikeout line, as position and thickness.
    pub fn strikeout_metrics(&self) -> (r: LineMetrics)
        ensures
            r.position == self.strikeout_position,
            r.thickness == self.strikeout_size,
    {
        LineMetrics { position: self.strikeout_position, thickness: self.strikeout_size }
    }
}

/// The postscript record: the italic angle, the underline metrics and
/// the fixed-pitch flag.
#[derive(Clone, Copy, PartialEq, Eq, Structural, Debug)]
pub struct PostTable {
    /// The italic angle, in degrees, 16.16 fixed point,
    /// counter-clockwise negative.
    pub italic_angle: i32,
    pub underline_metrics: LineMetrics,
    pub is_monospaced: bool,
}

/// The `post` record the bytes `s` describe: `None` unless the version
/// is recognised and the fixed fields fit.
pub open spec fn spec_parse_post(s: Seq<u8>) -> Option<PostTable> {
    if s.len() >= 16 && (be_u32(s, 0) == 0x00010000 || be_u32(s, 0) == 0x00020000 || be_u32(s, 0)
        == 0x00025000 || be_u32(s, 0) == 0x00030000 || be_u32(s, 0) == 0x00040000) {
        Some(
            PostTable {
                italic_angle: crate::parser::be_i32(s, 4),
                underline_metrics: LineMetrics {
                    position: be_i16(s, 8),
                    thickness: be_i16(s, 10),
                },
                is_monospaced: be_u32(s, 12) != 0,
            },
        )
    } else {
        None
    }
}

/// Parses the `post` table.
pub fn parse_post(data: &[u8]) -> (r: Option<PostTable>)
    ensures
        r == spec_parse_post(data@),
{
    if data.len() < 16 {
        return None;
    }
    let version = crate::parser::read_u32_at(data, 0).unwrap();
    if version != 0x00010000 && version != 0x00020000 && version != 0x00025000 && version
        != 0x00030000 && version != 0x00040000 {
        return None;
    }
    Some(
        PostTable {
            italic_angle: crate::parser::read_i32_at(data, 4).unwrap(),
            underline_metrics: LineMetrics {
                position: crate::parser::read_i16_at(data, 8).unwrap(),
                thickness: crate::parser::read_i16_at(data, 10).unwrap(),
            },
            is_monospaced: crate::parser::read_u32_at(data, 12).unwrap() != 0,
        },
    )
}

/// The horizontal (or vertical) metrics table: `number_of_metrics`
/// advance/bearing pairs, then a bare side-bearing run for the
/// remaining glyphs. Glyphs past the pairs reuse the last advance.
#[derive(Clone, Copy)]
pub struct HmtxTable<'a> {
    pub data: &'a [u8],
    /// The number of advance entries; positive and at most the glyph count.
    pub number_of_metrics: u16,
    pub number_of_glyphs: u16,
}

/// The bytes can serve a metrics table for these counts: there is at
/// least one advance entry, and both runs fit.
pub open spec fn hmtx_parse_ok(s: Seq<u8>, number_of_metrics: u16, number_of_glyphs: u16) -> bool {
    let nm = if number_of_metrics <= number_of_glyphs {
        number_of_metrics as int
    } else {
        number_of_glyphs as int
    };
    &&& number_of_metrics >= 1
    &&& number_of_glyphs >= 1
    &&& nm * 4 + (number_of_glyphs - nm) * 2 <= s.len()
}

impl<'a> HmtxTable<'a> {
    /// Both runs lie within the stored slice.
    pub open spec fn wf(self) -> bool {
        &&& 1 <= self.number_of_metrics <= self.number_of_glyphs
        &&& self.number_of_metrics * 4 + (self.number_of_glyphs - self.number_of_metrics) * 2
            <= self.data@.len()
    }

    /// The advance of glyph `g`: its own pair's, or the last pair's for
    /// glyphs past the pairs; `None` beyond the glyph count.
    pub open spec fn spec_advance(self, g: u16) -> Option<u16> {
        if g >= self.number_of_glyphs {
            None
        } else if g < self.number_of_metrics {
            Some(be_u16(self.data@, g * 4))
        } else {
            Some(be_u16(self.data@, (self.number_of_metrics - 1) * 4))
        }
    }

    /// The side bearing of glyph `g`: from its pair, or from the bare
    /// run for glyphs past the pairs; `None` beyond the glyph count.
    pub open spec fn spec_side_bearing(self, g: u16) -> Option<i16> {
        if g >= self.number_of_glyphs {
            None
        } else if g < self.number_of_metrics {
            Some(be_i16(self.data@, g * 4 + 2))
        } else {
            Some(be_i16(self.data@, self.number_of_metrics * 4 + (g - self.number_of_metrics) * 2))
        }
    }

    /// Binds a metrics slice to its counts; the advance count is from
    /// the horizontal or vertical header, the glyph count from `maxp`.
    /// An advance count past the glyph count is capped at it.
    pub fn parse(data: &'a [u8], number_of_metrics: u16, number_of_glyphs: u16) -> (r: Option<
        HmtxTable<'a>,
    >)
        ensures
            match r {
                Some(t) => {
                    &&& hmtx_parse_ok(data@, number_of_metrics, number_of_glyphs)
                    &&& t.wf()
                    &&& t.data@ == data@
                    &&& t.number_of_glyphs == number_of_glyphs
                    &&& t.number_of_metrics == if number_of_metrics <= number_of_glyphs {
                        number_of_metrics as int
                    } else {
                        number_of_glyphs as int
                    }
                },
                None => !hmtx_parse_ok(data@, number_of_metrics, number_of_glyphs),
            },
    {
        if number_of_metrics == 0 || number_of_glyphs == 0 {
            return None;
        }
        let nm = if number_of_metrics <= number_of_glyphs {
            number_of_metrics
        } else {
            number_of_glyphs
        };
        let needed = (nm as usize) * 4 + ((number_of_glyphs - nm) as usize) * 2;
        if needed > data.len() {
            return None;
        }
        Some(HmtxTable { data, number_of_metrics: nm, number_of_glyphs })
    }

    /// The advance of glyph `g`.
    pub fn advance(&self, glyph_id: crate::GlyphId) -> (r: Option<u16>)
        requires
            self.wf(),
        ensures
            r == self.spec_advance(glyph_id.0),
    {
        let g = glyph_id.0;
        if g >= self.number_of_glyphs {
            return None;
        }
        if g < self.number_of_metrics {
            Some(crate::parser::read_u16_at(self.data, (g as usize) * 4).unwrap())
        } else {
            Some(
                crate::parser::read_u16_at(
                    self.data,
                    ((self.number_of_metrics - 1) as usize) * 4,
                ).unwrap(),
            )
        }
    }

    /// The side bearing of glyph `g`.
    pub fn side_bearing(&self, glyph_id: crate::GlyphId) -> (r: Option<i16>)
        requires
            self.wf(),
        ensures
            r == self.spec_side_bearing(glyph_id.0),
    {
        let g = glyph_id.0;
        if g >= self.number_of_glyphs {
            return None;
        }
        if g < self.number_of_metrics {
            Some(crate::parser::read_i16_at(self.data, (g as usize) * 4 + 2).unwrap())
        } else {
            let off = (self.number_of_metrics as usize) * 4 + ((g - self.number_of_metrics)
                as usize) * 2;
            Some(crate::parser::read_i16_at(self.data, off).unwrap())
        }
    }
}

/// One entry of the vertical-origin table.
#[derive(Clone, Copy, PartialEq, Eq, Structural, Debug)]
pub struct VertOriginMetric {
    pub glyph_index: u16,
    pub vert_origin_y: i16,
}

impl FromData for VertOriginMetric {
    open spec fn size() -> usize {
        4
    }

    proof fn law_size() {
    }

    open spec fn spec_read(s: Seq<u8>, i: int) -> VertOriginMetric {
        VertOriginMetric { glyph_index: be_u16(s, i), vert_origin_y: be_i16(s, i + 2) }
    }

    fn parse_size() -> (r: usize) {
        4
    }

    fn read_at(data: &[u8], offset: usize) -> (r: Option<VertOriginMetric>) {
        let glyph_index = match crate::parser::read_u16_at(data, offset) {
            Some(v) => v,
            None => {
                return None;
            },
        };
        match crate::parser::read_i16_at(data, offset + 2) {
            Some(vert_origin_y) => Some(VertOriginMetric { glyph_index, vert_origin_y }),
            None => None,
        }
    }
}

/// The vertical-origin table: a default origin and per-glyph exceptions.
#[derive(Clone, Copy)]
pub struct VorgTable<'a> {
    pub default_y: i16,
    pub metrics: LazyArray16<'a, VertOriginMetric>,
}

/// The bytes `s` parse as a vertical-origin table.
pub open spec fn vorg_parse_ok(s: Seq<u8>) -> bool {
    &&& s.len() >= 8
    &&& be_u32(s, 0) == 0x00010000
    &&& 8 + be_u16(s, 6) * 4 <= s.len()
}

/// The origin of glyph `g` among the exception entries from index `i`
/// on: the first matching entry's value.
pub open spec fn spec_find_origin(
    ms: LazyArray16<VertOriginMetric>,
    g: u16,
    i: int,
) -> Option<i16>
    decreases ms.count - i,
{
    if i < 0 || i >= ms.count {
        None
    } else if ms.spec_get(i).glyph_index == g {
        Some(ms.spec_get(i).vert_origin_y)
    } else {
        spec_find_origin(ms, g, i + 1)
    }
}

impl<'a> VorgTable<'a> {
    /// The exception array is internally consistent.
    pub open spec fn wf(self) -> bool {
        self.metrics.wf()
    }

    /// The origin of glyph `g`: its exception entry's value, or the
    /// default.
    pub open spec fn spec_y_origin(self, g: u16) -> i16 {
        match spec_find_origin(self.metrics, g, 0) {
            Some(v) => v,
            None => self.default_y,
        }
    }

    /// Parses the `VORG` table.
    pub fn parse(data: &'a [u8]) -> (r: Option<VorgTable<'a>>)
        ensures
            match r {
                Some(t) => {
                    &&& vorg_parse_ok(data@)
                    &&& t.wf()
                    &&& t.default_y == be_i16(data@, 4)
                    &&& t.metrics.count == be_u16(data@, 6)
                    &&& t.metrics.data@ == data@.subrange(8, 8 + be_u16(data@, 6) * 4)
                },
                None => !vorg_parse_ok(data@),
            },
    {
        let mut s = Stream::new(data);
        let version = match s.read_u32() {
            Some(v) => v,
            None => {
                return None;
            },
        };
        if version != 0x00010000 {
            return None;
        }
        let default_y = match crate::parser::read_i16_at(data, 4) {
            Some(v) => v,
            None => {
                return None;
            },
        };
        s.advance(2);
        let count = match s.read_u16() {
            Some(v) => v,
            None => {
                return None;
            },
        };
        match s.read_array16::<VertOriginMetric>(count) {
            Some(metrics) => Some(VorgTable { default_y, metrics }),
            None => None,
        }
    }

    /// The vertical origin of a glyph.
    pub fn glyph_y_origin(&self, glyph_id: crate::GlyphId) -> (r: i16)
        requires
            self.wf(),
        ensures
            r == self.spec_y_origin(glyph_id.0),
    {
        let g = glyph_id.0;
        let n = self.metrics.len();
        let mut i: u16 = 0;
        while i < n
            invariant
                self.wf(),
                g == glyph_id.0,
                n == self.metrics.count,
                0 <= i <= n,
                spec_find_origin(self.metrics, g, 0) == spec_find_origin(self.metrics, g, i as int),
            decreases n - i,
        {
            let m = self.metrics.get(i).unwrap();
            if m.glyph_index == g {
                proof {
                    assert(spec_find_origin(self.metrics, g, i as int) == Some(
                        m.vert_origin_y,
                    ));
                }
                return m.vert_origin_y;
            }
            proof {
                assert(spec_find_origin(self.metrics, g, i as int) == spec_find_origin(
                    self.metrics,
                    g,
                    i + 1,
                ));
            }
            i = i + 1;
        }
        proof {
            assert(spec_find_origin(self.metrics, g, i as int) is None);
        }
        self.default_y
    }
}

/// The index-to-location table: one offset into the glyph data per
/// glyph, plus a final end offset. Short-format entries store half the
/// offset in sixteen bits.
#[derive(Clone, Copy)]
pub struct LocaTable<'a> {
    pub is_long: bool,
    pub data: &'a [u8],
    pub number_of_glyphs: u16,
}

/// The bytes can serve an index-to-location table for this glyph count
/// and format: all `number_of_glyphs + 1` entries fit.
pub open spec fn loca_parse_ok(
    s: Seq<u8>,
    number_of_glyphs: u16,
    format: IndexToLocationFormat,
) -> bool {
    match format {
        IndexToLocationFormat::Short => (number_of_glyphs + 1) * 2 <= s.len(),
        IndexToLocationFormat::Long => (number_of_glyphs + 1) * 4 <= s.len(),
    }
}

impl<'a> LocaTable<'a> {
    /// All entries lie within the stored slice.
    pub open spec fn wf(self) -> bool {
        if self.is_long {
            (self.number_of_glyphs + 1) * 4 <= self.data@.len()
        } else {
            (self.number_of_glyphs + 1) * 2 <= self.data@.len()
        }
    }

    /// The byte offset entry `i` denotes, scaled to bytes for the
    /// short format.
    pub open spec fn spec_offset(self, i: int) -> int {
        if self.is_long {
            be_u32(self.data@, i * 4) as int
        } else {
            (be_u16(self.data@, i * 2) as int) * 2
        }
    }

    /// The glyph-data byte range of glyph `g`: from its entry to the
    /// next; `None` past the glyph count or when the entries decrease.
    pub open spec fn spec_glyph_range(self, g: u16) -> Option<(int, int)> {
        if g >= self.number_of_glyphs {
            None
        } else {
            let start = self.spec_offset(g as int);
            let end = self.spec_offset(g as int + 1);
            if start <= end {
                Some((start, end))
            } else {
                None
            }
        }
    }

    /// Binds an index-to-location slice to its glyph count and format.
    pub fn parse(
        data: &'a [u8],
        number_of_glyphs: u16,
        format: IndexToLocationFormat,
    ) -> (r: Option<LocaTable<'a>>)
        ensures
            match r {
                Some(t) => {
                    &&& loca_parse_ok(data@, number_of_glyphs, format)
                    &&& t.wf()
                    &&& t.data@ == data@
                    &&& t.number_of_glyphs == number_of_glyphs
                    &&& t.is_long == (format is Long)
                },
                None => !loca_parse_ok(data@, number_of_glyphs, format),
            },
    {
        let entry_size: usize = match format {
            IndexToLocationFormat::Short => 2,
            IndexToLocationFormat::Long => 4,
        };
        let needed = ((number_of_glyphs as usize) + 1) * entry_size;
        if needed > data.len() {
            return None;
        }
        Some(
            LocaTable {
                is_long: match format {
                    IndexToLocationFormat::Short => false,
                    IndexToLocationFormat::Long => true,
                },
                data,
                number_of_glyphs,
            },
        )
    }

    /// The glyph-data byte range of glyph `g`.
    pub fn glyph_range(&self, glyph_id: crate::GlyphId) -> (r: Option<(u32, u32)>)
        requires
            self.wf(),
        ensures
            match r {
                Some(p) => self.spec_glyph_range(glyph_id.0) == Some((p.0 as int, p.1 as int)),
                None => self.spec_glyph_range(glyph_id.0) is None,
            },
    {
        let g = glyph_id.0;
        if g >= self.number_of_glyphs {
            return None;
        }
        let (start, end) = if self.is_long {
            (
                crate::parser::read_u32_at(self.data, (g as usize) * 4).unwrap(),
                crate::parser::read_u32_at(self.data, (g as usize) * 4 + 4).unwrap(),
            )
        } else {
            (
                (crate::parser::read_u16_at(self.data, (g as usize) * 2).unwrap() as u32) * 2,
                (crate::parser::read_u16_at(self.data, (g as usize) * 2 + 2).unwrap() as u32) * 2,
            )
        };
        if start <= end {
            Some((start, end))
        } else {
            None
        }
    }
}

/// The glyph-outline binding: the index-to-location view over the raw
/// glyph data.
#[derive(Clone, Copy)]
pub struct GlyfTable<'a> {
    pub loca: LocaTable<'a>,
    pub data: &'a [u8],
}

impl<'a> GlyfTable<'a> {
    /// The location view is internally consistent.
    pub open spec fn wf(self) -> bool {
        self.loca.wf()
    }

    /// The raw bytes of one glyph's outline description: the glyph's
    /// location range cut from the glyph data; `None` past the glyph
    /// count, on decreasing entries, or when the range leaves the data.
    pub fn glyph_data(&self, glyph_id: crate::GlyphId) -> (r: Option<&'a [u8]>)
        requires
            self.wf(),
        ensures
            match r {
                Some(b) => match self.loca.spec_glyph_range(glyph_id.0) {
                    Some(p) => p.1 <= self.data@.len() && b@ == self.data@.subrange(p.0, p.1),
                    None => false,
                },
                None => match self.loca.spec_glyph_range(glyph_id.0) {
                    Some(p) => p.1 > self.data@.len(),
                    None => true,
                },
            },
    {
        let (start, end) = match self.loca.glyph_range(glyph_id) {
            Some(p) => p,
            None => {
                return None;
            },
        };
        if (end as u64) <= (self.data.len() as u64) {
            crate::parser::slice_range(self.data, start as usize, end as usize)
        } else {
            None
        }
    }
}

/// One variation axis: its tag and its design-space range, in 16.16
/// fixed point.
#[derive(Clone, Copy, PartialEq, Eq, Structural, Debug)]
pub struct VariationAxis {
    pub tag: Tag,
    /// The axis minimum, 16.16 fixed point.
    pub min_value: i32,
    /// The axis default, 16.16 fixed point.
    pub def_value: i32,
    /// The axis maximum, 16.16 fixed point.
    pub max_value: i32,
    /// The axis should stay out of interfaces.
    pub hidden: bool,
    pub name_id: u16,
}

impl FromData for VariationAxis {
    open spec fn size() -> usize {
        20
    }

    proof fn law_size() {
    }

    open spec fn spec_read(s: Seq<u8>, i: int) -> VariationAxis {
        VariationAxis {
            tag: Tag(be_u32(s, i)),
            min_value: crate::parser::be_i32(s, i + 4),
            def_value: crate::parser::be_i32(s, i + 8),
            max_value: crate::parser::be_i32(s, i + 12),
            hidden: be_u16(s, i + 16) % 2 == 1,
            name_id: be_u16(s, i + 18),
        }
    }

    fn parse_size() -> (r: usize) {
        20
    }

    fn read_at(data: &[u8], offset: usize) -> (r: Option<VariationAxis>) {
        let tag_value = match crate::parser::read_u32_at(data, offset) {
            Some(v) => v,
            None => {
                return None;
            },
        };
        let min_value = match crate::parser::read_i32_at(data, offset + 4) {
            Some(v) => v,
            None => {
                return None;
            },
        };
        let def_value = match crate::parser::read_i32_at(data, offset + 8) {
            Some(v) => v,
            None => {
                return None;
            },
        };
        let max_value = match crate::parser::read_i32_at(data, offset + 12) {
            Some(v) => v,
            None => {
                return None;
            },
        };
        let flags = match crate::parser::read_u16_at(data, offset + 16) {
            Some(v) => v,
            None => {
                return None;
            },
        };
        match crate::parser::read_u16_at(data, offset + 18) {
            Some(name_id) => Some(
                VariationAxis {
                    tag: Tag(tag_value),
                    min_value,
                    def_value,
                    max_value,
                    hidden: flags % 2 == 1,
                    name_id,
                },
            ),
            None => None,
        }
    }
}

/// A 16.16 design-space value normalized to 2.14 fixed point against an
/// axis range: clamped into `[min, max]`, zero at the default, scaled
/// linearly on each side, truncated toward zero, and capped at one.
pub open spec fn spec_normalize(min: i32, def: i32, max: i32, v: i32) -> i16 {
    let c1: int = if v > max {
        max as int
    } else {
        v as int
    };
    let c: int = if c1 < min {
        min as int
    } else {
        c1
    };
    if c == def {
        0
    } else if c < def {
        if def <= min {
            0
        } else {
            let q = ((def - c) * 16384) / (def - min);
            if q > 16384 {
                (-16384) as i16
            } else {
                (0 - q) as i16
            }
        }
    } else {
        if max <= def {
            0
        } else {
            let q = ((c - def) * 16384) / (max - def);
            if q > 16384 {
                16384
            } else {
                q as i16
            }
        }
    }
}

impl VariationAxis {
    /// Normalizes a 16.16 design-space value against this axis.
    pub fn normalized_value(&self, v: i32) -> (r: crate::NormalizedCoordinate)
        ensures
            r.0 == spec_normalize(self.min_value, self.def_value, self.max_value, v),
    {
        let c1 = if v > self.max_value {
            self.max_value
        } else {
            v
        };
        let c = if c1 < self.min_value {
            self.min_value
        } else {
            c1
        };
        if c == self.def_value {
            crate::NormalizedCoordinate(0)
        } else if c < self.def_value {
            if self.def_value <= self.min_value {
                crate::NormalizedCoordinate(0)
            } else {
                let numer: u64 = ((self.def_value as i64 - c as i64) as u64) * 16384;
                let denom: u64 = (self.def_value as i64 - self.min_value as i64) as u64;
                let q = numer / denom;
                proof {
                    lemma_normalize_div(
                        self.def_value as int - c as int,
                        self.def_value as int - self.min_value as int,
                    );
                }
                if q > 16384 {
                    crate::NormalizedCoordinate(-16384)
                } else {
                    crate::NormalizedCoordinate(0 - (q as i16))
                }
            }
        } else {
            if self.max_value <= self.def_value {
                crate::NormalizedCoordinate(0)
            } else {
                let numer: u64 = ((c as i64 - self.def_value as i64) as u64) * 16384;
                let denom: u64 = (self.max_value as i64 - self.def_value as i64) as u64;
                let q = numer / denom;
                proof {
                    lemma_normalize_div(
                        c as int - self.def_value as int,
                        self.max_value as int - self.def_value as int,
                    );
                }
                if q > 16384 {
                    crate::NormalizedCoordinate(16384)
                } else {
                    crate::NormalizedCoordinate(q as i16)
                }
            }
        }
    }
}

/// Division facts behind the normalization: the quotient is defined and
/// nonnegative for positive operands.
proof fn lemma_normalize_div(d: int, denom: int)
    requires
        0 < d,
        0 < denom,
    ensures
        0 <= (d * 16384) / denom,
        d * 16384 >= 0,
{
    vstd::arithmetic::mul::lemma_mul_strictly_positive(d, 16384);
    vstd::arithmetic::div_mod::lemma_div_pos_is_pos(d * 16384, denom);
}

/// The axis list of a variable face.
#[derive(Clone, Copy)]
pub struct FvarTable<'a> {
    pub axes: LazyArray16<'a, VariationAxis>,
}

/// The bytes `s` parse as an `fvar` table: a recognised version, at
/// least one axis, and the axis array in bounds.
pub open spec fn fvar_parse_ok(s: Seq<u8>) -> bool {
    &&& s.len() >= 10
    &&& be_u32(s, 0) == 0x00010000
    &&& be_u16(s, 8) >= 1
    &&& be_u16(s, 4) + be_u16(s, 8) * 20 <= s.len()
}

impl<'a> FvarTable<'a> {
    /// The axis array is internally consistent and non-empty.
    pub open spec fn wf(self) -> bool {
        self.axes.wf() && self.axes.count >= 1
    }

    /// Parses the `fvar` table.
    pub fn parse(data: &'a [u8]) -> (r: Option<FvarTable<'a>>)
        ensures
            match r {
                Some(t) => {
                    &&& fvar_parse_ok(data@)
                    &&& t.wf()
                    &&& t.axes.count == be_u16(data@, 8)
                    &&& t.axes.data@ == data@.subrange(
                        be_u16(data@, 4) as int,
                        be_u16(data@, 4) + be_u16(data@, 8) * 20,
                    )
                },
                None => !fvar_parse_ok(data@),
            },
    {
        let mut s = Stream::new(data);
        let version = match s.read_u32() {
            Some(v) => v,
            None => {
                return None;
            },
        };
        if version != 0x00010000 {
            return None;
        }
        let axes_offset = match s.read_u16() {
            Some(v) => v,
            None => {
                return None;
            },
        };
        s.advance(2);
        let axis_count = match s.read_u16() {
            Some(v) => v,
            None => {
                return None;
            },
        };
        if axis_count == 0 {
            return None;
        }
        if (axes_offset as usize) > data.len() {
            return None;
        }
        let mut axes_stream = Stream { data, offset: axes_offset as usize };
        match axes_stream.read_array16::<VariationAxis>(axis_count) {
            Some(axes) => Some(FvarTable { axes }),
            None => None,
        }
    }
}

} // verus!
