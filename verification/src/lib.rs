//! A safe, verified parser core for TrueType and OpenType font containers.
//!
//! The library exposes a typed view over a caller-owned byte buffer: it
//! recognises the container magic, selects a face out of a collection,
//! locates tables by four-byte tag, enforces the mandatory metadata tables,
//! and answers metric and glyph queries on demand. Every parsed view borrows
//! the buffer; nothing is copied and nothing panics.

pub mod aat;
pub mod face;
pub mod parser;
pub mod tables;

pub use crate::face::{Face, FaceTables};
pub use crate::tables::{ScriptMetrics, Style, Weight, Width};

use vstd::prelude::*;

use crate::parser::{be_u16, be_u32, FromData};

verus! {

/// A type-safe wrapper for a glyph identifier.
#[derive(Clone, Copy, PartialEq, Eq, PartialOrd, Ord, Structural, Debug, Hash)]
pub struct GlyphId(pub u16);

impl FromData for GlyphId {
    open spec fn size() -> usize {
        2
    }

    proof fn law_size() {
    }

    open spec fn spec_read(s: Seq<u8>, i: int) -> GlyphId {
        GlyphId(be_u16(s, i))
    }

    fn parse_size() -> (r: usize) {
        2
    }

    fn read_at(data: &[u8], offset: usize) -> (r: Option<GlyphId>) {
        match crate::parser::read_u16_at(data, offset) {
            Some(v) => Some(GlyphId(v)),
            None => None,
        }
    }
}

/// A 4-byte table identifier, stored big-endian, compared as a raw
/// 32-bit value.
#[derive(Clone, Copy, PartialEq, Eq, PartialOrd, Ord, Structural, Debug, Hash)]
pub struct Tag(pub u32);

impl Tag {
    /// The bytes of the tag, most significant first.
    pub open spec fn spec_bytes(self) -> Seq<u8> {
        seq![
            (self.0 / 0x1000000) as u8,
            ((self.0 / 0x10000) % 0x100) as u8,
            ((self.0 / 0x100) % 0x100) as u8,
            (self.0 % 0x100) as u8,
        ]
    }

    /// Builds a tag from four bytes.
    pub fn from_bytes(bytes: &[u8; 4]) -> (r: Tag)
        ensures
            r.0 == be_u32(bytes@, 0),
    {
        let b: &[u8] = bytes.as_slice();
        Tag(
            (b[0] as u32) * 0x1000000 + (b[1] as u32) * 0x10000 + (b[2] as u32) * 0x100 + (
            b[3] as u32),
        )
    }

    /// Builds a tag from up to four bytes: missing bytes are filled with
    /// a space (0x20), extra bytes are ignored, and no bytes at all give
    /// the null tag.
    pub fn from_bytes_lossy(bytes: &[u8]) -> (r: Tag)
        ensures
            bytes@.len() == 0 ==> r.0 == 0,
            bytes@.len() > 0 ==> r.0 == be_u32(
                Seq::new(4, |i: int| if i < bytes@.len() { bytes@[i] } else { 0x20u8 }),
                0,
            ),
    {
        if bytes.len() == 0 {
            return Tag(0);
        }
        let b0 = bytes[0];
        let b1 = if bytes.len() > 1 { bytes[1] } else { 0x20 };
        let b2 = if bytes.len() > 2 { bytes[2] } else { 0x20 };
        let b3 = if bytes.len() > 3 { bytes[3] } else { 0x20 };
        let r = Tag((b0 as u32) * 0x1000000 + (b1 as u32) * 0x10000 + (b2 as u32) * 0x100 + (
        b3 as u32));
        proof {
            let padded = Seq::new(
                4,
                |i: int| if i < bytes@.len() { bytes@[i] } else { 0x20u8 },
            );
            assert(padded[0] == b0 && padded[1] == b1 && padded[2] == b2 && padded[3] == b3);
        }
        r
    }

    /// Returns the tag as a 4-element byte array, most significant first.
    pub fn to_bytes(self) -> (r: [u8; 4])
        ensures
            r@ == self.spec_bytes(),
    {
        let t = self.0;
        let r = [(t / 0x1000000) as u8, ((t / 0x10000) % 0x100) as u8, ((t / 0x100) % 0x100) as u8, (
        t % 0x100) as u8];
        proof {
            assert(r@ =~= self.spec_bytes());
        }
        r
    }

    /// Returns the tag as four characters.
    pub fn to_chars(self) -> (r: [char; 4])
        ensures
            r@.len() == 4,
            forall|i: int|
                0 <= i < 4 ==> r@[i] == (self.spec_bytes()[i] as char),
    {
        let b = self.to_bytes();
        let r = [b[0] as char, b[1] as char, b[2] as char, b[3] as char];
        r
    }

    /// True for the null tag, all four bytes zero.
    pub fn is_null(&self) -> (r: bool)
        ensures
            r == (self.0 == 0),
    {
        self.0 == 0
    }

    /// The tag as a raw 32-bit value.
    pub fn as_u32(&self) -> (r: u32)
        ensures
            r == self.0,
    {
        self.0
    }
}

/// Building a tag from four bytes and taking its bytes again returns
/// them unchanged.
pub proof fn lemma_tag_bytes_round_trip(bytes: Seq<u8>)
    requires
        bytes.len() == 4,
    ensures
        Tag(be_u32(bytes, 0)).spec_bytes() == bytes,
{
    let b0 = bytes[0] as int;
    let b1 = bytes[1] as int;
    let b2 = bytes[2] as int;
    let b3 = bytes[3] as int;
    let t = be_u32(bytes, 0) as int;
    assert(t == b0 * 0x1000000 + b1 * 0x10000 + b2 * 0x100 + b3);
    vstd::arithmetic::div_mod::lemma_fundamental_div_mod_converse(
        t,
        0x1000000,
        b0,
        b1 * 0x10000 + b2 * 0x100 + b3,
    );
    vstd::arithmetic::div_mod::lemma_fundamental_div_mod_converse(
        t,
        0x10000,
        b0 * 0x100 + b1,
        b2 * 0x100 + b3,
    );
    vstd::arithmetic::div_mod::lemma_fundamental_div_mod_converse(
        t,
        0x100,
        b0 * 0x10000 + b1 * 0x100 + b2,
        b3,
    );
    vstd::arithmetic::div_mod::lemma_fundamental_div_mod_converse(b0 * 0x100 + b1, 0x100, b0, b1);
    vstd::arithmetic::div_mod::lemma_fundamental_div_mod_converse(
        b0 * 0x10000 + b1 * 0x100 + b2,
        0x100,
        b0 * 0x100 + b1,
        b2,
    );
    assert(Tag(be_u32(bytes, 0)).spec_bytes() =~= bytes);
}

/// A variation coordinate in the normalized coordinate system: a signed
/// 2.14 fixed-point number clamped to [-16384, 16384], 0 the default.
#[derive(Clone, Copy, PartialEq, Eq, Structural, Debug)]
pub struct NormalizedCoordinate(pub i16);

impl NormalizedCoordinate {
    /// Builds a coordinate, clamping the value to the -16384..=16384 range.
    pub fn from_i16(n: i16) -> (r: NormalizedCoordinate)
        ensures
            r.0 == if n < -16384 {
                -16384 as int
            } else if n > 16384 {
                16384 as int
            } else {
                n as int
            },
    {
        if n < -16384 {
            NormalizedCoordinate(-16384)
        } else if n > 16384 {
            NormalizedCoordinate(16384)
        } else {
            NormalizedCoordinate(n)
        }
    }

    /// The coordinate value as 2.14 fixed point.
    pub fn get(self) -> (r: i16)
        ensures
            r == self.0,
    {
        self.0
    }
}

/// A line position and thickness, used for underline and strikeout.
#[derive(Clone, Copy, PartialEq, Eq, Structural, Debug)]
pub struct LineMetrics {
    /// Line position.
    pub position: i16,
    /// Line thickness.
    pub thickness: i16,
}

/// A rectangle. `x_min <= x_max` and `y_min <= y_max` are not guaranteed.
#[derive(Clone, Copy, PartialEq, Eq, Structural, Debug)]
pub struct Rect {
    pub x_min: i16,
    pub y_min: i16,
    pub x_max: i16,
    pub y_max: i16,
}

impl Rect {
    /// The rectangle's width.
    pub fn width(&self) -> (r: i16)
        requires
            -0x8000 <= self.x_max - self.x_min <= 0x7FFF,
        ensures
            r == self.x_max - self.x_min,
    {
        self.x_max - self.x_min
    }

    /// The rectangle's height.
    pub fn height(&self) -> (r: i16)
        requires
            -0x8000 <= self.y_max - self.y_min <= 0x7FFF,
        ensures
            r == self.y_max - self.y_min,
    {
        self.y_max - self.y_min
    }
}

/// A glyph raster image format.
#[derive(Clone, Copy, PartialEq, Eq, Structural, Debug)]
pub enum RasterImageFormat {
    PNG,
}

/// A glyph's raster image. Metrics are in pixels, not font units.
#[derive(Clone, Copy, Debug)]
pub struct RasterGlyphImage<'a> {
    /// Horizontal offset.
    pub x: i16,
    /// Vertical offset.
    pub y: i16,
    /// Image width.
    pub width: u16,
    /// Image height.
    pub height: u16,
    /// Pixels per em of the selected strike.
    pub pixels_per_em: u16,
    /// The image format.
    pub format: RasterImageFormat,
    /// The raw image data; decoding is up to the caller.
    pub data: &'a [u8],
}

/// A table name, for presence queries.
#[derive(Clone, Copy, PartialEq, Eq, Structural, Debug)]
pub enum TableName {
    AxisVariations,
    CharacterToGlyphIndexMapping,
    ColorBitmapData,
    ColorBitmapLocation,
    CompactFontFormat,
    CompactFontFormat2,
    FontVariations,
    GlyphData,
    GlyphDefinition,
    GlyphPositioningTable,
    GlyphSubstitutionTable,
    GlyphVariations,
    Header,
    HorizontalHeader,
    HorizontalMetrics,
    HorizontalMetricsVariations,
    IndexToLocation,
    Kerning,
    MaximumProfile,
    MetricsVariations,
    Naming,
    PostScript,
    ScalableVectorGraphics,
    StandardBitmapGraphics,
    VerticalHeader,
    VerticalMetrics,
    VerticalMetricsVariations,
    VerticalOrigin,
    WindowsMetrics,
}

/// The errors a face construction can report. Nothing else escapes it.
#[derive(Clone, Copy, PartialEq, Eq, Structural, Debug)]
pub enum FaceParsingError {
    /// An attempt to read out of bounds; occurs only on malformed fonts.
    MalformedFont,
    /// The data does not start with one of the four recognised magic words.
    UnknownMagic,
    /// The face index is larger than the number of faces in the collection.
    FaceIndexOutOfBounds,
    /// The `head` table is missing or malformed.
    NoHeadTable,
    /// The `hhea` table is missing or malformed.
    NoHheaTable,
    /// The `maxp` table is missing or malformed.
    NoMaxpTable,
}

/// The number of faces a font collection holds: `None` when the buffer is
/// not a font collection.
pub fn fonts_in_collection(data: &[u8]) -> (r: Option<u32>)
    ensures
        r == if data@.len() >= 12 && be_u32(data@, 0) == 0x74746366 {
            Some(be_u32(data@, 8))
        } else {
            Option::<u32>::None
        },
{
    let magic = match crate::parser::read_u32_at(data, 0) {
        Some(m) => m,
        None => {
            return None;
        },
    };
    if magic != 0x74746366 {
        return None;
    }
    crate::parser::read_u32_at(data, 8)
}

} // verus!
