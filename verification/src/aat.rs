//! The Apple Advanced Typography lookup and extended state table engine:
//! a polymorphic glyph-to-value map over six on-disk representations, and
//! the finite-state machine that consumes those lookups to classify glyph
//! streams.

pub mod class;

use vstd::prelude::*;

use crate::parser::{be_u16, be_u32, FromData, LazyArray16, Stream};

verus! {

broadcast use vstd::slice::group_slice_axioms;

/// Where a search key stands relative to one entry of a searched array:
/// before its range, inside it, or past it.
#[derive(Clone, Copy, PartialEq, Eq, Structural, Debug)]
pub enum KeyOrder {
    Below,
    Inside,
    Above,
}

/// An entry of a binary-searched array: a key range with an ordering law.
pub trait BinarySearchValue: FromData + Copy {
    /// True for the all-ones sentinel that terminates the array on disk.
    spec fn spec_is_termination(self) -> bool;

    /// Where `glyph` stands relative to this entry's key range.
    spec fn spec_position(self, glyph: u16) -> KeyOrder;

    /// This entry's whole key range precedes `other`'s.
    spec fn spec_all_before(self, other: Self) -> bool;

    /// When this entry wholly precedes `other`, every glyph is past this
    /// entry or before `other`.
    proof fn law_order(self, other: Self, glyph: u16)
        requires
            self.spec_all_before(other),
        ensures
            self.spec_position(glyph) is Above || other.spec_position(glyph) is Below,
    ;

    /// Searched entries occupy at least one byte.
    proof fn law_entry_size()
        ensures
            0 < Self::size(),
    ;

    /// Runtime test for the termination sentinel.
    fn is_termination(&self) -> (r: bool)
        ensures
            r == self.spec_is_termination(),
    ;

    /// Runtime key comparison.
    fn position(&self, glyph: u16) -> (r: KeyOrder)
        ensures
            r == self.spec_position(glyph),
    ;
}

/// A glyph range mapped to one value: an entry of a format 2 or 4 lookup.
#[derive(Clone, Copy, PartialEq, Eq, Structural, Debug)]
pub struct LookupSegment {
    pub last_glyph: u16,
    pub first_glyph: u16,
    pub value: u16,
}

impl FromData for LookupSegment {
    open spec fn size() -> usize {
        6
    }

    proof fn law_size() {
    }

    open spec fn spec_read(s: Seq<u8>, i: int) -> LookupSegment {
        LookupSegment {
            last_glyph: be_u16(s, i),
            first_glyph: be_u16(s, i + 2),
            value: be_u16(s, i + 4),
        }
    }

    fn parse_size() -> (r: usize) {
        6
    }

    fn read_at(data: &[u8], offset: usize) -> (r: Option<LookupSegment>) {
        let last_glyph = match crate::parser::read_u16_at(data, offset) {
            Some(v) => v,
            None => {
                return None;
            },
        };
        let first_glyph = match crate::parser::read_u16_at(data, offset + 2) {
            Some(v) => v,
            None => {
                return None;
            },
        };
        match crate::parser::read_u16_at(data, offset + 4) {
            Some(value) => Some(LookupSegment { last_glyph, first_glyph, value }),
            None => None,
        }
    }
}

impl BinarySearchValue for LookupSegment {
    proof fn law_entry_size() {
    }

    open spec fn spec_is_termination(self) -> bool {
        self.last_glyph == 0xFFFF && self.first_glyph == 0xFFFF
    }

    open spec fn spec_position(self, glyph: u16) -> KeyOrder {
        if glyph < self.first_glyph {
            KeyOrder::Below
        } else if glyph <= self.last_glyph {
            KeyOrder::Inside
        } else {
            KeyOrder::Above
        }
    }

    open spec fn spec_all_before(self, other: Self) -> bool {
        self.first_glyph <= self.last_glyph && self.last_glyph < other.first_glyph
    }

    proof fn law_order(self, other: Self, glyph: u16) {
    }

    fn is_termination(&self) -> (r: bool) {
        self.last_glyph == 0xFFFF && self.first_glyph == 0xFFFF
    }

    fn position(&self, glyph: u16) -> (r: KeyOrder) {
        if glyph < self.first_glyph {
            KeyOrder::Below
        } else if glyph <= self.last_glyph {
            KeyOrder::Inside
        } else {
            KeyOrder::Above
        }
    }
}

/// A single glyph mapped to one value: an entry of a format 6 lookup.
#[derive(Clone, Copy, PartialEq, Eq, Structural, Debug)]
pub struct LookupSingle {
    pub glyph: u16,
    pub value: u16,
}

impl FromData for LookupSingle {
    open spec fn size() -> usize {
        4
    }

    proof fn law_size() {
    }

    open spec fn spec_read(s: Seq<u8>, i: int) -> LookupSingle {
        LookupSingle { glyph: be_u16(s, i), value: be_u16(s, i + 2) }
    }

    fn parse_size() -> (r: usize) {
        4
    }

    fn read_at(data: &[u8], offset: usize) -> (r: Option<LookupSingle>) {
        let glyph = match crate::parser::read_u16_at(data, offset) {
            Some(v) => v,
            None => {
                return None;
            },
        };
        match crate::parser::read_u16_at(data, offset + 2) {
            Some(value) => Some(LookupSingle { glyph, value }),
            None => None,
        }
    }
}

impl BinarySearchValue for LookupSingle {
    proof fn law_entry_size() {
    }

    open spec fn spec_is_termination(self) -> bool {
        self.glyph == 0xFFFF
    }

    open spec fn spec_position(self, glyph: u16) -> KeyOrder {
        if glyph < self.glyph {
            KeyOrder::Below
        } else if glyph == self.glyph {
            KeyOrder::Inside
        } else {
            KeyOrder::Above
        }
    }

    open spec fn spec_all_before(self, other: Self) -> bool {
        self.glyph < other.glyph
    }

    proof fn law_order(self, other: Self, glyph: u16) {
    }

    fn is_termination(&self) -> (r: bool) {
        self.glyph == 0xFFFF
    }

    fn position(&self, glyph: u16) -> (r: KeyOrder) {
        if glyph < self.glyph {
            KeyOrder::Below
        } else if glyph == self.glyph {
            KeyOrder::Inside
        } else {
            KeyOrder::Above
        }
    }
}

/// The bytes `s` parse as a binary-search table of `T` entries: the
/// declared stride matches, the count is positive, the entries all fit,
/// and something searchable remains after dropping the sentinel.
pub open spec fn bsearch_parse_ok<T: BinarySearchValue>(s: Seq<u8>) -> bool {
    &&& s.len() >= 10
    &&& be_u16(s, 0) == T::size()
    &&& {
        let n = be_u16(s, 2);
        &&& n >= 1
        &&& 10 + n * T::size() <= s.len()
        &&& (n > 1 || !T::spec_read(s.subrange(10, 10 + n * T::size()), 0).spec_is_termination())
    }
}

/// `t` is the table that the bytes `s` describe.
pub open spec fn bsearch_matches<T: BinarySearchValue>(
    t: BinarySearchTable<T>,
    s: Seq<u8>,
) -> bool {
    let n = be_u16(s, 2);
    &&& t.wf()
    &&& t.values.count == n
    &&& t.values.data@ == s.subrange(10, 10 + n * T::size())
    &&& t.len == if t.spec_get(n - 1).spec_is_termination() {
        n - 1
    } else {
        n as int
    }
}

/// A binary-searched array of key-range entries. `len` is the searchable
/// length: the on-disk termination sentinel, when present, stands in
/// `values` but past `len`.
#[derive(Clone, Copy)]
pub struct BinarySearchTable<'a, T> {
    pub values: LazyArray16<'a, T>,
    pub len: u16,
}

impl<'a, T: BinarySearchValue> BinarySearchTable<'a, T> {
    /// The searchable range is non-empty and within the stored array.
    pub open spec fn wf(self) -> bool {
        self.values.wf() && 1 <= self.len <= self.values.count
    }

    /// The entry at index `i`.
    pub open spec fn spec_get(self, i: int) -> T {
        self.values.spec_get(i)
    }

    /// The searchable entries stand in strictly increasing, disjoint
    /// key order. Binary search misses are conclusive only under this,
    /// which the on-disk format promises but a parser cannot afford to
    /// check.
    pub open spec fn spec_sorted(self) -> bool {
        forall|i: int, j: int|
            0 <= i < j < self.len ==> (#[trigger] self.spec_get(i)).spec_all_before(
                #[trigger] self.spec_get(j),
            )
    }

    /// Parses the binary-search header `{segment size, segment count,
    /// three search hints}` followed by the entry array. Fails when the
    /// declared stride differs from `T`'s size, when the count is zero,
    /// when the bytes run short, or when nothing searchable remains
    /// after dropping the sentinel.
    pub fn parse(data: &'a [u8]) -> (r: Option<Self>)
        ensures
            match r {
                Some(t) => bsearch_parse_ok::<T>(data@) && bsearch_matches::<T>(t, data@),
                None => !bsearch_parse_ok::<T>(data@),
            },
    {
        let mut s = Stream::new(data);
        let segment_size = match s.read_u16() {
            Some(v) => v,
            None => {
                return None;
            },
        };
        let number_of_segments = match s.read_u16() {
            Some(v) => v,
            None => {
                return None;
            },
        };
        s.advance(6);
        if (segment_size as usize) != T::parse_size() {
            return None;
        }
        if number_of_segments == 0 {
            return None;
        }
        proof {
            T::law_size();
            T::law_entry_size();
            vstd::arithmetic::mul::lemma_mul_strictly_positive(
                number_of_segments as int,
                T::size() as int,
            );
        }
        let values = match s.read_array16::<T>(number_of_segments) {
            Some(v) => v,
            None => {
                return None;
            },
        };
        let mut len = number_of_segments;
        let last = values.last().unwrap();
        if last.is_termination() {
            len = len - 1;
        }
        if len == 0 {
            proof {
                assert(number_of_segments == 1);
                assert(values.data@ == data@.subrange(
                    10,
                    10 + number_of_segments * T::size(),
                ));
                assert(0 * T::size() == 0) by (nonlinear_arith);
                assert(values.spec_get(0) == T::spec_read(values.data@, 0));
                assert(values.spec_get(0) == T::spec_read(
                    data@.subrange(10, 10 + number_of_segments * T::size()),
                    0,
                ));
            }
            return None;
        }
        Some(BinarySearchTable { values, len })
    }

    /// Binary search for the entry whose key range holds `key`.
    ///
    /// A hit always comes from some searchable entry. A miss means no
    /// entry holds `key`, provided the entries are sorted as the on-disk
    /// format promises.
    pub fn get(&self, key: u16) -> (r: Option<T>)
        requires
            self.wf(),
        ensures
            match r {
                Some(v) => exists|i: int|
                    0 <= i < self.len && v == self.spec_get(i) && (#[trigger] self.spec_get(
                        i,
                    )).spec_position(key) is Inside,
                None => self.spec_sorted() ==> forall|i: int|
                    0 <= i < self.len ==> !((#[trigger] self.spec_get(i)).spec_position(
                        key,
                    ) is Inside),
            },
    {
        let mut min: i32 = 0;
        let mut max: i32 = (self.len as i32) - 1;
        while min <= max
            invariant
                self.wf(),
                0 <= min,
                max < self.len,
                self.spec_sorted() ==> forall|k: int|
                    0 <= k < self.len && (#[trigger] self.spec_get(k)).spec_position(
                        key,
                    ) is Inside ==> min <= k <= max,
            decreases max + 1 - min,
        {
            let mid = min + (max - min) / 2;
            let v = self.values.get(mid as u16).unwrap();
            match v.position(key) {
                KeyOrder::Below => {
                    proof {
                        if self.spec_sorted() {
                            assert forall|k: int|
                                mid < k < self.len implies !((#[trigger] self.spec_get(
                                k,
                            )).spec_position(key) is Inside) by {
                                self.spec_get(mid as int).law_order(self.spec_get(k), key);
                            }
                        }
                    }
                    max = mid - 1;
                },
                KeyOrder::Above => {
                    proof {
                        if self.spec_sorted() {
                            assert forall|k: int|
                                0 <= k < mid implies !((#[trigger] self.spec_get(
                                k,
                            )).spec_position(key) is Inside) by {
                                self.spec_get(k).law_order(self.spec_get(mid as int), key);
                            }
                        }
                    }
                    min = mid + 1;
                },
                KeyOrder::Inside => {
                    proof {
                        assert(0 <= mid < self.len);
                        assert(v == self.spec_get(mid as int));
                        assert(self.spec_get(mid as int).spec_position(key) is Inside);
                    }
                    return Some(v);
                },
            }
        }
        None
    }
}

/// The element width of a format 10 dense array: one, two or four
/// bytes. The on-disk format also names an eight-byte width; it is
/// recognised but not supported, and fails at parse like any other
/// undeclared width.
#[derive(Clone, Copy, PartialEq, Eq, Structural, Debug)]
pub enum ValueWidth {
    One,
    Two,
    Four,
}

/// The width a declared format 10 value size denotes, when supported.
pub open spec fn spec_value_width(v: u16) -> Option<ValueWidth> {
    if v == 1 {
        Some(ValueWidth::One)
    } else if v == 2 {
        Some(ValueWidth::Two)
    } else if v == 4 {
        Some(ValueWidth::Four)
    } else {
        None
    }
}

/// The six on-disk representations of a glyph-to-value lookup.
#[derive(Clone, Copy)]
pub enum LookupInner<'a> {
    Format1(LazyArray16<'a, u16>),
    Format2(BinarySearchTable<'a, LookupSegment>),
    Format4(BinarySearchTable<'a, LookupSegment>, &'a [u8]),
    Format6(BinarySearchTable<'a, LookupSingle>),
    Format8 { first_glyph: u16, values: LazyArray16<'a, u16> },
    Format10 { value_size: ValueWidth, first_glyph: u16, glyph_count: u16, data: &'a [u8] },
}

/// The bytes `s` parse as a lookup for a face of `n_glyphs` glyphs.
pub open spec fn lookup_parse_ok(n_glyphs: u16, s: Seq<u8>) -> bool {
    &&& s.len() >= 2
    &&& {
        let fmt = be_u16(s, 0);
        ||| (fmt == 0 && 2 + n_glyphs * 2 <= s.len())
        ||| (fmt == 2 && bsearch_parse_ok::<LookupSegment>(s.skip(2)))
        ||| (fmt == 4 && bsearch_parse_ok::<LookupSegment>(s.skip(2)))
        ||| (fmt == 6 && bsearch_parse_ok::<LookupSingle>(s.skip(2)))
        ||| (fmt == 8 && s.len() >= 6 && 6 + be_u16(s, 4) * 2 <= s.len())
        ||| (fmt == 10 && s.len() >= 8 && spec_value_width(be_u16(s, 2)) is Some)
    }
}

/// `inner` is the lookup that the bytes `s` describe.
pub open spec fn lookup_matches(inner: LookupInner, n_glyphs: u16, s: Seq<u8>) -> bool {
    match inner {
        LookupInner::Format1(arr) => {
            &&& be_u16(s, 0) == 0
            &&& arr.wf()
            &&& arr.count == n_glyphs
            &&& arr.data@ == s.subrange(2, 2 + n_glyphs * 2)
        },
        LookupInner::Format2(t) => be_u16(s, 0) == 2 && bsearch_matches::<LookupSegment>(
            t,
            s.skip(2),
        ),
        LookupInner::Format4(t, d) => {
            &&& be_u16(s, 0) == 4
            &&& bsearch_matches::<LookupSegment>(t, s.skip(2))
            &&& d@ == s
        },
        LookupInner::Format6(t) => be_u16(s, 0) == 6 && bsearch_matches::<LookupSingle>(
            t,
            s.skip(2),
        ),
        LookupInner::Format8 { first_glyph, values } => {
            &&& be_u16(s, 0) == 8
            &&& first_glyph == be_u16(s, 2)
            &&& values.wf()
            &&& values.count == be_u16(s, 4)
            &&& values.data@ == s.subrange(6, 6 + be_u16(s, 4) * 2)
        },
        LookupInner::Format10 { value_size, first_glyph, glyph_count, data } => {
            &&& be_u16(s, 0) == 10
            &&& Some(value_size) == spec_value_width(be_u16(s, 2))
            &&& first_glyph == be_u16(s, 4)
            &&& glyph_count == be_u16(s, 6)
            &&& data@ == s.skip(8)
        },
    }
}

/// The value a format 4 lookup yields for `g` through segment `seg`: a
/// u16 read from the subtable at the segment's per-range value offset.
pub open spec fn spec_format4_value(s: Seq<u8>, seg: LookupSegment, g: u16) -> Option<u16> {
    if g < seg.first_glyph {
        None
    } else {
        let off = seg.value + 2 * (g - seg.first_glyph);
        if off + 2 <= s.len() {
            Some(be_u16(s, off))
        } else {
            None
        }
    }
}

/// The value a format 10 lookup yields for `g`: a dense array element
/// of one, two or four bytes, the four-byte form truncated to sixteen
/// bits.
pub open spec fn spec_format10_value(
    value_size: ValueWidth,
    first_glyph: u16,
    glyph_count: u16,
    s: Seq<u8>,
    g: u16,
) -> Option<u16> {
    if g < first_glyph || g - first_glyph >= glyph_count {
        None
    } else {
        let idx = g - first_glyph;
        match value_size {
            ValueWidth::One => if glyph_count * 1 <= s.len() {
                Some(s[idx] as u16)
            } else {
                None
            },
            ValueWidth::Two => if glyph_count * 2 <= s.len() {
                Some(be_u16(s.subrange(0, glyph_count * 2), idx * 2))
            } else {
                None
            },
            ValueWidth::Four => if glyph_count * 4 <= s.len() {
                Some(be_u32(s.subrange(0, glyph_count * 4), idx * 4) as u16)
            } else {
                None
            },
        }
    }
}

/// What `Lookup::value` may return for glyph `g` on a given
/// representation. Dense formats are pinned exactly; binary-searched
/// formats are pinned exactly when the entries are sorted as the on-disk
/// format promises, and a hit always comes from a real entry either way.
pub open spec fn lookup_value_obligation(inner: LookupInner, g: u16, r: Option<u16>) -> bool {
    match inner {
        LookupInner::Format1(arr) => r == if g < arr.count {
            Some(arr.spec_get(g as int))
        } else {
            Option::<u16>::None
        },
        LookupInner::Format2(t) => {
            &&& (r is Some ==> exists|i: int|
                0 <= i < t.len && (#[trigger] t.spec_get(i)).spec_position(g) is Inside && r
                    == Some(t.spec_get(i).value))
            &&& t.spec_sorted() ==> {
                &&& forall|i: int|
                    0 <= i < t.len && (#[trigger] t.spec_get(i)).spec_position(g) is Inside ==> r
                        == Some(t.spec_get(i).value)
                &&& (forall|i: int|
                    0 <= i < t.len ==> !((#[trigger] t.spec_get(i)).spec_position(g) is Inside))
                    ==> r is None
            }
        },
        LookupInner::Format4(t, d) => {
            &&& (r is Some ==> exists|i: int|
                0 <= i < t.len && (#[trigger] t.spec_get(i)).spec_position(g) is Inside && r
                    == spec_format4_value(d@, t.spec_get(i), g))
            &&& t.spec_sorted() ==> {
                &&& forall|i: int|
                    0 <= i < t.len && (#[trigger] t.spec_get(i)).spec_position(g) is Inside ==> r
                        == spec_format4_value(d@, t.spec_get(i), g)
                &&& (forall|i: int|
                    0 <= i < t.len ==> !((#[trigger] t.spec_get(i)).spec_position(g) is Inside))
                    ==> r is None
            }
        },
        LookupInner::Format6(t) => {
            &&& (r is Some ==> exists|i: int|
                0 <= i < t.len && (#[trigger] t.spec_get(i)).spec_position(g) is Inside && r
                    == Some(t.spec_get(i).value))
            &&& t.spec_sorted() ==> {
                &&& forall|i: int|
                    0 <= i < t.len && (#[trigger] t.spec_get(i)).spec_position(g) is Inside ==> r
                        == Some(t.spec_get(i).value)
                &&& (forall|i: int|
                    0 <= i < t.len ==> !((#[trigger] t.spec_get(i)).spec_position(g) is Inside))
                    ==> r is None
            }
        },
        LookupInner::Format8 { first_glyph, values } => r == if g >= first_glyph && g - first_glyph
            < values.count {
            Some(values.spec_get(g - first_glyph))
        } else {
            Option::<u16>::None
        },
        LookupInner::Format10 { value_size, first_glyph, glyph_count, data } => r
            == spec_format10_value(value_size, first_glyph, glyph_count, data@, g),
    }
}

/// A glyph-keyed map over six on-disk representations.
///
/// Four-byte values of format 10 tables are truncated to u16;
/// eight-byte and other undeclared widths fail at parse.
#[derive(Clone, Copy)]
pub struct Lookup<'a> {
    pub data: LookupInner<'a>,
}

impl<'a> Lookup<'a> {
    /// The stored array views are internally consistent; parsing
    /// establishes this and every method preserves it.
    pub open spec fn wf(self) -> bool {
        match self.data {
            LookupInner::Format1(arr) => arr.wf(),
            LookupInner::Format2(t) => t.wf(),
            LookupInner::Format4(t, d) => t.wf(),
            LookupInner::Format6(t) => t.wf(),
            LookupInner::Format8 { first_glyph, values } => values.wf(),
            LookupInner::Format10 { value_size, first_glyph, glyph_count, data } => true,
        }
    }

    /// Parses a lookup table from raw data. `number_of_glyphs` is from
    /// the `maxp` table and sizes a format 0 dense array.
    pub fn parse(number_of_glyphs: u16, data: &'a [u8]) -> (r: Option<Lookup<'a>>)
        ensures
            match r {
                Some(t) => t.wf() && lookup_parse_ok(number_of_glyphs, data@) && lookup_matches(
                    t.data,
                    number_of_glyphs,
                    data@,
                ),
                None => !lookup_parse_ok(number_of_glyphs, data@),
            },
    {
        let mut s = Stream::new(data);
        let format = match s.read_u16() {
            Some(v) => v,
            None => {
                return None;
            },
        };
        if format == 0 {
            match s.read_array16::<u16>(number_of_glyphs) {
                Some(values) => Some(Lookup { data: LookupInner::Format1(values) }),
                None => None,
            }
        } else if format == 2 {
            match BinarySearchTable::<LookupSegment>::parse(s.tail()) {
                Some(bsearch) => Some(Lookup { data: LookupInner::Format2(bsearch) }),
                None => None,
            }
        } else if format == 4 {
            match BinarySearchTable::<LookupSegment>::parse(s.tail()) {
                Some(bsearch) => Some(Lookup { data: LookupInner::Format4(bsearch, data) }),
                None => None,
            }
        } else if format == 6 {
            match BinarySearchTable::<LookupSingle>::parse(s.tail()) {
                Some(bsearch) => Some(Lookup { data: LookupInner::Format6(bsearch) }),
                None => None,
            }
        } else if format == 8 {
            let first_glyph = match s.read_u16() {
                Some(v) => v,
                None => {
                    return None;
                },
            };
            let glyph_count = match s.read_u16() {
                Some(v) => v,
                None => {
                    return None;
                },
            };
            match s.read_array16::<u16>(glyph_count) {
                Some(values) => Some(
                    Lookup { data: LookupInner::Format8 { first_glyph, values } },
                ),
                None => None,
            }
        } else if format == 10 {
            let declared_size = match s.read_u16() {
                Some(v) => v,
                None => {
                    return None;
                },
            };
            let value_size = if declared_size == 1 {
                ValueWidth::One
            } else if declared_size == 2 {
                ValueWidth::Two
            } else if declared_size == 4 {
                ValueWidth::Four
            } else {
                return None;
            };
            let first_glyph = match s.read_u16() {
                Some(v) => v,
                None => {
                    return None;
                },
            };
            let glyph_count = match s.read_u16() {
                Some(v) => v,
                None => {
                    return None;
                },
            };
            Some(
                Lookup {
                    data: LookupInner::Format10 {
                        value_size,
                        first_glyph,
                        glyph_count,
                        data: s.tail(),
                    },
                },
            )
        } else {
            None
        }
    }

    /// The value associated with the given glyph, or `None` when the
    /// glyph is outside every range the lookup covers.
    pub fn value(&self, glyph_id: crate::GlyphId) -> (r: Option<u16>)
        requires
            self.wf(),
        ensures
            lookup_value_obligation(self.data, glyph_id.0, r),
    {
        match &self.data {
            LookupInner::Format1(values) => values.get(glyph_id.0),
            LookupInner::Format2(bsearch) => {
                match bsearch.get(glyph_id.0) {
                    Some(v) => Some(v.value),
                    None => None,
                }
            },
            LookupInner::Format4(bsearch, data) => {
                let segment = match bsearch.get(glyph_id.0) {
                    Some(v) => v,
                    None => {
                        return None;
                    },
                };
                if glyph_id.0 < segment.first_glyph {
                    return None;
                }
                let index = glyph_id.0 - segment.first_glyph;
                let offset = (segment.value as usize) + 2 * (index as usize);
                crate::parser::read_u16_at(data, offset)
            },
            LookupInner::Format6(bsearch) => {
                match bsearch.get(glyph_id.0) {
                    Some(v) => Some(v.value),
                    None => None,
                }
            },
            LookupInner::Format8 { first_glyph, values } => {
                if glyph_id.0 >= *first_glyph {
                    values.get(glyph_id.0 - *first_glyph)
                } else {
                    None
                }
            },
            LookupInner::Format10 { value_size, first_glyph, glyph_count, data } => {
                if glyph_id.0 < *first_glyph {
                    return None;
                }
                let idx = glyph_id.0 - *first_glyph;
                if idx >= *glyph_count {
                    return None;
                }
                let mut s = Stream::new(data);
                match value_size {
                    ValueWidth::One => {
                        match s.read_array16::<u8>(*glyph_count) {
                            Some(arr) => {
                                let v = arr.get(idx).unwrap();
                                Some(v as u16)
                            },
                            None => None,
                        }
                    },
                    ValueWidth::Two => {
                        match s.read_array16::<u16>(*glyph_count) {
                            Some(arr) => Some(arr.get(idx).unwrap()),
                            None => None,
                        }
                    },
                    ValueWidth::Four => {
                        match s.read_array16::<u32>(*glyph_count) {
                            Some(arr) => {
                                let v = arr.get(idx).unwrap();
                                Some(#[verifier::truncate] (v as u16))
                            },
                            None => None,
                        }
                    },
                }
            },
        }
    }
}

/// Binary-search lookup correctness for segment lookups: when the
/// segments are sorted and disjoint, the lookup's value for a glyph is
/// the value of the segment whose range holds it, and nothing when no
/// segment holds it. The hypotheses are exactly what `Lookup::parse`
/// and `Lookup::value` establish for a format 2 lookup.
pub proof fn lemma_segment_lookup_law<'a>(
    t: BinarySearchTable<'a, LookupSegment>,
    g: u16,
    r: Option<u16>,
)
    requires
        t.spec_sorted(),
        lookup_value_obligation(LookupInner::Format2(t), g, r),
    ensures
        forall|i: int|
            0 <= i < t.len && (#[trigger] t.spec_get(i)).first_glyph <= g <= t.spec_get(
                i,
            ).last_glyph ==> r == Some(t.spec_get(i).value),
        (forall|i: int|
            0 <= i < t.len ==> !((#[trigger] t.spec_get(i)).first_glyph <= g <= t.spec_get(
                i,
            ).last_glyph)) ==> r is None,
{
    assert forall|i: int|
        0 <= i < t.len && (#[trigger] t.spec_get(i)).first_glyph <= g <= t.spec_get(
            i,
        ).last_glyph implies r == Some(t.spec_get(i).value) by {
        assert(t.spec_get(i).spec_position(g) is Inside);
    }
    if forall|i: int|
        0 <= i < t.len ==> !((#[trigger] t.spec_get(i)).first_glyph <= g <= t.spec_get(
            i,
        ).last_glyph) {
        assert forall|i: int| 0 <= i < t.len implies !((#[trigger] t.spec_get(i)).spec_position(
            g,
        ) is Inside) by {
            assert(!(t.spec_get(i).first_glyph <= g <= t.spec_get(i).last_glyph));
        }
    }
}

/// An extended state table entry: the next state, the entry's flags, and
/// a format-specific fixed-size payload. Use `()` when no payload is
/// expected.
#[derive(Clone, Copy, Debug)]
pub struct ExtendedStateEntry<T> {
    /// The new state.
    pub new_state: u16,
    /// Entry flags.
    pub flags: u16,
    /// Additional data.
    pub extra: T,
}

impl<T: FromData> ExtendedStateEntry<T> {
    /// The entry's on-disk stride: four header bytes plus the payload.
    pub open spec fn spec_size() -> int {
        4 + T::size()
    }

    /// The entry stored at byte offset `i` of `s`.
    pub open spec fn spec_read(s: Seq<u8>, i: int) -> ExtendedStateEntry<T> {
        ExtendedStateEntry {
            new_state: be_u16(s, i),
            flags: be_u16(s, i + 2),
            extra: T::spec_read(s, i + 4),
        }
    }

    /// Parses the entry at `offset`; `None` when the slice is too short.
    pub fn read_at(data: &[u8], offset: usize) -> (r: Option<ExtendedStateEntry<T>>)
        ensures
            match r {
                Some(v) => offset + Self::spec_size() <= data@.len() && v == Self::spec_read(
                    data@,
                    offset as int,
                ),
                None => offset + Self::spec_size() > data@.len(),
            },
    {
        let new_state = match crate::parser::read_u16_at(data, offset) {
            Some(v) => v,
            None => {
                proof {
                    T::law_size();
                }
                return None;
            },
        };
        let flags = match crate::parser::read_u16_at(data, offset + 2) {
            Some(v) => v,
            None => {
                proof {
                    T::law_size();
                }
                return None;
            },
        };
        match T::read_at(data, offset + 4) {
            Some(extra) => Some(ExtendedStateEntry { new_state, flags, extra }),
            None => None,
        }
    }
}

/// An extended state table, as the `kerx` and `morx` tables use it: a
/// glyph-class lookup, a dense state array of entry indices, and an
/// entry table. The three referenced regions are stored without bounding
/// their lengths: they may legitimately overlap in well-formed files,
/// and every access is bounds-checked instead.
pub struct ExtendedStateTable<'a, T> {
    pub number_of_classes: u32,
    pub lookup: Lookup<'a>,
    pub state_array: &'a [u8],
    pub entry_table: &'a [u8],
    pub entry_type: core::marker::PhantomData<T>,
}

impl<'a, T: FromData> ExtendedStateTable<'a, T> {
    /// The stored lookup is internally consistent.
    pub open spec fn wf(self) -> bool {
        self.lookup.wf()
    }

    /// The entry selected for `state` and `class`: the class is first
    /// coerced to `OUT_OF_BOUNDS` when at or past `number_of_classes`,
    /// the state array then yields an entry index at
    /// `state * number_of_classes + class`, and the entry table yields
    /// the record. Any out-of-bounds read yields `None`.
    pub open spec fn spec_entry(self, state: u16, class: u16) -> Option<ExtendedStateEntry<T>> {
        let c: int = if class >= self.number_of_classes {
            class::OUT_OF_BOUNDS as int
        } else {
            class as int
        };
        let idx = state * self.number_of_classes + c;
        if idx * 2 + 2 <= self.state_array@.len() {
            let ei = be_u16(self.state_array@, idx * 2);
            if ei * ExtendedStateEntry::<T>::spec_size() + ExtendedStateEntry::<T>::spec_size()
                <= self.entry_table@.len() {
                Some(
                    ExtendedStateEntry::<T>::spec_read(
                        self.entry_table@,
                        ei * ExtendedStateEntry::<T>::spec_size(),
                    ),
                )
            } else {
                None
            }
        } else {
            None
        }
    }

    /// Parses an extended state table header `{number of classes, lookup
    /// offset, state array offset, entry table offset}` from the stream;
    /// the offsets are relative to the stream's position on entry.
    /// `number_of_glyphs` is from the `maxp` table.
    pub fn parse(number_of_glyphs: u16, s: &mut Stream<'a>) -> (r: Option<
        ExtendedStateTable<'a, T>,
    >)
        requires
            old(s).wf(),
        ensures
            final(s).wf(),
            final(s).data@ == old(s).data@,
            final(s).offset >= old(s).offset,
            ({
                let d = old(s).data@.subrange(old(s).offset as int, old(s).data@.len() as int);
                match r {
                    Some(t) => {
                        &&& t.wf()
                        &&& old(s).offset + 16 <= old(s).data@.len()
                        &&& final(s).offset == old(s).offset + 16
                        &&& t.number_of_classes == be_u32(d, 0)
                        &&& be_u32(d, 4) <= d.len()
                        &&& be_u32(d, 8) <= d.len()
                        &&& be_u32(d, 12) <= d.len()
                        &&& lookup_parse_ok(number_of_glyphs, d.skip(be_u32(d, 4) as int))
                        &&& lookup_matches(
                            t.lookup.data,
                            number_of_glyphs,
                            d.skip(be_u32(d, 4) as int),
                        )
                        &&& t.state_array@ == d.skip(be_u32(d, 8) as int)
                        &&& t.entry_table@ == d.skip(be_u32(d, 12) as int)
                    },
                    None => !{
                        &&& d.len() >= 16
                        &&& be_u32(d, 4) <= d.len()
                        &&& be_u32(d, 8) <= d.len()
                        &&& be_u32(d, 12) <= d.len()
                        &&& lookup_parse_ok(number_of_glyphs, d.skip(be_u32(d, 4) as int))
                    },
                }
            }),
    {
        let data = s.tail();
        let number_of_classes = match s.read_u32() {
            Some(v) => v,
            None => {
                return None;
            },
        };
        let lookup_table_offset = match s.read_u32() {
            Some(v) => v,
            None => {
                return None;
            },
        };
        let state_array_offset = match s.read_u32() {
            Some(v) => v,
            None => {
                return None;
            },
        };
        let entry_table_offset = match s.read_u32() {
            Some(v) => v,
            None => {
                return None;
            },
        };
        let lookup_data = match crate::parser::slice_from(data, lookup_table_offset as usize) {
            Some(v) => v,
            None => {
                return None;
            },
        };
        let lookup = match Lookup::parse(number_of_glyphs, lookup_data) {
            Some(v) => v,
            None => {
                return None;
            },
        };
        let state_array = match crate::parser::slice_from(data, state_array_offset as usize) {
            Some(v) => v,
            None => {
                return None;
            },
        };
        let entry_table = match crate::parser::slice_from(data, entry_table_offset as usize) {
            Some(v) => v,
            None => {
                return None;
            },
        };
        Some(
            ExtendedStateTable {
                number_of_classes,
                lookup,
                state_array,
                entry_table,
                entry_type: core::marker::PhantomData,
            },
        )
    }

    /// The glyph's class. The deleted glyph 0xFFFF always has class
    /// `DELETED_GLYPH`; any other glyph is classed by the lookup, and a
    /// missing entry surfaces as `None`.
    pub fn class(&self, glyph_id: crate::GlyphId) -> (r: Option<u16>)
        requires
            self.wf(),
        ensures
            glyph_id.0 == 0xFFFF ==> r == Some(class::DELETED_GLYPH),
            glyph_id.0 != 0xFFFF ==> lookup_value_obligation(self.lookup.data, glyph_id.0, r),
    {
        if glyph_id.0 == 0xFFFF {
            return Some(class::DELETED_GLYPH);
        }
        self.lookup.value(glyph_id)
    }

    /// The entry for a state and class; see `spec_entry` for the exact
    /// selection, including the out-of-bounds coercion.
    pub fn entry(&self, state: u16, class: u16) -> (r: Option<ExtendedStateEntry<T>>)
        ensures
            r == self.spec_entry(state, class),
    {
        let mut c = class;
        if (c as u32) >= self.number_of_classes {
            c = class::OUT_OF_BOUNDS;
        }
        proof {
            T::law_size();
            vstd::arithmetic::mul::lemma_mul_upper_bound(
                state as int,
                0xFFFF,
                self.number_of_classes as int,
                0xFFFF_FFFF,
            );
            vstd::arithmetic::mul::lemma_mul_nonnegative(
                state as int,
                self.number_of_classes as int,
            );
        }
        let state_idx: u64 = (state as u64) * (self.number_of_classes as u64) + (c as u64);
        let pos: u64 = state_idx * 2;
        let len = self.state_array.len();
        if pos + 2 > (len as u64) {
            return None;
        }
        let entry_idx = crate::parser::read_u16_at(self.state_array, pos as usize).unwrap();
        let entry_size = 4 + T::parse_size();
        proof {
            vstd::arithmetic::mul::lemma_mul_upper_bound(
                entry_idx as int,
                0xFFFF,
                ExtendedStateEntry::<T>::spec_size(),
                0x20004,
            );
            vstd::arithmetic::mul::lemma_mul_nonnegative(
                entry_idx as int,
                ExtendedStateEntry::<T>::spec_size(),
            );
        }
        let off: u64 = (entry_idx as u64) * (entry_size as u64);
        let elen = self.entry_table.len();
        if off + (entry_size as u64) > (elen as u64) {
            return None;
        }
        let r = ExtendedStateEntry::<T>::read_at(self.entry_table, off as usize);
        proof {
            assert(r is Some);
        }
        r
    }
}

/// Any class code at or past `number_of_classes` selects the same entry
/// as the out-of-bounds class: the machine cannot be steered by an
/// unrepresentable class.
pub proof fn lemma_entry_class_coerced<T: FromData>(
    t: ExtendedStateTable<T>,
    state: u16,
    class: u16,
)
    requires
        class >= t.number_of_classes,
    ensures
        t.spec_entry(state, class) == t.spec_entry(state, class::OUT_OF_BOUNDS),
{
}

/// A payload-free state entry: the unit type occupies no bytes.
impl FromData for () {
    open spec fn size() -> usize {
        0
    }

    proof fn law_size() {
    }

    open spec fn spec_read(s: Seq<u8>, i: int) -> () {
        ()
    }

    fn parse_size() -> (r: usize) {
        0
    }

    fn read_at(data: &[u8], offset: usize) -> (r: Option<()>) {
        if offset <= data.len() {
            Some(())
        } else {
            None
        }
    }
}

} // verus!
