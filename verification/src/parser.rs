//! Bounds-checked, endian-correct reading from borrowed byte slices:
//! random-access reads, a cursor, and lazy fixed-stride array views.

use vstd::prelude::*;

verus! {

broadcast use vstd::slice::group_slice_axioms;

/// The big-endian 16-bit unsigned value stored at byte offset `i` of `s`.
pub open spec fn be_u16(s: Seq<u8>, i: int) -> u16 {
    ((s[i] as int) * 0x100 + (s[i + 1] as int)) as u16
}

/// The big-endian 32-bit unsigned value stored at byte offset `i` of `s`.
pub open spec fn be_u32(s: Seq<u8>, i: int) -> u32 {
    ((s[i] as int) * 0x1000000 + (s[i + 1] as int) * 0x10000 + (s[i + 2] as int) * 0x100
        + (s[i + 3] as int)) as u32
}

/// The big-endian 16-bit signed value stored at byte offset `i` of `s`:
/// the unsigned value reinterpreted in two's complement.
pub open spec fn be_i16(s: Seq<u8>, i: int) -> i16 {
    be_u16(s, i) as i16
}

/// The big-endian 32-bit signed value stored at byte offset `i` of `s`.
pub open spec fn be_i32(s: Seq<u8>, i: int) -> i32 {
    be_u32(s, i) as i32
}

/// Reads a byte; `None` when the slice is too short.
pub fn read_u8_at(data: &[u8], offset: usize) -> (r: Option<u8>)
    ensures
        match r {
            Some(v) => offset + 1 <= data@.len() <= usize::MAX && v == data@[offset as int],
            None => offset + 1 > data@.len(),
        },
{
    if offset < data.len() {
        Some(data[offset])
    } else {
        None
    }
}

/// Reads a big-endian u16; `None` when fewer than two bytes remain.
pub fn read_u16_at(data: &[u8], offset: usize) -> (r: Option<u16>)
    ensures
        match r {
            Some(v) => offset + 2 <= data@.len() <= usize::MAX && v == be_u16(
                data@,
                offset as int,
            ),
            None => offset + 2 > data@.len(),
        },
{
    if offset < data.len() && data.len() - offset >= 2 {
        let hi = data[offset] as u16;
        let lo = data[offset + 1] as u16;
        Some(hi * 0x100 + lo)
    } else {
        None
    }
}

/// Reads a big-endian u32; `None` when fewer than four bytes remain.
pub fn read_u32_at(data: &[u8], offset: usize) -> (r: Option<u32>)
    ensures
        match r {
            Some(v) => offset + 4 <= data@.len() <= usize::MAX && v == be_u32(
                data@,
                offset as int,
            ),
            None => offset + 4 > data@.len(),
        },
{
    if offset < data.len() && data.len() - offset >= 4 {
        let b0 = data[offset] as u32;
        let b1 = data[offset + 1] as u32;
        let b2 = data[offset + 2] as u32;
        let b3 = data[offset + 3] as u32;
        Some(b0 * 0x1000000 + b1 * 0x10000 + b2 * 0x100 + b3)
    } else {
        None
    }
}

/// Reads a big-endian i16; `None` when fewer than two bytes remain.
pub fn read_i16_at(data: &[u8], offset: usize) -> (r: Option<i16>)
    ensures
        match r {
            Some(v) => offset + 2 <= data@.len() && v == be_i16(data@, offset as int),
            None => offset + 2 > data@.len(),
        },
{
    match read_u16_at(data, offset) {
        Some(v) => Some(#[verifier::truncate] (v as i16)),
        None => None,
    }
}

/// Reads a big-endian i32; `None` when fewer than four bytes remain.
pub fn read_i32_at(data: &[u8], offset: usize) -> (r: Option<i32>)
    ensures
        match r {
            Some(v) => offset + 4 <= data@.len() && v == be_i32(data@, offset as int),
            None => offset + 4 > data@.len(),
        },
{
    match read_u32_at(data, offset) {
        Some(v) => Some(#[verifier::truncate] (v as i32)),
        None => None,
    }
}

/// Borrows the sub-slice `[start, end)`; `None` when the range is not within `data`.
pub fn slice_range<'a>(data: &'a [u8], start: usize, end: usize) -> (r: Option<&'a [u8]>)
    ensures
        match r {
            Some(s) => start <= end <= data@.len() && s@ == data@.subrange(
                start as int,
                end as int,
            ),
            None => !(start <= end <= data@.len()),
        },
{
    if start <= end && end <= data.len() {
        Some(vstd::slice::slice_subrange(data, start, end))
    } else {
        None
    }
}

/// Borrows everything from `start` to the end of `data`; `None` when `start` is past the end.
pub fn slice_from<'a>(data: &'a [u8], start: usize) -> (r: Option<&'a [u8]>)
    ensures
        match r {
            Some(s) => start <= data@.len() && s@ == data@.subrange(
                start as int,
                data@.len() as int,
            ),
            None => start > data@.len(),
        },
{
    if start <= data.len() {
        Some(vstd::slice::slice_subrange(data, start, data.len()))
    } else {
        None
    }
}

/// A cursor over a borrowed slice. Reads advance the position; every read
/// is bounds-checked and reports exhaustion as `None`.
#[derive(Clone, Copy)]
pub struct Stream<'a> {
    pub data: &'a [u8],
    pub offset: usize,
}

impl<'a> Stream<'a> {
    /// The cursor never stands past the end of its slice.
    pub open spec fn wf(self) -> bool {
        self.offset <= self.data@.len()
    }

    /// A fresh cursor at position zero.
    pub fn new(data: &'a [u8]) -> (r: Stream<'a>)
        ensures
            r.wf(),
            r.data@ == data@,
            r.offset == 0,
    {
        Stream { data, offset: 0 }
    }

    /// The current position.
    pub fn position(&self) -> (r: usize)
        ensures
            r == self.offset,
    {
        self.offset
    }

    /// Moves the cursor forward by `n`, stopping at the end of the slice.
    pub fn advance(&mut self, n: usize)
        requires
            old(self).wf(),
        ensures
            final(self).wf(),
            final(self).data@ == old(self).data@,
            final(self).offset == if old(self).offset + n <= old(self).data@.len() {
                old(self).offset + n
            } else {
                old(self).data@.len() as int
            },
    {
        if n <= self.data.len() - self.offset {
            self.offset = self.offset + n;
        } else {
            self.offset = self.data.len();
        }
    }

    /// Moves the cursor forward by `n`; fails instead of stopping short.
    pub fn advance_checked(&mut self, n: usize) -> (r: Option<()>)
        requires
            old(self).wf(),
        ensures
            final(self).wf(),
            final(self).data@ == old(self).data@,
            match r {
                Some(_) => old(self).offset + n <= old(self).data@.len() && final(self).offset
                    == old(self).offset + n,
                None => old(self).offset + n > old(self).data@.len() && final(self).offset == old(
                    self,
                ).offset,
            },
    {
        if n <= self.data.len() - self.offset {
            self.offset = self.offset + n;
            Some(())
        } else {
            None
        }
    }

    /// Reads a big-endian u16 at the cursor and advances past it.
    pub fn read_u16(&mut self) -> (r: Option<u16>)
        requires
            old(self).wf(),
        ensures
            final(self).wf(),
            final(self).data@ == old(self).data@,
            match r {
                Some(v) => old(self).offset + 2 <= old(self).data@.len() && v == be_u16(
                    old(self).data@,
                    old(self).offset as int,
                ) && final(self).offset == old(self).offset + 2,
                None => old(self).offset + 2 > old(self).data@.len() && final(self).offset == old(
                    self,
                ).offset,
            },
    {
        match read_u16_at(self.data, self.offset) {
            Some(v) => {
                self.offset = self.offset + 2;
                Some(v)
            },
            None => None,
        }
    }

    /// Reads a big-endian u32 at the cursor and advances past it.
    pub fn read_u32(&mut self) -> (r: Option<u32>)
        requires
            old(self).wf(),
        ensures
            final(self).wf(),
            final(self).data@ == old(self).data@,
            match r {
                Some(v) => old(self).offset + 4 <= old(self).data@.len() && v == be_u32(
                    old(self).data@,
                    old(self).offset as int,
                ) && final(self).offset == old(self).offset + 4,
                None => old(self).offset + 4 > old(self).data@.len() && final(self).offset == old(
                    self,
                ).offset,
            },
    {
        match read_u32_at(self.data, self.offset) {
            Some(v) => {
                self.offset = self.offset + 4;
                Some(v)
            },
            None => None,
        }
    }

    /// The remaining bytes, from the cursor to the end of the slice.
    pub fn tail(&self) -> (r: &'a [u8])
        requires
            self.wf(),
        ensures
            r@ == self.data@.subrange(self.offset as int, self.data@.len() as int),
    {
        vstd::slice::slice_subrange(self.data, self.offset, self.data.len())
    }
}

/// A value with a fixed on-disk size that can be parsed from raw bytes.
pub trait FromData: Sized {
    /// The number of bytes the value occupies on disk.
    spec fn size() -> usize;

    /// The value stored at byte offset `i` of `s`. Meaningful when
    /// `i + Self::size() <= s.len()`.
    spec fn spec_read(s: Seq<u8>, i: int) -> Self;

    /// The on-disk size is small; every implementation proves this
    /// bound, and array-view arithmetic rests on it.
    proof fn law_size()
        ensures
            Self::size() <= 0x20000,
    ;

    /// The on-disk size, as a runtime value.
    fn parse_size() -> (r: usize)
        ensures
            r == Self::size(),
    ;

    /// Parses the value at `offset`; `None` when the slice is too short.
    fn read_at(data: &[u8], offset: usize) -> (r: Option<Self>)
        ensures
            match r {
                Some(v) => offset + Self::size() <= data@.len() <= usize::MAX && v
                    == Self::spec_read(data@, offset as int),
                None => offset + Self::size() > data@.len(),
            },
    ;
}

impl FromData for u8 {
    open spec fn size() -> usize {
        1
    }

    proof fn law_size() {
    }

    open spec fn spec_read(s: Seq<u8>, i: int) -> u8 {
        s[i]
    }

    fn parse_size() -> (r: usize) {
        1
    }

    fn read_at(data: &[u8], offset: usize) -> (r: Option<u8>) {
        read_u8_at(data, offset)
    }
}

impl FromData for u16 {
    open spec fn size() -> usize {
        2
    }

    proof fn law_size() {
    }

    open spec fn spec_read(s: Seq<u8>, i: int) -> u16 {
        be_u16(s, i)
    }

    fn parse_size() -> (r: usize) {
        2
    }

    fn read_at(data: &[u8], offset: usize) -> (r: Option<u16>) {
        read_u16_at(data, offset)
    }
}

impl FromData for u32 {
    open spec fn size() -> usize {
        4
    }

    proof fn law_size() {
    }

    open spec fn spec_read(s: Seq<u8>, i: int) -> u32 {
        be_u32(s, i)
    }

    fn parse_size() -> (r: usize) {
        4
    }

    fn read_at(data: &[u8], offset: usize) -> (r: Option<u32>) {
        read_u32_at(data, offset)
    }
}

/// A lazily parsed, fixed-stride array view over a borrowed slice,
/// holding at most 0xFFFF elements. Element `i` is parsed on demand
/// from `data[i * stride ..]`.
pub struct LazyArray16<'a, T> {
    pub data: &'a [u8],
    pub count: u16,
    pub element: core::marker::PhantomData<T>,
}

impl<'a, T> Clone for LazyArray16<'a, T> {
    fn clone(&self) -> (r: Self)
        ensures
            r == *self,
    {
        LazyArray16 { data: self.data, count: self.count, element: core::marker::PhantomData }
    }
}

impl<'a, T> Copy for LazyArray16<'a, T> {

}

impl<'a, T: FromData> LazyArray16<'a, T> {
    /// The slice holds exactly `count` elements.
    pub open spec fn wf(self) -> bool {
        self.data@.len() == self.count * T::size()
    }

    /// The element stored at index `i`.
    pub open spec fn spec_get(self, i: int) -> T {
        T::spec_read(self.data@, i * T::size())
    }

    /// An empty view.
    pub fn new_empty() -> (r: Self)
        ensures
            r.wf(),
            r.count == 0,
    {
        let data: &'a [u8] = &[];
        proof {
            assert(data@.len() == 0);
        }
        LazyArray16 { data, count: 0, element: core::marker::PhantomData }
    }

    /// The number of elements.
    pub fn len(&self) -> (r: u16)
        ensures
            r == self.count,
    {
        self.count
    }

    /// Parses and returns element `index`; `None` when out of bounds.
    pub fn get(&self, index: u16) -> (r: Option<T>)
        requires
            self.wf(),
        ensures
            match r {
                Some(v) => index < self.count && v == self.spec_get(index as int),
                None => index >= self.count,
            },
    {
        if index < self.count {
            let sz = T::parse_size();
            let len = self.data.len();
            proof {
                vstd::arithmetic::mul::lemma_mul_inequality(
                    index as int + 1,
                    self.count as int,
                    T::size() as int,
                );
                assert((index as int + 1) * T::size() == index as int * T::size() + T::size())
                    by (nonlinear_arith);
            }
            let off = (index as usize) * sz;
            let v = T::read_at(self.data, off);
            proof {
                assert(off + T::size() <= self.data@.len());
            }
            Some(v.unwrap())
        } else {
            None
        }
    }

    /// The last element; `None` when the array is empty.
    pub fn last(&self) -> (r: Option<T>)
        requires
            self.wf(),
        ensures
            match r {
                Some(v) => self.count > 0 && v == self.spec_get(self.count as int - 1),
                None => self.count == 0,
            },
    {
        if self.count > 0 {
            self.get(self.count - 1)
        } else {
            None
        }
    }
}

/// A lazily parsed, fixed-stride array view holding up to 0xFFFF_FFFF elements.
pub struct LazyArray32<'a, T> {
    pub data: &'a [u8],
    pub count: u32,
    pub element: core::marker::PhantomData<T>,
}

impl<'a, T> Clone for LazyArray32<'a, T> {
    fn clone(&self) -> (r: Self)
        ensures
            r == *self,
    {
        LazyArray32 { data: self.data, count: self.count, element: core::marker::PhantomData }
    }
}

impl<'a, T> Copy for LazyArray32<'a, T> {

}

impl<'a, T: FromData> LazyArray32<'a, T> {
    /// The slice holds exactly `count` elements.
    pub open spec fn wf(self) -> bool {
        self.data@.len() == self.count * T::size()
    }

    /// The element stored at index `i`.
    pub open spec fn spec_get(self, i: int) -> T {
        T::spec_read(self.data@, i * T::size())
    }

    /// Parses and returns element `index`; `None` when out of bounds.
    pub fn get(&self, index: u32) -> (r: Option<T>)
        requires
            self.wf(),
        ensures
            match r {
                Some(v) => index < self.count && v == self.spec_get(index as int),
                None => index >= self.count,
            },
    {
        if index < self.count {
            let sz = T::parse_size();
            let len = self.data.len();
            proof {
                vstd::arithmetic::mul::lemma_mul_inequality(
                    index as int + 1,
                    self.count as int,
                    T::size() as int,
                );
                assert((index as int + 1) * T::size() == index as int * T::size() + T::size())
                    by (nonlinear_arith);
                assert(index as int * T::size() <= self.data@.len());
            }
            let off64 = (index as u64) * (sz as u64);
            let off = off64 as usize;
            let v = T::read_at(self.data, off);
            Some(v.unwrap())
        } else {
            None
        }
    }
}

impl<'a> Stream<'a> {
    /// Consumes `count * T::size()` bytes and returns them as a lazy array
    /// view; `None` (cursor unmoved) when fewer bytes remain.
    pub fn read_array16<T: FromData>(&mut self, count: u16) -> (r: Option<LazyArray16<'a, T>>)
        requires
            old(self).wf(),
        ensures
            final(self).wf(),
            final(self).data@ == old(self).data@,
            match r {
                Some(a) => {
                    &&& old(self).offset + count * T::size() <= old(self).data@.len()
                    &&& a.wf()
                    &&& a.count == count
                    &&& a.data@ == old(self).data@.subrange(
                        old(self).offset as int,
                        old(self).offset + count * T::size(),
                    )
                    &&& final(self).offset == old(self).offset + count * T::size()
                },
                None => old(self).offset + count * T::size() > old(self).data@.len() && *final(self)
                    == *old(self),
            },
    {
        let sz = T::parse_size();
        proof {
            T::law_size();
            vstd::arithmetic::mul::lemma_mul_nonnegative(count as int, T::size() as int);
            vstd::arithmetic::mul::lemma_mul_upper_bound(
                count as int,
                0xFFFF_FFFF,
                T::size() as int,
                0x20000,
            );
        }
        let total64 = (count as u64) * (sz as u64);
        let len = self.data.len();
        if total64 <= (len - self.offset) as u64 {
            let total = total64 as usize;
            let start = self.offset;
            let end = self.offset + total;
            let data = vstd::slice::slice_subrange(self.data, start, end);
            self.offset = end;
            Some(LazyArray16 { data, count, element: core::marker::PhantomData })
        } else {
            None
        }
    }

    /// Consumes `count * T::size()` bytes and returns them as a lazy array
    /// view with a 32-bit count; `None` (cursor unmoved) when fewer remain.
    pub fn read_array32<T: FromData>(&mut self, count: u32) -> (r: Option<LazyArray32<'a, T>>)
        requires
            old(self).wf(),
        ensures
            final(self).wf(),
            final(self).data@ == old(self).data@,
            match r {
                Some(a) => {
                    &&& old(self).offset + count * T::size() <= old(self).data@.len()
                    &&& a.wf()
                    &&& a.count == count
                    &&& a.data@ == old(self).data@.subrange(
                        old(self).offset as int,
                        old(self).offset + count * T::size(),
                    )
                    &&& final(self).offset == old(self).offset + count * T::size()
                },
                None => old(self).offset + count * T::size() > old(self).data@.len() && *final(self)
                    == *old(self),
            },
    {
        let sz = T::parse_size();
        proof {
            T::law_size();
            vstd::arithmetic::mul::lemma_mul_nonnegative(count as int, T::size() as int);
            vstd::arithmetic::mul::lemma_mul_upper_bound(
                count as int,
                0xFFFF_FFFF,
                T::size() as int,
                0x20000,
            );
        }
        let total64 = (count as u64) * (sz as u64);
        let len = self.data.len();
        if total64 <= (len - self.offset) as u64 {
            let total = total64 as usize;
            let start = self.offset;
            let end = self.offset + total;
            let data = vstd::slice::slice_subrange(self.data, start, end);
            self.offset = end;
            Some(LazyArray32 { data, count, element: core::marker::PhantomData })
        } else {
            None
        }
    }
}

} // verus!
