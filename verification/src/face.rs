//! The face directory and table dispatch: recognising the container
//! magic, selecting one face of a collection, locating tables by tag,
//! enforcing the mandatory tables, and binding each known table to its
//! typed view. Tables whose tag repeats keep the last occurrence, as
//! plain assignment in a single pass gives.

use vstd::prelude::*;

use crate::parser::{be_u16, be_u32, FromData, LazyArray16, Stream};
use crate::tables::{
    fvar_parse_ok, hmtx_parse_ok, loca_parse_ok, spec_parse_head, spec_parse_hhea,
    spec_parse_maxp, spec_parse_os2, spec_parse_post, spec_parse_vhea, vorg_parse_ok, FvarTable,
    GlyfTable, HeadTable, HheaTable, HmtxTable, LocaTable, MaxpTable, Os2Table, PostTable,
    VheaTable, VorgTable,
};
use crate::{FaceParsingError, Tag};

verus! {

broadcast use vstd::slice::group_slice_axioms;

pub const TAG_CBDT: u32 = 0x43424454;

pub const TAG_CBLC: u32 = 0x43424C43;

pub const TAG_CFF: u32 = 0x43464620;

pub const TAG_CFF2: u32 = 0x43464632;

pub const TAG_GDEF: u32 = 0x47444546;

pub const TAG_GPOS: u32 = 0x47504F53;

pub const TAG_GSUB: u32 = 0x47535542;

pub const TAG_HVAR: u32 = 0x48564152;

pub const TAG_MVAR: u32 = 0x4D564152;

pub const TAG_OS2: u32 = 0x4F532F32;

pub const TAG_SVG: u32 = 0x53564720;

pub const TAG_VORG: u32 = 0x564F5247;

pub const TAG_VVAR: u32 = 0x56564152;

pub const TAG_AVAR: u32 = 0x61766172;

pub const TAG_CMAP: u32 = 0x636D6170;

pub const TAG_FVAR: u32 = 0x66766172;

pub const TAG_GLYF: u32 = 0x676C7966;

pub const TAG_GVAR: u32 = 0x67766172;

pub const TAG_HEAD: u32 = 0x68656164;

pub const TAG_HHEA: u32 = 0x68686561;

pub const TAG_HMTX: u32 = 0x686D7478;

pub const TAG_KERN: u32 = 0x6B65726E;

pub const TAG_LOCA: u32 = 0x6C6F6361;

pub const TAG_MAXP: u32 = 0x6D617870;

pub const TAG_NAME: u32 = 0x6E616D65;

pub const TAG_POST: u32 = 0x706F7374;

pub const TAG_SBIX: u32 = 0x73626978;

pub const TAG_VHEA: u32 = 0x76686561;

pub const TAG_VMTX: u32 = 0x766D7478;

/// The hard cap on stored variation coordinates.
pub const MAX_VAR_COORDS: usize = 32;

/// The current normalized variation coordinates: one 2.14 value per
/// axis, for the first `MAX_VAR_COORDS` axes of the face.
#[derive(Clone)]
pub struct VarCoords {
    pub data: Vec<crate::NormalizedCoordinate>,
}

impl VarCoords {
    /// Never more coordinates than the cap.
    pub open spec fn wf(self) -> bool {
        self.data@.len() <= MAX_VAR_COORDS
    }
}

/// What a table provider hands the assembly, reduced to values: each
/// item is a tag and, when the record's range lay within the buffer,
/// the table's bytes.
pub open spec fn entry_views<'a>(entries: Seq<(Tag, Option<&'a [u8]>)>) -> Seq<
    (u32, Option<Seq<u8>>),
> {
    Seq::new(
        entries.len(),
        |i: int|
            (
                entries[i].0.0,
                match entries[i].1 {
                    Some(b) => Some(b@),
                    None => None,
                },
            ),
    )
}

/// The bytes of the last provider item carrying `tag` among the first
/// `n`: `None` when no item carries it, `Some(None)` when the last such
/// item had no bytes.
pub open spec fn spec_last_slice(
    ev: Seq<(u32, Option<Seq<u8>>)>,
    n: int,
    tag: u32,
) -> Option<Option<Seq<u8>>>
    decreases n,
{
    if n <= 0 || n > ev.len() {
        None
    } else if ev[n - 1].0 == tag {
        Some(ev[n - 1].1)
    } else {
        spec_last_slice(ev, n - 1, tag)
    }
}

/// The parsed `head` record the provider yields, if any.
pub open spec fn spec_face_head(ev: Seq<(u32, Option<Seq<u8>>)>, n: int) -> Option<HeadTable> {
    match spec_last_slice(ev, n, TAG_HEAD) {
        Some(Some(b)) => spec_parse_head(b),
        _ => None,
    }
}

/// The parsed `hhea` record the provider yields, if any.
pub open spec fn spec_face_hhea(ev: Seq<(u32, Option<Seq<u8>>)>, n: int) -> Option<HheaTable> {
    match spec_last_slice(ev, n, TAG_HHEA) {
        Some(Some(b)) => spec_parse_hhea(b),
        _ => None,
    }
}

/// The parsed `maxp` record the provider yields, if any.
pub open spec fn spec_face_maxp(ev: Seq<(u32, Option<Seq<u8>>)>, n: int) -> Option<MaxpTable> {
    match spec_last_slice(ev, n, TAG_MAXP) {
        Some(Some(b)) => spec_parse_maxp(b),
        _ => None,
    }
}

/// The parsed `OS/2` record the provider yields, if any.
pub open spec fn spec_face_os2(ev: Seq<(u32, Option<Seq<u8>>)>, n: int) -> Option<Os2Table> {
    match spec_last_slice(ev, n, TAG_OS2) {
        Some(Some(b)) => spec_parse_os2(b),
        _ => None,
    }
}

/// The parsed `post` record the provider yields, if any.
pub open spec fn spec_face_post(ev: Seq<(u32, Option<Seq<u8>>)>, n: int) -> Option<PostTable> {
    match spec_last_slice(ev, n, TAG_POST) {
        Some(Some(b)) => spec_parse_post(b),
        _ => None,
    }
}

/// The parsed `vhea` record the provider yields, if any.
pub open spec fn spec_face_vhea(ev: Seq<(u32, Option<Seq<u8>>)>, n: int) -> Option<VheaTable> {
    match spec_last_slice(ev, n, TAG_VHEA) {
        Some(Some(b)) => spec_parse_vhea(b),
        _ => None,
    }
}

/// A raw-slice field holds exactly the bytes of the last provider item
/// carrying `tag`, and nothing when there is none.
pub open spec fn raw_matches<'a>(
    field: Option<&'a [u8]>,
    ev: Seq<(u32, Option<Seq<u8>>)>,
    n: int,
    tag: u32,
) -> bool {
    match spec_last_slice(ev, n, tag) {
        Some(Some(b)) => match field {
            Some(f) => f@ == b,
            None => false,
        },
        _ => field is None,
    }
}

/// The `VORG` field is the parse of the last `VORG` bytes, or absent.
pub open spec fn vorg_matches<'a>(
    field: Option<VorgTable<'a>>,
    ev: Seq<(u32, Option<Seq<u8>>)>,
    n: int,
) -> bool {
    match spec_last_slice(ev, n, TAG_VORG) {
        Some(Some(b)) => {
            if vorg_parse_ok(b) {
                match field {
                    Some(v) => {
                        &&& v.wf()
                        &&& v.default_y == crate::parser::be_i16(b, 4)
                        &&& v.metrics.count == be_u16(b, 6)
                        &&& v.metrics.data@ == b.subrange(8, 8 + be_u16(b, 6) * 4)
                    },
                    None => false,
                }
            } else {
                field is None
            }
        },
        _ => field is None,
    }
}

/// The `fvar` field is the parse of the last `fvar` bytes, or absent.
pub open spec fn fvar_matches<'a>(
    field: Option<FvarTable<'a>>,
    ev: Seq<(u32, Option<Seq<u8>>)>,
    n: int,
) -> bool {
    match spec_last_slice(ev, n, TAG_FVAR) {
        Some(Some(b)) => {
            if fvar_parse_ok(b) {
                match field {
                    Some(f) => {
                        &&& f.wf()
                        &&& f.axes.count == be_u16(b, 8)
                        &&& f.axes.data@ == b.subrange(
                            be_u16(b, 4) as int,
                            be_u16(b, 4) + be_u16(b, 8) * 20,
                        )
                    },
                    None => false,
                }
            } else {
                field is None
            }
        },
        _ => field is None,
    }
}

/// A metrics field is the parse of the given bytes against the given
/// counts, or absent when there are no bytes or they are too short.
pub open spec fn hmtx_matches<'a>(
    field: Option<HmtxTable<'a>>,
    last: Option<Option<Seq<u8>>>,
    number_of_metrics: u16,
    number_of_glyphs: u16,
) -> bool {
    match last {
        Some(Some(b)) => {
            if hmtx_parse_ok(b, number_of_metrics, number_of_glyphs) {
                match field {
                    Some(h) => {
                        &&& h.wf()
                        &&& h.data@ == b
                        &&& h.number_of_glyphs == number_of_glyphs
                        &&& h.number_of_metrics == if number_of_metrics <= number_of_glyphs {
                            number_of_metrics as int
                        } else {
                            number_of_glyphs as int
                        }
                    },
                    None => false,
                }
            } else {
                field is None
            }
        },
        _ => field is None,
    }
}

/// Where assembly reads its `(tag, bytes)` items: a caller-supplied
/// list, or the face directory walked in place over the buffer, so
/// that construction from a slice allocates nothing to locate tables.
enum TableProvider<'a, 'b> {
    List(&'b [(Tag, Option<&'a [u8]>)]),
    Directory { data: &'a [u8], records: LazyArray16<'a, TableRecord> },
}

impl<'a, 'b> TableProvider<'a, 'b> {
    /// What the provider yields, reduced to values: for the directory,
    /// each record's tag and, when its range lies within the buffer,
    /// its bytes.
    spec fn views(self) -> Seq<(u32, Option<Seq<u8>>)> {
        match self {
            TableProvider::List(p) => entry_views(p@),
            TableProvider::Directory { data, records } => Seq::new(
                records.count as nat,
                |i: int|
                    {
                        let rec = records.spec_get(i);
                        (rec.tag.0, spec_table_slice(data@, rec))
                    },
            ),
        }
    }

    /// The stored directory view is internally consistent.
    spec fn src_wf(self) -> bool {
        match self {
            TableProvider::List(p) => true,
            TableProvider::Directory { data, records } => records.wf(),
        }
    }

    /// The number of items.
    fn item_count(&self) -> (r: usize)
        requires
            self.src_wf(),
        ensures
            r == self.views().len(),
    {
        match self {
            TableProvider::List(p) => p.len(),
            TableProvider::Directory { data, records } => records.len() as usize,
        }
    }

    /// Item `i`: its tag and, when present and in bounds, its bytes.
    fn item(&self, i: usize) -> (r: (Tag, Option<&'a [u8]>))
        requires
            self.src_wf(),
            i < self.views().len(),
        ensures
            ({
                let v = self.views()[i as int];
                &&& r.0.0 == v.0
                &&& (match r.1 {
                    Some(b) => v.1 == Some(b@),
                    None => v.1 is None,
                })
            }),
    {
        match self {
            TableProvider::List(p) => p[i],
            TableProvider::Directory { data, records } => {
                let rec = records.get(i as u16).unwrap();
                let end64 = (rec.offset as u64) + (rec.length as u64);
                let table_data: Option<&'a [u8]> = if end64 <= (data.len() as u64) {
                    Some(
                        crate::parser::slice_range(
                            data,
                            rec.offset as usize,
                            end64 as usize,
                        ).unwrap(),
                    )
                } else {
                    None
                };
                (rec.tag, table_data)
            },
        }
    }
}

/// Parsed face tables: the typed views of every table the core reads,
/// the raw bytes of the tables it only locates, and the variation
/// coordinates.
#[derive(Clone)]
pub struct FaceTables<'a> {
    pub head: HeadTable,
    pub hhea: HheaTable,
    pub maxp: MaxpTable,
    pub os_2: Option<Os2Table>,
    pub post: Option<PostTable>,
    pub vhea: Option<VheaTable>,
    pub hmtx: Option<HmtxTable<'a>>,
    pub vmtx: Option<HmtxTable<'a>>,
    pub vorg: Option<VorgTable<'a>>,
    pub fvar: Option<FvarTable<'a>>,
    pub glyf_table: Option<GlyfTable<'a>>,
    pub cbdt: Option<&'a [u8]>,
    pub cblc: Option<&'a [u8]>,
    pub cff: Option<&'a [u8]>,
    pub cff2: Option<&'a [u8]>,
    pub cmap: Option<&'a [u8]>,
    pub gdef: Option<&'a [u8]>,
    pub gpos: Option<&'a [u8]>,
    pub gsub: Option<&'a [u8]>,
    pub glyf: Option<&'a [u8]>,
    pub gvar: Option<&'a [u8]>,
    pub hvar: Option<&'a [u8]>,
    pub kern: Option<&'a [u8]>,
    pub loca: Option<&'a [u8]>,
    pub mvar: Option<&'a [u8]>,
    pub name: Option<&'a [u8]>,
    pub sbix: Option<&'a [u8]>,
    pub svg: Option<&'a [u8]>,
    pub avar: Option<&'a [u8]>,
    pub vvar: Option<&'a [u8]>,
    pub coordinates: VarCoords,
}

/// The number of coordinates a face stores: one per axis, capped.
pub open spec fn spec_coord_len<'a>(fvar: Option<FvarTable<'a>>) -> int {
    match fvar {
        Some(f) => if f.axes.count < MAX_VAR_COORDS {
            f.axes.count as int
        } else {
            MAX_VAR_COORDS as int
        },
        None => 0,
    }
}

/// `t` is the assembly of the first `n` provider items: every typed
/// field is the parse of its tag's last bytes, every raw field holds
/// its tag's last bytes, and the coordinates are zeroed, one per axis.
pub open spec fn tables_match<'a>(
    t: FaceTables<'a>,
    ev: Seq<(u32, Option<Seq<u8>>)>,
    n: int,
) -> bool {
    &&& (match spec_face_head(ev, n) {
        Some(h) => t.head == h,
        None => false,
    })
    &&& (match spec_face_hhea(ev, n) {
        Some(h) => t.hhea == h,
        None => false,
    })
    &&& (match spec_face_maxp(ev, n) {
        Some(m) => t.maxp == m,
        None => false,
    })
    &&& t.os_2 == spec_face_os2(ev, n)
    &&& t.post == spec_face_post(ev, n)
    &&& t.vhea == spec_face_vhea(ev, n)
    &&& vorg_matches(t.vorg, ev, n)
    &&& fvar_matches(t.fvar, ev, n)
    &&& hmtx_matches(
        t.hmtx,
        spec_last_slice(ev, n, TAG_HMTX),
        t.hhea.number_of_metrics,
        t.maxp.number_of_glyphs,
    )
    &&& (match t.vhea {
        Some(v) => hmtx_matches(
            t.vmtx,
            spec_last_slice(ev, n, TAG_VMTX),
            v.number_of_metrics,
            t.maxp.number_of_glyphs,
        ),
        None => t.vmtx is None,
    })
    &&& (match (spec_last_slice(ev, n, TAG_LOCA), spec_last_slice(ev, n, TAG_GLYF)) {
        (Some(Some(lb)), Some(Some(gb))) => {
            if loca_parse_ok(lb, t.maxp.number_of_glyphs, t.head.index_to_location_format) {
                match t.glyf_table {
                    Some(g) => {
                        &&& g.wf()
                        &&& g.loca.data@ == lb
                        &&& g.loca.number_of_glyphs == t.maxp.number_of_glyphs
                        &&& g.loca.is_long == (t.head.index_to_location_format is Long)
                        &&& g.data@ == gb
                    },
                    None => false,
                }
            } else {
                t.glyf_table is None
            }
        },
        _ => t.glyf_table is None,
    })
    &&& raw_matches(t.cbdt, ev, n, TAG_CBDT)
    &&& raw_matches(t.cblc, ev, n, TAG_CBLC)
    &&& raw_matches(t.cff, ev, n, TAG_CFF)
    &&& raw_matches(t.cff2, ev, n, TAG_CFF2)
    &&& raw_matches(t.cmap, ev, n, TAG_CMAP)
    &&& raw_matches(t.gdef, ev, n, TAG_GDEF)
    &&& raw_matches(t.gpos, ev, n, TAG_GPOS)
    &&& raw_matches(t.gsub, ev, n, TAG_GSUB)
    &&& raw_matches(t.glyf, ev, n, TAG_GLYF)
    &&& raw_matches(t.gvar, ev, n, TAG_GVAR)
    &&& raw_matches(t.hvar, ev, n, TAG_HVAR)
    &&& raw_matches(t.kern, ev, n, TAG_KERN)
    &&& raw_matches(t.loca, ev, n, TAG_LOCA)
    &&& raw_matches(t.mvar, ev, n, TAG_MVAR)
    &&& raw_matches(t.name, ev, n, TAG_NAME)
    &&& raw_matches(t.sbix, ev, n, TAG_SBIX)
    &&& raw_matches(t.svg, ev, n, TAG_SVG)
    &&& raw_matches(t.avar, ev, n, TAG_AVAR)
    &&& raw_matches(t.vvar, ev, n, TAG_VVAR)
    &&& t.coordinates.wf()
    &&& t.coordinates.data@.len() == spec_coord_len(t.fvar)
    &&& (forall|i: int|
        0 <= i < t.coordinates.data@.len() ==> (#[trigger] t.coordinates.data@[i]).0 == 0)
}

/// The error the assembly reports for a provider, if any: the mandatory
/// tables are checked in the order `head`, `hhea`, `maxp`.
pub open spec fn spec_assembly_err(ev: Seq<(u32, Option<Seq<u8>>)>, n: int) -> Option<
    FaceParsingError,
> {
    if spec_face_head(ev, n) is None {
        Some(FaceParsingError::NoHeadTable)
    } else if spec_face_hhea(ev, n) is None {
        Some(FaceParsingError::NoHheaTable)
    } else if spec_face_maxp(ev, n) is None {
        Some(FaceParsingError::NoMaxpTable)
    } else {
        None
    }
}

impl<'a> FaceTables<'a> {
    /// Every stored view is internally consistent.
    pub open spec fn wf(self) -> bool {
        &&& (match self.hmtx {
            Some(h) => h.wf(),
            None => true,
        })
        &&& (match self.vmtx {
            Some(h) => h.wf(),
            None => true,
        })
        &&& (match self.vorg {
            Some(v) => v.wf(),
            None => true,
        })
        &&& (match self.fvar {
            Some(f) => f.wf(),
            None => true,
        })
        &&& (match self.glyf_table {
            Some(g) => g.wf(),
            None => true,
        })
        &&& self.coordinates.wf()
    }

    /// Assembles face tables from an already-located list of `(tag,
    /// bytes)` items, such as a caller-side front-end produces. The
    /// mandatory `head`, `hhea` and `maxp` tables must parse; any
    /// malformed optional table is treated as absent.
    pub fn from_table_provider(provider: &[(Tag, Option<&'a [u8]>)]) -> (r: Result<
        FaceTables<'a>,
        FaceParsingError,
    >)
        ensures
            ({
                let ev = entry_views(provider@);
                let n = provider@.len() as int;
                match r {
                    Ok(t) => spec_assembly_err(ev, n) is None && t.wf() && tables_match(t, ev, n),
                    Err(e) => Some(e) == spec_assembly_err(ev, n),
                }
            }),
    {
        Self::assemble(&TableProvider::List(provider))
    }

    /// Assembles face tables from a provider, walking its items once.
    fn assemble<'b>(src: &TableProvider<'a, 'b>) -> (r: Result<
        FaceTables<'a>,
        FaceParsingError,
    >)
        requires
            src.src_wf(),
        ensures
            ({
                let ev = src.views();
                let n = src.views().len() as int;
                match r {
                    Ok(t) => spec_assembly_err(ev, n) is None && t.wf() && tables_match(t, ev, n),
                    Err(e) => Some(e) == spec_assembly_err(ev, n),
                }
            }),
    {
        let ghost ev = src.views();
        let n = src.item_count();
        let mut head: Option<HeadTable> = None;
        let mut hhea: Option<HheaTable> = None;
        let mut maxp: Option<MaxpTable> = None;
        let mut os_2: Option<Os2Table> = None;
        let mut post: Option<PostTable> = None;
        let mut vhea: Option<VheaTable> = None;
        let mut vorg: Option<VorgTable<'a>> = None;
        let mut fvar: Option<FvarTable<'a>> = None;
        let mut cbdt: Option<&'a [u8]> = None;
        let mut cblc: Option<&'a [u8]> = None;
        let mut cff: Option<&'a [u8]> = None;
        let mut cff2: Option<&'a [u8]> = None;
        let mut cmap: Option<&'a [u8]> = None;
        let mut gdef: Option<&'a [u8]> = None;
        let mut gpos: Option<&'a [u8]> = None;
        let mut gsub: Option<&'a [u8]> = None;
        let mut glyf: Option<&'a [u8]> = None;
        let mut gvar: Option<&'a [u8]> = None;
        let mut hvar: Option<&'a [u8]> = None;
        let mut kern: Option<&'a [u8]> = None;
        let mut loca: Option<&'a [u8]> = None;
        let mut mvar: Option<&'a [u8]> = None;
        let mut name: Option<&'a [u8]> = None;
        let mut sbix: Option<&'a [u8]> = None;
        let mut svg: Option<&'a [u8]> = None;
        let mut avar: Option<&'a [u8]> = None;
        let mut vvar: Option<&'a [u8]> = None;
        let mut hmtx_data: Option<&'a [u8]> = None;
        let mut vmtx_data: Option<&'a [u8]> = None;
        let mut i: usize = 0;
        while i < n
            invariant
                src.src_wf(),
                n == src.views().len(),
                0 <= i <= n,
                ev == src.views(),
                head == spec_face_head(ev, i as int),
                hhea == spec_face_hhea(ev, i as int),
                maxp == spec_face_maxp(ev, i as int),
                os_2 == spec_face_os2(ev, i as int),
                post == spec_face_post(ev, i as int),
                vhea == spec_face_vhea(ev, i as int),
                vorg_matches(vorg, ev, i as int),
                fvar_matches(fvar, ev, i as int),
                raw_matches(cbdt, ev, i as int, TAG_CBDT),
                raw_matches(cblc, ev, i as int, TAG_CBLC),
                raw_matches(cff, ev, i as int, TAG_CFF),
                raw_matches(cff2, ev, i as int, TAG_CFF2),
                raw_matches(cmap, ev, i as int, TAG_CMAP),
                raw_matches(gdef, ev, i as int, TAG_GDEF),
                raw_matches(gpos, ev, i as int, TAG_GPOS),
                raw_matches(gsub, ev, i as int, TAG_GSUB),
                raw_matches(glyf, ev, i as int, TAG_GLYF),
                raw_matches(gvar, ev, i as int, TAG_GVAR),
                raw_matches(hvar, ev, i as int, TAG_HVAR),
                raw_matches(kern, ev, i as int, TAG_KERN),
                raw_matches(loca, ev, i as int, TAG_LOCA),
                raw_matches(mvar, ev, i as int, TAG_MVAR),
                raw_matches(name, ev, i as int, TAG_NAME),
                raw_matches(sbix, ev, i as int, TAG_SBIX),
                raw_matches(svg, ev, i as int, TAG_SVG),
                raw_matches(avar, ev, i as int, TAG_AVAR),
                raw_matches(vvar, ev, i as int, TAG_VVAR),
                raw_matches(hmtx_data, ev, i as int, TAG_HMTX),
                raw_matches(vmtx_data, ev, i as int, TAG_VMTX),
            decreases n - i,
        {
            let (tag, table_data) = src.item(i);
            proof {
                assert(ev[i as int] == (
                    tag.0,
                    match table_data {
                        Some(b) => Some(b@),
                        None => None,
                    },
                ));
            }
            let t = tag.0;
            if t == TAG_CBDT {
                cbdt = table_data;
            } else if t == TAG_CBLC {
                cblc = table_data;
            } else if t == TAG_CFF {
                cff = table_data;
            } else if t == TAG_CFF2 {
                cff2 = table_data;
            } else if t == TAG_CMAP {
                cmap = table_data;
            } else if t == TAG_GDEF {
                gdef = table_data;
            } else if t == TAG_GPOS {
                gpos = table_data;
            } else if t == TAG_GSUB {
                gsub = table_data;
            } else if t == TAG_GLYF {
                glyf = table_data;
            } else if t == TAG_GVAR {
                gvar = table_data;
            } else if t == TAG_HVAR {
                hvar = table_data;
            } else if t == TAG_KERN {
                kern = table_data;
            } else if t == TAG_LOCA {
                loca = table_data;
            } else if t == TAG_MVAR {
                mvar = table_data;
            } else if t == TAG_NAME {
                name = table_data;
            } else if t == TAG_SBIX {
                sbix = table_data;
            } else if t == TAG_SVG {
                svg = table_data;
            } else if t == TAG_AVAR {
                avar = table_data;
            } else if t == TAG_VVAR {
                vvar = table_data;
            } else if t == TAG_HMTX {
                hmtx_data = table_data;
            } else if t == TAG_VMTX {
                vmtx_data = table_data;
            } else if t == TAG_HEAD {
                head = match table_data {
                    Some(b) => crate::tables::parse_head(b),
                    None => None,
                };
            } else if t == TAG_HHEA {
                hhea = match table_data {
                    Some(b) => crate::tables::parse_hhea(b),
                    None => None,
                };
            } else if t == TAG_MAXP {
                maxp = match table_data {
                    Some(b) => crate::tables::parse_maxp(b),
                    None => None,
                };
            } else if t == TAG_OS2 {
                os_2 = match table_data {
                    Some(b) => crate::tables::parse_os2(b),
                    None => None,
                };
            } else if t == TAG_POST {
                post = match table_data {
                    Some(b) => crate::tables::parse_post(b),
                    None => None,
                };
            } else if t == TAG_VHEA {
                vhea = match table_data {
                    Some(b) => crate::tables::parse_vhea(b),
                    None => None,
                };
            } else if t == TAG_VORG {
                vorg = match table_data {
                    Some(b) => VorgTable::parse(b),
                    None => None,
                };
            } else if t == TAG_FVAR {
                fvar = match table_data {
                    Some(b) => FvarTable::parse(b),
                    None => None,
                };
            }
            i = i + 1;
        }
        let head = match head {
            Some(h) => h,
            None => {
                return Err(FaceParsingError::NoHeadTable);
            },
        };
        let hhea = match hhea {
            Some(h) => h,
            None => {
                return Err(FaceParsingError::NoHheaTable);
            },
        };
        let maxp = match maxp {
            Some(m) => m,
            None => {
                return Err(FaceParsingError::NoMaxpTable);
            },
        };
        let n_coords: usize = match &fvar {
            Some(f) => {
                let c = f.axes.len() as usize;
                if c < MAX_VAR_COORDS {
                    c
                } else {
                    MAX_VAR_COORDS
                }
            },
            None => 0,
        };
        let mut coords: Vec<crate::NormalizedCoordinate> = Vec::new();
        while coords.len() < n_coords
            invariant
                n_coords <= MAX_VAR_COORDS,
                coords@.len() <= n_coords,
                forall|k: int| 0 <= k < coords@.len() ==> (#[trigger] coords@[k]).0 == 0,
            decreases n_coords - coords@.len(),
        {
            coords.push(crate::NormalizedCoordinate(0));
        }
        let hmtx = match hmtx_data {
            Some(b) => HmtxTable::parse(b, hhea.number_of_metrics, maxp.number_of_glyphs),
            None => None,
        };
        let vmtx = match (&vhea, vmtx_data) {
            (Some(v), Some(b)) => HmtxTable::parse(b, v.number_of_metrics, maxp.number_of_glyphs),
            _ => None,
        };
        let glyf_table = match (loca, glyf) {
            (Some(lb), Some(gb)) => {
                match LocaTable::parse(lb, maxp.number_of_glyphs, head.index_to_location_format) {
                    Some(lt) => Some(GlyfTable { loca: lt, data: gb }),
                    None => None,
                }
            },
            _ => None,
        };
        Ok(
            FaceTables {
                head,
                hhea,
                maxp,
                os_2,
                post,
                vhea,
                hmtx,
                vmtx,
                vorg,
                fvar,
                glyf_table,
                cbdt,
                cblc,
                cff,
                cff2,
                cmap,
                gdef,
                gpos,
                gsub,
                glyf,
                gvar,
                hvar,
                kern,
                loca,
                mvar,
                name,
                sbix,
                svg,
                avar,
                vvar,
                coordinates: VarCoords { data: coords },
            },
        )
    }
}

/// Finds the first axis carrying `tag`, with its index.
fn find_axis<'a>(f: &FvarTable<'a>, tag: Tag) -> (r: Option<(u16, crate::tables::VariationAxis)>)
    requires
        f.wf(),
    ensures
        match r {
            Some(p) => p.0 < f.axes.count && spec_find_axis(f.axes, tag.0, 0) == Some(p.0 as int)
                && p.1 == f.axes.spec_get(p.0 as int),
            None => spec_find_axis(f.axes, tag.0, 0) is None,
        },
{
    let n = f.axes.len();
    let mut i: u16 = 0;
    while i < n
        invariant
            f.axes.wf(),
            n == f.axes.count,
            0 <= i <= n,
            spec_find_axis(f.axes, tag.0, 0) == spec_find_axis(f.axes, tag.0, i as int),
        decreases n - i,
    {
        let a = f.axes.get(i).unwrap();
        if a.tag.0 == tag.0 {
            proof {
                assert(spec_find_axis(f.axes, tag.0, i as int) == Some(i as int));
            }
            return Some((i, a));
        }
        proof {
            assert(spec_find_axis(f.axes, tag.0, i as int) == spec_find_axis(
                f.axes,
                tag.0,
                i + 1,
            ));
        }
        i = i + 1;
    }
    proof {
        assert(spec_find_axis(f.axes, tag.0, i as int) is None);
    }
    None
}

/// The collaborator a glyph-outline request is routed to.
#[derive(Clone, Copy, PartialEq, Eq, Structural, Debug)]
pub enum OutlineSource {
    /// Glyph variations over the glyph data, for a variable face.
    GlyphVariations,
    /// Plain glyph data.
    GlyphData,
    /// The compact font format.
    CompactFontFormat,
    /// The second compact font format, consulted with the coordinates.
    CompactFontFormat2,
}

/// The collaborator a glyph raster-image request is routed to.
#[derive(Clone, Copy, PartialEq, Eq, Structural, Debug)]
pub enum RasterImageSource {
    /// The standard bitmap graphics table, consulted with the
    /// requested pixels per em.
    StandardBitmapGraphics,
    /// The colour-bitmap location and data tables together.
    ColorBitmaps,
}

/// The collaborator a glyph-name request is routed to.
#[derive(Clone, Copy, PartialEq, Eq, Structural, Debug)]
pub enum GlyphNameSource {
    /// The postscript table's name array.
    PostScript,
    /// The compact font format's charset.
    CompactFontFormat,
}

/// The first axis at or past index `i` whose tag is `tag`.
pub open spec fn spec_find_axis(
    axes: LazyArray16<crate::tables::VariationAxis>,
    tag: u32,
    i: int,
) -> Option<int>
    decreases axes.count - i,
{
    if i < 0 || i >= axes.count {
        None
    } else if axes.spec_get(i).tag.0 == tag {
        Some(i)
    } else {
        spec_find_axis(axes, tag, i + 1)
    }
}

/// Two table sets agree on everything but the variation coordinates.
pub open spec fn eq_except_coords<'a>(a: FaceTables<'a>, b: FaceTables<'a>) -> bool {
    &&& a.head == b.head
    &&& a.hhea == b.hhea
    &&& a.maxp == b.maxp
    &&& a.os_2 == b.os_2
    &&& a.post == b.post
    &&& a.vhea == b.vhea
    &&& a.hmtx == b.hmtx
    &&& a.vmtx == b.vmtx
    &&& a.vorg == b.vorg
    &&& a.fvar == b.fvar
    &&& a.glyf_table == b.glyf_table
    &&& a.cbdt == b.cbdt
    &&& a.cblc == b.cblc
    &&& a.cff == b.cff
    &&& a.cff2 == b.cff2
    &&& a.cmap == b.cmap
    &&& a.gdef == b.gdef
    &&& a.gpos == b.gpos
    &&& a.gsub == b.gsub
    &&& a.glyf == b.glyf
    &&& a.gvar == b.gvar
    &&& a.hvar == b.hvar
    &&& a.kern == b.kern
    &&& a.loca == b.loca
    &&& a.mvar == b.mvar
    &&& a.name == b.name
    &&& a.sbix == b.sbix
    &&& a.svg == b.svg
    &&& a.avar == b.avar
    &&& a.vvar == b.vvar
}

impl<'a> FaceTables<'a> {
    /// The typographic metrics of `OS/2` are the ones to use.
    pub open spec fn spec_use_typographic_metrics(self) -> bool {
        match self.os_2 {
            Some(o) => o.spec_use_typographic_metrics(),
            None => false,
        }
    }

    /// The horizontal ascender, after the fallback chain: the
    /// typographic value when `OS/2` elects it; otherwise `hhea`'s
    /// value; when that is zero, `OS/2`'s typographic value; when that
    /// too is zero, `OS/2`'s windows metric.
    pub open spec fn spec_ascender(self) -> i16 {
        if self.spec_use_typographic_metrics() {
            self.os_2->Some_0.typographic_ascender
        } else if self.hhea.ascender != 0 {
            self.hhea.ascender
        } else {
            match self.os_2 {
                Some(o) => if o.typographic_ascender != 0 {
                    o.typographic_ascender
                } else {
                    o.windows_ascender
                },
                None => 0,
            }
        }
    }

    /// The horizontal descender, after the same fallback chain as the
    /// ascender.
    pub open spec fn spec_descender(self) -> i16 {
        if self.spec_use_typographic_metrics() {
            self.os_2->Some_0.typographic_descender
        } else if self.hhea.descender != 0 {
            self.hhea.descender
        } else {
            match self.os_2 {
                Some(o) => if o.typographic_descender != 0 {
                    o.typographic_descender
                } else {
                    o.windows_descender
                },
                None => 0,
            }
        }
    }

    /// The horizontal line gap: the typographic value when `OS/2`
    /// elects it; otherwise `hhea`'s value; when that is zero, `OS/2`'s
    /// typographic value.
    pub open spec fn spec_line_gap(self) -> i16 {
        if self.spec_use_typographic_metrics() {
            self.os_2->Some_0.typographic_line_gap
        } else if self.hhea.line_gap != 0 {
            self.hhea.line_gap
        } else {
            match self.os_2 {
                Some(o) => o.typographic_line_gap,
                None => 0,
            }
        }
    }

    /// True only for tables that parsed successfully; tables the core
    /// only locates count as present when their bytes were found.
    pub fn has_table(&self, name: crate::TableName) -> (r: bool)
        ensures
            r == match name {
                crate::TableName::Header => true,
                crate::TableName::HorizontalHeader => true,
                crate::TableName::MaximumProfile => true,
                crate::TableName::AxisVariations => self.avar is Some,
                crate::TableName::CharacterToGlyphIndexMapping => self.cmap is Some,
                crate::TableName::ColorBitmapData => self.cbdt is Some,
                crate::TableName::ColorBitmapLocation => self.cblc is Some,
                crate::TableName::CompactFontFormat => self.cff is Some,
                crate::TableName::CompactFontFormat2 => self.cff2 is Some,
                crate::TableName::FontVariations => self.fvar is Some,
                crate::TableName::GlyphData => self.glyf_table is Some,
                crate::TableName::GlyphDefinition => self.gdef is Some,
                crate::TableName::GlyphPositioningTable => self.gpos is Some,
                crate::TableName::GlyphSubstitutionTable => self.gsub is Some,
                crate::TableName::GlyphVariations => self.gvar is Some,
                crate::TableName::HorizontalMetrics => self.hmtx is Some,
                crate::TableName::HorizontalMetricsVariations => self.hvar is Some,
                crate::TableName::IndexToLocation => self.glyf_table is Some,
                crate::TableName::Kerning => self.kern is Some,
                crate::TableName::MetricsVariations => self.mvar is Some,
                crate::TableName::Naming => self.name is Some,
                crate::TableName::PostScript => self.post is Some,
                crate::TableName::ScalableVectorGraphics => self.svg is Some,
                crate::TableName::StandardBitmapGraphics => self.sbix is Some,
                crate::TableName::VerticalHeader => self.vhea is Some,
                crate::TableName::VerticalMetrics => self.vmtx is Some,
                crate::TableName::VerticalMetricsVariations => self.vvar is Some,
                crate::TableName::VerticalOrigin => self.vorg is Some,
                crate::TableName::WindowsMetrics => self.os_2 is Some,
            },
    {
        match name {
            crate::TableName::Header => true,
            crate::TableName::HorizontalHeader => true,
            crate::TableName::MaximumProfile => true,
            crate::TableName::AxisVariations => self.avar.is_some(),
            crate::TableName::CharacterToGlyphIndexMapping => self.cmap.is_some(),
            crate::TableName::ColorBitmapData => self.cbdt.is_some(),
            crate::TableName::ColorBitmapLocation => self.cblc.is_some(),
            crate::TableName::CompactFontFormat => self.cff.is_some(),
            crate::TableName::CompactFontFormat2 => self.cff2.is_some(),
            crate::TableName::FontVariations => self.fvar.is_some(),
            crate::TableName::GlyphData => self.glyf_table.is_some(),
            crate::TableName::GlyphDefinition => self.gdef.is_some(),
            crate::TableName::GlyphPositioningTable => self.gpos.is_some(),
            crate::TableName::GlyphSubstitutionTable => self.gsub.is_some(),
            crate::TableName::GlyphVariations => self.gvar.is_some(),
            crate::TableName::HorizontalMetrics => self.hmtx.is_some(),
            crate::TableName::HorizontalMetricsVariations => self.hvar.is_some(),
            crate::TableName::IndexToLocation => self.glyf_table.is_some(),
            crate::TableName::Kerning => self.kern.is_some(),
            crate::TableName::MetricsVariations => self.mvar.is_some(),
            crate::TableName::Naming => self.name.is_some(),
            crate::TableName::PostScript => self.post.is_some(),
            crate::TableName::ScalableVectorGraphics => self.svg.is_some(),
            crate::TableName::StandardBitmapGraphics => self.sbix.is_some(),
            crate::TableName::VerticalHeader => self.vhea.is_some(),
            crate::TableName::VerticalMetrics => self.vmtx.is_some(),
            crate::TableName::VerticalMetricsVariations => self.vvar.is_some(),
            crate::TableName::VerticalOrigin => self.vorg.is_some(),
            crate::TableName::WindowsMetrics => self.os_2.is_some(),
        }
    }

    /// The face is marked regular; false without `OS/2`.
    pub fn is_regular(&self) -> (r: bool)
        ensures
            r == match self.os_2 {
                Some(o) => o.spec_style() is Normal,
                None => false,
            },
    {
        match &self.os_2 {
            Some(o) => match o.style() {
                crate::tables::Style::Normal => true,
                _ => false,
            },
            None => false,
        }
    }

    /// The face is marked italic; false without `OS/2`.
    pub fn is_italic(&self) -> (r: bool)
        ensures
            r == match self.os_2 {
                Some(o) => o.spec_style() is Italic,
                None => false,
            },
    {
        match &self.os_2 {
            Some(o) => match o.style() {
                crate::tables::Style::Italic => true,
                _ => false,
            },
            None => false,
        }
    }

    /// The face is marked bold; false without `OS/2`.
    pub fn is_bold(&self) -> (r: bool)
        ensures
            r == match self.os_2 {
                Some(o) => o.spec_is_bold(),
                None => false,
            },
    {
        match &self.os_2 {
            Some(o) => o.is_bold(),
            None => false,
        }
    }

    /// The face is marked oblique; false without `OS/2` or before its
    /// version 4.
    pub fn is_oblique(&self) -> (r: bool)
        ensures
            r == match self.os_2 {
                Some(o) => o.spec_style() is Oblique,
                None => false,
            },
    {
        match &self.os_2 {
            Some(o) => match o.style() {
                crate::tables::Style::Oblique => true,
                _ => false,
            },
            None => false,
        }
    }

    /// The face style; normal without `OS/2`.
    pub fn style(&self) -> (r: crate::tables::Style)
        ensures
            r == match self.os_2 {
                Some(o) => o.spec_style(),
                None => crate::tables::Style::Normal,
            },
    {
        match &self.os_2 {
            Some(o) => o.style(),
            None => crate::tables::Style::Normal,
        }
    }

    /// The face is marked monospaced; false without `post`.
    pub fn is_monospaced(&self) -> (r: bool)
        ensures
            r == match self.post {
                Some(p) => p.is_monospaced,
                None => false,
            },
    {
        match &self.post {
            Some(p) => p.is_monospaced,
            None => false,
        }
    }

    /// The face is variable: it carries an `fvar` table, whose parse
    /// already requires a positive axis count.
    pub fn is_variable(&self) -> (r: bool)
        ensures
            r == (self.fvar is Some),
    {
        self.fvar.is_some()
    }

    /// The face weight; normal without `OS/2`.
    pub fn weight(&self) -> (r: crate::tables::Weight)
        ensures
            r == match self.os_2 {
                Some(o) => crate::tables::spec_weight(o.weight),
                None => crate::tables::Weight::Normal,
            },
    {
        match &self.os_2 {
            Some(o) => crate::tables::weight_of(o.weight),
            None => crate::tables::Weight::Normal,
        }
    }

    /// The face width; normal without `OS/2` or on an invalid value.
    pub fn width(&self) -> (r: crate::tables::Width)
        ensures
            r == match self.os_2 {
                Some(o) => o.spec_width(),
                None => crate::tables::Width::Normal,
            },
    {
        match &self.os_2 {
            Some(o) => o.width(),
            None => crate::tables::Width::Normal,
        }
    }

    /// The horizontal ascender; see `spec_ascender` for the fallback
    /// order.
    pub fn ascender(&self) -> (r: i16)
        ensures
            r == self.spec_ascender(),
    {
        match &self.os_2 {
            Some(o) => {
                if o.use_typographic_metrics() {
                    return o.typographic_ascender;
                }
            },
            None => {},
        }
        let mut value = self.hhea.ascender;
        if value == 0 {
            match &self.os_2 {
                Some(o) => {
                    value = o.typographic_ascender;
                    if value == 0 {
                        value = o.windows_ascender;
                    }
                },
                None => {},
            }
        }
        value
    }

    /// The horizontal descender; see `spec_descender` for the fallback
    /// order.
    pub fn descender(&self) -> (r: i16)
        ensures
            r == self.spec_descender(),
    {
        match &self.os_2 {
            Some(o) => {
                if o.use_typographic_metrics() {
                    return o.typographic_descender;
                }
            },
            None => {},
        }
        let mut value = self.hhea.descender;
        if value == 0 {
            match &self.os_2 {
                Some(o) => {
                    value = o.typographic_descender;
                    if value == 0 {
                        value = o.windows_descender;
                    }
                },
                None => {},
            }
        }
        value
    }

    /// The face height: ascender minus descender.
    pub fn height(&self) -> (r: i16)
        requires
            -0x8000 <= self.spec_ascender() - self.spec_descender() <= 0x7FFF,
        ensures
            r == self.spec_ascender() - self.spec_descender(),
    {
        self.ascender() - self.descender()
    }

    /// The horizontal line gap; see `spec_line_gap` for the fallback
    /// order.
    pub fn line_gap(&self) -> (r: i16)
        ensures
            r == self.spec_line_gap(),
    {
        match &self.os_2 {
            Some(o) => {
                if o.use_typographic_metrics() {
                    return o.typographic_line_gap;
                }
            },
            None => {},
        }
        let mut value = self.hhea.line_gap;
        if value == 0 {
            match &self.os_2 {
                Some(o) => {
                    value = o.typographic_line_gap;
                },
                None => {},
            }
        }
        value
    }

    /// The typographic ascender of `OS/2`, when present.
    pub fn typographic_ascender(&self) -> (r: Option<i16>)
        ensures
            r == match self.os_2 {
                Some(o) => Some(o.typographic_ascender),
                None => Option::<i16>::None,
            },
    {
        match &self.os_2 {
            Some(o) => Some(o.typographic_ascender),
            None => None,
        }
    }

    /// The typographic descender of `OS/2`, when present.
    pub fn typographic_descender(&self) -> (r: Option<i16>)
        ensures
            r == match self.os_2 {
                Some(o) => Some(o.typographic_descender),
                None => Option::<i16>::None,
            },
    {
        match &self.os_2 {
            Some(o) => Some(o.typographic_descender),
            None => None,
        }
    }

    /// The typographic line gap of `OS/2`, when present.
    pub fn typographic_line_gap(&self) -> (r: Option<i16>)
        ensures
            r == match self.os_2 {
                Some(o) => Some(o.typographic_line_gap),
                None => Option::<i16>::None,
            },
    {
        match &self.os_2 {
            Some(o) => Some(o.typographic_line_gap),
            None => None,
        }
    }

    /// The vertical ascender, when `vhea` is present.
    pub fn vertical_ascender(&self) -> (r: Option<i16>)
        ensures
            r == match self.vhea {
                Some(v) => Some(v.ascender),
                None => Option::<i16>::None,
            },
    {
        match &self.vhea {
            Some(v) => Some(v.ascender),
            None => None,
        }
    }

    /// The vertical descender, when `vhea` is present.
    pub fn vertical_descender(&self) -> (r: Option<i16>)
        ensures
            r == match self.vhea {
                Some(v) => Some(v.descender),
                None => Option::<i16>::None,
            },
    {
        match &self.vhea {
            Some(v) => Some(v.descender),
            None => None,
        }
    }

    /// The vertical height: vertical ascender minus descender, when
    /// `vhea` is present.
    pub fn vertical_height(&self) -> (r: Option<i16>)
        requires
            match self.vhea {
                Some(v) => -0x8000 <= v.ascender - v.descender <= 0x7FFF,
                None => true,
            },
        ensures
            r == match self.vhea {
                Some(v) => Some((v.ascender - v.descender) as i16),
                None => Option::<i16>::None,
            },
    {
        match &self.vhea {
            Some(v) => Some(v.ascender - v.descender),
            None => None,
        }
    }

    /// The vertical line gap, when `vhea` is present.
    pub fn vertical_line_gap(&self) -> (r: Option<i16>)
        ensures
            r == match self.vhea {
                Some(v) => Some(v.line_gap),
                None => Option::<i16>::None,
            },
    {
        match &self.vhea {
            Some(v) => Some(v.line_gap),
            None => None,
        }
    }

    /// Units per em, always in 16..=16384.
    pub fn units_per_em(&self) -> (r: u16)
        ensures
            r == self.head.units_per_em,
    {
        self.head.units_per_em
    }

    /// The x height of `OS/2`, present from its version 2 on.
    pub fn x_height(&self) -> (r: Option<i16>)
        ensures
            r == match self.os_2 {
                Some(o) => o.x_height,
                None => Option::<i16>::None,
            },
    {
        match &self.os_2 {
            Some(o) => o.x_height,
            None => None,
        }
    }

    /// The capital height of `OS/2`, present from its version 2 on.
    pub fn capital_height(&self) -> (r: Option<i16>)
        ensures
            r == match self.os_2 {
                Some(o) => o.capital_height,
                None => Option::<i16>::None,
            },
    {
        match &self.os_2 {
            Some(o) => o.capital_height,
            None => None,
        }
    }

    /// The italic angle of `post`, in degrees as 16.16 fixed point,
    /// when `post` is present.
    pub fn italic_angle(&self) -> (r: Option<i32>)
        ensures
            r == match self.post {
                Some(p) => Some(p.italic_angle),
                None => Option::<i32>::None,
            },
    {
        match &self.post {
            Some(p) => Some(p.italic_angle),
            None => None,
        }
    }

    /// The underline position and thickness, when `post` is present.
    pub fn underline_metrics(&self) -> (r: Option<crate::LineMetrics>)
        ensures
            r == match self.post {
                Some(p) => Some(p.underline_metrics),
                None => Option::<crate::LineMetrics>::None,
            },
    {
        match &self.post {
            Some(p) => Some(p.underline_metrics),
            None => None,
        }
    }

    /// The strikeout position and thickness, when `OS/2` is present.
    pub fn strikeout_metrics(&self) -> (r: Option<crate::LineMetrics>)
        ensures
            r == match self.os_2 {
                Some(o) => Some(
                    crate::LineMetrics {
                        position: o.strikeout_position,
                        thickness: o.strikeout_size,
                    },
                ),
                None => Option::<crate::LineMetrics>::None,
            },
    {
        match &self.os_2 {
            Some(o) => Some(o.strikeout_metrics()),
            None => None,
        }
    }

    /// The subscript metrics, when `OS/2` is present.
    pub fn subscript_metrics(&self) -> (r: Option<crate::tables::ScriptMetrics>)
        ensures
            r == match self.os_2 {
                Some(o) => Some(o.subscript),
                None => Option::<crate::tables::ScriptMetrics>::None,
            },
    {
        match &self.os_2 {
            Some(o) => Some(o.subscript),
            None => None,
        }
    }

    /// The superscript metrics, when `OS/2` is present.
    pub fn superscript_metrics(&self) -> (r: Option<crate::tables::ScriptMetrics>)
        ensures
            r == match self.os_2 {
                Some(o) => Some(o.superscript),
                None => Option::<crate::tables::ScriptMetrics>::None,
            },
    {
        match &self.os_2 {
            Some(o) => Some(o.superscript),
            None => None,
        }
    }

    /// The number of glyphs; never zero.
    pub fn number_of_glyphs(&self) -> (r: u16)
        requires
            self.maxp.number_of_glyphs >= 1,
        ensures
            r == self.maxp.number_of_glyphs,
            r >= 1,
    {
        self.maxp.number_of_glyphs
    }

    /// A box large enough to enclose any glyph of the face.
    pub fn global_bounding_box(&self) -> (r: crate::Rect)
        ensures
            r == self.head.global_bbox,
    {
        self.head.global_bbox
    }

    /// The glyph's horizontal advance, from `hmtx`.
    pub fn glyph_hor_advance(&self, glyph_id: crate::GlyphId) -> (r: Option<u16>)
        requires
            self.wf(),
        ensures
            r == match self.hmtx {
                Some(h) => h.spec_advance(glyph_id.0),
                None => Option::<u16>::None,
            },
    {
        match &self.hmtx {
            Some(h) => h.advance(glyph_id),
            None => None,
        }
    }

    /// The glyph's vertical advance, from `vmtx`.
    pub fn glyph_ver_advance(&self, glyph_id: crate::GlyphId) -> (r: Option<u16>)
        requires
            self.wf(),
        ensures
            r == match self.vmtx {
                Some(h) => h.spec_advance(glyph_id.0),
                None => Option::<u16>::None,
            },
    {
        match &self.vmtx {
            Some(h) => h.advance(glyph_id),
            None => None,
        }
    }

    /// The glyph's horizontal side bearing, from `hmtx`.
    pub fn glyph_hor_side_bearing(&self, glyph_id: crate::GlyphId) -> (r: Option<i16>)
        requires
            self.wf(),
        ensures
            r == match self.hmtx {
                Some(h) => h.spec_side_bearing(glyph_id.0),
                None => Option::<i16>::None,
            },
    {
        match &self.hmtx {
            Some(h) => h.side_bearing(glyph_id),
            None => None,
        }
    }

    /// The glyph's vertical side bearing, from `vmtx`.
    pub fn glyph_ver_side_bearing(&self, glyph_id: crate::GlyphId) -> (r: Option<i16>)
        requires
            self.wf(),
        ensures
            r == match self.vmtx {
                Some(h) => h.spec_side_bearing(glyph_id.0),
                None => Option::<i16>::None,
            },
    {
        match &self.vmtx {
            Some(h) => h.side_bearing(glyph_id),
            None => None,
        }
    }

    /// The glyph's vertical origin, when `VORG` is present.
    pub fn glyph_y_origin(&self, glyph_id: crate::GlyphId) -> (r: Option<i16>)
        requires
            self.wf(),
        ensures
            r == match self.vorg {
                Some(v) => Some(v.spec_y_origin(glyph_id.0)),
                None => Option::<i16>::None,
            },
    {
        match &self.vorg {
            Some(v) => Some(v.glyph_y_origin(glyph_id)),
            None => None,
        }
    }

    /// The variation axes, in table order; empty without `fvar`.
    pub fn variation_axes(&self) -> (r: Vec<crate::tables::VariationAxis>)
        requires
            self.wf(),
        ensures
            match self.fvar {
                Some(f) => r@.len() == f.axes.count && forall|i: int|
                    0 <= i < r@.len() ==> #[trigger] r@[i] == f.axes.spec_get(i),
                None => r@.len() == 0,
            },
    {
        let mut r: Vec<crate::tables::VariationAxis> = Vec::new();
        match &self.fvar {
            Some(f) => {
                let n = f.axes.len();
                let mut i: u16 = 0;
                while i < n
                    invariant
                        f.axes.wf(),
                        n == f.axes.count,
                        0 <= i <= n,
                        r@.len() == i,
                        forall|k: int| 0 <= k < i ==> #[trigger] r@[k] == f.axes.spec_get(k),
                    decreases n - i,
                {
                    r.push(f.axes.get(i).unwrap());
                    i = i + 1;
                }
            },
            None => {},
        }
        r
    }

    /// Sets one variation axis coordinate. `value` is in 16.16 fixed
    /// point design-space units.
    ///
    /// Fails, leaving the face unchanged, when the face is not
    /// variable, when no axis carries the tag, or when the axis stands
    /// at or past the coordinate cap.
    pub fn set_variation(&mut self, axis: Tag, value: i32) -> (r: Option<()>)
        requires
            old(self).wf(),
            old(self).coordinates.data@.len() == spec_coord_len(old(self).fvar),
        ensures
            final(self).wf(),
            eq_except_coords(*old(self), *final(self)),
            final(self).coordinates.data@.len() == old(self).coordinates.data@.len(),
            match r {
                Some(_) => match old(self).fvar {
                    Some(f) => match spec_find_axis(f.axes, axis.0, 0) {
                        Some(idx) => idx < MAX_VAR_COORDS && final(self).coordinates.data@ == old(
                            self,
                        ).coordinates.data@.update(
                            idx,
                            crate::NormalizedCoordinate(
                                crate::tables::spec_normalize(
                                    f.axes.spec_get(idx).min_value,
                                    f.axes.spec_get(idx).def_value,
                                    f.axes.spec_get(idx).max_value,
                                    value,
                                ),
                            ),
                        ),
                        None => false,
                    },
                    None => false,
                },
                None => final(self).coordinates.data@ == old(self).coordinates.data@ && (match old(
                    self,
                ).fvar {
                    Some(f) => match spec_find_axis(f.axes, axis.0, 0) {
                        Some(idx) => idx >= MAX_VAR_COORDS,
                        None => true,
                    },
                    None => true,
                }),
            },
    {
        let found: Option<(u16, crate::tables::VariationAxis)> = match &self.fvar {
            Some(f) => find_axis(f, axis),
            None => None,
        };
        match found {
            Some((idx, a)) => {
                if (idx as usize) >= MAX_VAR_COORDS {
                    return None;
                }
                let nc = a.normalized_value(value);
                self.coordinates.data[idx as usize] = nc;
                Some(())
            },
            None => None,
        }
    }

    /// Where an outline request is routed: glyph variations first when
    /// that table is present, which needs the glyph data beside it and
    /// falls no further when it is missing; then plain glyph data; then
    /// the compact formats, the second of which is consulted together
    /// with the variation coordinates. The first present source wins.
    pub open spec fn spec_outline_source(self) -> Option<OutlineSource> {
        if self.gvar is Some {
            if self.glyf_table is Some {
                Some(OutlineSource::GlyphVariations)
            } else {
                None
            }
        } else if self.glyf_table is Some {
            Some(OutlineSource::GlyphData)
        } else if self.cff is Some {
            Some(OutlineSource::CompactFontFormat)
        } else if self.cff2 is Some {
            Some(OutlineSource::CompactFontFormat2)
        } else {
            None
        }
    }

    /// The collaborator outline requests are routed to, or `None` when
    /// no outline source is present.
    pub fn outline_source(&self) -> (r: Option<OutlineSource>)
        ensures
            r == self.spec_outline_source(),
    {
        if self.gvar.is_some() {
            if self.glyf_table.is_some() {
                Some(OutlineSource::GlyphVariations)
            } else {
                None
            }
        } else if self.glyf_table.is_some() {
            Some(OutlineSource::GlyphData)
        } else if self.cff.is_some() {
            Some(OutlineSource::CompactFontFormat)
        } else if self.cff2.is_some() {
            Some(OutlineSource::CompactFontFormat2)
        } else {
            None
        }
    }

    /// Where a raster-image request is routed: the standard bitmap
    /// graphics table first, else the colour-bitmap pair, which is
    /// usable only whole. Within the chosen source the requested glyph
    /// and strike may still miss.
    pub open spec fn spec_raster_image_source(self) -> Option<RasterImageSource> {
        if self.sbix is Some {
            Some(RasterImageSource::StandardBitmapGraphics)
        } else if self.cblc is Some && self.cbdt is Some {
            Some(RasterImageSource::ColorBitmaps)
        } else {
            None
        }
    }

    /// The collaborator raster-image requests are routed to, or `None`
    /// when no image source is present.
    pub fn raster_image_source(&self) -> (r: Option<RasterImageSource>)
        ensures
            r == self.spec_raster_image_source(),
    {
        if self.sbix.is_some() {
            Some(RasterImageSource::StandardBitmapGraphics)
        } else if self.cblc.is_some() && self.cbdt.is_some() {
            Some(RasterImageSource::ColorBitmaps)
        } else {
            None
        }
    }

    /// Where a glyph-name request is routed: the postscript table
    /// first, else the compact font format. Within the chosen source
    /// the glyph may still carry no name.
    pub open spec fn spec_glyph_name_source(self) -> Option<GlyphNameSource> {
        if self.post is Some {
            Some(GlyphNameSource::PostScript)
        } else if self.cff is Some {
            Some(GlyphNameSource::CompactFontFormat)
        } else {
            None
        }
    }

    /// The collaborator glyph-name requests are routed to, or `None`
    /// when no name source is present.
    pub fn glyph_name_source(&self) -> (r: Option<GlyphNameSource>)
        ensures
            r == self.spec_glyph_name_source(),
    {
        if self.post.is_some() {
            Some(GlyphNameSource::PostScript)
        } else if self.cff.is_some() {
            Some(GlyphNameSource::CompactFontFormat)
        } else {
            None
        }
    }

    /// The current normalized variation coordinates, one per axis.
    pub fn variation_coordinates(&self) -> (r: &[crate::NormalizedCoordinate])
        ensures
            r@ == self.coordinates.data@,
    {
        self.coordinates.data.as_slice()
    }

    /// Some coordinate is off its default.
    pub fn has_non_default_variation_coordinates(&self) -> (r: bool)
        ensures
            r == exists|i: int|
                0 <= i < self.coordinates.data@.len() && (#[trigger] self.coordinates.data@[i]).0
                    != 0,
    {
        let n = self.coordinates.data.len();
        let mut i: usize = 0;
        while i < n
            invariant
                n == self.coordinates.data@.len(),
                0 <= i <= n,
                forall|k: int| 0 <= k < i ==> (#[trigger] self.coordinates.data@[k]).0 == 0,
            decreases n - i,
        {
            if self.coordinates.data[i].0 != 0 {
                return true;
            }
            i = i + 1;
        }
        false
    }
}

/// Two table sets carry the same values everywhere a query can look:
/// equal parsed records, byte-for-byte equal raw tables, equal metric
/// views, and equal coordinates.
pub open spec fn same_view<'a, 'b>(a: FaceTables<'a>, b: FaceTables<'b>) -> bool {
    &&& a.head == b.head
    &&& a.hhea == b.hhea
    &&& a.maxp == b.maxp
    &&& a.os_2 == b.os_2
    &&& a.post == b.post
    &&& a.vhea == b.vhea
    &&& opt_slice_view_eq(a.cbdt, b.cbdt)
    &&& opt_slice_view_eq(a.cblc, b.cblc)
    &&& opt_slice_view_eq(a.cff, b.cff)
    &&& opt_slice_view_eq(a.cff2, b.cff2)
    &&& opt_slice_view_eq(a.cmap, b.cmap)
    &&& opt_slice_view_eq(a.gdef, b.gdef)
    &&& opt_slice_view_eq(a.gpos, b.gpos)
    &&& opt_slice_view_eq(a.gsub, b.gsub)
    &&& opt_slice_view_eq(a.glyf, b.glyf)
    &&& opt_slice_view_eq(a.gvar, b.gvar)
    &&& opt_slice_view_eq(a.hvar, b.hvar)
    &&& opt_slice_view_eq(a.kern, b.kern)
    &&& opt_slice_view_eq(a.loca, b.loca)
    &&& opt_slice_view_eq(a.mvar, b.mvar)
    &&& opt_slice_view_eq(a.name, b.name)
    &&& opt_slice_view_eq(a.sbix, b.sbix)
    &&& opt_slice_view_eq(a.svg, b.svg)
    &&& opt_slice_view_eq(a.avar, b.avar)
    &&& opt_slice_view_eq(a.vvar, b.vvar)
    &&& (match (a.hmtx, b.hmtx) {
        (Some(x), Some(y)) => x.data@ == y.data@ && x.number_of_metrics == y.number_of_metrics
            && x.number_of_glyphs == y.number_of_glyphs,
        (None, None) => true,
        _ => false,
    })
    &&& (match (a.vmtx, b.vmtx) {
        (Some(x), Some(y)) => x.data@ == y.data@ && x.number_of_metrics == y.number_of_metrics
            && x.number_of_glyphs == y.number_of_glyphs,
        (None, None) => true,
        _ => false,
    })
    &&& (match (a.vorg, b.vorg) {
        (Some(x), Some(y)) => x.default_y == y.default_y && x.metrics.count == y.metrics.count
            && x.metrics.data@ == y.metrics.data@,
        (None, None) => true,
        _ => false,
    })
    &&& (match (a.fvar, b.fvar) {
        (Some(x), Some(y)) => x.axes.count == y.axes.count && x.axes.data@ == y.axes.data@,
        (None, None) => true,
        _ => false,
    })
    &&& (match (a.glyf_table, b.glyf_table) {
        (Some(x), Some(y)) => {
            &&& x.loca.is_long == y.loca.is_long
            &&& x.loca.data@ == y.loca.data@
            &&& x.loca.number_of_glyphs == y.loca.number_of_glyphs
            &&& x.data@ == y.data@
        },
        (None, None) => true,
        _ => false,
    })
    &&& a.coordinates.data@ == b.coordinates.data@
}

/// Both absent, or byte-for-byte equal.
pub open spec fn opt_slice_view_eq<'a, 'b>(a: Option<&'a [u8]>, b: Option<&'b [u8]>) -> bool {
    match (a, b) {
        (Some(x), Some(y)) => x@ == y@,
        (None, None) => true,
        _ => false,
    }
}

/// Construction is idempotent: two assemblies of the same provider
/// items carry the same values everywhere a query can look, so every
/// query answers alike on both. There is no hidden state.
pub proof fn lemma_assembly_deterministic<'a, 'b>(
    t1: FaceTables<'a>,
    t2: FaceTables<'b>,
    ev: Seq<(u32, Option<Seq<u8>>)>,
    n: int,
)
    requires
        tables_match(t1, ev, n),
        tables_match(t2, ev, n),
    ensures
        same_view(t1, t2),
{
    assert(t1.coordinates.data@ =~= t2.coordinates.data@);
}

/// Construction from a buffer is idempotent: two faces parsed from the
/// same buffer and index carry the same directory and the same values
/// everywhere a query can look. There is no hidden state.
pub proof fn lemma_from_slice_deterministic<'a, 'b>(
    f1: Face<'a>,
    f2: Face<'b>,
    s: Seq<u8>,
    index: u32,
)
    requires
        face_matches(f1, s, index),
        face_matches(f2, s, index),
    ensures
        f1.font_data@ == f2.font_data@,
        f1.table_records.count == f2.table_records.count,
        f1.table_records.data@ == f2.table_records.data@,
        same_view(f1.tables, f2.tables),
{
    match spec_face_base(s, index) {
        Ok(base) => {
            lemma_assembly_deterministic(
                f1.tables,
                f2.tables,
                spec_dir_entries(s, base),
                spec_num_tables(s, base) as int,
            );
        },
        Err(_) => {},
    }
}

/// The magic gate: a buffer that does not open with one of the four
/// recognised magic words constructs no face and reports the unknown
/// magic.
pub proof fn lemma_magic_gate(s: Seq<u8>, index: u32)
    requires
        s.len() < 4 || !spec_magic_ok(be_u32(s, 0)),
    ensures
        spec_from_slice_err(s, index) == Some(FaceParsingError::UnknownMagic),
{
}

/// Collection indexing: with a well-formed collection header of `n`
/// faces, any index at or past `n` constructs no face and reports the
/// out-of-bounds index.
pub proof fn lemma_collection_index_out_of_bounds(s: Seq<u8>, index: u32)
    requires
        s.len() >= 12,
        be_u32(s, 0) == 0x74746366,
        12 + be_u32(s, 8) * 4 <= s.len(),
        index >= be_u32(s, 8),
    ensures
        spec_from_slice_err(s, index) == Some(FaceParsingError::FaceIndexOutOfBounds),
{
}

/// Collection nesting: a face of a collection whose own magic is again
/// the collection magic is rejected as an unknown magic. The premises
/// place the face offset past the offset table with its four magic
/// bytes in bounds: outside that, selection itself fails first and
/// reports a malformed font instead.
pub proof fn lemma_nested_collection_rejected(s: Seq<u8>, index: u32)
    requires
        s.len() >= 12,
        be_u32(s, 0) == 0x74746366,
        12 + be_u32(s, 8) * 4 <= s.len(),
        index < be_u32(s, 8),
        ({
            let off = be_u32(s, 12 + index * 4);
            &&& 12 + be_u32(s, 8) * 4 <= off
            &&& off + 4 <= s.len()
            &&& be_u32(s, off as int) == 0x74746366
        }),
    ensures
        spec_from_slice_err(s, index) == Some(FaceParsingError::UnknownMagic),
{
}

/// The `head` gate: when the last `head` bytes are absent or carry a
/// zero units-per-em, construction reports the missing head table.
pub proof fn lemma_zeroed_units_per_em(ev: Seq<(u32, Option<Seq<u8>>)>, n: int)
    requires
        match spec_last_slice(ev, n, TAG_HEAD) {
            Some(Some(b)) => be_u16(b, 18) == 0,
            _ => true,
        },
    ensures
        spec_assembly_err(ev, n) == Some(FaceParsingError::NoHeadTable),
{
}

/// The `hhea` gate: with a good `head`, truncated or absent `hhea`
/// bytes make construction report the missing hhea table.
pub proof fn lemma_truncated_hhea(ev: Seq<(u32, Option<Seq<u8>>)>, n: int)
    requires
        spec_face_head(ev, n) is Some,
        match spec_last_slice(ev, n, TAG_HHEA) {
            Some(Some(b)) => b.len() < 36,
            _ => true,
        },
    ensures
        spec_assembly_err(ev, n) == Some(FaceParsingError::NoHheaTable),
{
}

/// The `maxp` gate: with good `head` and `hhea`, truncated or absent
/// `maxp` bytes make construction report the missing maxp table.
pub proof fn lemma_truncated_maxp(ev: Seq<(u32, Option<Seq<u8>>)>, n: int)
    requires
        spec_face_head(ev, n) is Some,
        spec_face_hhea(ev, n) is Some,
        match spec_last_slice(ev, n, TAG_MAXP) {
            Some(Some(b)) => b.len() < 6,
            _ => true,
        },
    ensures
        spec_assembly_err(ev, n) == Some(FaceParsingError::NoMaxpTable),
{
}

/// The outline fallback order: a face carrying both a bound glyph-data
/// table and a compact font routes outlines to the glyph data, and one
/// carrying only the second compact format routes outlines there.
pub proof fn lemma_outline_fallback_order<'a>(t: FaceTables<'a>)
    ensures
        t.gvar is None && t.glyf_table is Some && t.cff is Some ==> t.spec_outline_source()
            == Some(OutlineSource::GlyphData),
        t.gvar is None && t.glyf_table is None && t.cff is None && t.cff2 is Some
            ==> t.spec_outline_source() == Some(OutlineSource::CompactFontFormat2),
{
}

/// One record of the face directory.
#[derive(Clone, Copy, PartialEq, Eq, Structural, Debug)]
pub struct TableRecord {
    pub tag: Tag,
    pub check_sum: u32,
    pub offset: u32,
    pub length: u32,
}

impl FromData for TableRecord {
    open spec fn size() -> usize {
        16
    }

    proof fn law_size() {
    }

    open spec fn spec_read(s: Seq<u8>, i: int) -> TableRecord {
        TableRecord {
            tag: Tag(be_u32(s, i)),
            check_sum: be_u32(s, i + 4),
            offset: be_u32(s, i + 8),
            length: be_u32(s, i + 12),
        }
    }

    fn parse_size() -> (r: usize) {
        16
    }

    fn read_at(data: &[u8], offset: usize) -> (r: Option<TableRecord>) {
        let tag_value = match crate::parser::read_u32_at(data, offset) {
            Some(v) => v,
            None => {
                return None;
            },
        };
        let check_sum = match crate::parser::read_u32_at(data, offset + 4) {
            Some(v) => v,
            None => {
                return None;
            },
        };
        let off = match crate::parser::read_u32_at(data, offset + 8) {
            Some(v) => v,
            None => {
                return None;
            },
        };
        match crate::parser::read_u32_at(data, offset + 12) {
            Some(length) => Some(
                TableRecord { tag: Tag(tag_value), check_sum, offset: off, length },
            ),
            None => None,
        }
    }
}

/// The four recognised magic words: two single TrueType forms, the
/// OpenType form, and the collection form.
pub open spec fn spec_magic_ok(v: u32) -> bool {
    v == 0x00010000 || v == 0x74727565 || v == 0x4F54544F || v == 0x74746366
}

/// A magic word that opens one face.
pub open spec fn spec_single_magic(v: u32) -> bool {
    v == 0x00010000 || v == 0x74727565 || v == 0x4F54544F
}

/// Where the face selected by `index` begins, or the error the
/// selection reports: an unrecognised first magic, a truncated
/// collection header, an index past the face count, a face offset
/// before the offset table or past the buffer, or a nested collection.
pub open spec fn spec_face_base(s: Seq<u8>, index: u32) -> Result<int, FaceParsingError> {
    if s.len() < 4 || !spec_magic_ok(be_u32(s, 0)) {
        Err(FaceParsingError::UnknownMagic)
    } else if be_u32(s, 0) != 0x74746366 {
        Ok(0)
    } else if s.len() < 12 {
        Err(FaceParsingError::MalformedFont)
    } else {
        let n = be_u32(s, 8);
        if 12 + n * 4 > s.len() {
            Err(FaceParsingError::MalformedFont)
        } else if index >= n {
            Err(FaceParsingError::FaceIndexOutOfBounds)
        } else {
            let off = be_u32(s, 12 + index * 4);
            if off < 12 + n * 4 || off > s.len() {
                Err(FaceParsingError::MalformedFont)
            } else if s.len() < off + 4 || !spec_magic_ok(be_u32(s, off as int)) {
                Err(FaceParsingError::UnknownMagic)
            } else if !spec_single_magic(be_u32(s, off as int)) {
                Err(FaceParsingError::UnknownMagic)
            } else {
                Ok(off as int)
            }
        }
    }
}

/// The declared number of table records of the face at `base`.
pub open spec fn spec_num_tables(s: Seq<u8>, base: int) -> u16 {
    be_u16(s, base + 4)
}

/// Where the record array begins: twelve bytes past the face header,
/// or the end of the buffer when that lies closer.
pub open spec fn spec_dir_start(s: Seq<u8>, base: int) -> int {
    if base + 12 <= s.len() {
        base + 12
    } else {
        s.len() as int
    }
}

/// The face directory at `base` lies within the buffer.
pub open spec fn spec_dir_ok(s: Seq<u8>, base: int) -> bool {
    &&& base + 6 <= s.len()
    &&& spec_dir_start(s, base) + spec_num_tables(s, base) * 16 <= s.len()
}

/// The bytes a table record points at, when its range lies within the
/// buffer.
pub open spec fn spec_table_slice(s: Seq<u8>, r: TableRecord) -> Option<Seq<u8>> {
    if r.offset + r.length <= s.len() {
        Some(s.subrange(r.offset as int, r.offset + r.length))
    } else {
        None
    }
}

/// What the default provider yields for the face at `base`: each
/// record's tag and, when in bounds, its bytes.
pub open spec fn spec_dir_entries(s: Seq<u8>, base: int) -> Seq<(u32, Option<Seq<u8>>)> {
    let start = spec_dir_start(s, base);
    let nt = spec_num_tables(s, base);
    let dirb = s.subrange(start, start + nt * 16);
    Seq::new(
        nt as nat,
        |i: int|
            {
                let r = TableRecord::spec_read(dirb, i * 16);
                (r.tag.0, spec_table_slice(s, r))
            },
    )
}

/// The error face construction reports for this buffer and index, if
/// any: selection errors first, then a truncated directory, then the
/// mandatory tables in order.
pub open spec fn spec_from_slice_err(s: Seq<u8>, index: u32) -> Option<FaceParsingError> {
    match spec_face_base(s, index) {
        Err(e) => Some(e),
        Ok(base) => {
            if !spec_dir_ok(s, base) {
                Some(FaceParsingError::MalformedFont)
            } else {
                spec_assembly_err(
                    spec_dir_entries(s, base),
                    spec_num_tables(s, base) as int,
                )
            }
        },
    }
}

/// The directory records stand in strictly increasing tag order, as
/// the container format requires. Lookup misses are conclusive only
/// under this.
pub open spec fn records_sorted(a: LazyArray16<TableRecord>) -> bool {
    forall|i: int, j: int|
        0 <= i < j < a.count ==> (#[trigger] a.spec_get(i)).tag.0 < (#[trigger] a.spec_get(
            j,
        )).tag.0
}

/// `face` is the parse of buffer `s` at `index`: the directory and
/// every table view are the ones the buffer describes.
pub open spec fn face_matches<'a>(face: Face<'a>, s: Seq<u8>, index: u32) -> bool {
    &&& spec_from_slice_err(s, index) is None
    &&& face.wf()
    &&& face.font_data@ == s
    &&& (match spec_face_base(s, index) {
        Ok(base) => {
            &&& spec_dir_ok(s, base)
            &&& face.table_records.count == spec_num_tables(s, base)
            &&& face.table_records.data@ == s.subrange(
                spec_dir_start(s, base),
                spec_dir_start(s, base) + spec_num_tables(s, base) * 16,
            )
            &&& tables_match(
                face.tables,
                spec_dir_entries(s, base),
                spec_num_tables(s, base) as int,
            )
        },
        Err(_) => false,
    })
}

/// A font face: the buffer, the face directory, and the parsed tables.
#[derive(Clone)]
pub struct Face<'a> {
    pub font_data: &'a [u8],
    pub table_records: LazyArray16<'a, TableRecord>,
    pub tables: FaceTables<'a>,
}

impl<'a> Face<'a> {
    /// Every stored view is internally consistent.
    pub open spec fn wf(self) -> bool {
        self.table_records.wf() && self.tables.wf()
    }

    /// Parses a face out of a raw buffer. `index` selects the face
    /// within a font collection; 0 serves a single-face buffer.
    ///
    /// The buffer must open with a recognised magic, the directory must
    /// lie within the buffer, and `head`, `hhea` and `maxp` must parse;
    /// every other malformed or missing table is treated as absent.
    /// Construction is a function of the buffer and index alone: the
    /// result, down to every table view, is pinned by the
    /// specification, so repeated construction yields equal faces.
    pub fn from_slice(data: &'a [u8], index: u32) -> (r: Result<Face<'a>, FaceParsingError>)
        ensures
            match r {
                Ok(face) => face_matches(face, data@, index),
                Err(e) => Some(e) == spec_from_slice_err(data@, index),
            },
    {
        let mut s = Stream::new(data);
        let magic = match s.read_u32() {
            Some(v) => v,
            None => {
                return Err(FaceParsingError::UnknownMagic);
            },
        };
        if !(magic == 0x00010000 || magic == 0x74727565 || magic == 0x4F54544F || magic
            == 0x74746366) {
            return Err(FaceParsingError::UnknownMagic);
        }
        if magic == 0x74746366 {
            s.advance(4);
            let number_of_faces = match s.read_u32() {
                Some(v) => v,
                None => {
                    return Err(FaceParsingError::MalformedFont);
                },
            };
            let offsets = match s.read_array32::<u32>(number_of_faces) {
                Some(v) => v,
                None => {
                    return Err(FaceParsingError::MalformedFont);
                },
            };
            let face_offset = match offsets.get(index) {
                Some(v) => v,
                None => {
                    return Err(FaceParsingError::FaceIndexOutOfBounds);
                },
            };
            proof {
                assert(offsets.spec_get(index as int) == be_u32(data@, 12 + index * 4)) by {
                    assert(offsets.data@ == data@.subrange(12, 12 + number_of_faces * 4));
                    vstd::arithmetic::mul::lemma_mul_inequality(
                        index as int + 1,
                        number_of_faces as int,
                        4,
                    );
                    assert((index as int + 1) * 4 == index as int * 4 + 4) by (nonlinear_arith);
                };
            }
            let pos = s.position();
            if (face_offset as u64) < (pos as u64) {
                return Err(FaceParsingError::MalformedFont);
            }
            match s.advance_checked((face_offset as usize) - pos) {
                Some(_) => {},
                None => {
                    return Err(FaceParsingError::MalformedFont);
                },
            }
            let magic2 = match s.read_u32() {
                Some(v) => v,
                None => {
                    return Err(FaceParsingError::UnknownMagic);
                },
            };
            if !(magic2 == 0x00010000 || magic2 == 0x74727565 || magic2 == 0x4F54544F) {
                return Err(FaceParsingError::UnknownMagic);
            }
        }
        let ghost base = s.offset - 4;
        proof {
            assert(spec_face_base(data@, index) == Ok::<int, FaceParsingError>(base));
        }
        let num_tables = match s.read_u16() {
            Some(v) => v,
            None => {
                return Err(FaceParsingError::MalformedFont);
            },
        };
        s.advance(6);
        let table_records = match s.read_array16::<TableRecord>(num_tables) {
            Some(v) => v,
            None => {
                return Err(FaceParsingError::MalformedFont);
            },
        };
        proof {
            assert(spec_dir_ok(data@, base));
            assert(table_records.data@ == data@.subrange(
                spec_dir_start(data@, base),
                spec_dir_start(data@, base) + spec_num_tables(data@, base) * 16,
            ));
        }
        let provider = TableProvider::Directory { data, records: table_records };
        proof {
            let pv = provider.views();
            let sd = spec_dir_entries(data@, base);
            assert forall|j: int| 0 <= j < pv.len() implies pv[j] == sd[j] by {
                assert(table_records.spec_get(j) == TableRecord::spec_read(
                    table_records.data@,
                    j * 16,
                ));
            }
            assert(pv =~= sd);
        }
        let tables = match FaceTables::assemble(&provider) {
            Ok(t) => t,
            Err(e) => {
                return Err(e);
            },
        };
        Ok(Face { font_data: data, table_records, tables })
    }

    /// The raw bytes of the table carrying `tag`, located by binary
    /// search over the directory. A hit is always a real record's range
    /// and never extends beyond the buffer; a miss is conclusive when
    /// the directory is sorted as the container format requires.
    pub fn table_data(&self, tag: Tag) -> (r: Option<&'a [u8]>)
        requires
            self.wf(),
        ensures
            match r {
                Some(b) => {
                    &&& b@.len() <= self.font_data@.len()
                    &&& exists|i: int|
                        0 <= i < self.table_records.count && (#[trigger] self.table_records
                            .spec_get(i)).tag.0 == tag.0 && spec_table_slice(
                            self.font_data@,
                            self.table_records.spec_get(i),
                        ) == Some(b@)
                },
                None => records_sorted(self.table_records) ==> forall|i: int|
                    0 <= i < self.table_records.count ==> ((#[trigger] self.table_records.spec_get(
                        i,
                    )).tag.0 != tag.0 || spec_table_slice(
                        self.font_data@,
                        self.table_records.spec_get(i),
                    ) is None),
            },
    {
        let mut min: i32 = 0;
        let mut max: i32 = (self.table_records.len() as i32) - 1;
        while min <= max
            invariant
                self.wf(),
                0 <= min,
                max < self.table_records.count,
                records_sorted(self.table_records) ==> forall|k: int|
                    0 <= k < self.table_records.count && (#[trigger] self.table_records.spec_get(
                        k,
                    )).tag.0 == tag.0 ==> min <= k <= max,
            decreases max + 1 - min,
        {
            let mid = min + (max - min) / 2;
            let rec = self.table_records.get(mid as u16).unwrap();
            if tag.0 < rec.tag.0 {
                max = mid - 1;
            } else if tag.0 > rec.tag.0 {
                min = mid + 1;
            } else {
                let end64 = (rec.offset as u64) + (rec.length as u64);
                if end64 <= (self.font_data.len() as u64) {
                    let b = crate::parser::slice_range(
                        self.font_data,
                        rec.offset as usize,
                        end64 as usize,
                    ).unwrap();
                    proof {
                        assert(0 <= mid < self.table_records.count);
                        assert(self.table_records.spec_get(mid as int).tag.0 == tag.0);
                        assert(spec_table_slice(self.font_data@, self.table_records.spec_get(
                            mid as int,
                        )) == Some(b@));
                    }
                    return Some(b);
                } else {
                    proof {
                        assert(0 <= mid < self.table_records.count);
                        assert(spec_table_slice(self.font_data@, self.table_records.spec_get(
                            mid as int,
                        )) is None);
                        if records_sorted(self.table_records) {
                            assert forall|k: int|
                                0 <= k < self.table_records.count && (
                                #[trigger] self.table_records.spec_get(k)).tag.0
                                    == tag.0 implies spec_table_slice(
                                self.font_data@,
                                self.table_records.spec_get(k),
                            ) is None by {
                                if k < mid as int {
                                    assert(self.table_records.spec_get(k).tag.0
                                        < self.table_records.spec_get(mid as int).tag.0);
                                } else if k > mid as int {
                                    assert(self.table_records.spec_get(mid as int).tag.0
                                        < self.table_records.spec_get(k).tag.0);
                                }
                            }
                        }
                    }
                    return None;
                }
            }
        }
        None
    }
}

} // verus!
