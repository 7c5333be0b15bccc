//! Reading Sponge schematics (an NBT tree) and Litematica regions into a
//! [`VoxelMap`].

use vstd::prelude::*;

use crate::blockstate::{block_from_state, block_of_state};
pub use crate::model::{Block, VoxelMap};
use crate::model::{BlockView, cells_view, pos_x, pos_y, pos_z, lemma_idx};
use crate::text::str_eq;

verus! {

/// An NBT value, as far as schematics use it: small integers, byte arrays,
/// and compounds of named values. Every other tag is `Other`.
#[derive(Debug)]
pub enum NbtTag {
    Byte(i8),
    Short(i16),
    Int(i32),
    ByteArray(Vec<u8>),
    Compound(Vec<(String, NbtTag)>),
    Other,
}

/// Which dimension field of a schematic an error is about.
#[derive(Copy, Clone, Debug, PartialEq, Eq, Structural)]
pub enum DimField {
    Width,
    Height,
    Length,
}

/// Why a schematic could not be read.
#[derive(Clone, Debug)]
pub enum ParseError {
    /// The top-level tag is not a compound.
    NotCompound,
    /// A dimension field is not a byte, short or int.
    FieldType(DimField),
    /// A dimension field is missing.
    MissingField(DimField),
    /// Some dimension is not positive.
    InvalidDimensions(i32, i32, i32),
    /// The cell count does not fit in a `usize`.
    TooLarge(i32, i32, i32),
    /// A palette entry's id is not a byte, short or int.
    PaletteEntryType(String),
    /// The palette is not a compound.
    PaletteType,
    /// There is no palette.
    MissingPalette,
    /// The palette has no entry.
    EmptyPalette,
    /// The block data is not a byte array.
    BlockDataType,
    /// There is no block data.
    MissingBlockData,
    /// The block data ran out before block `block` of `total`.
    DataEndedEarly { block: usize, total: usize },
    /// A variable-length id was cut off at block `block`.
    VarIntTruncated(usize),
    /// A variable-length id of block `block` has more than five bytes.
    VarIntTooLarge(usize),
    /// Block `block` has an id that the palette does not define.
    UnknownPaletteId { id: i32, block: usize },
    /// A litematic without regions.
    NoRegions,
    /// A litematic region with a zero side.
    InvalidRegionSize(i32, i32, i32),
}

/// The value of the first entry named `key`.
pub open spec fn compound_get(entries: Seq<(String, NbtTag)>, key: Seq<char>) -> Option<NbtTag>
    decreases entries.len(),
{
    if entries.len() == 0 {
        None
    } else if entries[0].0@ == key {
        Some(entries[0].1)
    } else {
        compound_get(entries.drop_first(), key)
    }
}

/// The value of the first entry named `key`.
pub fn get<'a>(entries: &'a Vec<(String, NbtTag)>, key: &str) -> (r: Option<&'a NbtTag>)
    ensures
        match r {
            Some(t) => compound_get(entries@, key@) == Some(*t),
            None => compound_get(entries@, key@) is None,
        },
{
    let mut i: usize = 0;
    assert(entries@.skip(0) =~= entries@);
    while i < entries.len()
        invariant
            i <= entries@.len(),
            compound_get(entries@, key@) == compound_get(entries@.skip(i as int), key@),
        decreases entries@.len() - i,
    {
        assert(entries@.skip(i as int).drop_first() =~= entries@.skip(i + 1));
        if str_eq(entries[i].0.as_str(), key) {
            return Some(&entries[i].1);
        }
        i = i + 1;
    }
    None
}

/// A byte, short or int tag as an `i32`.
pub open spec fn tag_int(t: NbtTag) -> Option<i32> {
    match t {
        NbtTag::Byte(b) => Some(b as i32),
        NbtTag::Short(s) => Some(s as i32),
        NbtTag::Int(i) => Some(i),
        _ => None,
    }
}

fn int_of(t: &NbtTag) -> (r: Option<i32>)
    ensures
        r == tag_int(*t),
{
    match t {
        NbtTag::Byte(b) => Some(*b as i32),
        NbtTag::Short(s) => Some(*s as i32),
        NbtTag::Int(i) => Some(*i),
        _ => None,
    }
}

pub open spec fn field_name(f: DimField) -> Seq<char> {
    match f {
        DimField::Width => "Width"@,
        DimField::Height => "Height"@,
        DimField::Length => "Length"@,
    }
}

/// A dimension of a schematic.
pub open spec fn dim_field(entries: Seq<(String, NbtTag)>, f: DimField) -> Result<i32, ParseError> {
    match compound_get(entries, field_name(f)) {
        Some(t) => match tag_int(t) {
            Some(v) => Ok(v),
            None => Err(ParseError::FieldType(f)),
        },
        None => Err(ParseError::MissingField(f)),
    }
}

fn read_dim(entries: &Vec<(String, NbtTag)>, f: DimField) -> (r: Result<i32, ParseError>)
    ensures
        r == dim_field(entries@, f),
{
    let key = match f {
        DimField::Width => "Width",
        DimField::Height => "Height",
        DimField::Length => "Length",
    };
    match get(entries, key) {
        Some(t) => match int_of(t) {
            Some(v) => Ok(v),
            None => Err(ParseError::FieldType(f)),
        },
        None => Err(ParseError::MissingField(f)),
    }
}

/// The compound holding the schematic: the `Schematic` compound when there
/// is one, else the root.
pub open spec fn schematic_of(root: Seq<(String, NbtTag)>) -> Seq<(String, NbtTag)> {
    match compound_get(root, "Schematic"@) {
        Some(NbtTag::Compound(inner)) => inner@,
        _ => root,
    }
}

/// The palette and block data tags: inside a `Blocks` compound when there
/// is one (data under `Data`, else `BlockData`), else at the top (data under
/// `BlockData`, else `Data`).
pub open spec fn palette_and_data(s: Seq<(String, NbtTag)>) -> (Option<NbtTag>, Option<NbtTag>) {
    match compound_get(s, "Blocks"@) {
        Some(NbtTag::Compound(b)) => (
            compound_get(b@, "Palette"@),
            match compound_get(b@, "Data"@) {
                Some(d) => Some(d),
                None => compound_get(b@, "BlockData"@),
            },
        ),
        _ => (
            compound_get(s, "Palette"@),
            match compound_get(s, "BlockData"@) {
                Some(d) => Some(d),
                None => compound_get(s, "Data"@),
            },
        ),
    }
}

/// The palette of the first `k` entries: each id with its block, in order;
/// the first entry whose id is not an integer is an error.
pub open spec fn palette_of(p: Seq<(String, NbtTag)>, k: int) -> Result<Seq<(i32, BlockView)>, ParseError>
    decreases k,
{
    if k <= 0 {
        Ok(Seq::empty())
    } else {
        match palette_of(p, k - 1) {
            Err(e) => Err(e),
            Ok(s) => match tag_int(p[k - 1].1) {
                Some(id) => Ok(s.push((id, block_of_state(p[k - 1].0@)))),
                None => Err(ParseError::PaletteEntryType(p[k - 1].0)),
            },
        }
    }
}

/// The block of palette id `id`: that of the last entry with this id.
pub open spec fn palette_lookup(pal: Seq<(i32, BlockView)>, id: i32) -> Option<BlockView>
    decreases pal.len(),
{
    if pal.len() == 0 {
        None
    } else if pal.last().0 == id {
        Some(pal.last().1)
    } else {
        palette_lookup(pal.drop_last(), id)
    }
}

/// One little-endian base-128 id at `cur`: seven bits per byte, the high bit
/// set on every byte but the last, at most five bytes, bits past the 32nd
/// dropped. `val` and `shift` carry the bytes read so far.
pub open spec fn varint_at(d: Seq<u8>, cur: int, val: u32, shift: u32, ptr: int) -> Result<(i32, int), ParseError>
    decreases 35 - shift,
{
    if cur < 0 || cur >= d.len() {
        Err(ParseError::VarIntTruncated(ptr as usize))
    } else {
        let b = d[cur];
        let v2 = val | (((b & 0x7f) as u32) << shift);
        if b & 0x80 == 0 {
            Ok((v2 as i32, cur + 1))
        } else if shift + 7 > 28 {
            Err(ParseError::VarIntTooLarge(ptr as usize))
        } else {
            varint_at(d, cur + 1, v2, (shift + 7) as u32, ptr)
        }
    }
}

/// The cells from block `ptr` on, reading ids from byte `cur`, after `acc`.
pub open spec fn cells_from(d: Seq<u8>, pal: Seq<(i32, BlockView)>, total: int, ptr: int, cur: int, acc: Seq<Option<BlockView>>) -> Result<Seq<Option<BlockView>>, ParseError>
    decreases total - ptr,
{
    if ptr >= total {
        Ok(acc)
    } else if cur >= d.len() {
        Err(ParseError::DataEndedEarly { block: ptr as usize, total: total as usize })
    } else {
        match varint_at(d, cur, 0, 0, ptr) {
            Err(e) => Err(e),
            Ok((id, next)) => match palette_lookup(pal, id) {
                Some(b) => cells_from(d, pal, total, ptr + 1, next, acc.push(Some(b))),
                None => Err(ParseError::UnknownPaletteId { id, block: ptr as usize }),
            },
        }
    }
}

/// What [`parse_nbt`] makes of a tag: the dimensions and the cells of the
/// schematic, or the first problem found.
pub open spec fn parse_spec(data: NbtTag) -> Result<(i32, i32, i32, Seq<Option<BlockView>>), ParseError> {
    match data {
        NbtTag::Compound(root) => {
            let s = schematic_of(root@);
            match dim_field(s, DimField::Width) {
                Err(e) => Err(e),
                Ok(w) => match dim_field(s, DimField::Height) {
                    Err(e) => Err(e),
                    Ok(h) => match dim_field(s, DimField::Length) {
                        Err(e) => Err(e),
                        Ok(l) => if w <= 0 || h <= 0 || l <= 0 {
                            Err(ParseError::InvalidDimensions(w, h, l))
                        } else if w * h * l > usize::MAX {
                            Err(ParseError::TooLarge(w, h, l))
                        } else {
                            let (pt, dt) = palette_and_data(s);
                            match pt {
                                Some(NbtTag::Compound(p)) => match palette_of(p@, p@.len() as int) {
                                    Err(e) => Err(e),
                                    Ok(pal) => if p@.len() == 0 {
                                        Err(ParseError::EmptyPalette)
                                    } else {
                                        match dt {
                                            Some(NbtTag::ByteArray(d)) => match cells_from(d@, pal, w * h * l, 0, 0, Seq::empty()) {
                                                Ok(c) => Ok((w, h, l, c)),
                                                Err(e) => Err(e),
                                            },
                                            Some(_) => Err(ParseError::BlockDataType),
                                            None => Err(ParseError::MissingBlockData),
                                        }
                                    },
                                },
                                Some(_) => Err(ParseError::PaletteType),
                                None => Err(ParseError::MissingPalette),
                            }
                        },
                    },
                },
            }
        },
        _ => Err(ParseError::NotCompound),
    }
}

/// The cell count of a schematic with positive dimensions fits in an `i64`.
pub open spec fn volume_fits(data: NbtTag) -> bool {
    match data {
        NbtTag::Compound(root) => {
            let s = schematic_of(root@);
            match (dim_field(s, DimField::Width), dim_field(s, DimField::Height), dim_field(s, DimField::Length)) {
                (Ok(w), Ok(h), Ok(l)) => (w > 0 && h > 0 && l > 0) ==> w * h * l <= i64::MAX,
                _ => true,
            }
        },
        _ => true,
    }
}

pub open spec fn palette_view(p: Seq<(i32, Block)>) -> Seq<(i32, BlockView)> {
    p.map_values(|e: (i32, Block)| (e.0, e.1@))
}

fn lookup(pal: &Vec<(i32, Block)>, id: i32) -> (r: Option<&Block>)
    ensures
        match r {
            Some(b) => palette_lookup(palette_view(pal@), id) == Some(b@),
            None => palette_lookup(palette_view(pal@), id) is None,
        },
{
    let ghost pv = palette_view(pal@);
    let mut i = pal.len();
    assert(pv.take(i as int) =~= pv);
    while i > 0
        invariant
            i <= pal@.len(),
            pv == palette_view(pal@),
            palette_lookup(pv, id) == palette_lookup(pv.take(i as int), id),
        decreases i,
    {
        assert(pv.take(i as int).drop_last() =~= pv.take(i - 1));
        if pal[i - 1].0 == id {
            return Some(&pal[i - 1].1);
        }
        i = i - 1;
    }
    None
}

/// The palette of a palette compound.
fn read_palette(p: &Vec<(String, NbtTag)>) -> (r: Result<Vec<(i32, Block)>, ParseError>)
    ensures
        match r {
            Ok(pal) => palette_of(p@, p@.len() as int) == Ok::<Seq<(i32, BlockView)>, ParseError>(palette_view(pal@)),
            Err(e) => palette_of(p@, p@.len() as int) == Err::<Seq<(i32, BlockView)>, ParseError>(e),
        },
{
    let mut pal: Vec<(i32, Block)> = Vec::new();
    assert(palette_view(pal@) =~= Seq::empty());
    let mut i: usize = 0;
    while i < p.len()
        invariant
            i <= p@.len(),
            palette_of(p@, i as int) == Ok::<Seq<(i32, BlockView)>, ParseError>(palette_view(pal@)),
        decreases p@.len() - i,
    {
        match int_of(&p[i].1) {
            Some(id) => {
                let b = block_from_state(p[i].0.as_str());
                let ghost before = palette_view(pal@);
                pal.push((id, b));
                assert(palette_view(pal@) =~= before.push((id, block_of_state(p@[i as int].0@))));
            },
            None => {
                let name = p[i].0.clone();
                proof {
                    lemma_palette_err(p@, i as int + 1, p@.len() as int);
                }
                return Err(ParseError::PaletteEntryType(name));
            },
        }
        i = i + 1;
    }
    Ok(pal)
}

/// An error in the first `k` entries is the error of the whole palette.
proof fn lemma_palette_err(p: Seq<(String, NbtTag)>, k: int, n: int)
    requires
        1 <= k <= n,
        palette_of(p, k) is Err,
    ensures
        palette_of(p, n) == palette_of(p, k),
    decreases n - k,
{
    if n > k {
        lemma_palette_err(p, k, n - 1);
    }
}

/// Reads one base-128 id starting at `cur`, as [`varint_at`] says.
fn read_varint(d: &Vec<u8>, cur: usize, ptr: usize) -> (r: Result<(i32, usize), ParseError>)
    requires
        cur < d@.len(),
    ensures
        match r {
            Ok((v, next)) => varint_at(d@, cur as int, 0, 0, ptr as int) == Ok::<(i32, int), ParseError>((v, next as int)) && next <= d@.len(),
            Err(e) => varint_at(d@, cur as int, 0, 0, ptr as int) == Err::<(i32, int), ParseError>(e),
        },
{
    let mut val: u32 = 0;
    let mut shift: u32 = 0;
    let mut c = cur;
    loop
        invariant
            cur <= c,
            shift <= 28,
            varint_at(d@, cur as int, 0, 0, ptr as int) == varint_at(d@, c as int, val, shift, ptr as int),
        decreases 35 - shift,
    {
        if c >= d.len() {
            return Err(ParseError::VarIntTruncated(ptr));
        }
        let b = d[c];
        c = c + 1;
        val = val | (((b & 0x7f) as u32) << shift);
        if b & 0x80 == 0 {
            return Ok((val as i32, c));
        }
        if shift + 7 > 28 {
            return Err(ParseError::VarIntTooLarge(ptr));
        }
        shift = shift + 7;
    }
}

/// Reads a Sponge schematic: its `Width`, `Height` and `Length`, its
/// palette of block-state strings, and one variable-length palette id per
/// cell, in the order `x`, then `z`, then `y`. The schematic is the root
/// compound, or its `Schematic` compound when it has one.
pub fn parse_nbt(data: &NbtTag) -> (r: Result<VoxelMap, ParseError>)
    requires
        volume_fits(*data),
    ensures
        match r {
            Ok(m) => parse_spec(*data) == Ok::<(i32, i32, i32, Seq<Option<BlockView>>), ParseError>((m.width, m.height, m.length, cells_view(m.blocks@))),
            Err(e) => parse_spec(*data) == Err::<(i32, i32, i32, Seq<Option<BlockView>>), ParseError>(e),
        },
{
    let root = match data {
        NbtTag::Compound(m) => m,
        _ => {
            return Err(ParseError::NotCompound);
        },
    };
    let schem = match get(root, "Schematic") {
        Some(NbtTag::Compound(inner)) => inner,
        _ => root,
    };
    assert(schem@ == schematic_of(root@));
    let w = match read_dim(schem, DimField::Width) {
        Ok(v) => v,
        Err(e) => {
            return Err(e);
        },
    };
    let h = match read_dim(schem, DimField::Height) {
        Ok(v) => v,
        Err(e) => {
            return Err(e);
        },
    };
    let l = match read_dim(schem, DimField::Length) {
        Ok(v) => v,
        Err(e) => {
            return Err(e);
        },
    };
    if w <= 0 || h <= 0 || l <= 0 {
        return Err(ParseError::InvalidDimensions(w, h, l));
    }
    proof {
        assert((w as int) * (h as int) > 0) by (nonlinear_arith)
            requires w > 0, h > 0;
        assert((w as int) * (h as int) * (l as int) > 0) by (nonlinear_arith)
            requires (w as int) * (h as int) > 0, l > 0;
        assert((w as int) * (h as int) <= (w as int) * (h as int) * (l as int)) by (nonlinear_arith)
            requires (w as int) * (h as int) > 0, l > 0;
    }
    let total64: i64 = (w as i64) * (h as i64) * (l as i64);
    if total64 as u128 > usize::MAX as u128 {
        return Err(ParseError::TooLarge(w, h, l));
    }
    let total = total64 as usize;
    let (palette_tag, data_tag) = match get(schem, "Blocks") {
        Some(NbtTag::Compound(b)) => {
            let d = match get(b, "Data") {
                Some(t) => Some(t),
                None => get(b, "BlockData"),
            };
            (get(b, "Palette"), d)
        },
        _ => {
            let d = match get(schem, "BlockData") {
                Some(t) => Some(t),
                None => get(schem, "Data"),
            };
            (get(schem, "Palette"), d)
        },
    };
    let pal = match palette_tag {
        Some(NbtTag::Compound(p)) => {
            let pal = match read_palette(p) {
                Ok(pal) => pal,
                Err(e) => {
                    return Err(e);
                },
            };
            if p.len() == 0 {
                return Err(ParseError::EmptyPalette);
            }
            pal
        },
        Some(_) => {
            return Err(ParseError::PaletteType);
        },
        None => {
            return Err(ParseError::MissingPalette);
        },
    };
    let d = match data_tag {
        Some(NbtTag::ByteArray(d)) => d,
        Some(_) => {
            return Err(ParseError::BlockDataType);
        },
        None => {
            return Err(ParseError::MissingBlockData);
        },
    };
    let ghost pv = palette_view(pal@);
    let ghost target = cells_from(d@, pv, total as int, 0, 0, Seq::empty());
    let mut blocks: Vec<Option<Block>> = Vec::new();
    assert(cells_view(blocks@) =~= Seq::<Option<BlockView>>::empty());
    let mut cursor: usize = 0;
    let mut ptr: usize = 0;
    assert(parse_spec(*data) == match target {
        Ok(c) => Ok::<(i32, i32, i32, Seq<Option<BlockView>>), ParseError>((w, h, l, c)),
        Err(e) => Err(e),
    });
    while ptr < total
        invariant
            parse_spec(*data) == match target {
                Ok(c) => Ok::<(i32, i32, i32, Seq<Option<BlockView>>), ParseError>((w, h, l, c)),
                Err(e) => Err(e),
            },
            ptr <= total,
            cursor <= d@.len(),
            pv == palette_view(pal@),
            cells_view(blocks@).len() == ptr,
            cells_from(d@, pv, total as int, ptr as int, cursor as int, cells_view(blocks@)) == target,
        decreases total - ptr,
    {
        if cursor >= d.len() {
            return Err(ParseError::DataEndedEarly { block: ptr, total });
        }
        let (val, next) = match read_varint(d, cursor, ptr) {
            Ok(p) => p,
            Err(e) => {
                return Err(e);
            },
        };
        match lookup(&pal, val) {
            Some(block) => {
                let ghost before = cells_view(blocks@);
                blocks.push(Some(block.copy()));
                assert(cells_view(blocks@) =~= before.push(Some(block@)));
            },
            None => {
                return Err(ParseError::UnknownPaletteId { id: val, block: ptr });
            },
        }
        cursor = next;
        ptr = ptr + 1;
    }
    Ok(VoxelMap { width: w, height: h, length: l, blocks })
}

/// Whether reading `data` stays within machine limits (see [`volume_fits`]).
pub fn volume_in_limits(data: &NbtTag) -> (r: bool)
    ensures
        r == volume_fits(*data),
{
    let root = match data {
        NbtTag::Compound(m) => m,
        _ => {
            return true;
        },
    };
    let schem = match get(root, "Schematic") {
        Some(NbtTag::Compound(inner)) => inner,
        _ => root,
    };
    assert(schem@ == schematic_of(root@));
    match (read_dim(schem, DimField::Width), read_dim(schem, DimField::Height), read_dim(schem, DimField::Length)) {
        (Ok(w), Ok(h), Ok(l)) => {
            if w > 0 && h > 0 && l > 0 {
                let wu = w as u128;
                let hu = h as u128;
                assert(wu * hu <= 0x4000_0000_0000_0000) by (nonlinear_arith)
                    requires wu <= 0x8000_0000, hu <= 0x8000_0000;
                let wh: u128 = wu * hu;
                assert(wh * (l as u128) <= 0x4000_0000_0000_0000 * 0x8000_0000) by (nonlinear_arith)
                    requires wh <= 0x4000_0000_0000_0000, l <= 0x8000_0000, l > 0;
                wh * (l as u128) <= i64::MAX as u128
            } else {
                true
            }
        },
        _ => true,
    }
}

/// One region of a Litematica schematic: its size (a negative component
/// means the region grows towards negative coordinates; its extent is the
/// absolute value) and the ids of its blocks at local position `(x, y, z)`,
/// stored at index `x + z * |size.x| + y * |size.x| * |size.z|`.
pub struct LitematicRegion {
    pub size: (i32, i32, i32),
    pub block_names: Vec<String>,
}

/// The regions of a Litematica schematic.
pub struct LitematicSchematic {
    pub regions: Vec<LitematicRegion>,
}

pub open spec fn iabs(v: int) -> int {
    if v < 0 { -v } else { v }
}

/// The first local coordinate of a region side: a negative size grows the
/// region towards negative coordinates, ending at 0.
pub open spec fn region_start(s: int) -> int {
    if s < 0 { s + 1 } else { 0 }
}

/// The local position of the block stored at index `k` of a region of
/// this size: `x` runs fastest, then `z`, then `y`.
pub open spec fn region_position(size: (i32, i32, i32), k: int) -> (int, int, int) {
    let w = iabs(size.0 as int);
    let l = iabs(size.2 as int);
    (region_start(size.0 as int) + pos_x(w, k), region_start(size.1 as int) + pos_y(w, l, k), region_start(size.2 as int) + pos_z(w, l, k))
}

/// The local positions of a region's blocks in storage order, from which
/// [`LitematicRegion::block_names`] is read.
pub fn region_positions(size: (i32, i32, i32)) -> (r: Vec<(i32, i32, i32)>)
    requires
        size.0 != i32::MIN && size.1 != i32::MIN && size.2 != i32::MIN,
        iabs(size.0 as int) * iabs(size.1 as int) * iabs(size.2 as int) <= i32::MAX + 1,
    ensures
        r@.len() == iabs(size.0 as int) * iabs(size.1 as int) * iabs(size.2 as int),
        forall|k: int| 0 <= k < r@.len() ==> (#[trigger] r@[k].0 as int, r@[k].1 as int, r@[k].2 as int) == region_position(size, k),
{
    let w = if size.0 < 0 { -size.0 } else { size.0 };
    let h = if size.1 < 0 { -size.1 } else { size.1 };
    let l = if size.2 < 0 { -size.2 } else { size.2 };
    let sx = if size.0 < 0 { size.0 + 1 } else { 0 };
    let sy = if size.1 < 0 { size.1 + 1 } else { 0 };
    let sz = if size.2 < 0 { size.2 + 1 } else { 0 };
    let ghost (wi, hi, li) = (w as int, h as int, l as int);
    let mut r: Vec<(i32, i32, i32)> = Vec::new();
    let mut y: i32 = 0;
    while y < h
        invariant
            0 <= y <= h,
            wi == w && hi == h && li == l,
            w >= 0 && h >= 0 && l >= 0,
            wi == iabs(size.0 as int) && hi == iabs(size.1 as int) && li == iabs(size.2 as int),
            sx == region_start(size.0 as int) && sy == region_start(size.1 as int) && sz == region_start(size.2 as int),
            wi * hi * li <= i32::MAX + 1,
            r@.len() == y * l * w,
            forall|k: int| 0 <= k < r@.len() ==> (#[trigger] r@[k].0 as int, r@[k].1 as int, r@[k].2 as int) == region_position(size, k),
        decreases h - y,
    {
        let mut z: i32 = 0;
        while z < l
            invariant
                0 <= y < h,
                0 <= z <= l,
                wi == w && hi == h && li == l,
                w >= 0 && h >= 0 && l >= 0,
                wi == iabs(size.0 as int) && hi == iabs(size.1 as int) && li == iabs(size.2 as int),
                sx == region_start(size.0 as int) && sy == region_start(size.1 as int) && sz == region_start(size.2 as int),
                wi * hi * li <= i32::MAX + 1,
                r@.len() == (y * l + z) * w,
                forall|k: int| 0 <= k < r@.len() ==> (#[trigger] r@[k].0 as int, r@[k].1 as int, r@[k].2 as int) == region_position(size, k),
            decreases l - z,
        {
            let mut x: i32 = 0;
            while x < w
                invariant
                    0 <= y < h,
                    0 <= z < l,
                    0 <= x <= w,
                    wi == w && hi == h && li == l,
                    w >= 0 && h >= 0 && l >= 0,
                    wi == iabs(size.0 as int) && hi == iabs(size.1 as int) && li == iabs(size.2 as int),
                    sx == region_start(size.0 as int) && sy == region_start(size.1 as int) && sz == region_start(size.2 as int),
                    wi * hi * li <= i32::MAX + 1,
                    r@.len() == (y * l + z) * w + x,
                    forall|k: int| 0 <= k < r@.len() ==> (#[trigger] r@[k].0 as int, r@[k].1 as int, r@[k].2 as int) == region_position(size, k),
                decreases w - x,
            {
                proof {
                    lemma_idx(wi, hi, li, x as int, y as int, z as int);
                }
                r.push((sx + x, sy + y, sz + z));
                x = x + 1;
            }
            proof {
                assert((y * l + z) * w + w == (y * l + z + 1) * w) by (nonlinear_arith);
            }
            z = z + 1;
        }
        proof {
            assert((y * l + l) * w == (y + 1) * l * w) by (nonlinear_arith);
        }
        y = y + 1;
    }
    proof {
        assert(h * l * w == wi * hi * li) by (nonlinear_arith)
            requires wi == w && hi == h && li == l;
    }
    r
}

/// The block of a region cell: its id, used as texture, with no properties.
pub open spec fn named_cell(n: String) -> Option<BlockView> {
    Some(BlockView { name: n@, texture: n@, properties: Seq::empty() })
}

/// What [`VoxelMap::from_litematic`] makes of a schematic: the first
/// region's extent and blocks.
pub open spec fn litematic_spec(s: LitematicSchematic) -> Result<(i32, i32, i32, Seq<Option<BlockView>>), ParseError> {
    if s.regions@.len() == 0 {
        Err(ParseError::NoRegions)
    } else {
        let r = s.regions@[0];
        let w = iabs(r.size.0 as int);
        let h = iabs(r.size.1 as int);
        let l = iabs(r.size.2 as int);
        if w <= 0 || h <= 0 || l <= 0 {
            Err(ParseError::InvalidRegionSize(r.size.0, r.size.1, r.size.2))
        } else if w * h * l > usize::MAX {
            Err(ParseError::TooLarge(w as i32, h as i32, l as i32))
        } else {
            Ok((w as i32, h as i32, l as i32, r.block_names@.map_values(|n: String| named_cell(n))))
        }
    }
}

/// The inputs on which reading a litematic stays within machine limits: no
/// size component is `i32::MIN`; the cell count fits in an `i64`; and a
/// region that is read lies at local coordinates from zero (no component
/// below -1), has cell indices that fit in an `i32`, and one id per cell.
pub open spec fn litematic_ok(s: LitematicSchematic) -> bool {
    s.regions@.len() > 0 ==> {
        let r = s.regions@[0];
        let w = iabs(r.size.0 as int);
        let h = iabs(r.size.1 as int);
        let l = iabs(r.size.2 as int);
        &&& r.size.0 != i32::MIN && r.size.1 != i32::MIN && r.size.2 != i32::MIN
        &&& (w > 0 && h > 0 && l > 0) ==> {
            &&& w * h * l <= i64::MAX
            &&& w * h * l <= usize::MAX ==> {
                &&& r.size.0 >= -1 && r.size.1 >= -1 && r.size.2 >= -1
                &&& w * l <= i32::MAX
                &&& w * h * l <= i32::MAX + 1
                &&& r.block_names@.len() == w * h * l
            }
        }
    }
}

/// Whether reading `schem` stays within machine limits (see [`litematic_ok`]).
pub fn litematic_in_limits(schem: &LitematicSchematic) -> (r: bool)
    ensures
        r == litematic_ok(*schem),
{
    if schem.regions.len() == 0 {
        return true;
    }
    let region = &schem.regions[0];
    let size = region.size;
    if size.0 == i32::MIN || size.1 == i32::MIN || size.2 == i32::MIN {
        return false;
    }
    let w: i64 = if size.0 < 0 { -(size.0 as i64) } else { size.0 as i64 };
    let h: i64 = if size.1 < 0 { -(size.1 as i64) } else { size.1 as i64 };
    let l: i64 = if size.2 < 0 { -(size.2 as i64) } else { size.2 as i64 };
    if w == 0 || h == 0 || l == 0 {
        return true;
    }
    let wu = w as u128;
    let hu = h as u128;
    let lu = l as u128;
    assert(wu * hu <= 0x4000_0000_0000_0000) by (nonlinear_arith)
        requires wu <= 0x8000_0000, hu <= 0x8000_0000;
    assert(wu * hu * lu <= 0x4000_0000_0000_0000 * 0x8000_0000) by (nonlinear_arith)
        requires wu * hu <= 0x4000_0000_0000_0000, lu <= 0x8000_0000;
    assert(wu * lu <= 0x4000_0000_0000_0000) by (nonlinear_arith)
        requires wu <= 0x8000_0000, lu <= 0x8000_0000;
    let total = wu * hu * lu;
    if total > i64::MAX as u128 {
        return false;
    }
    if total > usize::MAX as u128 {
        return true;
    }
    size.0 >= -1 && size.1 >= -1 && size.2 >= -1 && wu * lu <= i32::MAX as u128
        && total <= i32::MAX as u128 + 1 && region.block_names.len() as u128 == total
}

impl VoxelMap {
    /// Reads the first region of a Litematica schematic; every block gets
    /// its id as texture and no properties.
    pub fn from_litematic(schem: &LitematicSchematic) -> (r: Result<VoxelMap, ParseError>)
        requires
            litematic_ok(*schem),
        ensures
            match r {
                Ok(m) => litematic_spec(*schem) == Ok::<(i32, i32, i32, Seq<Option<BlockView>>), ParseError>((m.width, m.height, m.length, cells_view(m.blocks@))),
                Err(e) => litematic_spec(*schem) == Err::<(i32, i32, i32, Seq<Option<BlockView>>), ParseError>(e),
            },
    {
        if schem.regions.len() == 0 {
            return Err(ParseError::NoRegions);
        }
        let region = &schem.regions[0];
        let size = region.size;
        let width = if size.0 < 0 { -size.0 } else { size.0 };
        let height = if size.1 < 0 { -size.1 } else { size.1 };
        let length = if size.2 < 0 { -size.2 } else { size.2 };
        if width <= 0 || height <= 0 || length <= 0 {
            return Err(ParseError::InvalidRegionSize(size.0, size.1, size.2));
        }
        proof {
            assert((width as int) * (height as int) > 0) by (nonlinear_arith)
                requires width > 0, height > 0;
            assert((width as int) * (height as int) <= (width as int) * (height as int) * (length as int)) by (nonlinear_arith)
                requires (width as int) * (height as int) > 0, length > 0;
        }
        let total64: i64 = (width as i64) * (height as i64) * (length as i64);
        if total64 as u128 > usize::MAX as u128 {
            return Err(ParseError::TooLarge(width, height, length));
        }
        let total = total64 as usize;
        let mut blocks: Vec<Option<Block>> = Vec::new();
        let mut i: usize = 0;
        while i < total
            invariant
                i <= total,
                total == region.block_names@.len(),
                cells_view(blocks@) == region.block_names@.take(i as int).map_values(|n: String| named_cell(n)),
            decreases total - i,
        {
            let name = &region.block_names[i];
            let b = Block { name: name.clone(), texture: name.clone(), properties: Vec::new() };
            assert(b@.properties =~= Seq::empty());
            let ghost before = cells_view(blocks@);
            let ghost names = region.block_names@;
            blocks.push(Some(b));
            assert(cells_view(blocks@) =~= before.push(named_cell(names[i as int])));
            assert(names.take(i + 1) =~= names.take(i as int).push(names[i as int]));
            assert(cells_view(blocks@) =~= names.take(i + 1).map_values(|n: String| named_cell(n)));
            i = i + 1;
        }
        assert(region.block_names@.take(total as int) =~= region.block_names@);
        Ok(VoxelMap { width, height, length, blocks })
    }
}

proof fn lemma_cells_from_len(d: Seq<u8>, pal: Seq<(i32, BlockView)>, total: int, ptr: int, cur: int, acc: Seq<Option<BlockView>>)
    requires
        acc.len() == ptr,
        0 <= ptr <= total,
    ensures
        cells_from(d, pal, total, ptr, cur, acc) matches Ok(c) ==> c.len() == total,
    decreases total - ptr,
{
    if ptr < total && cur < d.len() {
        match varint_at(d, cur, 0, 0, ptr) {
            Err(e) => {},
            Ok((id, next)) => match palette_lookup(pal, id) {
                Some(b) => lemma_cells_from_len(d, pal, total, ptr + 1, next, acc.push(Some(b))),
                None => {},
            },
        }
    }
}

/// A schematic that reads has positive dimensions and one cell for each
/// position of its box.
pub proof fn lemma_parsed_shape(data: NbtTag)
    ensures
        parse_spec(data) matches Ok((w, h, l, c)) ==> w > 0 && h > 0 && l > 0 && c.len() == w * h * l,
{
    match data {
        NbtTag::Compound(root) => {
            let s = schematic_of(root@);
            match (dim_field(s, DimField::Width), dim_field(s, DimField::Height), dim_field(s, DimField::Length)) {
                (Ok(w), Ok(h), Ok(l)) => {
                    if w > 0 && h > 0 && l > 0 {
                        let (pt, dt) = palette_and_data(s);
                        match (pt, dt) {
                            (Some(NbtTag::Compound(p)), Some(NbtTag::ByteArray(d))) => {
                                match palette_of(p@, p@.len() as int) {
                                    Ok(pal) => {
                                        assert((w as int) * (h as int) * (l as int) > 0) by (nonlinear_arith)
                                            requires w > 0, h > 0, l > 0;
                                        lemma_cells_from_len(d@, pal, w * h * l, 0, 0, Seq::empty());
                                    },
                                    Err(_) => {},
                                }
                            },
                            _ => {},
                        }
                    }
                },
                _ => {},
            }
        },
        _ => {},
    }
}

/// A litematic region that reads, within the machine limits, has positive
/// dimensions and one cell for each position of its box.
pub proof fn lemma_litematic_shape(schem: LitematicSchematic)
    requires
        litematic_ok(schem),
    ensures
        litematic_spec(schem) matches Ok((w, h, l, c)) ==> w > 0 && h > 0 && l > 0 && c.len() == w * h * l,
{
}

} // verus!
