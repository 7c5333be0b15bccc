//! Turning the kept blocks into brushes: one or more boxes per block, with
//! runs of equal blocks merged into larger boxes.

use vstd::prelude::*;

use crate::block_shapes::{BlockShape, get_shape, shape_of, stair_shape, slab_shape, thin_shape, prop_or, prop_connected};
use crate::model::{BlockView, VoxelMap, cells_view, idx, in_grid, pos_x, pos_y, pos_z, index_of, lemma_idx, lemma_pos, coords_of};

verus! {

/// The edge length of one block in map units.
pub const BLOCK_UNIT: i32 = 40;

/// Half a block.
const HALF_BLOCK: i32 = 20;

/// How far a path block sits below a full block: 3/32 of a block.
const PATH_DROP: i32 = 3;

/// Torch post extent: from 14/32 to 18/32 of a block.
const THIN_MIN: i32 = 17;

const THIN_MAX: i32 = 22;

/// Thin panels are 8 units thick, centred in the block.
const THIN_PANEL_MIN: i32 = 16;

const THIN_PANEL_MAX: i32 = 24;

/// Torch height: 24/32 of a block.
const TORCH_TOP: i32 = 30;

/// Chest inset on every side: 2/32 of a block.
const CHEST_INSET: i32 = 2;

/// How far blocks are merged into larger brushes.
#[derive(Copy, Clone, Debug, PartialEq, Eq, Structural)]
pub enum GreedyLevel {
    /// No merging: one brush per block.
    NoMerge,
    /// Merge full blocks only.
    FullOnly,
    /// Merge all compatible shapes.
    All,
}

impl Default for GreedyLevel {
    fn default() -> (r: GreedyLevel)
        ensures
            r == GreedyLevel::All,
    {
        GreedyLevel::All
    }
}

/// How a brush is drawn: as an axis-aligned box, or as two crossed planes.
#[derive(Copy, Clone, Debug, PartialEq, Eq, Structural)]
pub enum BrushKind {
    Box,
    Plant45,
}

/// An axis-aligned box in map units. The map's `x` and `y` run along the
/// schematic's `x` and `z`; its `z` is the schematic's height.
#[derive(Debug)]
pub struct Brush {
    pub min: (i32, i32, i32),
    pub max: (i32, i32, i32),
    pub texture: String,
    pub kind: BrushKind,
}

/// The mathematical content of a [`Brush`].
pub struct BrushView {
    pub min: (int, int, int),
    pub max: (int, int, int),
    pub texture: Seq<char>,
    pub kind: BrushKind,
}

impl View for Brush {
    type V = BrushView;

    open spec fn view(&self) -> BrushView {
        BrushView {
            min: (self.min.0 as int, self.min.1 as int, self.min.2 as int),
            max: (self.max.0 as int, self.max.1 as int, self.max.2 as int),
            texture: self.texture@,
            kind: self.kind,
        }
    }
}

/// The views of a sequence of brushes.
pub open spec fn brushes_view(s: Seq<Brush>) -> Seq<BrushView> {
    s.map_values(|b: Brush| b@)
}

pub open spec fn bv(min: (int, int, int), max: (int, int, int), texture: Seq<char>, kind: BrushKind) -> BrushView {
    BrushView { min, max, texture, kind }
}

/// Half of `d`, rounded towards zero, as integer division does.
pub open spec fn rhalf(d: int) -> int {
    if d >= 0 {
        d / 2
    } else {
        -((-d) / 2)
    }
}

/// A block coordinate along an axis centred on the middle of the grid, in map units.
pub open spec fn centred(b: int, size: int) -> int {
    (b - rhalf(size)) * 40
}

/// The map-space corner of block corner `(bx, by, bz)`.
pub open spec fn quake(bx: int, bz: int, by: int, w: int, l: int) -> (int, int, int) {
    (centred(bx, w), centred(bz, l), by * 40)
}

/// `v` is a value of `i32`.
pub open spec fn in_i32(v: int) -> bool {
    i32::MIN <= v <= i32::MAX
}

/// Every map coordinate of block corner `(bx, by, bz)` is a value of `i32`.
pub open spec fn quake_fits(bx: int, bz: int, by: int, w: int, l: int) -> bool {
    let q = quake(bx, bz, by, w, l);
    in_i32(q.0) && in_i32(q.1) && in_i32(q.2)
}

/// A horizontal grid size whose centred map coordinates, from `-(d / 2)`
/// to `d - d / 2` blocks, fit in an `i32`.
pub open spec fn fits_across(d: int) -> bool {
    0 <= d && (d - d / 2) * 40 <= i32::MAX
}

/// A grid height whose map coordinates, from 0 to `d` blocks, fit in an `i32`.
pub open spec fn fits_up(d: int) -> bool {
    0 <= d && d * 40 <= i32::MAX
}

/// Every coordinate of the brush is a value of `i32`.
pub open spec fn box_in_i32(b: BrushView) -> bool {
    &&& in_i32(b.min.0) && in_i32(b.min.1) && in_i32(b.min.2)
    &&& in_i32(b.max.0) && in_i32(b.max.1) && in_i32(b.max.2)
}

/// Every coordinate of every brush is a value of `i32`.
pub open spec fn boxes_in_i32(s: Seq<BrushView>) -> bool {
    forall|i: int| 0 <= i < s.len() ==> #[trigger] box_in_i32(s[i])
}

/// Whether a map can be meshed: it is well formed and every map coordinate
/// of its grid fits in an `i32`.
pub fn can_optimize(map: &VoxelMap) -> (r: bool)
    ensures
        r == (map.wf() && fits_across(map.width as int) && fits_up(map.height as int) && fits_across(map.length as int)),
{
    if !map.is_well_formed() {
        return false;
    }
    let w = map.width as i64;
    let h = map.height as i64;
    let l = map.length as i64;
    (w - w / 2) * 40 <= i32::MAX as i64 && h * 40 <= i32::MAX as i64 && (l - l / 2) * 40 <= i32::MAX as i64
}

/// `d / 2` for an `i32`, rounded towards zero.
fn half_of(d: i32) -> (r: i64)
    ensures
        r == rhalf(d as int),
{
    let v = d as i64;
    if v >= 0 {
        v / 2
    } else {
        let n: i64 = -v;
        -(n / 2)
    }
}

/// The map corner of block `(bx, by, bz)`: Minecraft x, z and y become map
/// x, y and z, 40 units per block, centred on the grid's middle column.
pub fn to_quake(bx: i32, bz: i32, by: i32, map_width: i32, map_length: i32) -> (r: (i32, i32, i32))
    requires
        quake_fits(bx as int, bz as int, by as int, map_width as int, map_length as int),
    ensures
        (r.0 as int, r.1 as int, r.2 as int) == quake(bx as int, bz as int, by as int, map_width as int, map_length as int),
{
    let center_x = half_of(map_width);
    let center_z = half_of(map_length);
    let qx = (bx as i64 - center_x) * 40;
    let qz = (bz as i64 - center_z) * 40;
    let qy = by as i64 * 40;
    (qx as i32, qz as i32, qy as i32)
}

/// Each corner of a grid whose sizes fit has map coordinates in `i32`,
/// between those of the grid's own corners.
pub proof fn lemma_grid_point_fits(bx: int, bz: int, by: int, w: int, h: int, l: int)
    requires
        fits_across(w),
        fits_up(h),
        fits_across(l),
        0 <= bx <= w,
        0 <= bz <= l,
        0 <= by <= h,
    ensures
        quake_fits(bx, bz, by, w, l),
        quake(0, 0, 0, w, l).0 <= quake(bx, bz, by, w, l).0 <= quake(w, l, h, w, l).0,
        quake(0, 0, 0, w, l).1 <= quake(bx, bz, by, w, l).1 <= quake(w, l, h, w, l).1,
        quake(0, 0, 0, w, l).2 <= quake(bx, bz, by, w, l).2 <= quake(w, l, h, w, l).2,
{
}

/// The two boxes of a stair between map corners `a` and `b`: a lower or
/// upper half slab and a quarter block on the side it faces; any other shape
/// gives the whole box.
pub open spec fn stair_boxes(a: (int, int, int), b: (int, int, int), shape: BlockShape, t: Seq<char>) -> Seq<BrushView> {
    let (x1, y1, z1) = a;
    let (x2, y2, z2) = b;
    let k = BrushKind::Box;
    match shape {
        BlockShape::StairNorthBottom => seq![bv((x1, y1, z1), (x2, y2, z1 + 20), t, k), bv((x1, y1, z1 + 20), (x2, y1 + 20, z2), t, k)],
        BlockShape::StairSouthBottom => seq![bv((x1, y1, z1), (x2, y2, z1 + 20), t, k), bv((x1, y1 + 20, z1 + 20), (x2, y2, z2), t, k)],
        BlockShape::StairEastBottom => seq![bv((x1, y1, z1), (x2, y2, z1 + 20), t, k), bv((x1 + 20, y1, z1 + 20), (x2, y2, z2), t, k)],
        BlockShape::StairWestBottom => seq![bv((x1, y1, z1), (x2, y2, z1 + 20), t, k), bv((x1, y1, z1 + 20), (x1 + 20, y2, z2), t, k)],
        BlockShape::StairNorthTop => seq![bv((x1, y1, z1 + 20), (x2, y2, z2), t, k), bv((x1, y1, z1), (x2, y1 + 20, z1 + 20), t, k)],
        BlockShape::StairSouthTop => seq![bv((x1, y1, z1 + 20), (x2, y2, z2), t, k), bv((x1, y1 + 20, z1), (x2, y2, z1 + 20), t, k)],
        BlockShape::StairEastTop => seq![bv((x1, y1, z1 + 20), (x2, y2, z2), t, k), bv((x1 + 20, y1, z1), (x2, y2, z1 + 20), t, k)],
        BlockShape::StairWestTop => seq![bv((x1, y1, z1 + 20), (x2, y2, z2), t, k), bv((x1, y1, z1), (x1 + 20, y2, z1 + 20), t, k)],
        _ => seq![bv((x1, y1, z1), (x2, y2, z2), t, k)],
    }
}

/// The brushes of one block of the given shape between map corners `a` and `b`.
pub open spec fn block_boxes(a: (int, int, int), b: (int, int, int), shape: BlockShape, t: Seq<char>) -> Seq<BrushView> {
    let (x1, y1, z1) = a;
    let (x2, y2, z2) = b;
    let k = BrushKind::Box;
    match shape {
        BlockShape::SlabBottom => seq![bv((x1, y1, z1), (x2, y2, z1 + 20), t, k)],
        BlockShape::Bed => seq![bv((x1, y1, z1), (x2, y2, z1 + 20), t, k)],
        BlockShape::SlabTop => seq![bv((x1, y1, z1 + 20), (x2, y2, z2), t, k)],
        BlockShape::ThinPanelNS => seq![bv((x1 + 16, y1, z1), (x1 + 24, y2, z2), t, k)],
        BlockShape::ThinPanelEW => seq![bv((x1, y1 + 16, z1), (x2, y1 + 24, z2), t, k)],
        BlockShape::ThinCross => seq![bv((x1 + 16, y1, z1), (x1 + 24, y2, z2), t, k), bv((x1, y1 + 16, z1), (x2, y1 + 24, z2), t, k)],
        BlockShape::Path => seq![bv((x1, y1, z1), (x2, y2, z2 - 3), t, k)],
        BlockShape::PlantCross => seq![bv((x1, y1, z1), (x2, y2, z1 + 20), t, BrushKind::Plant45)],
        BlockShape::Torch => seq![bv((x1 + 17, y1 + 17, z1), (x1 + 22, y1 + 22, z1 + 30), t, k)],
        BlockShape::Chest => seq![bv((x1 + 2, y1 + 2, z1 + 2), (x2 - 2, y2 - 2, z2 - 2), t, k)],
        BlockShape::Full => seq![bv((x1, y1, z1), (x2, y2, z2), t, k)],
        _ => stair_boxes(a, b, shape, t),
    }
}

pub open spec fn iv(a: (i32, i32, i32)) -> (int, int, int) {
    (a.0 as int, a.1 as int, a.2 as int)
}

fn mk(min: (i32, i32, i32), max: (i32, i32, i32), texture: String, kind: BrushKind) -> (r: Brush)
    ensures
        r@ == bv(iv(min), iv(max), texture@, kind),
{
    Brush { min, max, texture, kind }
}

/// The two brushes of a stair between map corners `a` and `b`.
pub fn stair_brushes(a: (i32, i32, i32), b: (i32, i32, i32), shape: BlockShape, texture: String) -> (r: Vec<Brush>)
    requires
        boxes_in_i32(stair_boxes(iv(a), iv(b), shape, Seq::empty())),
    ensures
        brushes_view(r@) == stair_boxes(iv(a), iv(b), shape, texture@),
{
    proof {
        let bb = stair_boxes(iv(a), iv(b), shape, Seq::empty());
        if bb.len() > 0 {
            assert(box_in_i32(bb[0]));
        }
        if bb.len() > 1 {
            assert(box_in_i32(bb[1]));
        }
    }
    let (qx1, qy1, qz1) = a;
    let (qx2, qy2, qz2) = b;
    let k = BrushKind::Box;
    let t2 = texture.clone();
    let r = match shape {
        BlockShape::StairNorthBottom => vec![mk((qx1, qy1, qz1), (qx2, qy2, qz1 + HALF_BLOCK), t2, k), mk((qx1, qy1, qz1 + HALF_BLOCK), (qx2, qy1 + HALF_BLOCK, qz2), texture, k)],
        BlockShape::StairSouthBottom => vec![mk((qx1, qy1, qz1), (qx2, qy2, qz1 + HALF_BLOCK), t2, k), mk((qx1, qy1 + HALF_BLOCK, qz1 + HALF_BLOCK), (qx2, qy2, qz2), texture, k)],
        BlockShape::StairEastBottom => vec![mk((qx1, qy1, qz1), (qx2, qy2, qz1 + HALF_BLOCK), t2, k), mk((qx1 + HALF_BLOCK, qy1, qz1 + HALF_BLOCK), (qx2, qy2, qz2), texture, k)],
        BlockShape::StairWestBottom => vec![mk((qx1, qy1, qz1), (qx2, qy2, qz1 + HALF_BLOCK), t2, k), mk((qx1, qy1, qz1 + HALF_BLOCK), (qx1 + HALF_BLOCK, qy2, qz2), texture, k)],
        BlockShape::StairNorthTop => vec![mk((qx1, qy1, qz1 + HALF_BLOCK), (qx2, qy2, qz2), t2, k), mk((qx1, qy1, qz1), (qx2, qy1 + HALF_BLOCK, qz1 + HALF_BLOCK), texture, k)],
        BlockShape::StairSouthTop => vec![mk((qx1, qy1, qz1 + HALF_BLOCK), (qx2, qy2, qz2), t2, k), mk((qx1, qy1 + HALF_BLOCK, qz1), (qx2, qy2, qz1 + HALF_BLOCK), texture, k)],
        BlockShape::StairEastTop => vec![mk((qx1, qy1, qz1 + HALF_BLOCK), (qx2, qy2, qz2), t2, k), mk((qx1 + HALF_BLOCK, qy1, qz1), (qx2, qy2, qz1 + HALF_BLOCK), texture, k)],
        BlockShape::StairWestTop => vec![mk((qx1, qy1, qz1 + HALF_BLOCK), (qx2, qy2, qz2), t2, k), mk((qx1, qy1, qz1), (qx1 + HALF_BLOCK, qy2, qz1 + HALF_BLOCK), texture, k)],
        _ => vec![mk((qx1, qy1, qz1), (qx2, qy2, qz2), texture, k)],
    };
    assert(brushes_view(r@) =~= stair_boxes(iv(a), iv(b), shape, texture@));
    r
}

/// The brushes of one block in map corners `a`, `b`.
fn block_brushes(a: (i32, i32, i32), b: (i32, i32, i32), shape: BlockShape, texture: String) -> (r: Vec<Brush>)
    requires
        boxes_in_i32(block_boxes(iv(a), iv(b), shape, Seq::empty())),
    ensures
        brushes_view(r@) == block_boxes(iv(a), iv(b), shape, texture@),
{
    proof {
        let bb = block_boxes(iv(a), iv(b), shape, Seq::empty());
        if bb.len() > 0 {
            assert(box_in_i32(bb[0]));
        }
        if bb.len() > 1 {
            assert(box_in_i32(bb[1]));
        }
    }
    let (qx1, qy1, qz1) = a;
    let (qx2, qy2, qz2) = b;
    let k = BrushKind::Box;
    let r = match shape {
        BlockShape::SlabBottom => vec![mk((qx1, qy1, qz1), (qx2, qy2, qz1 + HALF_BLOCK), texture, k)],
        BlockShape::Bed => vec![mk((qx1, qy1, qz1), (qx2, qy2, qz1 + HALF_BLOCK), texture, k)],
        BlockShape::SlabTop => vec![mk((qx1, qy1, qz1 + HALF_BLOCK), (qx2, qy2, qz2), texture, k)],
        BlockShape::ThinPanelNS => vec![mk((qx1 + THIN_PANEL_MIN, qy1, qz1), (qx1 + THIN_PANEL_MAX, qy2, qz2), texture, k)],
        BlockShape::ThinPanelEW => vec![mk((qx1, qy1 + THIN_PANEL_MIN, qz1), (qx2, qy1 + THIN_PANEL_MAX, qz2), texture, k)],
        BlockShape::ThinCross => {
            let t2 = texture.clone();
            vec![
                mk((qx1 + THIN_PANEL_MIN, qy1, qz1), (qx1 + THIN_PANEL_MAX, qy2, qz2), t2, k),
                mk((qx1, qy1 + THIN_PANEL_MIN, qz1), (qx2, qy1 + THIN_PANEL_MAX, qz2), texture, k),
            ]
        },
        BlockShape::Path => {
            let top = qz2 - PATH_DROP;
            vec![mk((qx1, qy1, qz1), (qx2, qy2, top), texture, k)]
        },
        BlockShape::PlantCross => vec![mk((qx1, qy1, qz1), (qx2, qy2, qz1 + HALF_BLOCK), texture, BrushKind::Plant45)],
        BlockShape::Torch => vec![mk((qx1 + THIN_MIN, qy1 + THIN_MIN, qz1), (qx1 + THIN_MAX, qy1 + THIN_MAX, qz1 + TORCH_TOP), texture, k)],
        BlockShape::Chest => {
            let hi = (qx2 - CHEST_INSET, qy2 - CHEST_INSET, qz2 - CHEST_INSET);
            vec![mk((qx1 + CHEST_INSET, qy1 + CHEST_INSET, qz1 + CHEST_INSET), hi, texture, k)]
        },
        BlockShape::Full => vec![mk((qx1, qy1, qz1), (qx2, qy2, qz2), texture, k)],
        _ => {
            return stair_brushes(a, b, shape, texture);
        },
    };
    assert(brushes_view(r@) =~= block_boxes(iv(a), iv(b), shape, texture@));
    r
}

/// Every coordinate that drawing the block at `(x, y, z)` computes is a
/// value of `i32`.
pub open spec fn cell_fits(x: int, y: int, z: int, shape: BlockShape, w: int, l: int) -> bool {
    &&& x < i32::MAX && y < i32::MAX && z < i32::MAX
    &&& quake_fits(x, z, y, w, l)
    &&& quake_fits(x + 1, z + 1, y + 1, w, l)
    &&& boxes_in_i32(block_boxes(quake(x, z, y, w, l), quake(x + 1, z + 1, y + 1, w, l), shape, Seq::empty()))
}

/// The brushes of the block at `(x, y, z)`.
pub fn single_block_brush(x: i32, y: i32, z: i32, shape: BlockShape, texture: String, map_width: i32, map_length: i32) -> (r: Vec<Brush>)
    requires
        cell_fits(x as int, y as int, z as int, shape, map_width as int, map_length as int),
    ensures
        brushes_view(r@) == block_boxes(
            quake(x as int, z as int, y as int, map_width as int, map_length as int),
            quake(x + 1, z + 1, y + 1, map_width as int, map_length as int),
            shape,
            texture@,
        ),
{
    let a = to_quake(x, z, y, map_width, map_length);
    let b = to_quake(x + 1, z + 1, y + 1, map_width, map_length);
    block_brushes(a, b, shape, texture)
}

// ---------------------------------------------------------------------
// Merging full blocks into rectangles
// ---------------------------------------------------------------------

/// The texture of the unvisited full block at `(x, y, z)`, if there is one.
pub open spec fn full_tex(g: Seq<Option<BlockView>>, v: Seq<bool>, w: int, h: int, l: int, x: int, y: int, z: int) -> Option<Seq<char>> {
    if !in_grid(w, h, l, x, y, z) {
        None
    } else if v[idx(w, l, x, y, z)] {
        None
    } else {
        match g[idx(w, l, x, y, z)] {
            Some(b) => if shape_of(b) == BlockShape::Full { Some(b.texture) } else { None },
            None => None,
        }
    }
}

/// A grid with its visited marks.
pub open spec fn scene_ok(map: &VoxelMap, v: Seq<bool>) -> bool {
    map.wf() && v.len() == map.blocks@.len()
}

pub open spec fn str_opt_view(o: Option<&str>) -> Option<Seq<char>> {
    match o {
        Some(s) => Some(s@),
        None => None,
    }
}

/// The texture of the unvisited full block at `(x, y, z)`.
fn full_block_texture_at<'a>(map: &'a VoxelMap, visited: &Vec<bool>, x: i32, y: i32, z: i32) -> (r: Option<&'a str>)
    requires
        scene_ok(map, visited@),
    ensures
        str_opt_view(r) == full_tex(cells_view(map.blocks@), visited@, map.width as int, map.height as int, map.length as int, x as int, y as int, z as int),
{
    if x < 0 || x >= map.width || y < 0 || y >= map.height || z < 0 || z >= map.length {
        return None;
    }
    let i = index_of(map.width, map.height, map.length, x, y, z);
    if visited[i] {
        return None;
    }
    match &map.blocks[i] {
        Some(block) => if get_shape(block) == BlockShape::Full { Some(block.texture.as_str()) } else { None },
        None => None,
    }
}

/// The number of unvisited full blocks of texture `t` from `(x, y, z)` on in
/// the `x` direction.
pub open spec fn run_len(g: Seq<Option<BlockView>>, v: Seq<bool>, w: int, h: int, l: int, x: int, y: int, z: int, t: Seq<char>) -> int
    decreases w - x,
{
    if x < w && full_tex(g, v, w, h, l, x, y, z) == Some(t) {
        1 + run_len(g, v, w, h, l, x + 1, y, z, t)
    } else {
        0
    }
}

/// The shortest of the runs from `x` in rows `z` to `z + d - 1` (row `z` alone when `d <= 1`).
pub open spec fn min_run(g: Seq<Option<BlockView>>, v: Seq<bool>, w: int, h: int, l: int, x: int, y: int, z: int, t: Seq<char>, d: int) -> int
    decreases d,
{
    if d <= 1 {
        run_len(g, v, w, h, l, x, y, z, t)
    } else {
        let m = min_run(g, v, w, h, l, x, y, z, t, d - 1);
        let r = run_len(g, v, w, h, l, x, y, z + d - 1, t);
        if r < m { r } else { m }
    }
}

/// A rectangle on layer `y` that the search considers: it starts at an
/// unvisited full block `(x, z)`, spans `d >= 1` rows, and is as wide as the
/// shortest run of that block's texture in those rows (at least one).
pub open spec fn cand(g: Seq<Option<BlockView>>, v: Seq<bool>, w: int, h: int, l: int, y: int, x: int, z: int, d: int) -> bool {
    &&& full_tex(g, v, w, h, l, x, y, z) is Some
    &&& 1 <= d
    &&& z + d <= l
    &&& min_run(g, v, w, h, l, x, y, z, full_tex(g, v, w, h, l, x, y, z)->0, d) >= 1
}

/// The rectangle that candidate `(x, z, d)` stands for: `(x, z, width, depth, texture)`.
pub open spec fn rect_of(g: Seq<Option<BlockView>>, v: Seq<bool>, w: int, h: int, l: int, y: int, x: int, z: int, d: int) -> (int, int, int, int, Seq<char>) {
    let t = full_tex(g, v, w, h, l, x, y, z)->0;
    (x, z, min_run(g, v, w, h, l, x, y, z, t, d), d, t)
}

pub open spec fn area(g: Seq<Option<BlockView>>, v: Seq<bool>, w: int, h: int, l: int, y: int, x: int, z: int, d: int) -> int {
    rect_of(g, v, w, h, l, y, x, z, d).2 * d
}

/// Candidates are ordered by row, then column, then depth.
pub open spec fn earlier(x1: int, z1: int, d1: int, x2: int, z2: int, d2: int) -> bool {
    z1 < z2 || (z1 == z2 && (x1 < x2 || (x1 == x2 && d1 < d2)))
}

/// `r` is the candidate of greatest area on layer `y`, the first one in
/// order among those of that area.
pub open spec fn is_best_rect(g: Seq<Option<BlockView>>, v: Seq<bool>, w: int, h: int, l: int, y: int, r: (int, int, int, int, Seq<char>)) -> bool {
    &&& cand(g, v, w, h, l, y, r.0, r.1, r.3)
    &&& r == rect_of(g, v, w, h, l, y, r.0, r.1, r.3)
    &&& forall|x2: int, z2: int, d2: int| #[trigger] cand(g, v, w, h, l, y, x2, z2, d2)
        ==> area(g, v, w, h, l, y, x2, z2, d2) <= area(g, v, w, h, l, y, r.0, r.1, r.3)
    &&& forall|x2: int, z2: int, d2: int| #[trigger] cand(g, v, w, h, l, y, x2, z2, d2) && earlier(x2, z2, d2, r.0, r.1, r.3)
        ==> area(g, v, w, h, l, y, x2, z2, d2) < area(g, v, w, h, l, y, r.0, r.1, r.3)
}

/// The best rectangle of layer `y`, if the layer has an unvisited full block.
pub open spec fn best_rect(g: Seq<Option<BlockView>>, v: Seq<bool>, w: int, h: int, l: int, y: int) -> Option<(int, int, int, int, Seq<char>)> {
    if exists|r: (int, int, int, int, Seq<char>)| is_best_rect(g, v, w, h, l, y, r) {
        Some(choose|r: (int, int, int, int, Seq<char>)| is_best_rect(g, v, w, h, l, y, r))
    } else {
        None
    }
}

/// There is at most one best rectangle.
pub proof fn lemma_best_unique(g: Seq<Option<BlockView>>, v: Seq<bool>, w: int, h: int, l: int, y: int, r1: (int, int, int, int, Seq<char>), r2: (int, int, int, int, Seq<char>))
    requires
        is_best_rect(g, v, w, h, l, y, r1),
        is_best_rect(g, v, w, h, l, y, r2),
    ensures
        r1 == r2,
{
    assert(cand(g, v, w, h, l, y, r1.0, r1.1, r1.3));
    assert(cand(g, v, w, h, l, y, r2.0, r2.1, r2.3));
    if earlier(r1.0, r1.1, r1.3, r2.0, r2.1, r2.3) {
    } else if earlier(r2.0, r2.1, r2.3, r1.0, r1.1, r1.3) {
    } else {
        assert(r1.0 == r2.0 && r1.1 == r2.1 && r1.3 == r2.3);
    }
}

/// Splitting a run after `m` matching blocks.
proof fn lemma_run_split(g: Seq<Option<BlockView>>, v: Seq<bool>, w: int, h: int, l: int, x: int, y: int, z: int, t: Seq<char>, m: int)
    requires
        0 <= m,
        forall|k: int| 0 <= k < m ==> #[trigger] full_tex(g, v, w, h, l, x + k, y, z) == Some(t),
    ensures
        run_len(g, v, w, h, l, x, y, z, t) == m + run_len(g, v, w, h, l, x + m, y, z, t),
    decreases m,
{
    if m > 0 {
        assert(full_tex(g, v, w, h, l, x + 0, y, z) == Some(t));
        assert(x < w);
        assert forall|k: int| 0 <= k < m - 1 implies #[trigger] full_tex(g, v, w, h, l, (x + 1) + k, y, z) == Some(t) by {
            assert(full_tex(g, v, w, h, l, x + (k + 1), y, z) == Some(t));
            assert(x + (k + 1) == (x + 1) + k);
        }
        lemma_run_split(g, v, w, h, l, x + 1, y, z, t, m - 1);
    }
}

/// Deeper candidates are never wider.
proof fn lemma_min_run_mono(g: Seq<Option<BlockView>>, v: Seq<bool>, w: int, h: int, l: int, x: int, y: int, z: int, t: Seq<char>, d1: int, d2: int)
    requires
        1 <= d1 <= d2,
    ensures
        min_run(g, v, w, h, l, x, y, z, t, d2) <= min_run(g, v, w, h, l, x, y, z, t, d1),
    decreases d2 - d1,
{
    if d1 < d2 {
        lemma_min_run_mono(g, v, w, h, l, x, y, z, t, d1, d2 - 1);
    }
}

proof fn lemma_run_bounds(g: Seq<Option<BlockView>>, v: Seq<bool>, w: int, h: int, l: int, x: int, y: int, z: int, t: Seq<char>)
    ensures
        0 <= run_len(g, v, w, h, l, x, y, z, t),
        x < w ==> x + run_len(g, v, w, h, l, x, y, z, t) <= w,
        x >= w ==> run_len(g, v, w, h, l, x, y, z, t) == 0,
    decreases w - x,
{
    if x < w && full_tex(g, v, w, h, l, x, y, z) == Some(t) {
        lemma_run_bounds(g, v, w, h, l, x + 1, y, z, t);
    }
}

pub proof fn lemma_min_run_nonneg(g: Seq<Option<BlockView>>, v: Seq<bool>, w: int, h: int, l: int, x: int, y: int, z: int, t: Seq<char>, d: int)
    ensures
        0 <= min_run(g, v, w, h, l, x, y, z, t, d),
        x < w ==> x + min_run(g, v, w, h, l, x, y, z, t, d) <= w,
    decreases d,
{
    lemma_run_bounds(g, v, w, h, l, x, y, z, t);
    if d > 1 {
        lemma_min_run_nonneg(g, v, w, h, l, x, y, z, t, d - 1);
        lemma_run_bounds(g, v, w, h, l, x, y, z + d - 1, t);
    }
}

proof fn lemma_cand_area(g: Seq<Option<BlockView>>, v: Seq<bool>, w: int, h: int, l: int, y: int, x: int, z: int, d: int)
    requires
        cand(g, v, w, h, l, y, x, z, d),
    ensures
        area(g, v, w, h, l, y, x, z, d) >= 1,
{
    let m = rect_of(g, v, w, h, l, y, x, z, d).2;
    assert(m * d >= 1) by (nonlinear_arith)
        requires m >= 1, d >= 1;
}

/// The rectangle view of a computed rectangle.
pub open spec fn rect_view(r: (i32, i32, i32, i32, String)) -> (int, int, int, int, Seq<char>) {
    (r.0 as int, r.1 as int, r.2 as int, r.3 as int, r.4@)
}

pub open spec fn rect_opt_view(r: Option<(i32, i32, i32, i32, String)>) -> Option<(int, int, int, int, Seq<char>)> {
    match r {
        Some(rr) => Some(rect_view(rr)),
        None => None,
    }
}

/// The search state of [`find_best_full_rect_on_layer`] when every candidate
/// before `(cx, cz, cd)` has been seen.
pub open spec fn best_inv(
    g: Seq<Option<BlockView>>,
    v: Seq<bool>,
    w: int,
    h: int,
    l: int,
    y: int,
    best: Option<(i32, i32, i32, i32, String)>,
    ba: int,
    cx: int,
    cz: int,
    cd: int,
) -> bool {
    &&& forall|x2: int, z2: int, d2: int| #[trigger] cand(g, v, w, h, l, y, x2, z2, d2) && earlier(x2, z2, d2, cx, cz, cd)
        ==> area(g, v, w, h, l, y, x2, z2, d2) <= ba
    &&& match best {
        None => ba == 0,
        Some(r) => {
            let rv = rect_view(r);
            &&& cand(g, v, w, h, l, y, rv.0, rv.1, rv.3)
            &&& rv == rect_of(g, v, w, h, l, y, rv.0, rv.1, rv.3)
            &&& earlier(rv.0, rv.1, rv.3, cx, cz, cd)
            &&& area(g, v, w, h, l, y, rv.0, rv.1, rv.3) == ba
            &&& forall|x2: int, z2: int, d2: int| #[trigger] cand(g, v, w, h, l, y, x2, z2, d2) && earlier(x2, z2, d2, rv.0, rv.1, rv.3)
                ==> area(g, v, w, h, l, y, x2, z2, d2) < ba
        },
    }
}

/// The rectangle of unvisited full blocks of one texture on layer `y` with
/// the greatest area; among equal areas, the one found first scanning rows,
/// then columns, then depths. `None` when the layer has no unvisited full block.
fn find_best_full_rect_on_layer(map: &VoxelMap, visited: &Vec<bool>, y: i32) -> (r: Option<(i32, i32, i32, i32, String)>)
    requires
        scene_ok(map, visited@),
    ensures
        rect_opt_view(r) == best_rect(cells_view(map.blocks@), visited@, map.width as int, map.height as int, map.length as int, y as int),
{
    let ghost g = cells_view(map.blocks@);
    let ghost v = visited@;
    let w = map.width;
    let h = map.height;
    let l = map.length;
    let ghost (wi, hi, li, yi) = (w as int, h as int, l as int, y as int);
    if y < 0 || y >= h {
        assert forall|c: (int, int, int, int, Seq<char>)| !is_best_rect(g, v, wi, hi, li, yi, c) by {
            assert(full_tex(g, v, wi, hi, li, c.0, yi, c.1) is None);
        }
        return None;
    }
    let mut best: Option<(i32, i32, i32, i32, String)> = None;
    let mut best_area: i32 = 0;
    proof {
        assert(w * l <= w * h * l) by (nonlinear_arith)
            requires 0 <= w, 0 <= l, 1 <= h;
    }
    let mut z: i32 = 0;
    while z < l
        invariant
            scene_ok(map, visited@),
            g == cells_view(map.blocks@),
            v == visited@,
            w == map.width,
            h == map.height,
            l == map.length,
            (wi, hi, li, yi) == (w as int, h as int, l as int, y as int),
            0 <= y < h,
            0 <= z <= l,
            w * l <= i32::MAX,
            best_inv(g, v, wi, hi, li, yi, best, best_area as int, 0, z as int, 0),
        decreases l - z,
    {
        let mut x: i32 = 0;
        while x < w
            invariant
                scene_ok(map, visited@),
                g == cells_view(map.blocks@),
                v == visited@,
                w == map.width,
                h == map.height,
                l == map.length,
                (wi, hi, li, yi) == (w as int, h as int, l as int, y as int),
                0 <= y < h,
                0 <= z < l,
                0 <= x <= w,
                w * l <= i32::MAX,
                best_inv(g, v, wi, hi, li, yi, best, best_area as int, x as int, z as int, 0),
            decreases w - x,
        {
            match full_block_texture_at(map, visited, x, y, z) {
                None => {
                    assert forall|x2: int, z2: int, d2: int| #[trigger] cand(g, v, wi, hi, li, yi, x2, z2, d2) && earlier(x2, z2, d2, x + 1, z as int, 0)
                        implies earlier(x2, z2, d2, x as int, z as int, 0) by {}
                },
                Some(texture) => {
                    let ghost t = texture@;
                    proof {
                        lemma_run_bounds(g, v, wi, hi, li, x as int, yi, z as int, t);
                    }
                    let mut max_width: i32 = 0;
                    let mut go = true;
                    while go && x + max_width < w
                        invariant
                            scene_ok(map, visited@),
                            g == cells_view(map.blocks@),
                            v == visited@,
                            w == map.width,
                            h == map.height,
                            l == map.length,
                            (wi, hi, li, yi) == (w as int, h as int, l as int, y as int),
                            0 <= x < w,
                            texture@ == t,
                            0 <= max_width,
                            x + max_width <= w,
                            forall|k: int| 0 <= k < max_width ==> #[trigger] full_tex(g, v, wi, hi, li, x + k, yi, z as int) == Some(t),
                            !go ==> full_tex(g, v, wi, hi, li, x + max_width, yi, z as int) != Some(t),
                        decreases w - x - max_width, if go { 1int } else { 0int },
                    {
                        match full_block_texture_at(map, visited, x + max_width, y, z) {
                            Some(tt) => {
                                if crate::text::str_eq(tt, texture) {
                                    max_width = max_width + 1;
                                } else {
                                    go = false;
                                }
                            },
                            None => {
                                go = false;
                            },
                        }
                    }
                    proof {
                        lemma_run_split(g, v, wi, hi, li, x as int, yi, z as int, t, max_width as int);
                        lemma_run_bounds(g, v, wi, hi, li, x + max_width, yi, z as int, t);
                        assert(full_tex(g, v, wi, hi, li, x + 0, yi, z as int) == Some(t));
                    }
                    assert(max_width == run_len(g, v, wi, hi, li, x as int, yi, z as int, t));
                    assert(max_width >= 1);
                    let mut min_width = max_width;
                    let mut depth: i32 = 0;
                    let mut more = true;
                    assert forall|x2: int, z2: int, d2: int| #[trigger] cand(g, v, wi, hi, li, yi, x2, z2, d2) && earlier(x2, z2, d2, x as int, z as int, 1)
                        implies earlier(x2, z2, d2, x as int, z as int, 0) by {}
                    while more && z + depth < l
                        invariant
                            scene_ok(map, visited@),
                            g == cells_view(map.blocks@),
                            v == visited@,
                            w == map.width,
                            h == map.height,
                            l == map.length,
                            (wi, hi, li, yi) == (w as int, h as int, l as int, y as int),
                            0 <= y < h,
                            0 <= z < l,
                            0 <= x < w,
                            w * l <= i32::MAX,
                            texture@ == t,
                            full_tex(g, v, wi, hi, li, x as int, yi, z as int) == Some(t),
                            0 <= depth,
                            z + depth <= l,
                            min_width == min_run(g, v, wi, hi, li, x as int, yi, z as int, t, if depth == 0 { 1 } else { depth as int }),
                            1 <= min_width,
                            x + min_width <= w,
                            more ==> best_inv(g, v, wi, hi, li, yi, best, best_area as int, x as int, z as int, depth + 1),
                            !more ==> depth >= 1 && min_run(g, v, wi, hi, li, x as int, yi, z as int, t, depth + 1) == 0,
                            !more ==> best_inv(g, v, wi, hi, li, yi, best, best_area as int, x as int, z as int, depth + 1),
                        decreases l - z - depth, if more { 1int } else { 0int },
                    {
                        let mut row_width: i32 = 0;
                        let mut go2 = true;
                        while go2 && row_width < min_width
                            invariant
                                scene_ok(map, visited@),
                                g == cells_view(map.blocks@),
                                v == visited@,
                                w == map.width,
                                h == map.height,
                                l == map.length,
                                (wi, hi, li, yi) == (w as int, h as int, l as int, y as int),
                                0 <= x < w,
                                0 <= z,
                                z + depth < l,
                                texture@ == t,
                                0 <= row_width <= min_width,
                                x + min_width <= w,
                                forall|k: int| 0 <= k < row_width ==> #[trigger] full_tex(g, v, wi, hi, li, x + k, yi, z + depth) == Some(t),
                                !go2 ==> full_tex(g, v, wi, hi, li, x + row_width, yi, z + depth) != Some(t),
                            decreases min_width - row_width, if go2 { 1int } else { 0int },
                        {
                            match full_block_texture_at(map, visited, x + row_width, y, z + depth) {
                                Some(tt) => {
                                    if crate::text::str_eq(tt, texture) {
                                        row_width = row_width + 1;
                                    } else {
                                        go2 = false;
                                    }
                                },
                                None => {
                                    go2 = false;
                                },
                            }
                        }
                        let ghost d1 = depth + 1;
                        proof {
                            lemma_run_split(g, v, wi, hi, li, x as int, yi, z + depth, t, row_width as int);
                            lemma_run_bounds(g, v, wi, hi, li, x + row_width, yi, z + depth, t);
                            let rr = run_len(g, v, wi, hi, li, x as int, yi, z + depth, t);
                            if go2 {
                                assert(rr >= min_width);
                            } else {
                                assert(rr == row_width);
                            }
                            assert(row_width == (if rr < min_width { rr } else { min_width as int }));
                            if depth == 0 {
                                assert(min_run(g, v, wi, hi, li, x as int, yi, z as int, t, d1) == rr);
                            } else {
                                assert(min_run(g, v, wi, hi, li, x as int, yi, z as int, t, d1)
                                    == (if rr < min_width { rr } else { min_width as int }));
                            }
                        }
                        assert(row_width == min_run(g, v, wi, hi, li, x as int, yi, z as int, t, d1));
                        if row_width == 0 {
                            more = false;
                        } else {
                            min_width = if row_width < min_width { row_width } else { min_width };
                            proof {
                                assert(min_width * d1 <= w * l) by (nonlinear_arith)
                                    requires 1 <= min_width <= w, 1 <= d1 <= l;
                            }
                            let area_here = min_width * (depth + 1);
                            assert(cand(g, v, wi, hi, li, yi, x as int, z as int, d1));
                            assert(area(g, v, wi, hi, li, yi, x as int, z as int, d1) == area_here);
                            if area_here > best_area {
                                let tex_owned = crate::text::owned(texture);
                                best_area = area_here;
                                best = Some((x, z, min_width, depth + 1, tex_owned));
                                proof {
                                    lemma_cand_area(g, v, wi, hi, li, yi, x as int, z as int, d1);
                                }
                            }
                            depth = depth + 1;
                            assert forall|x2: int, z2: int, d2: int| #[trigger] cand(g, v, wi, hi, li, yi, x2, z2, d2) && earlier(x2, z2, d2, x as int, z as int, depth + 1)
                                implies area(g, v, wi, hi, li, yi, x2, z2, d2) <= best_area by {
                                if x2 == x && z2 == z && d2 == depth {
                                } else {
                                    assert(earlier(x2, z2, d2, x as int, z as int, depth as int));
                                }
                            }
                        }
                    }
                    proof {
                        assert forall|x2: int, z2: int, d2: int| #[trigger] cand(g, v, wi, hi, li, yi, x2, z2, d2) && earlier(x2, z2, d2, x + 1, z as int, 0)
                            implies area(g, v, wi, hi, li, yi, x2, z2, d2) <= best_area by {
                            if x2 == x && z2 == z && d2 >= depth + 1 {
                                if more {
                                    assert(z2 + d2 > l);
                                } else {
                                    lemma_min_run_mono(g, v, wi, hi, li, x as int, yi, z as int, t, depth + 1, d2);
                                    lemma_min_run_nonneg(g, v, wi, hi, li, x as int, yi, z as int, t, d2);
                                }
                            } else {
                                assert(earlier(x2, z2, d2, x as int, z as int, depth + 1));
                            }
                        }
                    }
                },
            }
            x = x + 1;
        }
        assert forall|x2: int, z2: int, d2: int| #[trigger] cand(g, v, wi, hi, li, yi, x2, z2, d2) && earlier(x2, z2, d2, 0, z + 1, 0)
            implies earlier(x2, z2, d2, w as int, z as int, 0) by {}
        z = z + 1;
    }
    proof {
        if best is Some {
            {
                let rv = rect_view(best->0);
                assert forall|x2: int, z2: int, d2: int| #[trigger] cand(g, v, wi, hi, li, yi, x2, z2, d2)
                    implies area(g, v, wi, hi, li, yi, x2, z2, d2) <= area(g, v, wi, hi, li, yi, rv.0, rv.1, rv.3) by {
                    assert(earlier(x2, z2, d2, 0, li, 0));
                }
                assert(is_best_rect(g, v, wi, hi, li, yi, rv));
                let c = choose|c: (int, int, int, int, Seq<char>)| is_best_rect(g, v, wi, hi, li, yi, c);
                lemma_best_unique(g, v, wi, hi, li, yi, rv, c);
            }
        } else {
            {
                assert forall|c: (int, int, int, int, Seq<char>)| !is_best_rect(g, v, wi, hi, li, yi, c) by {
                    if is_best_rect(g, v, wi, hi, li, yi, c) {
                        assert(cand(g, v, wi, hi, li, yi, c.0, c.1, c.3));
                        assert(earlier(c.0, c.1, c.3, 0, li, 0));
                        lemma_cand_area(g, v, wi, hi, li, yi, c.0, c.1, c.3);
                    }
                }
            }
        }
    }
    best
}

/// Every block of the `wd` x `dep` rectangle at `(x, yy, z)` is an
/// unvisited full block of texture `t`, on a layer inside the grid.
pub open spec fn rect_fits(g: Seq<Option<BlockView>>, v: Seq<bool>, w: int, h: int, l: int, x: int, yy: int, z: int, wd: int, dep: int, t: Seq<char>) -> bool {
    &&& yy < h
    &&& forall|dx: int, dz: int| 0 <= dx < wd && 0 <= dz < dep ==> #[trigger] full_tex(g, v, w, h, l, x + dx, yy, z + dz) == Some(t)
}

/// How many layers from `yy` upwards the rectangle fits on, one after another.
pub open spec fn rise(g: Seq<Option<BlockView>>, v: Seq<bool>, w: int, h: int, l: int, x: int, yy: int, z: int, wd: int, dep: int, t: Seq<char>) -> int
    decreases h - yy,
{
    if yy < h && rect_fits(g, v, w, h, l, x, yy, z, wd, dep, t) {
        1 + rise(g, v, w, h, l, x, yy + 1, z, wd, dep, t)
    } else {
        0
    }
}

pub proof fn lemma_rise_bounds(g: Seq<Option<BlockView>>, v: Seq<bool>, w: int, h: int, l: int, x: int, yy: int, z: int, wd: int, dep: int, t: Seq<char>)
    ensures
        0 <= rise(g, v, w, h, l, x, yy, z, wd, dep, t),
        yy <= h ==> yy + rise(g, v, w, h, l, x, yy, z, wd, dep, t) <= h,
    decreases h - yy,
{
    if yy < h && rect_fits(g, v, w, h, l, x, yy, z, wd, dep, t) {
        lemma_rise_bounds(g, v, w, h, l, x, yy + 1, z, wd, dep, t);
    }
}

/// Cell `(px, py, pz)` lies in the box with corner `(x, y, z)` and size `wd` x `ht` x `dep`.
pub open spec fn in_box(px: int, py: int, pz: int, x: int, y: int, z: int, wd: int, ht: int, dep: int) -> bool {
    x <= px < x + wd && y <= py < y + ht && z <= pz < z + dep
}

/// The visited marks with a box marked.
pub open spec fn mark_box(v: Seq<bool>, w: int, l: int, x: int, y: int, z: int, wd: int, ht: int, dep: int) -> Seq<bool> {
    Seq::new(v.len(), |j: int| v[j] || in_box(pos_x(w, j), pos_y(w, l, j), pos_z(w, l, j), x, y, z, wd, ht, dep))
}

/// The number of unvisited cells.
pub open spec fn count_false(v: Seq<bool>) -> nat
    decreases v.len(),
{
    if v.len() == 0 {
        0
    } else {
        count_false(v.drop_last()) + if v.last() { 0nat } else { 1nat }
    }
}

pub proof fn lemma_count_false(v: Seq<bool>, v2: Seq<bool>, j0: int)
    requires
        v.len() == v2.len(),
        forall|j: int| 0 <= j < v.len() && #[trigger] v[j] ==> v2[j],
    ensures
        count_false(v2) <= count_false(v),
        0 <= j0 < v.len() && !v[j0] && v2[j0] ==> count_false(v2) < count_false(v),
    decreases v.len(),
{
    if v.len() > 0 {
        let a = v.drop_last();
        let b = v2.drop_last();
        assert forall|j: int| 0 <= j < a.len() && #[trigger] a[j] implies b[j] by {
            assert(v[j]);
        }
        if v.last() {
            assert(v2[v.len() - 1]);
        }
        lemma_count_false(a, b, j0);
    }
}

/// The brush of a merged rectangle of full blocks.
pub open spec fn rect_brush(x: int, z: int, wd: int, dep: int, y: int, ht: int, t: Seq<char>, w: int, l: int) -> BrushView {
    bv(quake(x, z, y, w, l), quake(x + wd, z + dep, y + ht, w, l), t, BrushKind::Box)
}

/// The grid's sizes agree with the visited marks.
pub open spec fn sizes_ok(g: Seq<Option<BlockView>>, v: Seq<bool>, w: int, h: int, l: int) -> bool {
    0 <= w && 0 <= h && 0 <= l && g.len() == w * h * l && v.len() == g.len()
}

pub proof fn lemma_layer_step(g: Seq<Option<BlockView>>, v: Seq<bool>, w: int, h: int, l: int, y: int, r: (int, int, int, int, Seq<char>), ht: int)
    requires
        sizes_ok(g, v, w, h, l),
        best_rect(g, v, w, h, l, y) == Some(r),
        ht >= 1,
    ensures
        count_false(mark_box(v, w, l, r.0, y, r.1, r.2, ht, r.3)) < count_false(v),
        is_best_rect(g, v, w, h, l, y, r),
{
    assert(is_best_rect(g, v, w, h, l, y, r));
    assert(cand(g, v, w, h, l, y, r.0, r.1, r.3));
    let j0 = idx(w, l, r.0, y, r.1);
    lemma_idx(w, h, l, r.0, y, r.1);
    let v2 = mark_box(v, w, l, r.0, y, r.1, r.2, ht, r.3);
    assert(v2[j0]);
    lemma_count_false(v, v2, j0);
}

/// Merges the full blocks of layer `y` into rectangles, best first, until
/// none is left; each rectangle is raised through the layers above while it
/// fits. Returns the new marks and the brushes after those in `out`.
pub open spec fn layer_pass(g: Seq<Option<BlockView>>, w: int, h: int, l: int, y: int, v: Seq<bool>, out: Seq<BrushView>) -> (Seq<bool>, Seq<BrushView>)
    decreases count_false(v),
{
    if !sizes_ok(g, v, w, h, l) {
        (v, out)
    } else {
        match best_rect(g, v, w, h, l, y) {
            None => (v, out),
            Some(r) => {
                let ht = 1 + rise(g, v, w, h, l, r.0, y + 1, r.1, r.2, r.3, r.4);
                let v2 = mark_box(v, w, l, r.0, y, r.1, r.2, ht, r.3);
                proof {
                    lemma_rise_bounds(g, v, w, h, l, r.0, y + 1, r.1, r.2, r.3, r.4);
                    lemma_layer_step(g, v, w, h, l, y, r, ht);
                }
                layer_pass(g, w, h, l, y, v2, out.push(rect_brush(r.0, r.1, r.2, r.3, y, ht, r.4, w, l)))
            },
        }
    }
}

/// [`layer_pass`] over the layers from `y` up.
pub open spec fn rect_pass(g: Seq<Option<BlockView>>, w: int, h: int, l: int, y: int, v: Seq<bool>, out: Seq<BrushView>) -> (Seq<bool>, Seq<BrushView>)
    decreases h - y,
{
    if y >= h {
        (v, out)
    } else {
        let (v2, o2) = layer_pass(g, w, h, l, y, v, out);
        rect_pass(g, w, h, l, y + 1, v2, o2)
    }
}

/// Whether the rectangle fits on layer `y`, as [`rect_fits`] says.
fn can_extend_full_rect_up(map: &VoxelMap, visited: &Vec<bool>, x: i32, y: i32, z: i32, width: i32, depth: i32, texture: &str) -> (r: bool)
    requires
        scene_ok(map, visited@),
        0 < width && 0 < depth ==> x + (width - 1) <= i32::MAX && z + (depth - 1) <= i32::MAX,
    ensures
        r == rect_fits(cells_view(map.blocks@), visited@, map.width as int, map.height as int, map.length as int, x as int, y as int, z as int, width as int, depth as int, texture@),
{
    let ghost g = cells_view(map.blocks@);
    let ghost (wi, hi, li) = (map.width as int, map.height as int, map.length as int);
    if y >= map.height {
        return false;
    }
    let mut dz: i32 = 0;
    while dz < depth
        invariant
            scene_ok(map, visited@),
            g == cells_view(map.blocks@),
            (wi, hi, li) == (map.width as int, map.height as int, map.length as int),
            y < map.height,
            0 <= dz,
            dz < depth || dz == 0 || dz == depth,
            0 < width && 0 < depth ==> x + (width - 1) <= i32::MAX && z + (depth - 1) <= i32::MAX,
            forall|ddx: int, ddz: int| 0 <= ddx < width && 0 <= ddz < dz ==> #[trigger] full_tex(g, visited@, wi, hi, li, x + ddx, y as int, z + ddz) == Some(texture@),
        decreases depth - dz,
    {
        let mut dx: i32 = 0;
        while dx < width
            invariant
                scene_ok(map, visited@),
                g == cells_view(map.blocks@),
                (wi, hi, li) == (map.width as int, map.height as int, map.length as int),
                0 <= dz < depth,
                0 <= dx,
                width > 0 ==> dx <= width,
                width > 0 ==> x + (width - 1) <= i32::MAX && z + (depth - 1) <= i32::MAX,
                forall|ddx: int, ddz: int| 0 <= ddx < width && 0 <= ddz < dz ==> #[trigger] full_tex(g, visited@, wi, hi, li, x + ddx, y as int, z + ddz) == Some(texture@),
                forall|ddx: int| 0 <= ddx < dx ==> #[trigger] full_tex(g, visited@, wi, hi, li, x + ddx, y as int, z + dz) == Some(texture@),
            decreases width - dx,
        {
            match full_block_texture_at(map, visited, x + dx, y, z + dz) {
                Some(t) => {
                    if !crate::text::str_eq(t, texture) {
                        return false;
                    }
                },
                None => {
                    return false;
                },
            }
            dx = dx + 1;
        }
        assert forall|ddx: int, ddz: int| 0 <= ddx < width && 0 <= ddz < dz + 1 implies #[trigger] full_tex(g, visited@, wi, hi, li, x + ddx, y as int, z + ddz) == Some(texture@) by {
            if ddz == dz {
                assert(full_tex(g, visited@, wi, hi, li, x + ddx, y as int, z + dz) == Some(texture@));
            }
        }
        dz = dz + 1;
    }
    true
}

/// The cell lies in the box and comes before the cursor `(cx, cy, cz)` in
/// the order `y`, then `z`, then `x`.
pub open spec fn marked_before(px: int, py: int, pz: int, x: int, y: int, z: int, wd: int, dep: int, cx: int, cy: int, cz: int) -> bool {
    &&& x <= px < x + wd
    &&& z <= pz < z + dep
    &&& y <= py
    &&& (py < cy || (py == cy && (pz < cz || (pz == cz && px < cx))))
}

/// Marks the box with corner `(x, y, z)` and size `width` x `height` x `depth` visited.
fn mark_full_rect_visited(map: &VoxelMap, visited: &mut Vec<bool>, x: i32, y: i32, z: i32, width: i32, height: i32, depth: i32)
    requires
        scene_ok(map, old(visited)@),
        0 <= x,
        0 <= width,
        x + width <= map.width,
        0 <= y,
        0 <= height,
        y + height <= map.height,
        0 <= z,
        0 <= depth,
        z + depth <= map.length,
    ensures
        final(visited)@ == mark_box(old(visited)@, map.width as int, map.length as int, x as int, y as int, z as int, width as int, height as int, depth as int),
{
    let ghost v0 = visited@;
    let ghost (wi, hi, li) = (map.width as int, map.height as int, map.length as int);
    let n = visited.len();
    let mut dy: i32 = 0;
    while dy < height
        invariant
            scene_ok(map, visited@),
            (wi, hi, li) == (map.width as int, map.height as int, map.length as int),
            n == visited@.len(),
            v0.len() == n,
            0 <= dy <= height,
            0 <= x, x + width <= map.width, 0 <= y, y + height <= map.height, 0 <= z, z + depth <= map.length, 0 <= width, 0 <= depth,
            forall|j: int| 0 <= j < n ==> #[trigger] visited@[j] == (v0[j] || marked_before(pos_x(wi, j), pos_y(wi, li, j), pos_z(wi, li, j), x as int, y as int, z as int, width as int, depth as int, x as int, y + dy, z as int)),
        decreases height - dy,
    {
        let mut dz: i32 = 0;
        assert forall|j: int| 0 <= j < n implies #[trigger] visited@[j] == (v0[j] || marked_before(pos_x(wi, j), pos_y(wi, li, j), pos_z(wi, li, j), x as int, y as int, z as int, width as int, depth as int, x as int, y + dy, z + dz)) by {
            assert(visited@[j] == (v0[j] || marked_before(pos_x(wi, j), pos_y(wi, li, j), pos_z(wi, li, j), x as int, y as int, z as int, width as int, depth as int, x as int, y + dy, z as int)));
        }
        while dz < depth
            invariant
                scene_ok(map, visited@),
                (wi, hi, li) == (map.width as int, map.height as int, map.length as int),
                n == visited@.len(),
                v0.len() == n,
                0 <= dy < height,
                0 <= dz <= depth,
                0 <= x, x + width <= map.width, 0 <= y, y + height <= map.height, 0 <= z, z + depth <= map.length, 0 <= width, 0 <= depth,
                forall|j: int| 0 <= j < n ==> #[trigger] visited@[j] == (v0[j] || marked_before(pos_x(wi, j), pos_y(wi, li, j), pos_z(wi, li, j), x as int, y as int, z as int, width as int, depth as int, x as int, y + dy, z + dz)),
            decreases depth - dz,
        {
            let mut dx: i32 = 0;
            assert forall|j: int| 0 <= j < n implies #[trigger] visited@[j] == (v0[j] || marked_before(pos_x(wi, j), pos_y(wi, li, j), pos_z(wi, li, j), x as int, y as int, z as int, width as int, depth as int, x + dx, y + dy, z + dz)) by {
                assert(visited@[j] == (v0[j] || marked_before(pos_x(wi, j), pos_y(wi, li, j), pos_z(wi, li, j), x as int, y as int, z as int, width as int, depth as int, x as int, y + dy, z + dz)));
            }
            while dx < width
                invariant
                    scene_ok(map, visited@),
                    (wi, hi, li) == (map.width as int, map.height as int, map.length as int),
                    n == visited@.len(),
                    v0.len() == n,
                    0 <= dy < height,
                    0 <= dz < depth,
                    0 <= dx <= width,
                    0 <= x, x + width <= map.width, 0 <= y, y + height <= map.height, 0 <= z, z + depth <= map.length, 0 <= width, 0 <= depth,
                    forall|j: int| 0 <= j < n ==> #[trigger] visited@[j] == (v0[j] || marked_before(pos_x(wi, j), pos_y(wi, li, j), pos_z(wi, li, j), x as int, y as int, z as int, width as int, depth as int, x + dx, y + dy, z + dz)),
                decreases width - dx,
            {
                let i = index_of(map.width, map.height, map.length, x + dx, y + dy, z + dz);
                proof {
                    lemma_idx(wi, hi, li, x + dx, y + dy, z + dz);
                }
                let ghost before = visited@;
                visited.set(i, true);
                proof {
                    assert forall|j: int| 0 <= j < n implies #[trigger] visited@[j] == (v0[j] || marked_before(pos_x(wi, j), pos_y(wi, li, j), pos_z(wi, li, j), x as int, y as int, z as int, width as int, depth as int, x + dx + 1, y + dy, z + dz)) by {
                        lemma_pos(wi, hi, li, j);
                        if j != i {
                            assert(before[j] == visited@[j]);
                            if pos_x(wi, j) == x + dx && pos_y(wi, li, j) == y + dy && pos_z(wi, li, j) == z + dz {
                                assert(j == i);
                            }
                        }
                    }
                }
                dx = dx + 1;
            }
            assert forall|j: int| 0 <= j < n implies #[trigger] visited@[j] == (v0[j] || marked_before(pos_x(wi, j), pos_y(wi, li, j), pos_z(wi, li, j), x as int, y as int, z as int, width as int, depth as int, x as int, y + dy, z + dz + 1)) by {
                lemma_pos(wi, hi, li, j);
            }
            dz = dz + 1;
        }
        assert forall|j: int| 0 <= j < n implies #[trigger] visited@[j] == (v0[j] || marked_before(pos_x(wi, j), pos_y(wi, li, j), pos_z(wi, li, j), x as int, y as int, z as int, width as int, depth as int, x as int, y + dy + 1, z as int)) by {
            lemma_pos(wi, hi, li, j);
        }
        dy = dy + 1;
    }
    assert(visited@ =~= mark_box(v0, wi, li, x as int, y as int, z as int, width as int, height as int, depth as int));
}

/// The grid is well formed, its sizes give map coordinates that fit in an
/// `i32`, and there is one mark per cell.
pub open spec fn mesh_ok(map: &VoxelMap, v: Seq<bool>) -> bool {
    &&& scene_ok(map, v)
    &&& fits_across(map.width as int)
    &&& fits_up(map.height as int)
    &&& fits_across(map.length as int)
}

/// Merges the full blocks of every layer into rectangles, as [`rect_pass`] says.
fn optimize_full_blocks_best_rectangles(map: &VoxelMap, visited: &mut Vec<bool>, brushes: &mut Vec<Brush>)
    requires
        mesh_ok(map, old(visited)@),
    ensures
        final(visited)@.len() == old(visited)@.len(),
        (final(visited)@, brushes_view(final(brushes)@)) == rect_pass(
            cells_view(map.blocks@),
            map.width as int,
            map.height as int,
            map.length as int,
            0,
            old(visited)@,
            brushes_view(old(brushes)@),
        ),
{
    let ghost g = cells_view(map.blocks@);
    let ghost (wi, hi, li) = (map.width as int, map.height as int, map.length as int);
    let ghost target = rect_pass(g, wi, hi, li, 0, visited@, brushes_view(brushes@));
    let w = map.width;
    let h = map.height;
    let l = map.length;
    let mut y: i32 = 0;
    while y < h
        invariant
            mesh_ok(map, visited@),
            g == cells_view(map.blocks@),
            (wi, hi, li) == (w as int, h as int, l as int),
            w == map.width,
            h == map.height,
            l == map.length,
            0 <= y <= h,
            rect_pass(g, wi, hi, li, y as int, visited@, brushes_view(brushes@)) == target,
        decreases h - y,
    {
        let mut done = false;
        while !done
            invariant
                mesh_ok(map, visited@),
                g == cells_view(map.blocks@),
                (wi, hi, li) == (w as int, h as int, l as int),
                w == map.width,
                h == map.height,
                l == map.length,
                0 <= y < h,
                !done ==> ({
                    let (v2, o2) = layer_pass(g, wi, hi, li, y as int, visited@, brushes_view(brushes@));
                    rect_pass(g, wi, hi, li, y + 1, v2, o2) == target
                }),
                done ==> rect_pass(g, wi, hi, li, y + 1, visited@, brushes_view(brushes@)) == target,
            decreases count_false(visited@), if done { 0int } else { 1int },
        {
            let ghost v = visited@;
            let ghost o = brushes_view(brushes@);
            match find_best_full_rect_on_layer(map, visited, y) {
                None => {
                    done = true;
                },
                Some((x, z, width, depth, texture)) => {
                    let ghost r = (x as int, z as int, width as int, depth as int, texture@);
                    let ghost t = texture@;
                    proof {
                        lemma_layer_step(g, v, wi, hi, li, y as int, r, 1);
                        lemma_min_run_nonneg(g, v, wi, hi, li, x as int, y as int, z as int, t, depth as int);
                        lemma_rise_bounds(g, v, wi, hi, li, x as int, y + 1, z as int, width as int, depth as int, t);
                    }
                    let mut height: i32 = 1;
                    while can_extend_full_rect_up(map, visited, x, y + height, z, width, depth, texture.as_str())
                        invariant
                            mesh_ok(map, visited@),
                            g == cells_view(map.blocks@),
                            v == visited@,
                            (wi, hi, li) == (w as int, h as int, l as int),
                            w == map.width,
                            h == map.height,
                            l == map.length,
                            0 <= y < h,
                            0 <= x, 1 <= width, x + width <= w,
                            0 <= z, 1 <= depth, z + depth <= l,
                            texture@ == t,
                            1 <= height,
                            y + height <= h,
                            rise(g, v, wi, hi, li, x as int, y + 1, z as int, width as int, depth as int, t)
                                == (height - 1) + rise(g, v, wi, hi, li, x as int, y + height, z as int, width as int, depth as int, t),
                        decreases h - y - height,
                    {
                        height = height + 1;
                    }
                    let ghost ht = height as int;
                    assert(ht == 1 + rise(g, v, wi, hi, li, x as int, y + 1, z as int, width as int, depth as int, t));
                    proof {
                        lemma_layer_step(g, v, wi, hi, li, y as int, r, ht);
                    }
                    mark_full_rect_visited(map, visited, x, y, z, width, height, depth);
                    let a = to_quake(x, z, y, w, l);
                    let b = to_quake(x + width, z + depth, y + height, w, l);
                    brushes.push(Brush { min: a, max: b, texture, kind: BrushKind::Box });
                    assert(brushes_view(brushes@) =~= o.push(rect_brush(r.0, r.1, r.2, r.3, y as int, ht, r.4, wi, li)));
                },
            }
        }
        y = y + 1;
    }
}

// ---------------------------------------------------------------------
// Merging slabs and thin panels, and the remaining blocks
// ---------------------------------------------------------------------

/// The unvisited block at `(x, y, z)` has texture `t` and shape `shape`.
pub open spec fn shape_match(g: Seq<Option<BlockView>>, v: Seq<bool>, w: int, l: int, x: int, y: int, z: int, t: Seq<char>, shape: BlockShape) -> bool {
    !v[idx(w, l, x, y, z)] && match g[idx(w, l, x, y, z)] {
        Some(b) => b.texture == t && shape_of(b) == shape,
        None => false,
    }
}

/// Every cell of the box `[x0, x1) x [y0, y1) x [z0, z1)` matches.
pub open spec fn box_match(g: Seq<Option<BlockView>>, v: Seq<bool>, w: int, l: int, t: Seq<char>, shape: BlockShape, x0: int, x1: int, y0: int, y1: int, z0: int, z1: int) -> bool {
    forall|cx: int, cy: int, cz: int| x0 <= cx < x1 && y0 <= cy < y1 && z0 <= cz < z1 ==> #[trigger] shape_match(g, v, w, l, cx, cy, cz, t, shape)
}

/// The end of the box after pushing its `x` face out while the next slice matches.
pub open spec fn grow_x(g: Seq<Option<BlockView>>, v: Seq<bool>, w: int, l: int, t: Seq<char>, shape: BlockShape, ex: int, y0: int, ey: int, z0: int, ez: int) -> int
    decreases w - ex,
{
    if ex < w && box_match(g, v, w, l, t, shape, ex, ex + 1, y0, ey, z0, ez) {
        grow_x(g, v, w, l, t, shape, ex + 1, y0, ey, z0, ez)
    } else {
        ex
    }
}

/// The same along `y`.
pub open spec fn grow_y(g: Seq<Option<BlockView>>, v: Seq<bool>, w: int, h: int, l: int, t: Seq<char>, shape: BlockShape, ey: int, x0: int, ex: int, z0: int, ez: int) -> int
    decreases h - ey,
{
    if ey < h && box_match(g, v, w, l, t, shape, x0, ex, ey, ey + 1, z0, ez) {
        grow_y(g, v, w, h, l, t, shape, ey + 1, x0, ex, z0, ez)
    } else {
        ey
    }
}

/// The same along `z`.
pub open spec fn grow_z(g: Seq<Option<BlockView>>, v: Seq<bool>, w: int, l: int, t: Seq<char>, shape: BlockShape, ez: int, x0: int, ex: int, y0: int, ey: int) -> int
    decreases l - ez,
{
    if ez < l && box_match(g, v, w, l, t, shape, x0, ex, y0, ey, ez, ez + 1) {
        grow_z(g, v, w, l, t, shape, ez + 1, x0, ex, y0, ey)
    } else {
        ez
    }
}

/// The directions a merged run grows in, in order.
#[derive(Copy, Clone, Debug, PartialEq, Eq, Structural)]
pub enum MergeAxes {
    XThenZ,
    ZThenY,
    XThenY,
}

/// How a block of this shape is merged, if at all: slabs spread over their
/// layer, thin panels within their plane.
pub open spec fn axes_for(level: GreedyLevel, shape: BlockShape) -> Option<MergeAxes> {
    if level != GreedyLevel::All {
        None
    } else {
        match shape {
            BlockShape::SlabBottom => Some(MergeAxes::XThenZ),
            BlockShape::SlabTop => Some(MergeAxes::XThenZ),
            BlockShape::ThinPanelNS => Some(MergeAxes::ZThenY),
            BlockShape::ThinPanelEW => Some(MergeAxes::XThenY),
            _ => None,
        }
    }
}

/// One direction a run grows in.
#[derive(Copy, Clone, Debug, PartialEq, Eq, Structural)]
pub enum Axis {
    X,
    Y,
    Z,
}

/// The far corner `e` of a run from `(x, y, z)` after pushing its face
/// along `a` out while the next slice matches.
pub open spec fn grow_along(g: Seq<Option<BlockView>>, v: Seq<bool>, w: int, h: int, l: int, t: Seq<char>, shape: BlockShape, x: int, y: int, z: int, e: (int, int, int), a: Axis) -> (int, int, int) {
    match a {
        Axis::X => (grow_x(g, v, w, l, t, shape, e.0, y, e.1, z, e.2), e.1, e.2),
        Axis::Y => (e.0, grow_y(g, v, w, h, l, t, shape, e.1, x, e.0, z, e.2), e.2),
        Axis::Z => (e.0, e.1, grow_z(g, v, w, l, t, shape, e.2, x, e.0, y, e.1)),
    }
}

/// The far corner of the run grown from `(x, y, z)` along `axes`, in order.
pub open spec fn expand_along(g: Seq<Option<BlockView>>, v: Seq<bool>, w: int, h: int, l: int, t: Seq<char>, shape: BlockShape, x: int, y: int, z: int, axes: Seq<Axis>) -> (int, int, int)
    decreases axes.len(),
{
    if axes.len() == 0 {
        (x + 1, y + 1, z + 1)
    } else {
        grow_along(g, v, w, h, l, t, shape, x, y, z, expand_along(g, v, w, h, l, t, shape, x, y, z, axes.drop_last()), axes.last())
    }
}

/// The axes of each merge order.
pub open spec fn axes_of(ax: MergeAxes) -> Seq<Axis> {
    match ax {
        MergeAxes::XThenZ => seq![Axis::X, Axis::Z],
        MergeAxes::ZThenY => seq![Axis::Z, Axis::Y],
        MergeAxes::XThenY => seq![Axis::X, Axis::Y],
    }
}

/// The far corner of the run grown from `(x, y, z)` in merge order `ax`.
pub open spec fn expand(g: Seq<Option<BlockView>>, v: Seq<bool>, w: int, h: int, l: int, t: Seq<char>, shape: BlockShape, x: int, y: int, z: int, ax: MergeAxes) -> (int, int, int) {
    expand_along(g, v, w, h, l, t, shape, x, y, z, axes_of(ax))
}

/// The brush of a merged run of slabs or thin panels between map corners `a` and `b`.
pub open spec fn merged_brush(a: (int, int, int), b: (int, int, int), shape: BlockShape, t: Seq<char>) -> BrushView {
    let k = BrushKind::Box;
    match shape {
        BlockShape::SlabBottom => bv(a, (b.0, b.1, a.2 + 20), t, k),
        BlockShape::SlabTop => bv((a.0, a.1, a.2 + 20), b, t, k),
        BlockShape::ThinPanelNS => bv((a.0 + 16, a.1, a.2), (a.0 + 24, b.1, b.2), t, k),
        _ => bv((a.0, a.1 + 16, a.2), (b.0, a.1 + 24, b.2), t, k),
    }
}

/// The brushes of the cells from index `j` on, in order, after `out`: a
/// visited or empty cell adds nothing; a block that merges grows its run,
/// marks it, and adds one brush; any other block adds its own brushes.
pub open spec fn scan(g: Seq<Option<BlockView>>, w: int, h: int, l: int, level: GreedyLevel, v: Seq<bool>, out: Seq<BrushView>, j: int) -> Seq<BrushView>
    decreases g.len() - j,
{
    if j < 0 || j >= g.len() || v.len() != g.len() {
        out
    } else if v[j] {
        scan(g, w, h, l, level, v, out, j + 1)
    } else {
        match g[j] {
            None => scan(g, w, h, l, level, v, out, j + 1),
            Some(b) => {
                let x = pos_x(w, j);
                let y = pos_y(w, l, j);
                let z = pos_z(w, l, j);
                let shape = shape_of(b);
                let t = b.texture;
                match axes_for(level, shape) {
                    Some(ax) => {
                        let e = expand(g, v, w, h, l, t, shape, x, y, z, ax);
                        let v2 = mark_box(v, w, l, x, y, z, e.0 - x, e.1 - y, e.2 - z);
                        let brush = merged_brush(quake(x, z, y, w, l), quake(e.0, e.2, e.1, w, l), shape, t);
                        scan(g, w, h, l, level, v2, out.push(brush), j + 1)
                    },
                    None => scan(
                        g,
                        w,
                        h,
                        l,
                        level,
                        v.update(j, true),
                        out + block_boxes(quake(x, z, y, w, l), quake(x + 1, z + 1, y + 1, w, l), shape, t),
                        j + 1,
                    ),
                }
            },
        }
    }
}

/// The brushes of a grid: merged rectangles of full blocks first (unless
/// merging is off), then, cell by cell, the brushes of the remaining blocks.
pub open spec fn optimized(g: Seq<Option<BlockView>>, w: int, h: int, l: int, level: GreedyLevel) -> Seq<BrushView> {
    let v0 = Seq::new(g.len(), |j: int| false);
    let first = if level != GreedyLevel::NoMerge {
        rect_pass(g, w, h, l, 0, v0, Seq::empty())
    } else {
        (v0, Seq::empty())
    };
    scan(g, w, h, l, level, first.0, first.1, 0)
}

/// Whether the unvisited block at `(bx, by, bz)` has this texture and shape.
fn is_shape_match(bx: i32, by: i32, bz: i32, texture: &str, shape: BlockShape, visited: &Vec<bool>, map: &VoxelMap) -> (r: bool)
    requires
        scene_ok(map, visited@),
        in_grid(map.width as int, map.height as int, map.length as int, bx as int, by as int, bz as int),
    ensures
        r == shape_match(cells_view(map.blocks@), visited@, map.width as int, map.length as int, bx as int, by as int, bz as int, texture@, shape),
{
    let i = index_of(map.width, map.height, map.length, bx, by, bz);
    if visited[i] {
        return false;
    }
    match &map.blocks[i] {
        Some(b) => crate::text::str_eq(b.texture.as_str(), texture) && get_shape(b) == shape,
        None => false,
    }
}

/// Whether every cell of a box matches, as [`box_match`] says.
fn box_matches(map: &VoxelMap, visited: &Vec<bool>, texture: &str, shape: BlockShape, x0: i32, x1: i32, y0: i32, y1: i32, z0: i32, z1: i32) -> (r: bool)
    requires
        scene_ok(map, visited@),
        0 <= x0 <= x1 <= map.width,
        0 <= y0 <= y1 <= map.height,
        0 <= z0 <= z1 <= map.length,
    ensures
        r == box_match(cells_view(map.blocks@), visited@, map.width as int, map.length as int, texture@, shape, x0 as int, x1 as int, y0 as int, y1 as int, z0 as int, z1 as int),
{
    let ghost g = cells_view(map.blocks@);
    let ghost (wi, li) = (map.width as int, map.length as int);
    let mut cy = y0;
    while cy < y1
        invariant
            scene_ok(map, visited@),
            g == cells_view(map.blocks@),
            (wi, li) == (map.width as int, map.length as int),
            0 <= x0 <= x1 <= map.width,
            0 <= y0 <= cy <= y1 <= map.height,
            0 <= z0 <= z1 <= map.length,
            forall|ax: int, ay: int, az: int| x0 <= ax < x1 && y0 <= ay < cy && z0 <= az < z1 ==> #[trigger] shape_match(g, visited@, wi, li, ax, ay, az, texture@, shape),
        decreases y1 - cy,
    {
        let mut cz = z0;
        while cz < z1
            invariant
                scene_ok(map, visited@),
                g == cells_view(map.blocks@),
                (wi, li) == (map.width as int, map.length as int),
                0 <= x0 <= x1 <= map.width,
                0 <= y0 <= cy < y1 <= map.height,
                0 <= z0 <= cz <= z1 <= map.length,
                forall|ax: int, ay: int, az: int| x0 <= ax < x1 && y0 <= ay < cy && z0 <= az < z1 ==> #[trigger] shape_match(g, visited@, wi, li, ax, ay, az, texture@, shape),
                forall|ax: int, az: int| x0 <= ax < x1 && z0 <= az < cz ==> #[trigger] shape_match(g, visited@, wi, li, ax, cy as int, az, texture@, shape),
            decreases z1 - cz,
        {
            let mut cx = x0;
            while cx < x1
                invariant
                    scene_ok(map, visited@),
                    g == cells_view(map.blocks@),
                    (wi, li) == (map.width as int, map.length as int),
                    0 <= x0 <= cx <= x1 <= map.width,
                    0 <= y0 <= cy < y1 <= map.height,
                    0 <= z0 <= cz < z1 <= map.length,
                    forall|ax: int, ay: int, az: int| x0 <= ax < x1 && y0 <= ay < cy && z0 <= az < z1 ==> #[trigger] shape_match(g, visited@, wi, li, ax, ay, az, texture@, shape),
                    forall|ax: int, az: int| x0 <= ax < x1 && z0 <= az < cz ==> #[trigger] shape_match(g, visited@, wi, li, ax, cy as int, az, texture@, shape),
                    forall|ax: int| x0 <= ax < cx ==> #[trigger] shape_match(g, visited@, wi, li, ax, cy as int, cz as int, texture@, shape),
                decreases x1 - cx,
            {
                if !is_shape_match(cx, cy, cz, texture, shape, visited, map) {
                    return false;
                }
                cx = cx + 1;
            }
            assert forall|ax: int, az: int| x0 <= ax < x1 && z0 <= az < cz + 1 implies #[trigger] shape_match(g, visited@, wi, li, ax, cy as int, az, texture@, shape) by {
                if az == cz {
                    assert(shape_match(g, visited@, wi, li, ax, cy as int, cz as int, texture@, shape));
                }
            }
            cz = cz + 1;
        }
        assert forall|ax: int, ay: int, az: int| x0 <= ax < x1 && y0 <= ay < cy + 1 && z0 <= az < z1 implies #[trigger] shape_match(g, visited@, wi, li, ax, ay, az, texture@, shape) by {
            if ay == cy {
                assert(shape_match(g, visited@, wi, li, ax, cy as int, az, texture@, shape));
            }
        }
        cy = cy + 1;
    }
    true
}

/// The far corner of the run of matching blocks grown from `(x, y, z)`
/// along the given axes, in order, as [`expand_along`] says.
fn greedy_expand(x: i32, y: i32, z: i32, texture: &str, shape: BlockShape, axes: &[Axis], map: &VoxelMap, visited: &Vec<bool>) -> (r: (i32, i32, i32))
    requires
        scene_ok(map, visited@),
        in_grid(map.width as int, map.height as int, map.length as int, x as int, y as int, z as int),
    ensures
        (r.0 as int, r.1 as int, r.2 as int) == expand_along(cells_view(map.blocks@), visited@, map.width as int, map.height as int, map.length as int, texture@, shape, x as int, y as int, z as int, axes@),
        x < r.0 <= map.width,
        y < r.1 <= map.height,
        z < r.2 <= map.length,
{
    let ghost g = cells_view(map.blocks@);
    let ghost (wi, hi, li) = (map.width as int, map.height as int, map.length as int);
    let w = map.width;
    let h = map.height;
    let l = map.length;
    let mut ex = x + 1;
    let mut ey = y + 1;
    let mut ez = z + 1;
    assert(axes@.take(0) =~= Seq::<Axis>::empty());
    let mut i: usize = 0;
    while i < axes.len()
        invariant
            scene_ok(map, visited@),
            g == cells_view(map.blocks@),
            (wi, hi, li) == (w as int, h as int, l as int),
            w == map.width, h == map.height, l == map.length,
            in_grid(wi, hi, li, x as int, y as int, z as int),
            i <= axes@.len(),
            x < ex <= w,
            y < ey <= h,
            z < ez <= l,
            (ex as int, ey as int, ez as int) == expand_along(g, visited@, wi, hi, li, texture@, shape, x as int, y as int, z as int, axes@.take(i as int)),
        decreases axes.len() - i,
    {
        assert(axes@.take(i + 1).drop_last() =~= axes@.take(i as int));
        assert(axes@.take(i + 1).last() == axes@[i as int]);
        let ghost (ex0, ey0, ez0) = (ex, ey, ez);
        match axes[i] {
            Axis::X => {
                let mut go = true;
                while go && ex < w
                    invariant
                        scene_ok(map, visited@),
                        g == cells_view(map.blocks@),
                        (wi, hi, li) == (w as int, h as int, l as int),
                        w == map.width, h == map.height, l == map.length,
                        x < ex0 <= ex <= w,
                        in_grid(wi, hi, li, x as int, y as int, z as int),
                        y < ey <= h,
                        z < ez <= l,
                        grow_x(g, visited@, wi, li, texture@, shape, ex0 as int, y as int, ey as int, z as int, ez as int)
                            == if go { grow_x(g, visited@, wi, li, texture@, shape, ex as int, y as int, ey as int, z as int, ez as int) } else { ex as int },
                    decreases w - ex, if go { 1int } else { 0int },
                {
                    if box_matches(map, visited, texture, shape, ex, ex + 1, y, ey, z, ez) {
                        ex = ex + 1;
                    } else {
                        go = false;
                    }
                }
            },
            Axis::Y => {
                let mut go = true;
                while go && ey < h
                    invariant
                        scene_ok(map, visited@),
                        g == cells_view(map.blocks@),
                        (wi, hi, li) == (w as int, h as int, l as int),
                        w == map.width, h == map.height, l == map.length,
                        x < ex <= w,
                        y < ey0 <= ey <= h,
                        in_grid(wi, hi, li, x as int, y as int, z as int),
                        z < ez <= l,
                        grow_y(g, visited@, wi, hi, li, texture@, shape, ey0 as int, x as int, ex as int, z as int, ez as int)
                            == if go { grow_y(g, visited@, wi, hi, li, texture@, shape, ey as int, x as int, ex as int, z as int, ez as int) } else { ey as int },
                    decreases h - ey, if go { 1int } else { 0int },
                {
                    if box_matches(map, visited, texture, shape, x, ex, ey, ey + 1, z, ez) {
                        ey = ey + 1;
                    } else {
                        go = false;
                    }
                }
            },
            Axis::Z => {
                let mut go = true;
                while go && ez < l
                    invariant
                        scene_ok(map, visited@),
                        g == cells_view(map.blocks@),
                        (wi, hi, li) == (w as int, h as int, l as int),
                        w == map.width, h == map.height, l == map.length,
                        x < ex <= w,
                        y < ey <= h,
                        z < ez0 <= ez <= l,
                        in_grid(wi, hi, li, x as int, y as int, z as int),
                        grow_z(g, visited@, wi, li, texture@, shape, ez0 as int, x as int, ex as int, y as int, ey as int)
                            == if go { grow_z(g, visited@, wi, li, texture@, shape, ez as int, x as int, ex as int, y as int, ey as int) } else { ez as int },
                    decreases l - ez, if go { 1int } else { 0int },
                {
                    if box_matches(map, visited, texture, shape, x, ex, y, ey, ez, ez + 1) {
                        ez = ez + 1;
                    } else {
                        go = false;
                    }
                }
            },
        }
        i = i + 1;
    }
    assert(axes@.take(axes@.len() as int) =~= axes@);
    (ex, ey, ez)
}

/// The axes of merge order `ax`, as a list.
fn axes_list(ax: MergeAxes) -> (r: Vec<Axis>)
    ensures
        r@ == axes_of(ax),
{
    let r = match ax {
        MergeAxes::XThenZ => vec![Axis::X, Axis::Z],
        MergeAxes::ZThenY => vec![Axis::Z, Axis::Y],
        MergeAxes::XThenY => vec![Axis::X, Axis::Y],
    };
    assert(r@ =~= axes_of(ax));
    r
}

fn merge_axes(level: GreedyLevel, shape: BlockShape) -> (r: Option<MergeAxes>)
    ensures
        r == axes_for(level, shape),
{
    if level != GreedyLevel::All {
        return None;
    }
    match shape {
        BlockShape::SlabBottom | BlockShape::SlabTop => Some(MergeAxes::XThenZ),
        BlockShape::ThinPanelNS => Some(MergeAxes::ZThenY),
        BlockShape::ThinPanelEW => Some(MergeAxes::XThenY),
        _ => None,
    }
}

fn merged_run_brush(a: (i32, i32, i32), b: (i32, i32, i32), shape: BlockShape, texture: String) -> (r: Brush)
    requires
        box_in_i32(merged_brush(iv(a), iv(b), shape, Seq::empty())),
    ensures
        r@ == merged_brush(iv(a), iv(b), shape, texture@),
{
    let (qx1, qy1, qz1) = a;
    let (qx2, qy2, qz2) = b;
    let k = BrushKind::Box;
    match shape {
        BlockShape::SlabBottom => mk((qx1, qy1, qz1), (qx2, qy2, qz1 + HALF_BLOCK), texture, k),
        BlockShape::SlabTop => mk((qx1, qy1, qz1 + HALF_BLOCK), (qx2, qy2, qz2), texture, k),
        BlockShape::ThinPanelNS => mk((qx1 + THIN_PANEL_MIN, qy1, qz1), (qx1 + THIN_PANEL_MAX, qy2, qz2), texture, k),
        _ => mk((qx1, qy1 + THIN_PANEL_MIN, qz1), (qx2, qy1 + THIN_PANEL_MAX, qz2), texture, k),
    }
}

proof fn lemma_brushes_view_concat(a: Seq<Brush>, b: Seq<Brush>)
    ensures
        brushes_view(a + b) == brushes_view(a) + brushes_view(b),
{
    assert(brushes_view(a + b) =~= brushes_view(a) + brushes_view(b));
}

/// Turns the blocks of a map into brushes. Unless `level` is `NoMerge`,
/// full blocks are first merged into the largest rectangles of one texture,
/// raised through the layers above; with `All`, runs of slabs and thin
/// panels are merged too; every other block becomes the brushes of its shape.
pub fn optimize_mesh(map: &VoxelMap, level: GreedyLevel) -> (r: Vec<Brush>)
    requires
        map.wf(),
        fits_across(map.width as int),
        fits_up(map.height as int),
        fits_across(map.length as int),
    ensures
        brushes_view(r@) == optimized(cells_view(map.blocks@), map.width as int, map.height as int, map.length as int, level),
{
    let ghost g = cells_view(map.blocks@);
    let ghost (wi, hi, li) = (map.width as int, map.height as int, map.length as int);
    let w = map.width;
    let h = map.height;
    let l = map.length;
    let n = map.blocks.len();
    let mut brushes: Vec<Brush> = Vec::new();
    let mut visited: Vec<bool> = Vec::new();
    for i in 0..n
        invariant
            visited@ == Seq::new(i as nat, |j: int| false),
    {
        visited.push(false);
    }
    assert(visited@ =~= Seq::new(g.len(), |j: int| false));
    assert(brushes_view(brushes@) =~= Seq::empty());
    if level != GreedyLevel::NoMerge {
        optimize_full_blocks_best_rectangles(map, &mut visited, &mut brushes);
    }
    let ghost target = scan(g, wi, hi, li, level, visited@, brushes_view(brushes@), 0);
    assert(target == optimized(g, wi, hi, li, level));
    for j in 0..n
        invariant
            mesh_ok(map, visited@),
            g == cells_view(map.blocks@),
            (wi, hi, li) == (w as int, h as int, l as int),
            w == map.width, h == map.height, l == map.length,
            n == g.len(),
            scan(g, wi, hi, li, level, visited@, brushes_view(brushes@), j as int) == target,
    {
        if visited[j] {
        } else {
        match &map.blocks[j] {
            None => {},
            Some(block) => {
                let (x, y, z) = coords_of(w, h, l, j);
                let texture = block.texture.clone();
                let shape = get_shape(block);
                match merge_axes(level, shape) {
                    Some(axes) => {
                        let list = axes_list(axes);
                        let (ex, ey, ez) = greedy_expand(x, y, z, texture.as_str(), shape, list.as_slice(), map, &visited);
                        mark_full_rect_visited(map, &mut visited, x, y, z, ex - x, ey - y, ez - z);
                        let a = to_quake(x, z, y, w, l);
                        let b = to_quake(ex, ez, ey, w, l);
                        let ghost before = brushes_view(brushes@);
                        brushes.push(merged_run_brush(a, b, shape, texture));
                        assert(brushes_view(brushes@) =~= before.push(merged_brush(iv(a), iv(b), shape, block@.texture)));
                    },
                    None => {
                        visited.set(j, true);
                        let mut bs = single_block_brush(x, y, z, shape, texture, w, l);
                        let ghost (before, mine) = (brushes@, bs@);
                        brushes.append(&mut bs);
                        proof {
                            lemma_brushes_view_concat(before, mine);
                        }
                    },
                }
            },
        }
        }
    }
    brushes
}

/// Each unvisited block from index `j` on with its own brushes, cell by
/// cell: what meshing gives when nothing is merged.
pub open spec fn own_brushes(g: Seq<Option<BlockView>>, w: int, h: int, l: int, v: Seq<bool>, j: int) -> Seq<BrushView>
    decreases g.len() - j,
{
    if j < 0 || j >= g.len() {
        Seq::empty()
    } else {
        let x = pos_x(w, j);
        let y = pos_y(w, l, j);
        let z = pos_z(w, l, j);
        let here = if v[j] {
            Seq::empty()
        } else {
            match g[j] {
                None => Seq::empty(),
                Some(b) => block_boxes(quake(x, z, y, w, l), quake(x + 1, z + 1, y + 1, w, l), shape_of(b), b.texture),
            }
        };
        here + own_brushes(g, w, h, l, v, j + 1)
    }
}

proof fn lemma_own_frame(g: Seq<Option<BlockView>>, w: int, h: int, l: int, v1: Seq<bool>, v2: Seq<bool>, j: int)
    requires
        0 <= j,
        forall|k: int| j <= k < g.len() ==> v1[k] == v2[k],
    ensures
        own_brushes(g, w, h, l, v1, j) == own_brushes(g, w, h, l, v2, j),
    decreases g.len() - j,
{
    if j < g.len() {
        lemma_own_frame(g, w, h, l, v1, v2, j + 1);
    }
}

/// Below full merging, the cell scan merges nothing: it adds, after what it
/// was given, the own brushes of every unvisited block in order.
pub proof fn lemma_scan_unmerged(g: Seq<Option<BlockView>>, w: int, h: int, l: int, level: GreedyLevel, v: Seq<bool>, out: Seq<BrushView>, j: int)
    requires
        level != GreedyLevel::All,
        v.len() == g.len(),
        0 <= j,
    ensures
        scan(g, w, h, l, level, v, out, j) == out + own_brushes(g, w, h, l, v, j),
    decreases g.len() - j,
{
    if j >= g.len() {
        assert(out + own_brushes(g, w, h, l, v, j) =~= out);
    } else if v[j] {
        lemma_scan_unmerged(g, w, h, l, level, v, out, j + 1);
        assert(own_brushes(g, w, h, l, v, j) =~= own_brushes(g, w, h, l, v, j + 1));
    } else {
        match g[j] {
            None => {
                lemma_scan_unmerged(g, w, h, l, level, v, out, j + 1);
                assert(own_brushes(g, w, h, l, v, j) =~= own_brushes(g, w, h, l, v, j + 1));
            },
            Some(b) => {
                let x = pos_x(w, j);
                let y = pos_y(w, l, j);
                let z = pos_z(w, l, j);
                let bb = block_boxes(quake(x, z, y, w, l), quake(x + 1, z + 1, y + 1, w, l), shape_of(b), b.texture);
                let v2 = v.update(j, true);
                lemma_scan_unmerged(g, w, h, l, level, v2, out + bb, j + 1);
                lemma_own_frame(g, w, h, l, v2, v, j + 1);
                assert((out + bb) + own_brushes(g, w, h, l, v, j + 1) =~= out + (bb + own_brushes(g, w, h, l, v, j + 1)));
            },
        }
    }
}

/// With merging off, every block gets its own brushes, cell by cell.
pub proof fn lemma_no_merge(g: Seq<Option<BlockView>>, w: int, h: int, l: int)
    ensures
        optimized(g, w, h, l, GreedyLevel::NoMerge) == own_brushes(g, w, h, l, Seq::new(g.len(), |j: int| false), 0),
{
    let v0 = Seq::new(g.len(), |j: int| false);
    lemma_scan_unmerged(g, w, h, l, GreedyLevel::NoMerge, v0, Seq::empty(), 0);
    assert(Seq::<BrushView>::empty() + own_brushes(g, w, h, l, v0, 0) =~= own_brushes(g, w, h, l, v0, 0));
}

proof fn lemma_layer_pass_len(g: Seq<Option<BlockView>>, w: int, h: int, l: int, y: int, v: Seq<bool>, out: Seq<BrushView>)
    ensures
        layer_pass(g, w, h, l, y, v, out).0.len() == v.len(),
    decreases count_false(v),
{
    if sizes_ok(g, v, w, h, l) {
        match best_rect(g, v, w, h, l, y) {
            None => {},
            Some(r) => {
                let ht = 1 + rise(g, v, w, h, l, r.0, y + 1, r.1, r.2, r.3, r.4);
                lemma_rise_bounds(g, v, w, h, l, r.0, y + 1, r.1, r.2, r.3, r.4);
                lemma_layer_step(g, v, w, h, l, y, r, ht);
                let v2 = mark_box(v, w, l, r.0, y, r.1, r.2, ht, r.3);
                lemma_layer_pass_len(g, w, h, l, y, v2, out.push(rect_brush(r.0, r.1, r.2, r.3, y, ht, r.4, w, l)));
            },
        }
    }
}

pub proof fn lemma_rect_pass_len(g: Seq<Option<BlockView>>, w: int, h: int, l: int, y: int, v: Seq<bool>, out: Seq<BrushView>)
    ensures
        rect_pass(g, w, h, l, y, v, out).0.len() == v.len(),
    decreases h - y,
{
    if y < h {
        lemma_layer_pass_len(g, w, h, l, y, v, out);
        let (v2, o2) = layer_pass(g, w, h, l, y, v, out);
        lemma_rect_pass_len(g, w, h, l, y + 1, v2, o2);
    }
}

/// Merging full blocks only: the merged rectangles of full blocks come
/// first, then every block they left over gets its own brushes, cell by cell.
pub proof fn lemma_full_only(g: Seq<Option<BlockView>>, w: int, h: int, l: int)
    ensures
        ({
            let first = rect_pass(g, w, h, l, 0, Seq::new(g.len(), |j: int| false), Seq::empty());
            optimized(g, w, h, l, GreedyLevel::FullOnly) == first.1 + own_brushes(g, w, h, l, first.0, 0)
        }),
{
    let v0 = Seq::new(g.len(), |j: int| false);
    lemma_rect_pass_len(g, w, h, l, 0, v0, Seq::empty());
    let first = rect_pass(g, w, h, l, 0, v0, Seq::empty());
    lemma_scan_unmerged(g, w, h, l, GreedyLevel::FullOnly, first.0, first.1, 0);
}

/// A full block is a cube of 40 map units on each side, whose corner is its
/// cell's corner in map space.
pub proof fn lemma_full_block_cube(x: int, y: int, z: int, w: int, l: int, t: Seq<char>)
    ensures
        ({
            let a = quake(x, z, y, w, l);
            block_boxes(a, quake(x + 1, z + 1, y + 1, w, l), BlockShape::Full, t)
                == seq![bv(a, (a.0 + 40, a.1 + 40, a.2 + 40), t, BrushKind::Box)]
        }),
{
    let a = quake(x, z, y, w, l);
    let b = quake(x + 1, z + 1, y + 1, w, l);
    assert(b.0 == a.0 + 40 && b.1 == a.1 + 40 && b.2 == a.2 + 40);
}

/// A box mirrored in the horizontal plane halfway between heights `z1` and `z2`.
pub open spec fn mirror_z(b: BrushView, z1: int, z2: int) -> BrushView {
    bv((b.min.0, b.min.1, z1 + z2 - b.max.2), (b.max.0, b.max.1, z1 + z2 - b.min.2), b.texture, b.kind)
}

/// An upside-down stair is its upright twin mirrored top to bottom within
/// its block, for corners of any width and depth whose height is two half
/// blocks.
pub proof fn lemma_stair_flip(a: (int, int, int), b: (int, int, int), t: Seq<char>)
    requires
        b.2 == a.2 + 2 * 20,
    ensures
        ({
            let flip = |s: Seq<BrushView>| s.map_values(|bx: BrushView| mirror_z(bx, a.2, b.2));
            &&& stair_boxes(a, b, BlockShape::StairNorthTop, t) == flip(stair_boxes(a, b, BlockShape::StairNorthBottom, t))
            &&& stair_boxes(a, b, BlockShape::StairSouthTop, t) == flip(stair_boxes(a, b, BlockShape::StairSouthBottom, t))
            &&& stair_boxes(a, b, BlockShape::StairEastTop, t) == flip(stair_boxes(a, b, BlockShape::StairEastBottom, t))
            &&& stair_boxes(a, b, BlockShape::StairWestTop, t) == flip(stair_boxes(a, b, BlockShape::StairWestBottom, t))
        }),
{
    let flip = |s: Seq<BrushView>| s.map_values(|bx: BrushView| mirror_z(bx, a.2, b.2));
    assert(stair_boxes(a, b, BlockShape::StairNorthTop, t) =~= flip(stair_boxes(a, b, BlockShape::StairNorthBottom, t)));
    assert(stair_boxes(a, b, BlockShape::StairSouthTop, t) =~= flip(stair_boxes(a, b, BlockShape::StairSouthBottom, t)));
    assert(stair_boxes(a, b, BlockShape::StairEastTop, t) =~= flip(stair_boxes(a, b, BlockShape::StairEastBottom, t)));
    assert(stair_boxes(a, b, BlockShape::StairWestTop, t) =~= flip(stair_boxes(a, b, BlockShape::StairWestBottom, t)));
}

/// The eight stair shapes.
pub open spec fn is_stair(s: BlockShape) -> bool {
    facing_north(s) || facing_south(s) || facing_east(s) || facing_west(s)
}

/// The upside-down stair shapes.
pub open spec fn upside_down(s: BlockShape) -> bool {
    s == BlockShape::StairNorthTop || s == BlockShape::StairSouthTop || s == BlockShape::StairEastTop || s == BlockShape::StairWestTop
}

pub open spec fn facing_north(s: BlockShape) -> bool {
    s == BlockShape::StairNorthBottom || s == BlockShape::StairNorthTop
}

pub open spec fn facing_south(s: BlockShape) -> bool {
    s == BlockShape::StairSouthBottom || s == BlockShape::StairSouthTop
}

pub open spec fn facing_east(s: BlockShape) -> bool {
    s == BlockShape::StairEastBottom || s == BlockShape::StairEastTop
}

pub open spec fn facing_west(s: BlockShape) -> bool {
    s == BlockShape::StairWestBottom || s == BlockShape::StairWestTop
}

pub open spec fn mirror_y(b: BrushView, y1: int, y2: int) -> BrushView {
    bv((b.min.0, y1 + y2 - b.max.1, b.min.2), (b.max.0, y1 + y2 - b.min.1, b.max.2), b.texture, b.kind)
}

pub open spec fn mirror_x(b: BrushView, x1: int, x2: int) -> BrushView {
    bv((x1 + x2 - b.max.0, b.min.1, b.min.2), (x1 + x2 - b.min.0, b.max.1, b.max.2), b.texture, b.kind)
}

/// Each facing puts a stair's raised quarter on its own side of the cell:
/// in a cell 40 units wide and deep, the south stair is the north stair
/// mirrored across the cell's middle in map `y`, the east stair is the west
/// stair mirrored in map `x`; the raised quarter of a north, south, west or
/// east stair touches the cell's low-`y`, high-`y`, low-`x` or high-`x` face,
/// and no two facings give the same boxes.
pub proof fn lemma_stair_facings(a: (int, int, int), b: (int, int, int), t: Seq<char>)
    requires
        b.0 == a.0 + 40,
        b.1 == a.1 + 40,
        b.2 == a.2 + 40,
    ensures
        ({
            let my = |s: Seq<BrushView>| s.map_values(|bx: BrushView| mirror_y(bx, a.1, b.1));
            let mx = |s: Seq<BrushView>| s.map_values(|bx: BrushView| mirror_x(bx, a.0, b.0));
            &&& stair_boxes(a, b, BlockShape::StairSouthBottom, t) == my(stair_boxes(a, b, BlockShape::StairNorthBottom, t))
            &&& stair_boxes(a, b, BlockShape::StairSouthTop, t) == my(stair_boxes(a, b, BlockShape::StairNorthTop, t))
            &&& stair_boxes(a, b, BlockShape::StairEastBottom, t) == mx(stair_boxes(a, b, BlockShape::StairWestBottom, t))
            &&& stair_boxes(a, b, BlockShape::StairEastTop, t) == mx(stair_boxes(a, b, BlockShape::StairWestTop, t))
        }),
        forall|s: BlockShape| #![trigger stair_boxes(a, b, s, t)]
            is_stair(s) ==> {
                let q = stair_boxes(a, b, s, t);
                &&& q.len() == 2
                &&& q[0].min.0 == a.0 && q[0].min.1 == a.1 && q[0].max.0 == b.0 && q[0].max.1 == b.1
                &&& (upside_down(s) ==> q[0].min.2 == a.2 + 20 && q[0].max.2 == b.2 && q[1].min.2 == a.2 && q[1].max.2 == a.2 + 20)
                &&& (!upside_down(s) ==> q[0].min.2 == a.2 && q[0].max.2 == a.2 + 20 && q[1].min.2 == a.2 + 20 && q[1].max.2 == b.2)
                &&& (facing_north(s) ==> q[1].min.1 == a.1 && q[1].max.1 == a.1 + 20 && q[1].min.0 == a.0 && q[1].max.0 == b.0)
                &&& (facing_south(s) ==> q[1].max.1 == b.1 && q[1].min.1 == b.1 - 20 && q[1].min.0 == a.0 && q[1].max.0 == b.0)
                &&& (facing_west(s) ==> q[1].min.0 == a.0 && q[1].max.0 == a.0 + 20 && q[1].min.1 == a.1 && q[1].max.1 == b.1)
                &&& (facing_east(s) ==> q[1].max.0 == b.0 && q[1].min.0 == b.0 - 20 && q[1].min.1 == a.1 && q[1].max.1 == b.1)
            },
        forall|s1: BlockShape, s2: BlockShape| is_stair(s1) && is_stair(s2) && s1 != s2 ==>
            #[trigger] stair_boxes(a, b, s1, t) != #[trigger] stair_boxes(a, b, s2, t),
        forall|s: BlockShape| is_stair(s) ==> #[trigger] block_boxes(a, b, s, t) == stair_boxes(a, b, s, t),
{
    let my = |s: Seq<BrushView>| s.map_values(|bx: BrushView| mirror_y(bx, a.1, b.1));
    let mx = |s: Seq<BrushView>| s.map_values(|bx: BrushView| mirror_x(bx, a.0, b.0));
    assert(stair_boxes(a, b, BlockShape::StairSouthBottom, t) =~= my(stair_boxes(a, b, BlockShape::StairNorthBottom, t)));
    assert(stair_boxes(a, b, BlockShape::StairSouthTop, t) =~= my(stair_boxes(a, b, BlockShape::StairNorthTop, t)));
    assert(stair_boxes(a, b, BlockShape::StairEastBottom, t) =~= mx(stair_boxes(a, b, BlockShape::StairWestBottom, t)));
    assert(stair_boxes(a, b, BlockShape::StairEastTop, t) =~= mx(stair_boxes(a, b, BlockShape::StairWestTop, t)));
    assert forall|s: BlockShape| #![trigger stair_boxes(a, b, s, t)] is_stair(s) implies ({
        let q = stair_boxes(a, b, s, t);
        &&& q.len() == 2
        &&& q[0].min.0 == a.0 && q[0].min.1 == a.1 && q[0].max.0 == b.0 && q[0].max.1 == b.1
        &&& (upside_down(s) ==> q[0].min.2 == a.2 + 20 && q[0].max.2 == b.2 && q[1].min.2 == a.2 && q[1].max.2 == a.2 + 20)
        &&& (!upside_down(s) ==> q[0].min.2 == a.2 && q[0].max.2 == a.2 + 20 && q[1].min.2 == a.2 + 20 && q[1].max.2 == b.2)
        &&& (facing_north(s) ==> q[1].min.1 == a.1 && q[1].max.1 == a.1 + 20 && q[1].min.0 == a.0 && q[1].max.0 == b.0)
        &&& (facing_south(s) ==> q[1].max.1 == b.1 && q[1].min.1 == b.1 - 20 && q[1].min.0 == a.0 && q[1].max.0 == b.0)
        &&& (facing_west(s) ==> q[1].min.0 == a.0 && q[1].max.0 == a.0 + 20 && q[1].min.1 == a.1 && q[1].max.1 == b.1)
        &&& (facing_east(s) ==> q[1].max.0 == b.0 && q[1].min.0 == b.0 - 20 && q[1].min.1 == a.1 && q[1].max.1 == b.1)
    }) by {
        match s {
            BlockShape::StairNorthBottom => {},
            BlockShape::StairSouthBottom => {},
            BlockShape::StairEastBottom => {},
            BlockShape::StairWestBottom => {},
            BlockShape::StairNorthTop => {},
            BlockShape::StairSouthTop => {},
            BlockShape::StairEastTop => {},
            BlockShape::StairWestTop => {},
            _ => {},
        }
    }
    assert forall|s1: BlockShape, s2: BlockShape| is_stair(s1) && is_stair(s2) && s1 != s2 implies
        #[trigger] stair_boxes(a, b, s1, t) != #[trigger] stair_boxes(a, b, s2, t) by {
        let q1 = stair_boxes(a, b, s1, t);
        let q2 = stair_boxes(a, b, s2, t);
        if q1 == q2 {
            assert(q1[0] == q2[0] && q1[1] == q2[1]);
        }
    }
}

/// A stair's shape follows its properties: for a `half` of `top` or
/// `bottom` and a `facing` of `north`, `south`, `east` or `west`, the stair
/// is upside down exactly when its half is `top`, and it faces exactly the
/// side its `facing` names.
pub proof fn lemma_stair_shape_follows_properties(b: BlockView)
    requires
        prop_or(b, "half"@, "bottom"@) == "top"@ || prop_or(b, "half"@, "bottom"@) == "bottom"@,
        prop_or(b, "facing"@, "north"@) == "north"@ || prop_or(b, "facing"@, "north"@) == "south"@
            || prop_or(b, "facing"@, "north"@) == "east"@ || prop_or(b, "facing"@, "north"@) == "west"@,
    ensures
        is_stair(stair_shape(b)),
        upside_down(stair_shape(b)) <==> prop_or(b, "half"@, "bottom"@) == "top"@,
        facing_north(stair_shape(b)) <==> prop_or(b, "facing"@, "north"@) == "north"@,
        facing_south(stair_shape(b)) <==> prop_or(b, "facing"@, "north"@) == "south"@,
        facing_east(stair_shape(b)) <==> prop_or(b, "facing"@, "north"@) == "east"@,
        facing_west(stair_shape(b)) <==> prop_or(b, "facing"@, "north"@) == "west"@,
{
    reveal_strlit("top");
    reveal_strlit("bottom");
    reveal_strlit("north");
    reveal_strlit("south");
    reveal_strlit("east");
    reveal_strlit("west");
    assert("north"@[0] != "south"@[0]);
    assert("east"@[0] != "west"@[0]);
}

/// The two slabs are the halves of the full block: the bottom slab fills
/// the lower half, the top slab is the bottom slab mirrored top to bottom, and
/// together they stack into the full cube. A slab's `type` property picks
/// the half, and a double slab is a full block.
pub proof fn lemma_slab_halves(a: (int, int, int), b: (int, int, int), t: Seq<char>, s: BlockView)
    requires
        b.2 == a.2 + 40,
    ensures
        block_boxes(a, b, BlockShape::SlabTop, t)
            == block_boxes(a, b, BlockShape::SlabBottom, t).map_values(|bx: BrushView| mirror_z(bx, a.2, b.2)),
        block_boxes(a, b, BlockShape::SlabBottom, t).len() == 1,
        block_boxes(a, b, BlockShape::SlabBottom, t)[0].min == block_boxes(a, b, BlockShape::Full, t)[0].min,
        block_boxes(a, b, BlockShape::SlabBottom, t)[0].max.2 == a.2 + 20,
        block_boxes(a, b, BlockShape::SlabTop, t)[0].min.2 == block_boxes(a, b, BlockShape::SlabBottom, t)[0].max.2,
        block_boxes(a, b, BlockShape::SlabTop, t)[0].max == block_boxes(a, b, BlockShape::Full, t)[0].max,
        prop_or(s, "type"@, "bottom"@) == "top"@ ==> slab_shape(s) == BlockShape::SlabTop,
        prop_or(s, "type"@, "bottom"@) == "bottom"@ ==> slab_shape(s) == BlockShape::SlabBottom,
        prop_or(s, "type"@, "bottom"@) == "double"@ ==> slab_shape(s) == BlockShape::Full,
{
    reveal_strlit("top");
    reveal_strlit("bottom");
    reveal_strlit("double");
    assert("bottom"@[0] != "double"@[0]);
    assert("top"@.len() != "bottom"@.len() && "top"@.len() != "double"@.len());
    assert(block_boxes(a, b, BlockShape::SlabTop, t)
        =~= block_boxes(a, b, BlockShape::SlabBottom, t).map_values(|bx: BrushView| mirror_z(bx, a.2, b.2)));
}

/// A thin block runs along the sides it connects to: connected only to the
/// north or south it is a north-south panel, only to the east or west an
/// east-west panel, and otherwise (both ways, or not at all) a cross.
pub proof fn lemma_thin_shape_follows_connections(s: BlockView)
    ensures
        ({
            let ns = prop_connected(s, "north"@) || prop_connected(s, "south"@);
            let ew = prop_connected(s, "east"@) || prop_connected(s, "west"@);
            &&& (ns && !ew) <==> thin_shape(s) == BlockShape::ThinPanelNS
            &&& (!ns && ew) <==> thin_shape(s) == BlockShape::ThinPanelEW
            &&& (ns == ew) <==> thin_shape(s) == BlockShape::ThinCross
        }),
{
}

/// Every shape stays in its cell: in a cell 40 units on each side, each box
/// of each shape has positive size and lies within the cell; a chest is the
/// cell shrunk by 2 units on every side, and a path block is the cell
/// lowered by 3 units at the top.
pub proof fn lemma_cell_boxes(a: (int, int, int), b: (int, int, int), t: Seq<char>)
    requires
        b.0 == a.0 + 40,
        b.1 == a.1 + 40,
        b.2 == a.2 + 40,
    ensures
        forall|s: BlockShape, i: int| 0 <= i < block_boxes(a, b, s, t).len() ==> {
            let q = #[trigger] block_boxes(a, b, s, t)[i];
            &&& a.0 <= q.min.0 < q.max.0 <= b.0
            &&& a.1 <= q.min.1 < q.max.1 <= b.1
            &&& a.2 <= q.min.2 < q.max.2 <= b.2
            &&& q.texture == t
        },
        forall|s: BlockShape| #[trigger] block_boxes(a, b, s, t).len() >= 1,
        block_boxes(a, b, BlockShape::Chest, t)
            == seq![bv((a.0 + 2, a.1 + 2, a.2 + 2), (b.0 - 2, b.1 - 2, b.2 - 2), t, BrushKind::Box)],
        block_boxes(a, b, BlockShape::Path, t) == seq![bv(a, (b.0, b.1, b.2 - 3), t, BrushKind::Box)],
{
    assert forall|s: BlockShape, i: int| 0 <= i < block_boxes(a, b, s, t).len() implies {
        let q = #[trigger] block_boxes(a, b, s, t)[i];
        &&& a.0 <= q.min.0 < q.max.0 <= b.0
        &&& a.1 <= q.min.1 < q.max.1 <= b.1
        &&& a.2 <= q.min.2 < q.max.2 <= b.2
        &&& q.texture == t
    } by {
        match s {
            BlockShape::Full => {},
            BlockShape::SlabBottom => {},
            BlockShape::SlabTop => {},
            BlockShape::ThinPanelNS => {},
            BlockShape::ThinPanelEW => {},
            BlockShape::ThinCross => {},
            BlockShape::Path => {},
            BlockShape::PlantCross => {},
            BlockShape::Torch => {},
            BlockShape::Chest => {},
            BlockShape::Bed => {},
            BlockShape::StairNorthBottom => {},
            BlockShape::StairSouthBottom => {},
            BlockShape::StairEastBottom => {},
            BlockShape::StairWestBottom => {},
            BlockShape::StairNorthTop => {},
            BlockShape::StairSouthTop => {},
            BlockShape::StairEastTop => {},
            BlockShape::StairWestTop => {},
        }
    }
    assert forall|s: BlockShape| #[trigger] block_boxes(a, b, s, t).len() >= 1 by {
        lemma_block_boxes_nonempty(a, b, s, t);
    }
}

/// A thin cross is both panels: its boxes are the north-south panel's box
/// followed by the east-west panel's box of the same cell. A north-south
/// panel is the 8-unit-thick middle slice of its cell across map `x`, an
/// east-west panel the same across map `y`, each spanning the rest of the
/// cell; and a merged run of panels or slabs that covers one cell is that
/// cell's own brush.
pub proof fn lemma_thin_shapes(a: (int, int, int), b: (int, int, int), t: Seq<char>)
    requires
        b.0 == a.0 + 40,
        b.1 == a.1 + 40,
        b.2 == a.2 + 40,
    ensures
        block_boxes(a, b, BlockShape::ThinCross, t)
            == block_boxes(a, b, BlockShape::ThinPanelNS, t) + block_boxes(a, b, BlockShape::ThinPanelEW, t),
        block_boxes(a, b, BlockShape::ThinPanelNS, t) == seq![bv((a.0 + 16, a.1, a.2), (b.0 - 16, b.1, b.2), t, BrushKind::Box)],
        block_boxes(a, b, BlockShape::ThinPanelEW, t) == seq![bv((a.0, a.1 + 16, a.2), (b.0, b.1 - 16, b.2), t, BrushKind::Box)],
        forall|s: BlockShape|
            s == BlockShape::ThinPanelNS || s == BlockShape::ThinPanelEW || s == BlockShape::SlabBottom || s == BlockShape::SlabTop
            ==> seq![#[trigger] merged_brush(a, b, s, t)] == block_boxes(a, b, s, t),
{
    assert(block_boxes(a, b, BlockShape::ThinCross, t)
        =~= block_boxes(a, b, BlockShape::ThinPanelNS, t) + block_boxes(a, b, BlockShape::ThinPanelEW, t));
    assert forall|s: BlockShape|
        s == BlockShape::ThinPanelNS || s == BlockShape::ThinPanelEW || s == BlockShape::SlabBottom || s == BlockShape::SlabTop
        implies seq![#[trigger] merged_brush(a, b, s, t)] == block_boxes(a, b, s, t) by {
        assert(seq![merged_brush(a, b, s, t)] =~= block_boxes(a, b, s, t));
    }
}

/// Map coordinates are a translation of block coordinates: a step of one
/// block is 40 units along the matching map axis, and the grid's middle
/// block corner (at half the width and length, on the ground) is the origin.
pub proof fn lemma_quake_translation(bx: int, bz: int, by: int, dx: int, dz: int, dy: int, w: int, l: int)
    ensures
        quake(bx + dx, bz + dz, by + dy, w, l) == ({
            let q = quake(bx, bz, by, w, l);
            (q.0 + 40 * dx, q.1 + 40 * dz, q.2 + 40 * dy)
        }),
        quake(rhalf(w), rhalf(l), 0, w, l) == (0int, 0int, 0int),
{
}

/// Every block, whatever its shape, gets at least one brush of its own.
proof fn lemma_block_boxes_nonempty(a: (int, int, int), b: (int, int, int), shape: BlockShape, t: Seq<char>)
    ensures
        block_boxes(a, b, shape, t).len() >= 1,
{
}

/// Visiting more cells never adds own brushes.
proof fn lemma_own_count_mono(g: Seq<Option<BlockView>>, w: int, h: int, l: int, v: Seq<bool>, v2: Seq<bool>, j: int)
    requires
        0 <= j,
        v.len() == g.len(),
        v2.len() == g.len(),
        forall|k: int| j <= k < g.len() && #[trigger] v[k] ==> v2[k],
    ensures
        own_brushes(g, w, h, l, v2, j).len() <= own_brushes(g, w, h, l, v, j).len(),
    decreases g.len() - j,
{
    if j < g.len() {
        lemma_own_count_mono(g, w, h, l, v, v2, j + 1);
    }
}

/// Visiting, in addition, a cell that holds a block drops at least one own brush.
proof fn lemma_own_count_drop(g: Seq<Option<BlockView>>, w: int, h: int, l: int, v: Seq<bool>, v2: Seq<bool>, j: int, k0: int)
    requires
        0 <= j <= k0 < g.len(),
        v.len() == g.len(),
        v2.len() == g.len(),
        forall|k: int| j <= k < g.len() && #[trigger] v[k] ==> v2[k],
        !v[k0] && v2[k0] && g[k0] is Some,
    ensures
        own_brushes(g, w, h, l, v2, j).len() + 1 <= own_brushes(g, w, h, l, v, j).len(),
    decreases g.len() - j,
{
    let x = pos_x(w, j);
    let y = pos_y(w, l, j);
    let z = pos_z(w, l, j);
    if j == k0 {
        lemma_own_count_mono(g, w, h, l, v, v2, j + 1);
        let b = g[j]->0;
        lemma_block_boxes_nonempty(quake(x, z, y, w, l), quake(x + 1, z + 1, y + 1, w, l), shape_of(b), b.texture);
    } else {
        lemma_own_count_drop(g, w, h, l, v, v2, j + 1, k0);
    }
}

proof fn lemma_layer_pass_count(g: Seq<Option<BlockView>>, w: int, h: int, l: int, y: int, v: Seq<bool>, out: Seq<BrushView>)
    requires
        v.len() == g.len(),
    ensures
        ({
            let (v2, o2) = layer_pass(g, w, h, l, y, v, out);
            &&& v2.len() == v.len()
            &&& forall|k: int| 0 <= k < g.len() && #[trigger] v[k] ==> v2[k]
            &&& o2.len() + own_brushes(g, w, h, l, v2, 0).len() <= out.len() + own_brushes(g, w, h, l, v, 0).len()
        }),
    decreases count_false(v),
{
    if sizes_ok(g, v, w, h, l) {
        match best_rect(g, v, w, h, l, y) {
            None => {},
            Some(r) => {
                let ht = 1 + rise(g, v, w, h, l, r.0, y + 1, r.1, r.2, r.3, r.4);
                lemma_rise_bounds(g, v, w, h, l, r.0, y + 1, r.1, r.2, r.3, r.4);
                lemma_layer_step(g, v, w, h, l, y, r, ht);
                assert(cand(g, v, w, h, l, y, r.0, r.1, r.3));
                let v2 = mark_box(v, w, l, r.0, y, r.1, r.2, ht, r.3);
                lemma_idx(w, h, l, r.0, y, r.1);
                let k0 = idx(w, l, r.0, y, r.1);
                assert(v2[k0]);
                lemma_own_count_drop(g, w, h, l, v, v2, 0, k0);
                let o2 = out.push(rect_brush(r.0, r.1, r.2, r.3, y, ht, r.4, w, l));
                lemma_layer_pass_count(g, w, h, l, y, v2, o2);
                assert(layer_pass(g, w, h, l, y, v, out) == layer_pass(g, w, h, l, y, v2, o2));
                let v3 = layer_pass(g, w, h, l, y, v2, o2).0;
                assert forall|k: int| 0 <= k < g.len() && #[trigger] v[k] implies v3[k] by {
                    assert(v2[k]);
                }
            },
        }
    }
}

proof fn lemma_rect_pass_count(g: Seq<Option<BlockView>>, w: int, h: int, l: int, y: int, v: Seq<bool>, out: Seq<BrushView>)
    requires
        v.len() == g.len(),
    ensures
        ({
            let (v2, o2) = rect_pass(g, w, h, l, y, v, out);
            &&& v2.len() == v.len()
            &&& o2.len() + own_brushes(g, w, h, l, v2, 0).len() <= out.len() + own_brushes(g, w, h, l, v, 0).len()
        }),
    decreases h - y,
{
    if y < h {
        lemma_layer_pass_count(g, w, h, l, y, v, out);
        let (v2, o2) = layer_pass(g, w, h, l, y, v, out);
        lemma_rect_pass_count(g, w, h, l, y + 1, v2, o2);
    }
}

proof fn lemma_scan_count(g: Seq<Option<BlockView>>, w: int, h: int, l: int, level: GreedyLevel, v: Seq<bool>, out: Seq<BrushView>, j: int)
    requires
        v.len() == g.len(),
        0 <= j,
    ensures
        scan(g, w, h, l, level, v, out, j).len() <= out.len() + own_brushes(g, w, h, l, v, j).len(),
    decreases g.len() - j,
{
    if j < g.len() {
        if v[j] {
            lemma_scan_count(g, w, h, l, level, v, out, j + 1);
        } else {
            match g[j] {
                None => {
                    lemma_scan_count(g, w, h, l, level, v, out, j + 1);
                },
                Some(b) => {
                    let x = pos_x(w, j);
                    let y = pos_y(w, l, j);
                    let z = pos_z(w, l, j);
                    let shape = shape_of(b);
                    let t = b.texture;
                    lemma_block_boxes_nonempty(quake(x, z, y, w, l), quake(x + 1, z + 1, y + 1, w, l), shape, t);
                    match axes_for(level, shape) {
                        Some(ax) => {
                            let e = expand(g, v, w, h, l, t, shape, x, y, z, ax);
                            let v2 = mark_box(v, w, l, x, y, z, e.0 - x, e.1 - y, e.2 - z);
                            let brush = merged_brush(quake(x, z, y, w, l), quake(e.0, e.2, e.1, w, l), shape, t);
                            lemma_scan_count(g, w, h, l, level, v2, out.push(brush), j + 1);
                            lemma_own_count_mono(g, w, h, l, v, v2, j + 1);
                        },
                        None => {
                            let bb = block_boxes(quake(x, z, y, w, l), quake(x + 1, z + 1, y + 1, w, l), shape, t);
                            let v2 = v.update(j, true);
                            lemma_scan_count(g, w, h, l, level, v2, out + bb, j + 1);
                            lemma_own_frame(g, w, h, l, v2, v, j + 1);
                        },
                    }
                },
            }
        }
    }
}

/// Merging more never gives more brushes: merging all shapes gives at most
/// as many brushes as merging full blocks only, which gives at most as many
/// as no merging.
pub proof fn lemma_merge_levels_monotone(g: Seq<Option<BlockView>>, w: int, h: int, l: int)
    ensures
        optimized(g, w, h, l, GreedyLevel::All).len() <= optimized(g, w, h, l, GreedyLevel::FullOnly).len(),
        optimized(g, w, h, l, GreedyLevel::FullOnly).len() <= optimized(g, w, h, l, GreedyLevel::NoMerge).len(),
{
    let v0 = Seq::new(g.len(), |j: int| false);
    let e = Seq::<BrushView>::empty();
    lemma_no_merge(g, w, h, l);
    lemma_full_only(g, w, h, l);
    lemma_rect_pass_count(g, w, h, l, 0, v0, e);
    let first = rect_pass(g, w, h, l, 0, v0, e);
    lemma_scan_count(g, w, h, l, GreedyLevel::All, first.0, first.1, 0);
}

} // verus!
