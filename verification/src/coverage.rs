//! Meshing loses no block and invents none: every block of the grid is
//! reached by a brush of its own texture, whether it was merged into a
//! rectangle of full blocks, into a run of slabs or panels, or drawn on its
//! own; and every brush reaches into a block of its texture.

use vstd::prelude::*;

use crate::block_shapes::{BlockShape, shape_of};
use crate::model::{BlockView, idx, pos_x, pos_y, pos_z, lemma_pos, in_grid};
use crate::optimizer::{
    BrushView, GreedyLevel, MergeAxes, Axis, expand_along, axes_of, quake, block_boxes, full_tex, run_len, min_run, is_best_rect,
    best_rect, rect_fits, rise, lemma_rise_bounds, lemma_layer_step, lemma_rect_pass_len,
    lemma_min_run_nonneg, in_box, cand,
    mark_box, rect_brush, sizes_ok, count_false, layer_pass, rect_pass, shape_match, box_match,
    grow_x, grow_y, grow_z, axes_for, expand, merged_brush, scan, optimized,
};

verus! {

/// The map-space corner of cell `k` nearest the origin.
pub open spec fn cell_lo(w: int, l: int, k: int) -> (int, int, int) {
    quake(pos_x(w, k), pos_z(w, l, k), pos_y(w, l, k), w, l)
}

/// The map-space corner of cell `k` opposite [`cell_lo`].
pub open spec fn cell_hi(w: int, l: int, k: int) -> (int, int, int) {
    quake(pos_x(w, k) + 1, pos_z(w, l, k) + 1, pos_y(w, l, k) + 1, w, l)
}

/// Brush `b` and the box from `lo` to `hi` share a part of positive volume.
pub open spec fn overlaps(b: BrushView, lo: (int, int, int), hi: (int, int, int)) -> bool {
    &&& b.min.0 < hi.0 && lo.0 < b.max.0
    &&& b.min.1 < hi.1 && lo.1 < b.max.1
    &&& b.min.2 < hi.2 && lo.2 < b.max.2
}

/// The block of cell `k`, if there is one, is reached by a brush of `out`
/// that has its texture.
pub open spec fn drawn(g: Seq<Option<BlockView>>, w: int, l: int, out: Seq<BrushView>, k: int) -> bool {
    match g[k] {
        Some(c) => exists|i: int|
            0 <= i < out.len() && #[trigger] overlaps(out[i], cell_lo(w, l, k), cell_hi(w, l, k)) && out[i].texture == c.texture,
        None => true,
    }
}

/// Every marked cell is drawn.
pub open spec fn marks_drawn(g: Seq<Option<BlockView>>, w: int, l: int, v: Seq<bool>, out: Seq<BrushView>) -> bool {
    forall|k: int| 0 <= k < g.len() && v[k] ==> #[trigger] drawn(g, w, l, out, k)
}

/// `out2` starts with `out`.
pub open spec fn extends(out: Seq<BrushView>, out2: Seq<BrushView>) -> bool {
    out.len() <= out2.len() && forall|i: int| 0 <= i < out.len() ==> #[trigger] out2[i] == out[i]
}

proof fn lemma_drawn_extends(g: Seq<Option<BlockView>>, w: int, l: int, out: Seq<BrushView>, out2: Seq<BrushView>, k: int)
    requires
        drawn(g, w, l, out, k),
        extends(out, out2),
    ensures
        drawn(g, w, l, out2, k),
{
    if let Some(c) = g[k] {
        let i = choose|i: int| 0 <= i < out.len() && #[trigger] overlaps(out[i], cell_lo(w, l, k), cell_hi(w, l, k)) && out[i].texture == c.texture;
        assert(out2[i] == out[i]);
    }
}

// ---------------------------------------------------------------------
// Rectangles of full blocks
// ---------------------------------------------------------------------

proof fn lemma_run_cells(g: Seq<Option<BlockView>>, v: Seq<bool>, w: int, h: int, l: int, x: int, y: int, z: int, t: Seq<char>, dx: int)
    requires
        0 <= dx < run_len(g, v, w, h, l, x, y, z, t),
    ensures
        full_tex(g, v, w, h, l, x + dx, y, z) == Some(t),
    decreases dx,
{
    if dx > 0 {
        lemma_run_cells(g, v, w, h, l, x + 1, y, z, t, dx - 1);
        assert(x + 1 + (dx - 1) == x + dx);
    }
}

proof fn lemma_min_run_le(g: Seq<Option<BlockView>>, v: Seq<bool>, w: int, h: int, l: int, x: int, y: int, z: int, t: Seq<char>, d: int, dz: int)
    requires
        0 <= dz < d,
    ensures
        min_run(g, v, w, h, l, x, y, z, t, d) <= run_len(g, v, w, h, l, x, y, z + dz, t),
    decreases d,
{
    if d > 1 && dz < d - 1 {
        lemma_min_run_le(g, v, w, h, l, x, y, z, t, d - 1, dz);
    }
}

proof fn lemma_rise_cells(g: Seq<Option<BlockView>>, v: Seq<bool>, w: int, h: int, l: int, x: int, yy: int, z: int, wd: int, dep: int, t: Seq<char>, py: int)
    requires
        yy <= py < yy + rise(g, v, w, h, l, x, yy, z, wd, dep, t),
    ensures
        rect_fits(g, v, w, h, l, x, py, z, wd, dep, t),
    decreases py - yy,
{
    if py > yy {
        lemma_rise_cells(g, v, w, h, l, x, yy + 1, z, wd, dep, t, py);
    }
}

/// Every cell of the box that a layer's best rectangle marks is an unvisited
/// full block of the rectangle's texture.
proof fn lemma_rect_cells(g: Seq<Option<BlockView>>, v: Seq<bool>, w: int, h: int, l: int, y: int, r: (int, int, int, int, Seq<char>), px: int, py: int, pz: int)
    requires
        is_best_rect(g, v, w, h, l, y, r),
        in_box(px, py, pz, r.0, y, r.1, r.2, 1 + rise(g, v, w, h, l, r.0, y + 1, r.1, r.2, r.3, r.4), r.3),
    ensures
        full_tex(g, v, w, h, l, px, py, pz) == Some(r.4),
{
    let t = r.4;
    let dx = px - r.0;
    let dz = pz - r.1;
    if py == y {
        lemma_min_run_le(g, v, w, h, l, r.0, y, r.1, t, r.3, dz);
        lemma_run_cells(g, v, w, h, l, r.0, y, r.1 + dz, t, dx);
    } else {
        lemma_rise_cells(g, v, w, h, l, r.0, y + 1, r.1, r.2, r.3, t, py);
        assert(full_tex(g, v, w, h, l, r.0 + dx, py, r.1 + dz) == Some(t));
    }
}

/// A marked box's cells, all unvisited blocks of texture `t`, are drawn
/// once a brush reaching into each of them is added.
proof fn lemma_box_drawn(
    g: Seq<Option<BlockView>>,
    w: int,
    h: int,
    l: int,
    v: Seq<bool>,
    out: Seq<BrushView>,
    x: int,
    y: int,
    z: int,
    wd: int,
    ht: int,
    dep: int,
    b: BrushView,
)
    requires
        0 <= w,
        0 <= h,
        0 <= l,
        g.len() == w * h * l,
        v.len() == g.len(),
        marks_drawn(g, w, l, v, out),
        forall|px: int, py: int, pz: int| #[trigger] in_box(px, py, pz, x, y, z, wd, ht, dep) && in_grid(w, h, l, px, py, pz)
            ==> (g[idx(w, l, px, py, pz)] matches Some(c) && c.texture == b.texture)
                && overlaps(b, quake(px, pz, py, w, l), quake(px + 1, pz + 1, py + 1, w, l)),
    ensures
        marks_drawn(g, w, l, mark_box(v, w, l, x, y, z, wd, ht, dep), out.push(b)),
{
    let v2 = mark_box(v, w, l, x, y, z, wd, ht, dep);
    let out2 = out.push(b);
    assert(extends(out, out2));
    assert forall|k: int| 0 <= k < g.len() && v2[k] implies #[trigger] drawn(g, w, l, out2, k) by {
        if v[k] {
            lemma_drawn_extends(g, w, l, out, out2, k);
        } else {
            lemma_pos(w, h, l, k);
            let px = pos_x(w, k);
            let py = pos_y(w, l, k);
            let pz = pos_z(w, l, k);
            assert(in_box(px, py, pz, x, y, z, wd, ht, dep));
            assert(out2[out.len() as int] == b);
            assert(overlaps(out2[out.len() as int], cell_lo(w, l, k), cell_hi(w, l, k)));
        }
    }
}

proof fn lemma_layer_pass_draws(g: Seq<Option<BlockView>>, w: int, h: int, l: int, y: int, v: Seq<bool>, out: Seq<BrushView>)
    requires
        marks_drawn(g, w, l, v, out),
    ensures
        marks_drawn(g, w, l, layer_pass(g, w, h, l, y, v, out).0, layer_pass(g, w, h, l, y, v, out).1),
    decreases count_false(v),
{
    if sizes_ok(g, v, w, h, l) {
        match best_rect(g, v, w, h, l, y) {
            None => {},
            Some(r) => {
                let ht = 1 + rise(g, v, w, h, l, r.0, y + 1, r.1, r.2, r.3, r.4);
                lemma_rise_bounds(g, v, w, h, l, r.0, y + 1, r.1, r.2, r.3, r.4);
                lemma_layer_step(g, v, w, h, l, y, r, ht);
                let b = rect_brush(r.0, r.1, r.2, r.3, y, ht, r.4, w, l);
                assert forall|px: int, py: int, pz: int| #[trigger] in_box(px, py, pz, r.0, y, r.1, r.2, ht, r.3) && in_grid(w, h, l, px, py, pz)
                    implies (g[idx(w, l, px, py, pz)] matches Some(c) && c.texture == b.texture)
                        && overlaps(b, quake(px, pz, py, w, l), quake(px + 1, pz + 1, py + 1, w, l)) by {
                    lemma_rect_cells(g, v, w, h, l, y, r, px, py, pz);
                }
                lemma_box_drawn(g, w, h, l, v, out, r.0, y, r.1, r.2, ht, r.3, b);
                let v2 = mark_box(v, w, l, r.0, y, r.1, r.2, ht, r.3);
                lemma_layer_pass_draws(g, w, h, l, y, v2, out.push(b));
            },
        }
    }
}

proof fn lemma_rect_pass_draws(g: Seq<Option<BlockView>>, w: int, h: int, l: int, y: int, v: Seq<bool>, out: Seq<BrushView>)
    requires
        marks_drawn(g, w, l, v, out),
    ensures
        marks_drawn(g, w, l, rect_pass(g, w, h, l, y, v, out).0, rect_pass(g, w, h, l, y, v, out).1),
    decreases h - y,
{
    if y < h {
        lemma_layer_pass_draws(g, w, h, l, y, v, out);
        let (v2, o2) = layer_pass(g, w, h, l, y, v, out);
        lemma_rect_pass_draws(g, w, h, l, y + 1, v2, o2);
    }
}

// ---------------------------------------------------------------------
// Runs of slabs and panels, and single blocks
// ---------------------------------------------------------------------

proof fn lemma_grow_x(g: Seq<Option<BlockView>>, v: Seq<bool>, w: int, l: int, t: Seq<char>, shape: BlockShape, x0: int, ex: int, y0: int, ey: int, z0: int, ez: int)
    requires
        box_match(g, v, w, l, t, shape, x0, ex, y0, ey, z0, ez),
    ensures
        ex <= grow_x(g, v, w, l, t, shape, ex, y0, ey, z0, ez),
        ex <= w ==> grow_x(g, v, w, l, t, shape, ex, y0, ey, z0, ez) <= w,
        box_match(g, v, w, l, t, shape, x0, grow_x(g, v, w, l, t, shape, ex, y0, ey, z0, ez), y0, ey, z0, ez),
    decreases w - ex,
{
    if ex < w && box_match(g, v, w, l, t, shape, ex, ex + 1, y0, ey, z0, ez) {
        assert(box_match(g, v, w, l, t, shape, x0, ex + 1, y0, ey, z0, ez)) by {
            assert forall|cx: int, cy: int, cz: int| x0 <= cx < ex + 1 && y0 <= cy < ey && z0 <= cz < ez
                implies #[trigger] shape_match(g, v, w, l, cx, cy, cz, t, shape) by {
                if cx == ex {
                    assert(ex <= cx < ex + 1);
                }
            }
        }
        lemma_grow_x(g, v, w, l, t, shape, x0, ex + 1, y0, ey, z0, ez);
    }
}

proof fn lemma_grow_y(g: Seq<Option<BlockView>>, v: Seq<bool>, w: int, h: int, l: int, t: Seq<char>, shape: BlockShape, y0: int, ey: int, x0: int, ex: int, z0: int, ez: int)
    requires
        box_match(g, v, w, l, t, shape, x0, ex, y0, ey, z0, ez),
    ensures
        ey <= grow_y(g, v, w, h, l, t, shape, ey, x0, ex, z0, ez),
        ey <= h ==> grow_y(g, v, w, h, l, t, shape, ey, x0, ex, z0, ez) <= h,
        box_match(g, v, w, l, t, shape, x0, ex, y0, grow_y(g, v, w, h, l, t, shape, ey, x0, ex, z0, ez), z0, ez),
    decreases h - ey,
{
    if ey < h && box_match(g, v, w, l, t, shape, x0, ex, ey, ey + 1, z0, ez) {
        assert(box_match(g, v, w, l, t, shape, x0, ex, y0, ey + 1, z0, ez)) by {
            assert forall|cx: int, cy: int, cz: int| x0 <= cx < ex && y0 <= cy < ey + 1 && z0 <= cz < ez
                implies #[trigger] shape_match(g, v, w, l, cx, cy, cz, t, shape) by {
                if cy == ey {
                    assert(ey <= cy < ey + 1);
                }
            }
        }
        lemma_grow_y(g, v, w, h, l, t, shape, y0, ey + 1, x0, ex, z0, ez);
    }
}

proof fn lemma_grow_z(g: Seq<Option<BlockView>>, v: Seq<bool>, w: int, l: int, t: Seq<char>, shape: BlockShape, z0: int, ez: int, x0: int, ex: int, y0: int, ey: int)
    requires
        box_match(g, v, w, l, t, shape, x0, ex, y0, ey, z0, ez),
    ensures
        ez <= grow_z(g, v, w, l, t, shape, ez, x0, ex, y0, ey),
        ez <= l ==> grow_z(g, v, w, l, t, shape, ez, x0, ex, y0, ey) <= l,
        box_match(g, v, w, l, t, shape, x0, ex, y0, ey, z0, grow_z(g, v, w, l, t, shape, ez, x0, ex, y0, ey)),
    decreases l - ez,
{
    if ez < l && box_match(g, v, w, l, t, shape, x0, ex, y0, ey, ez, ez + 1) {
        assert(box_match(g, v, w, l, t, shape, x0, ex, y0, ey, z0, ez + 1)) by {
            assert forall|cx: int, cy: int, cz: int| x0 <= cx < ex && y0 <= cy < ey && z0 <= cz < ez + 1
                implies #[trigger] shape_match(g, v, w, l, cx, cy, cz, t, shape) by {
                if cz == ez {
                    assert(ez <= cz < ez + 1);
                }
            }
        }
        lemma_grow_z(g, v, w, l, t, shape, z0, ez + 1, x0, ex, y0, ey);
    }
}

/// The run grown from a matching block along any list of axes is a box of
/// matching blocks inside the grid; along an axis not in the list it stays
/// one block thick.
pub proof fn lemma_expand_along_box(g: Seq<Option<BlockView>>, v: Seq<bool>, w: int, h: int, l: int, t: Seq<char>, shape: BlockShape, x: int, y: int, z: int, axes: Seq<Axis>)
    requires
        shape_match(g, v, w, l, x, y, z, t, shape),
    ensures
        ({
            let e = expand_along(g, v, w, h, l, t, shape, x, y, z, axes);
            &&& x + 1 <= e.0 && y + 1 <= e.1 && z + 1 <= e.2
            &&& box_match(g, v, w, l, t, shape, x, e.0, y, e.1, z, e.2)
            &&& !axes.contains(Axis::X) ==> e.0 == x + 1
            &&& !axes.contains(Axis::Y) ==> e.1 == y + 1
            &&& !axes.contains(Axis::Z) ==> e.2 == z + 1
            &&& (x < w && y < h && z < l) ==> (e.0 <= w && e.1 <= h && e.2 <= l)
        }),
    decreases axes.len(),
{
    if axes.len() == 0 {
        assert(box_match(g, v, w, l, t, shape, x, x + 1, y, y + 1, z, z + 1)) by {
            assert forall|cx: int, cy: int, cz: int| x <= cx < x + 1 && y <= cy < y + 1 && z <= cz < z + 1
                implies #[trigger] shape_match(g, v, w, l, cx, cy, cz, t, shape) by {
                assert(cx == x && cy == y && cz == z);
            }
        }
    } else {
        let rest = axes.drop_last();
        lemma_expand_along_box(g, v, w, h, l, t, shape, x, y, z, rest);
        let p = expand_along(g, v, w, h, l, t, shape, x, y, z, rest);
        match axes.last() {
            Axis::X => lemma_grow_x(g, v, w, l, t, shape, x, p.0, y, p.1, z, p.2),
            Axis::Y => lemma_grow_y(g, v, w, h, l, t, shape, y, p.1, x, p.0, z, p.2),
            Axis::Z => lemma_grow_z(g, v, w, l, t, shape, z, p.2, x, p.0, y, p.1),
        }
        assert forall|a: Axis| !axes.contains(a) implies !rest.contains(a) && axes.last() != a by {
            if rest.contains(a) {
                let k = choose|k: int| 0 <= k < rest.len() && rest[k] == a;
                assert(axes[k] == a);
            }
            assert(axes[axes.len() - 1] == axes.last());
        }
    }
}

/// The run grown from a matching block in a merge order keeps one layer
/// (slabs) or one plane (panels).
proof fn lemma_expand_box(g: Seq<Option<BlockView>>, v: Seq<bool>, w: int, h: int, l: int, t: Seq<char>, shape: BlockShape, x: int, y: int, z: int, ax: MergeAxes)
    requires
        shape_match(g, v, w, l, x, y, z, t, shape),
    ensures
        ({
            let e = expand(g, v, w, h, l, t, shape, x, y, z, ax);
            &&& x + 1 <= e.0 && y + 1 <= e.1 && z + 1 <= e.2
            &&& box_match(g, v, w, l, t, shape, x, e.0, y, e.1, z, e.2)
            &&& ax == MergeAxes::XThenZ ==> e.1 == y + 1
            &&& ax == MergeAxes::ZThenY ==> e.0 == x + 1
            &&& ax == MergeAxes::XThenY ==> e.2 == z + 1
            &&& (x < w && y < h && z < l) ==> (e.0 <= w && e.1 <= h && e.2 <= l)
        }),
{
    let s = axes_of(ax);
    lemma_expand_along_box(g, v, w, h, l, t, shape, x, y, z, s);
    assert(s.len() == 2);
    match ax {
        MergeAxes::XThenZ => {
            assert(s[0] == Axis::X && s[1] == Axis::Z);
            assert(!s.contains(Axis::Y));
        },
        MergeAxes::ZThenY => {
            assert(s[0] == Axis::Z && s[1] == Axis::Y);
            assert(!s.contains(Axis::X));
        },
        MergeAxes::XThenY => {
            assert(s[0] == Axis::X && s[1] == Axis::Y);
            assert(!s.contains(Axis::Z));
        },
    }
}

/// The first brush of a block drawn on its own reaches into the block's cell.
proof fn lemma_own_first(a: (int, int, int), shape: BlockShape, t: Seq<char>)
    ensures
        ({
            let bb = block_boxes(a, (a.0 + 40, a.1 + 40, a.2 + 40), shape, t);
            bb.len() > 0 && overlaps(bb[0], a, (a.0 + 40, a.1 + 40, a.2 + 40)) && bb[0].texture == t
        }),
{
}

/// Below full merging, or with it, the cell scan draws every block it marks
/// or reaches, given that what was marked before is drawn.
proof fn lemma_scan_draws(g: Seq<Option<BlockView>>, w: int, h: int, l: int, level: GreedyLevel, v: Seq<bool>, out: Seq<BrushView>, j: int)
    requires
        0 <= w,
        0 <= h,
        0 <= l,
        g.len() == w * h * l,
        v.len() == g.len(),
        0 <= j,
        marks_drawn(g, w, l, v, out),
    ensures
        forall|k: int| 0 <= k < g.len() && (v[k] || j <= k) ==> #[trigger] drawn(g, w, l, scan(g, w, h, l, level, v, out, j), k),
    decreases g.len() - j,
{
    if j >= g.len() {
        assert forall|k: int| 0 <= k < g.len() && (v[k] || j <= k) implies #[trigger] drawn(g, w, l, scan(g, w, h, l, level, v, out, j), k) by {
            assert(v[k]);
        }
    } else if v[j] {
        lemma_scan_draws(g, w, h, l, level, v, out, j + 1);
        assert(scan(g, w, h, l, level, v, out, j) == scan(g, w, h, l, level, v, out, j + 1));
        assert forall|k: int| 0 <= k < g.len() && (v[k] || j <= k) implies #[trigger] drawn(g, w, l, scan(g, w, h, l, level, v, out, j), k) by {
            assert(v[k] || j + 1 <= k);
        }
    } else {
        match g[j] {
            None => {
                lemma_scan_draws(g, w, h, l, level, v, out, j + 1);
                assert(scan(g, w, h, l, level, v, out, j) == scan(g, w, h, l, level, v, out, j + 1));
                assert forall|k: int| 0 <= k < g.len() && (v[k] || j <= k) implies #[trigger] drawn(g, w, l, scan(g, w, h, l, level, v, out, j), k) by {
                    if k != j {
                        assert(v[k] || j + 1 <= k);
                    }
                }
            },
            Some(b) => {
                lemma_pos(w, h, l, j);
                let x = pos_x(w, j);
                let y = pos_y(w, l, j);
                let z = pos_z(w, l, j);
                let shape = shape_of(b);
                let t = b.texture;
                assert(idx(w, l, x, y, z) == j);
                match axes_for(level, shape) {
                    Some(ax) => {
                        assert(shape_match(g, v, w, l, x, y, z, t, shape));
                        lemma_expand_box(g, v, w, h, l, t, shape, x, y, z, ax);
                        let e = expand(g, v, w, h, l, t, shape, x, y, z, ax);
                        let brush = merged_brush(quake(x, z, y, w, l), quake(e.0, e.2, e.1, w, l), shape, t);
                        assert forall|px: int, py: int, pz: int| #[trigger] in_box(px, py, pz, x, y, z, e.0 - x, e.1 - y, e.2 - z) && in_grid(w, h, l, px, py, pz)
                            implies (g[idx(w, l, px, py, pz)] matches Some(c) && c.texture == brush.texture)
                                && overlaps(brush, quake(px, pz, py, w, l), quake(px + 1, pz + 1, py + 1, w, l)) by {
                            assert(shape_match(g, v, w, l, px, py, pz, t, shape));
                        }
                        lemma_box_drawn(g, w, h, l, v, out, x, y, z, e.0 - x, e.1 - y, e.2 - z, brush);
                        let v2 = mark_box(v, w, l, x, y, z, e.0 - x, e.1 - y, e.2 - z);
                        lemma_scan_draws(g, w, h, l, level, v2, out.push(brush), j + 1);
                        assert(v2[j]);
                        assert(scan(g, w, h, l, level, v, out, j) == scan(g, w, h, l, level, v2, out.push(brush), j + 1));
                        assert forall|k: int| 0 <= k < g.len() && (v[k] || j <= k) implies #[trigger] drawn(g, w, l, scan(g, w, h, l, level, v, out, j), k) by {
                            assert(v2[k] || j + 1 <= k);
                        }
                    },
                    None => {
                        let a = quake(x, z, y, w, l);
                        let bb = block_boxes(a, quake(x + 1, z + 1, y + 1, w, l), shape, t);
                        assert(quake(x + 1, z + 1, y + 1, w, l) == (a.0 + 40, a.1 + 40, a.2 + 40));
                        lemma_own_first(a, shape, t);
                        let v2 = v.update(j, true);
                        let out2 = out + bb;
                        assert(extends(out, out2));
                        assert(out2[out.len() as int] == bb[0]);
                        assert forall|k: int| 0 <= k < g.len() && v2[k] implies #[trigger] drawn(g, w, l, out2, k) by {
                            if k == j {
                                assert(overlaps(out2[out.len() as int], cell_lo(w, l, k), cell_hi(w, l, k)));
                            } else {
                                lemma_drawn_extends(g, w, l, out, out2, k);
                            }
                        }
                        lemma_scan_draws(g, w, h, l, level, v2, out2, j + 1);
                        assert(scan(g, w, h, l, level, v, out, j) == scan(g, w, h, l, level, v2, out2, j + 1));
                        assert forall|k: int| 0 <= k < g.len() && (v[k] || j <= k) implies #[trigger] drawn(g, w, l, scan(g, w, h, l, level, v, out, j), k) by {
                            assert(v2[k] || j + 1 <= k);
                        }
                    },
                }
            },
        }
    }
}

/// Meshing loses no block: at every merging level, each block of the grid
/// is reached by a brush that has the block's texture.
pub proof fn lemma_every_block_drawn(g: Seq<Option<BlockView>>, w: int, h: int, l: int, level: GreedyLevel, k: int)
    requires
        0 <= w,
        0 <= h,
        0 <= l,
        g.len() == w * h * l,
        0 <= k < g.len(),
    ensures
        drawn(g, w, l, optimized(g, w, h, l, level), k),
{
    let v0 = Seq::new(g.len(), |j: int| false);
    let e = Seq::<BrushView>::empty();
    assert(marks_drawn(g, w, l, v0, e));
    if level != GreedyLevel::NoMerge {
        lemma_rect_pass_draws(g, w, h, l, 0, v0, e);
        lemma_rect_pass_len(g, w, h, l, 0, v0, e);
        let first = rect_pass(g, w, h, l, 0, v0, e);
        lemma_scan_draws(g, w, h, l, level, first.0, first.1, 0);
    } else {
        lemma_scan_draws(g, w, h, l, level, v0, e, 0);
    }
}

// ---------------------------------------------------------------------
// No stray brushes
// ---------------------------------------------------------------------

/// Brush `b` reaches into the cell of a block of its texture.
pub open spec fn backed(g: Seq<Option<BlockView>>, w: int, l: int, b: BrushView) -> bool {
    exists|k: int|
        0 <= k < g.len() && #[trigger] overlaps(b, cell_lo(w, l, k), cell_hi(w, l, k)) && (g[k] matches Some(c) && c.texture == b.texture)
}

/// Every brush of `out` is backed.
pub open spec fn all_backed(g: Seq<Option<BlockView>>, w: int, l: int, out: Seq<BrushView>) -> bool {
    forall|i: int| 0 <= i < out.len() ==> #[trigger] backed(g, w, l, out[i])
}

proof fn lemma_backed_push(g: Seq<Option<BlockView>>, w: int, l: int, out: Seq<BrushView>, b: BrushView)
    requires
        all_backed(g, w, l, out),
        backed(g, w, l, b),
    ensures
        all_backed(g, w, l, out.push(b)),
{
    assert forall|i: int| 0 <= i < out.push(b).len() implies #[trigger] backed(g, w, l, out.push(b)[i]) by {
        if i < out.len() {
            assert(out.push(b)[i] == out[i]);
        }
    }
}

/// A brush that reaches into the cell at `(px, py, pz)`, which holds a block
/// of its texture, is backed.
proof fn lemma_backed_by(g: Seq<Option<BlockView>>, w: int, h: int, l: int, b: BrushView, px: int, py: int, pz: int)
    requires
        0 <= w,
        0 <= h,
        0 <= l,
        g.len() == w * h * l,
        in_grid(w, h, l, px, py, pz),
        g[idx(w, l, px, py, pz)] matches Some(c) && c.texture == b.texture,
        overlaps(b, quake(px, pz, py, w, l), quake(px + 1, pz + 1, py + 1, w, l)),
    ensures
        backed(g, w, l, b),
{
    crate::model::lemma_idx(w, h, l, px, py, pz);
    let k = idx(w, l, px, py, pz);
    assert(overlaps(b, cell_lo(w, l, k), cell_hi(w, l, k)));
}

proof fn lemma_layer_pass_backed(g: Seq<Option<BlockView>>, w: int, h: int, l: int, y: int, v: Seq<bool>, out: Seq<BrushView>)
    requires
        all_backed(g, w, l, out),
    ensures
        all_backed(g, w, l, layer_pass(g, w, h, l, y, v, out).1),
    decreases count_false(v),
{
    if sizes_ok(g, v, w, h, l) {
        match best_rect(g, v, w, h, l, y) {
            None => {},
            Some(r) => {
                let ht = 1 + rise(g, v, w, h, l, r.0, y + 1, r.1, r.2, r.3, r.4);
                lemma_rise_bounds(g, v, w, h, l, r.0, y + 1, r.1, r.2, r.3, r.4);
                lemma_layer_step(g, v, w, h, l, y, r, ht);
                let b = rect_brush(r.0, r.1, r.2, r.3, y, ht, r.4, w, l);
                assert(r.2 >= 1);
                lemma_rect_cells(g, v, w, h, l, y, r, r.0, y, r.1);
                lemma_backed_by(g, w, h, l, b, r.0, y, r.1);
                lemma_backed_push(g, w, l, out, b);
                let v2 = mark_box(v, w, l, r.0, y, r.1, r.2, ht, r.3);
                lemma_layer_pass_backed(g, w, h, l, y, v2, out.push(b));
            },
        }
    }
}

proof fn lemma_rect_pass_backed(g: Seq<Option<BlockView>>, w: int, h: int, l: int, y: int, v: Seq<bool>, out: Seq<BrushView>)
    requires
        all_backed(g, w, l, out),
    ensures
        all_backed(g, w, l, rect_pass(g, w, h, l, y, v, out).1),
    decreases h - y,
{
    if y < h {
        lemma_layer_pass_backed(g, w, h, l, y, v, out);
        let (v2, o2) = layer_pass(g, w, h, l, y, v, out);
        lemma_rect_pass_backed(g, w, h, l, y + 1, v2, o2);
    }
}

/// Every brush of a block drawn on its own reaches into the block's cell.
proof fn lemma_own_inside(a: (int, int, int), shape: BlockShape, t: Seq<char>, i: int)
    requires
        0 <= i < block_boxes(a, (a.0 + 40, a.1 + 40, a.2 + 40), shape, t).len(),
    ensures
        overlaps(block_boxes(a, (a.0 + 40, a.1 + 40, a.2 + 40), shape, t)[i], a, (a.0 + 40, a.1 + 40, a.2 + 40)),
        block_boxes(a, (a.0 + 40, a.1 + 40, a.2 + 40), shape, t)[i].texture == t,
{
}

proof fn lemma_scan_backed(g: Seq<Option<BlockView>>, w: int, h: int, l: int, level: GreedyLevel, v: Seq<bool>, out: Seq<BrushView>, j: int)
    requires
        0 <= w,
        0 <= h,
        0 <= l,
        g.len() == w * h * l,
        v.len() == g.len(),
        0 <= j,
        all_backed(g, w, l, out),
    ensures
        all_backed(g, w, l, scan(g, w, h, l, level, v, out, j)),
    decreases g.len() - j,
{
    if j >= g.len() {
    } else if v[j] {
        lemma_scan_backed(g, w, h, l, level, v, out, j + 1);
        assert(scan(g, w, h, l, level, v, out, j) == scan(g, w, h, l, level, v, out, j + 1));
    } else {
        match g[j] {
            None => {
                lemma_scan_backed(g, w, h, l, level, v, out, j + 1);
                assert(scan(g, w, h, l, level, v, out, j) == scan(g, w, h, l, level, v, out, j + 1));
            },
            Some(b) => {
                lemma_pos(w, h, l, j);
                let x = pos_x(w, j);
                let y = pos_y(w, l, j);
                let z = pos_z(w, l, j);
                let shape = shape_of(b);
                let t = b.texture;
                assert(idx(w, l, x, y, z) == j);
                match axes_for(level, shape) {
                    Some(ax) => {
                        assert(shape_match(g, v, w, l, x, y, z, t, shape));
                        lemma_expand_box(g, v, w, h, l, t, shape, x, y, z, ax);
                        let e = expand(g, v, w, h, l, t, shape, x, y, z, ax);
                        let brush = merged_brush(quake(x, z, y, w, l), quake(e.0, e.2, e.1, w, l), shape, t);
                        lemma_backed_by(g, w, h, l, brush, x, y, z);
                        lemma_backed_push(g, w, l, out, brush);
                        let v2 = mark_box(v, w, l, x, y, z, e.0 - x, e.1 - y, e.2 - z);
                        lemma_scan_backed(g, w, h, l, level, v2, out.push(brush), j + 1);
                        assert(scan(g, w, h, l, level, v, out, j) == scan(g, w, h, l, level, v2, out.push(brush), j + 1));
                    },
                    None => {
                        let a = quake(x, z, y, w, l);
                        let bb = block_boxes(a, quake(x + 1, z + 1, y + 1, w, l), shape, t);
                        assert(quake(x + 1, z + 1, y + 1, w, l) == (a.0 + 40, a.1 + 40, a.2 + 40));
                        let out2 = out + bb;
                        assert forall|i: int| 0 <= i < out2.len() implies #[trigger] backed(g, w, l, out2[i]) by {
                            if i < out.len() {
                                assert(out2[i] == out[i]);
                            } else {
                                lemma_own_inside(a, shape, t, i - out.len());
                                assert(out2[i] == bb[i - out.len()]);
                                lemma_backed_by(g, w, h, l, out2[i], x, y, z);
                            }
                        }
                        let v2 = v.update(j, true);
                        lemma_scan_backed(g, w, h, l, level, v2, out2, j + 1);
                        assert(scan(g, w, h, l, level, v, out, j) == scan(g, w, h, l, level, v2, out2, j + 1));
                    },
                }
            },
        }
    }
}

/// Meshing invents nothing: at every merging level, each brush reaches into
/// the cell of a block that has the brush's texture.
pub proof fn lemma_no_stray_brush(g: Seq<Option<BlockView>>, w: int, h: int, l: int, level: GreedyLevel, i: int)
    requires
        0 <= w,
        0 <= h,
        0 <= l,
        g.len() == w * h * l,
        0 <= i < optimized(g, w, h, l, level).len(),
    ensures
        backed(g, w, l, optimized(g, w, h, l, level)[i]),
{
    let v0 = Seq::new(g.len(), |j: int| false);
    let e = Seq::<BrushView>::empty();
    if level != GreedyLevel::NoMerge {
        lemma_rect_pass_backed(g, w, h, l, 0, v0, e);
        lemma_rect_pass_len(g, w, h, l, 0, v0, e);
        let first = rect_pass(g, w, h, l, 0, v0, e);
        lemma_scan_backed(g, w, h, l, level, first.0, first.1, 0);
    } else {
        lemma_scan_backed(g, w, h, l, level, v0, e, 0);
    }
}

// ---------------------------------------------------------------------
// Brushes stay inside the grid
// ---------------------------------------------------------------------

/// The map-space corner of the grid nearest the origin.
pub open spec fn grid_lo(w: int, l: int) -> (int, int, int) {
    quake(0, 0, 0, w, l)
}

/// The map-space corner of the grid opposite [`grid_lo`].
pub open spec fn grid_hi(w: int, h: int, l: int) -> (int, int, int) {
    quake(w, l, h, w, l)
}

/// Brush `b` is a proper box within the box from `lo` to `hi`.
pub open spec fn inside(b: BrushView, lo: (int, int, int), hi: (int, int, int)) -> bool {
    &&& lo.0 <= b.min.0 <= b.max.0 <= hi.0
    &&& lo.1 <= b.min.1 <= b.max.1 <= hi.1
    &&& lo.2 <= b.min.2 <= b.max.2 <= hi.2
}

/// Every brush of `out` lies within the grid.
pub open spec fn all_inside(out: Seq<BrushView>, w: int, h: int, l: int) -> bool {
    forall|i: int| 0 <= i < out.len() ==> #[trigger] inside(out[i], grid_lo(w, l), grid_hi(w, h, l))
}

proof fn lemma_inside_push(out: Seq<BrushView>, w: int, h: int, l: int, b: BrushView)
    requires
        all_inside(out, w, h, l),
        inside(b, grid_lo(w, l), grid_hi(w, h, l)),
    ensures
        all_inside(out.push(b), w, h, l),
{
    assert forall|i: int| 0 <= i < out.push(b).len() implies #[trigger] inside(out.push(b)[i], grid_lo(w, l), grid_hi(w, h, l)) by {
        if i < out.len() {
            assert(out.push(b)[i] == out[i]);
        }
    }
}

proof fn lemma_layer_pass_inside(g: Seq<Option<BlockView>>, w: int, h: int, l: int, y: int, v: Seq<bool>, out: Seq<BrushView>)
    requires
        all_inside(out, w, h, l),
    ensures
        all_inside(layer_pass(g, w, h, l, y, v, out).1, w, h, l),
    decreases count_false(v),
{
    if sizes_ok(g, v, w, h, l) {
        match best_rect(g, v, w, h, l, y) {
            None => {},
            Some(r) => {
                let ht = 1 + rise(g, v, w, h, l, r.0, y + 1, r.1, r.2, r.3, r.4);
                lemma_rise_bounds(g, v, w, h, l, r.0, y + 1, r.1, r.2, r.3, r.4);
                lemma_layer_step(g, v, w, h, l, y, r, ht);
                assert(cand(g, v, w, h, l, y, r.0, r.1, r.3));
                assert(in_grid(w, h, l, r.0, y, r.1));
                lemma_min_run_nonneg(g, v, w, h, l, r.0, y, r.1, r.4, r.3);
                let b = rect_brush(r.0, r.1, r.2, r.3, y, ht, r.4, w, l);
                lemma_inside_push(out, w, h, l, b);
                let v2 = mark_box(v, w, l, r.0, y, r.1, r.2, ht, r.3);
                lemma_layer_pass_inside(g, w, h, l, y, v2, out.push(b));
            },
        }
    }
}

proof fn lemma_rect_pass_inside(g: Seq<Option<BlockView>>, w: int, h: int, l: int, y: int, v: Seq<bool>, out: Seq<BrushView>)
    requires
        all_inside(out, w, h, l),
    ensures
        all_inside(rect_pass(g, w, h, l, y, v, out).1, w, h, l),
    decreases h - y,
{
    if y < h {
        lemma_layer_pass_inside(g, w, h, l, y, v, out);
        let (v2, o2) = layer_pass(g, w, h, l, y, v, out);
        lemma_rect_pass_inside(g, w, h, l, y + 1, v2, o2);
    }
}

/// Every brush of a block drawn on its own lies within the block's cell.
proof fn lemma_own_within(a: (int, int, int), shape: BlockShape, t: Seq<char>, i: int)
    requires
        0 <= i < block_boxes(a, (a.0 + 40, a.1 + 40, a.2 + 40), shape, t).len(),
    ensures
        inside(block_boxes(a, (a.0 + 40, a.1 + 40, a.2 + 40), shape, t)[i], a, (a.0 + 40, a.1 + 40, a.2 + 40)),
{
}

proof fn lemma_scan_inside(g: Seq<Option<BlockView>>, w: int, h: int, l: int, level: GreedyLevel, v: Seq<bool>, out: Seq<BrushView>, j: int)
    requires
        0 <= w,
        0 <= h,
        0 <= l,
        g.len() == w * h * l,
        v.len() == g.len(),
        0 <= j,
        all_inside(out, w, h, l),
    ensures
        all_inside(scan(g, w, h, l, level, v, out, j), w, h, l),
    decreases g.len() - j,
{
    if j >= g.len() {
    } else if v[j] {
        lemma_scan_inside(g, w, h, l, level, v, out, j + 1);
        assert(scan(g, w, h, l, level, v, out, j) == scan(g, w, h, l, level, v, out, j + 1));
    } else {
        match g[j] {
            None => {
                lemma_scan_inside(g, w, h, l, level, v, out, j + 1);
                assert(scan(g, w, h, l, level, v, out, j) == scan(g, w, h, l, level, v, out, j + 1));
            },
            Some(b) => {
                lemma_pos(w, h, l, j);
                let x = pos_x(w, j);
                let y = pos_y(w, l, j);
                let z = pos_z(w, l, j);
                let shape = shape_of(b);
                let t = b.texture;
                assert(idx(w, l, x, y, z) == j);
                match axes_for(level, shape) {
                    Some(ax) => {
                        assert(shape_match(g, v, w, l, x, y, z, t, shape));
                        lemma_expand_box(g, v, w, h, l, t, shape, x, y, z, ax);
                        let e = expand(g, v, w, h, l, t, shape, x, y, z, ax);
                        let brush = merged_brush(quake(x, z, y, w, l), quake(e.0, e.2, e.1, w, l), shape, t);
                        lemma_inside_push(out, w, h, l, brush);
                        let v2 = mark_box(v, w, l, x, y, z, e.0 - x, e.1 - y, e.2 - z);
                        lemma_scan_inside(g, w, h, l, level, v2, out.push(brush), j + 1);
                        assert(scan(g, w, h, l, level, v, out, j) == scan(g, w, h, l, level, v2, out.push(brush), j + 1));
                    },
                    None => {
                        let a = quake(x, z, y, w, l);
                        let bb = block_boxes(a, quake(x + 1, z + 1, y + 1, w, l), shape, t);
                        assert(quake(x + 1, z + 1, y + 1, w, l) == (a.0 + 40, a.1 + 40, a.2 + 40));
                        let out2 = out + bb;
                        assert forall|i: int| 0 <= i < out2.len() implies #[trigger] inside(out2[i], grid_lo(w, l), grid_hi(w, h, l)) by {
                            if i < out.len() {
                                assert(out2[i] == out[i]);
                            } else {
                                lemma_own_within(a, shape, t, i - out.len());
                                assert(out2[i] == bb[i - out.len()]);
                            }
                        }
                        let v2 = v.update(j, true);
                        lemma_scan_inside(g, w, h, l, level, v2, out2, j + 1);
                        assert(scan(g, w, h, l, level, v, out, j) == scan(g, w, h, l, level, v2, out2, j + 1));
                    },
                }
            },
        }
    }
}

/// Meshing stays inside the grid: at every merging level, each brush lies
/// within the map-space box of the whole grid.
pub proof fn lemma_mesh_inside_grid(g: Seq<Option<BlockView>>, w: int, h: int, l: int, level: GreedyLevel)
    requires
        0 <= w,
        0 <= h,
        0 <= l,
        g.len() == w * h * l,
    ensures
        all_inside(optimized(g, w, h, l, level), w, h, l),
{
    let v0 = Seq::new(g.len(), |j: int| false);
    let e = Seq::<BrushView>::empty();
    if level != GreedyLevel::NoMerge {
        lemma_rect_pass_inside(g, w, h, l, 0, v0, e);
        lemma_rect_pass_len(g, w, h, l, 0, v0, e);
        let first = rect_pass(g, w, h, l, 0, v0, e);
        lemma_scan_inside(g, w, h, l, level, first.0, first.1, 0);
    } else {
        lemma_scan_inside(g, w, h, l, level, v0, e, 0);
    }
}

} // verus!
