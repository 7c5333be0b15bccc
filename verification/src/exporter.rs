//! Rendering brushes as a Quake 2 (Valve 220) `.map` document, with a sky
//! hull around the level and the list of textures the document uses.

use vstd::prelude::*;
use vstd::string::StringExecFns;

use crate::optimizer::{Brush, BrushKind, BrushView, GreedyLevel, brushes_view, bv, optimized};
use crate::coverage::{grid_lo, grid_hi, inside, lemma_mesh_inside_grid};
use crate::model::BlockView;
use crate::filter::{is_terrain, texture_for, lemma_rock_textures};
use crate::text::{str_eq, owned, string_push, insert_sorted, strictly_sorted, strings_view, seq_ends_with};

verus! {

/// How thick the hull boxes around the level are, in map units.
pub const HULL_THICKNESS: i32 = 32;

/// The texture of the hull around the level.
pub open spec fn hull_texture() -> Seq<char> {
    "sky1"@
}

/// The texture of faces that are never seen.
pub open spec fn nodraw() -> Seq<char> {
    "nodraw"@
}

/// The top, bottom and side textures of a box drawn with texture `base`:
/// grass and paths get their own top and side, chests their lid and side.
pub open spec fn face_tex(base: Seq<char>) -> (Seq<char>, Seq<char>, Seq<char>) {
    if base == "minecraft/grass_block"@ {
        ("minecraft/grass_block_top"@, "minecraft/dirt"@, "minecraft/grass_block_side"@)
    } else if base == "minecraft/dirt_path"@ {
        ("minecraft/dirt_path_top"@, "minecraft/dirt"@, "minecraft/dirt_path_side"@)
    } else if base == "minecraft/chest"@ || base == "minecraft/trapped_chest"@ {
        ("minecraft/chest_top"@, "minecraft/chest_top"@, "minecraft/chest_side"@)
    } else {
        (base, base, base)
    }
}

/// The top, bottom and side textures of a box drawn with texture `base`.
fn face_textures(base: &str) -> (r: (String, String, String))
    ensures
        (r.0@, r.1@, r.2@) == face_tex(base@),
{
    if str_eq(base, "minecraft/grass_block") {
        (owned("minecraft/grass_block_top"), owned("minecraft/dirt"), owned("minecraft/grass_block_side"))
    } else if str_eq(base, "minecraft/dirt_path") {
        (owned("minecraft/dirt_path_top"), owned("minecraft/dirt"), owned("minecraft/dirt_path_side"))
    } else if str_eq(base, "minecraft/chest") || str_eq(base, "minecraft/trapped_chest") {
        (owned("minecraft/chest_top"), owned("minecraft/chest_top"), owned("minecraft/chest_side"))
    } else {
        (owned(base), owned(base), owned(base))
    }
}

/// Textures of the terrain and masonry that seals the level; brushes drawn
/// with them belong to the world, all others are detail.
pub open spec fn structural(t: Seq<char>) -> bool {
    ||| t == "minecraft/stone"@
    ||| t == "minecraft/dirt"@
    ||| t == "minecraft/grass_block"@
    ||| t == "minecraft/grass_block_top"@
    ||| t == "minecraft/grass_block_side"@
    ||| t == "minecraft/dirt_path"@
    ||| t == "minecraft/dirt_path_top"@
    ||| t == "minecraft/dirt_path_side"@
    ||| t == "minecraft/gravel"@
    ||| t == "minecraft/deepslate"@
    ||| t == "minecraft/cobbled_deepslate"@
    ||| t == "minecraft/stone_bricks"@
    ||| t == "minecraft/cobblestone"@
    ||| t == "minecraft/andesite"@
    ||| t == "minecraft/diorite"@
    ||| t == "minecraft/granite"@
    ||| t == "minecraft/sandstone"@
    ||| t == "minecraft/red_sandstone"@
    ||| t == "minecraft/end_stone"@
    ||| t == "minecraft/end_stone_bricks"@
    ||| t == "minecraft/netherrack"@
    ||| t == "minecraft/blackstone"@
    ||| t == "minecraft/polished_blackstone"@
    ||| t == "minecraft/polished_blackstone_bricks"@
    ||| t == "minecraft/mud_bricks"@
    ||| t == "minecraft/bricks"@
}

/// Whether texture `texture` belongs to the world's sealing structure.
fn is_structural_texture(texture: &str) -> (r: bool)
    ensures
        r == structural(texture@),
{
    str_eq(texture, "minecraft/stone") || str_eq(texture, "minecraft/dirt")
        || str_eq(texture, "minecraft/grass_block") || str_eq(texture, "minecraft/grass_block_top")
        || str_eq(texture, "minecraft/grass_block_side") || str_eq(texture, "minecraft/dirt_path")
        || str_eq(texture, "minecraft/dirt_path_top") || str_eq(texture, "minecraft/dirt_path_side")
        || str_eq(texture, "minecraft/gravel") || str_eq(texture, "minecraft/deepslate")
        || str_eq(texture, "minecraft/cobbled_deepslate") || str_eq(texture, "minecraft/stone_bricks")
        || str_eq(texture, "minecraft/cobblestone") || str_eq(texture, "minecraft/andesite")
        || str_eq(texture, "minecraft/diorite") || str_eq(texture, "minecraft/granite")
        || str_eq(texture, "minecraft/sandstone") || str_eq(texture, "minecraft/red_sandstone")
        || str_eq(texture, "minecraft/end_stone") || str_eq(texture, "minecraft/end_stone_bricks")
        || str_eq(texture, "minecraft/netherrack") || str_eq(texture, "minecraft/blackstone")
        || str_eq(texture, "minecraft/polished_blackstone")
        || str_eq(texture, "minecraft/polished_blackstone_bricks")
        || str_eq(texture, "minecraft/mud_bricks") || str_eq(texture, "minecraft/bricks")
}

/// Whether a brush belongs to the world's sealing structure.
fn is_structural_brush(brush: &Brush) -> (r: bool)
    ensures
        r == structural(brush@.texture),
{
    is_structural_texture(brush.texture.as_str())
}

pub open spec fn min3(a: (int, int, int), b: (int, int, int)) -> (int, int, int) {
    (if a.0 <= b.0 { a.0 } else { b.0 }, if a.1 <= b.1 { a.1 } else { b.1 }, if a.2 <= b.2 { a.2 } else { b.2 })
}

pub open spec fn max3(a: (int, int, int), b: (int, int, int)) -> (int, int, int) {
    (if a.0 >= b.0 { a.0 } else { b.0 }, if a.1 >= b.1 { a.1 } else { b.1 }, if a.2 >= b.2 { a.2 } else { b.2 })
}

/// The lowest corner over all brushes' `min` corners, component by component.
pub open spec fn low_corner(bs: Seq<BrushView>) -> (int, int, int)
    decreases bs.len(),
{
    if bs.len() <= 1 {
        bs[0].min
    } else {
        min3(low_corner(bs.drop_last()), bs.last().min)
    }
}

/// The highest corner over all brushes' `max` corners, component by component.
pub open spec fn high_corner(bs: Seq<BrushView>) -> (int, int, int)
    decreases bs.len(),
{
    if bs.len() <= 1 {
        bs[0].max
    } else {
        max3(high_corner(bs.drop_last()), bs.last().max)
    }
}

/// The six sky boxes that enclose the bounding box from `lo` to `hi`: below,
/// above, then the sides at low x, high x, low y and high y.
pub open spec fn hull_boxes(lo: (int, int, int), hi: (int, int, int)) -> Seq<BrushView> {
    let t: int = 32;
    let s = hull_texture();
    seq![
        bv((lo.0, lo.1, lo.2 - t), (hi.0, hi.1, lo.2), s, BrushKind::Box),
        bv((lo.0, lo.1, hi.2), (hi.0, hi.1, hi.2 + t), s, BrushKind::Box),
        bv((lo.0 - t, lo.1, lo.2), (lo.0, hi.1, hi.2), s, BrushKind::Box),
        bv((hi.0, lo.1, lo.2), (hi.0 + t, hi.1, hi.2), s, BrushKind::Box),
        bv((lo.0, lo.1 - t, lo.2), (hi.0, lo.1, hi.2), s, BrushKind::Box),
        bv((lo.0, hi.1, lo.2), (hi.0, hi.1 + t, hi.2), s, BrushKind::Box),
    ]
}

/// The hull around a set of brushes: none for no brushes, else the six
/// boxes around their bounding box.
pub open spec fn hull(bs: Seq<BrushView>) -> Seq<BrushView> {
    if bs.len() == 0 {
        Seq::empty()
    } else {
        hull_boxes(low_corner(bs), high_corner(bs))
    }
}

/// The hull of `bs` has all its coordinates inside `i32`.
pub open spec fn hull_fits(bs: Seq<BrushView>) -> bool {
    bs.len() > 0 ==> {
        &&& low_corner(bs).0 - 32 >= i32::MIN
        &&& low_corner(bs).1 - 32 >= i32::MIN
        &&& low_corner(bs).2 - 32 >= i32::MIN
        &&& high_corner(bs).0 + 32 <= i32::MAX
        &&& high_corner(bs).1 + 32 <= i32::MAX
        &&& high_corner(bs).2 + 32 <= i32::MAX
    }
}

proof fn lemma_corners_step(bs: Seq<BrushView>, i: int)
    requires
        1 <= i < bs.len(),
    ensures
        low_corner(bs.take(i + 1)) == min3(low_corner(bs.take(i)), bs[i].min),
        high_corner(bs.take(i + 1)) == max3(high_corner(bs.take(i)), bs[i].max),
{
    assert(bs.take(i + 1).drop_last() =~= bs.take(i));
}

/// The lowest and highest corners over a non-empty list of brushes.
fn bounding_corners(brushes: &[Brush]) -> (r: ((i32, i32, i32), (i32, i32, i32)))
    requires
        brushes@.len() > 0,
    ensures
        (r.0.0 as int, r.0.1 as int, r.0.2 as int) == low_corner(brushes_view(brushes@)),
        (r.1.0 as int, r.1.1 as int, r.1.2 as int) == high_corner(brushes_view(brushes@)),
{
    let ghost bs = brushes_view(brushes@);
    let mut min_x = brushes[0].min.0;
    let mut min_y = brushes[0].min.1;
    let mut min_z = brushes[0].min.2;
    let mut max_x = brushes[0].max.0;
    let mut max_y = brushes[0].max.1;
    let mut max_z = brushes[0].max.2;
    assert(bs.take(1).len() == 1);
    let mut i: usize = 1;
    while i < brushes.len()
        invariant
            1 <= i <= brushes.len(),
            bs == brushes_view(brushes@),
            (min_x as int, min_y as int, min_z as int) == low_corner(bs.take(i as int)),
            (max_x as int, max_y as int, max_z as int) == high_corner(bs.take(i as int)),
        decreases brushes.len() - i,
    {
        proof {
            lemma_corners_step(bs, i as int);
        }
        let b = &brushes[i];
        if b.min.0 < min_x { min_x = b.min.0; }
        if b.min.1 < min_y { min_y = b.min.1; }
        if b.min.2 < min_z { min_z = b.min.2; }
        if b.max.0 > max_x { max_x = b.max.0; }
        if b.max.1 > max_y { max_y = b.max.1; }
        if b.max.2 > max_z { max_z = b.max.2; }
        i = i + 1;
    }
    assert(bs.take(brushes.len() as int) =~= bs);
    ((min_x, min_y, min_z), (max_x, max_y, max_z))
}

/// The six sky boxes around all brushes; none when there are no brushes.
pub fn make_hull_brushes(brushes: &[Brush]) -> (r: Vec<Brush>)
    requires
        hull_fits(brushes_view(brushes@)),
    ensures
        brushes_view(r@) == hull(brushes_view(brushes@)),
{
    let ghost bs = brushes_view(brushes@);
    if brushes.len() == 0 {
        return Vec::new();
    }
    let ((min_x, min_y, min_z), (max_x, max_y, max_z)) = bounding_corners(brushes);
    let t = HULL_THICKNESS;
    let below = min_z - t;
    let above = max_z + t;
    let west = min_x - t;
    let east = max_x + t;
    let south = min_y - t;
    let north = max_y + t;
    let r = vec![
        Brush { min: (min_x, min_y, below), max: (max_x, max_y, min_z), texture: owned("sky1"), kind: BrushKind::Box },
        Brush { min: (min_x, min_y, max_z), max: (max_x, max_y, above), texture: owned("sky1"), kind: BrushKind::Box },
        Brush { min: (west, min_y, min_z), max: (min_x, max_y, max_z), texture: owned("sky1"), kind: BrushKind::Box },
        Brush { min: (max_x, min_y, min_z), max: (east, max_y, max_z), texture: owned("sky1"), kind: BrushKind::Box },
        Brush { min: (min_x, south, min_z), max: (max_x, min_y, max_z), texture: owned("sky1"), kind: BrushKind::Box },
        Brush { min: (min_x, max_y, min_z), max: (max_x, north, max_z), texture: owned("sky1"), kind: BrushKind::Box },
    ];
    assert(brushes_view(r@) =~= hull(bs));
    r
}

/// The decimal digit `d`.
pub open spec fn digit(d: int) -> char {
    if d == 0 { '0' } else if d == 1 { '1' } else if d == 2 { '2' } else if d == 3 { '3' } else if d == 4 {
        '4'
    } else if d == 5 { '5' } else if d == 6 { '6' } else if d == 7 { '7' } else if d == 8 { '8' } else { '9' }
}

/// The decimal digits of `n`, most significant first, without leading zeros.
pub open spec fn digits(n: nat) -> Seq<char>
    decreases n,
{
    if n < 10 {
        seq![digit(n as int)]
    } else {
        digits(n / 10).push(digit((n % 10) as int))
    }
}

/// `v` written in decimal, with a leading `-` when negative.
pub open spec fn decimal(v: int) -> Seq<char> {
    if v < 0 {
        seq!['-'] + digits((-v) as nat)
    } else {
        digits(v as nat)
    }
}

fn digit_char(d: u64) -> (c: char)
    requires
        d < 10,
    ensures
        c == digit(d as int),
{
    if d == 0 { '0' } else if d == 1 { '1' } else if d == 2 { '2' } else if d == 3 { '3' } else if d == 4 {
        '4'
    } else if d == 5 { '5' } else if d == 6 { '6' } else if d == 7 { '7' } else if d == 8 { '8' } else { '9' }
}

fn push_digits(s: &mut String, n: u64)
    ensures
        final(s)@ == old(s)@ + digits(n as nat),
    decreases n,
{
    if n >= 10 {
        push_digits(s, n / 10);
        string_push(s, digit_char(n % 10));
        assert(s@ =~= old(s)@ + digits(n as nat));
    } else {
        string_push(s, digit_char(n));
        assert(s@ =~= old(s)@ + digits(n as nat));
    }
}

/// Appends `v` in decimal.
fn push_int(s: &mut String, v: i32)
    ensures
        final(s)@ == old(s)@ + decimal(v as int),
{
    if v < 0 {
        string_push(s, '-');
        let n: i64 = v as i64;
        let m: u64 = (-n) as u64;
        push_digits(s, m);
        assert(s@ =~= old(s)@ + decimal(v as int));
    } else {
        push_digits(s, v as u64);
    }
}

/// One corner of a face plane: `( x y z ) `.
#[verifier::opaque]
pub open spec fn point_text(p: (int, int, int)) -> Seq<char> {
    "( "@ + decimal(p.0) + " "@ + decimal(p.1) + " "@ + decimal(p.2) + " ) "@
}

/// The texture axes of a face parallel to the `xy` plane.
pub open spec fn axes_xy() -> Seq<char> {
    " [ 1 0 0 0 ] [ 0 -1 0 0 ]"@
}

/// The texture axes of a face parallel to the `yz` plane.
pub open spec fn axes_yz() -> Seq<char> {
    " [ 0 1 0 0 ] [ 0 0 -1 0 ]"@
}

/// The texture axes of a face parallel to the `xz` plane.
pub open spec fn axes_xz() -> Seq<char> {
    " [ 1 0 0 0 ] [ 0 0 -1 0 ]"@
}

/// One face of a brush: three points on its plane, its texture, the texture
/// axes, no rotation, and a scale of 0.625 along both axes.
#[verifier::opaque]
pub open spec fn plane_line(a: (int, int, int), b: (int, int, int), c: (int, int, int), tex: Seq<char>, axes: Seq<char>) -> Seq<char> {
    point_text(a) + point_text(b) + point_text(c) + tex + axes + " 0 0.625 0.625\n"@
}

fn push_point(s: &mut String, x: i32, y: i32, z: i32)
    ensures
        final(s)@ == old(s)@ + point_text((x as int, y as int, z as int)),
{
    let ghost s0 = s@;
    reveal(point_text);
    s.append("( ");
    push_int(s, x);
    s.append(" ");
    push_int(s, y);
    s.append(" ");
    push_int(s, z);
    s.append(" ) ");
    assert(s@ =~= s0 + point_text((x as int, y as int, z as int)));
}

fn push_plane(s: &mut String, a: (i32, i32, i32), b: (i32, i32, i32), c: (i32, i32, i32), tex: &str, axes: &str)
    ensures
        final(s)@ == old(s)@ + plane_line(
            (a.0 as int, a.1 as int, a.2 as int),
            (b.0 as int, b.1 as int, b.2 as int),
            (c.0 as int, c.1 as int, c.2 as int),
            tex@,
            axes@,
        ),
{
    let ghost s0 = s@;
    reveal(plane_line);
    push_point(s, a.0, a.1, a.2);
    push_point(s, b.0, b.1, b.2);
    push_point(s, c.0, c.1, c.2);
    s.append(tex);
    s.append(axes);
    s.append(" 0 0.625 0.625\n");
    assert(s@ =~= s0 + plane_line(
        (a.0 as int, a.1 as int, a.2 as int),
        (b.0 as int, b.1 as int, b.2 as int),
        (c.0 as int, c.1 as int, c.2 as int),
        tex@,
        axes@,
    ));
}

/// A box brush from `lo` to `hi`: its top, bottom and four sides, each face
/// given by three of its corners.
#[verifier::opaque]
pub open spec fn box_text(lo: (int, int, int), hi: (int, int, int), top: Seq<char>, bottom: Seq<char>, side: Seq<char>) -> Seq<char> {
    let (x1, y1, z1) = lo;
    let (x2, y2, z2) = hi;
    "// Brush\n{\n"@
        + plane_line((x2, y2, z2), (x2, y1, z2), (x1, y1, z2), top, axes_xy())
        + plane_line((x2, y1, z1), (x2, y2, z1), (x1, y2, z1), bottom, axes_xy())
        + plane_line((x2, y2, z2), (x2, y2, z1), (x2, y1, z1), side, axes_yz())
        + plane_line((x1, y1, z2), (x1, y1, z1), (x1, y2, z1), side, axes_yz())
        + plane_line((x2, y2, z2), (x1, y2, z2), (x1, y2, z1), side, axes_xz())
        + plane_line((x1, y1, z2), (x2, y1, z2), (x2, y1, z1), side, axes_xz())
        + "}\n"@
}

fn push_box(s: &mut String, lo: (i32, i32, i32), hi: (i32, i32, i32), top: &str, bottom: &str, side: &str)
    ensures
        final(s)@ == old(s)@ + box_text(
            (lo.0 as int, lo.1 as int, lo.2 as int),
            (hi.0 as int, hi.1 as int, hi.2 as int),
            top@,
            bottom@,
            side@,
        ),
{
    let ghost s0 = s@;
    reveal(box_text);
    let (x1, y1, z1) = lo;
    let (x2, y2, z2) = hi;
    s.append("// Brush\n{\n");
    push_plane(s, (x2, y2, z2), (x2, y1, z2), (x1, y1, z2), top, " [ 1 0 0 0 ] [ 0 -1 0 0 ]");
    push_plane(s, (x2, y1, z1), (x2, y2, z1), (x1, y2, z1), bottom, " [ 1 0 0 0 ] [ 0 -1 0 0 ]");
    push_plane(s, (x2, y2, z2), (x2, y2, z1), (x2, y1, z1), side, " [ 0 1 0 0 ] [ 0 0 -1 0 ]");
    push_plane(s, (x1, y1, z2), (x1, y1, z1), (x1, y2, z1), side, " [ 0 1 0 0 ] [ 0 0 -1 0 ]");
    push_plane(s, (x2, y2, z2), (x1, y2, z2), (x1, y2, z1), side, " [ 1 0 0 0 ] [ 0 0 -1 0 ]");
    push_plane(s, (x1, y1, z2), (x2, y1, z2), (x2, y1, z1), side, " [ 1 0 0 0 ] [ 0 0 -1 0 ]");
    s.append("}\n");
    assert(s@ =~= s0 + box_text(
        (lo.0 as int, lo.1 as int, lo.2 as int),
        (hi.0 as int, hi.1 as int, hi.2 as int),
        top@,
        bottom@,
        side@,
    ));
}

/// A vertical prism with base corners `p0..p3` (in order around the base)
/// between heights `z1` and `z2`: top, bottom and four sides.
#[verifier::opaque]
pub open spec fn prism_text(p0: (int, int), p1: (int, int), p2: (int, int), p3: (int, int), z1: int, z2: int, tex: Seq<char>) -> Seq<char> {
    let t0 = (p0.0, p0.1, z2);
    let t1 = (p1.0, p1.1, z2);
    let t2 = (p2.0, p2.1, z2);
    let t3 = (p3.0, p3.1, z2);
    let b0 = (p0.0, p0.1, z1);
    let b1 = (p1.0, p1.1, z1);
    let b2 = (p2.0, p2.1, z1);
    let b3 = (p3.0, p3.1, z1);
    "// Brush\n{\n"@
        + plane_line(t0, t1, t2, tex, axes_xy())
        + plane_line(b0, b2, b1, tex, axes_xy())
        + plane_line(t1, t0, b0, tex, axes_yz())
        + plane_line(t2, t1, b1, tex, axes_yz())
        + plane_line(t3, t2, b2, tex, axes_yz())
        + plane_line(t0, t3, b3, tex, axes_yz())
        + "}\n"@
}

fn push_prism(s: &mut String, p0: (i32, i32), p1: (i32, i32), p2: (i32, i32), p3: (i32, i32), z1: i32, z2: i32, tex: &str)
    ensures
        final(s)@ == old(s)@ + prism_text(
            (p0.0 as int, p0.1 as int),
            (p1.0 as int, p1.1 as int),
            (p2.0 as int, p2.1 as int),
            (p3.0 as int, p3.1 as int),
            z1 as int,
            z2 as int,
            tex@,
        ),
{
    let ghost s0 = s@;
    reveal(prism_text);
    let t0 = (p0.0, p0.1, z2);
    let t1 = (p1.0, p1.1, z2);
    let t2 = (p2.0, p2.1, z2);
    let t3 = (p3.0, p3.1, z2);
    let b0 = (p0.0, p0.1, z1);
    let b1 = (p1.0, p1.1, z1);
    let b2 = (p2.0, p2.1, z1);
    let b3 = (p3.0, p3.1, z1);
    s.append("// Brush\n{\n");
    push_plane(s, t0, t1, t2, tex, " [ 1 0 0 0 ] [ 0 -1 0 0 ]");
    push_plane(s, b0, b2, b1, tex, " [ 1 0 0 0 ] [ 0 -1 0 0 ]");
    push_plane(s, t1, t0, b0, tex, " [ 0 1 0 0 ] [ 0 0 -1 0 ]");
    push_plane(s, t2, t1, b1, tex, " [ 0 1 0 0 ] [ 0 0 -1 0 ]");
    push_plane(s, t3, t2, b2, tex, " [ 0 1 0 0 ] [ 0 0 -1 0 ]");
    push_plane(s, t0, t3, b3, tex, " [ 0 1 0 0 ] [ 0 0 -1 0 ]");
    s.append("}\n");
    assert(s@ =~= s0 + prism_text(
        (p0.0 as int, p0.1 as int),
        (p1.0 as int, p1.1 as int),
        (p2.0 as int, p2.1 as int),
        (p3.0 as int, p3.1 as int),
        z1 as int,
        z2 as int,
        tex@,
    ));
}

/// Half of `v`, rounded towards zero.
pub open spec fn trunc_half(v: int) -> int {
    if v >= 0 {
        v / 2
    } else {
        -((-v) / 2)
    }
}

/// The centre of a plant brush along `x` and `y`.
pub open spec fn plant_centre(b: BrushView) -> (int, int) {
    (trunc_half(b.min.0 + b.max.0), trunc_half(b.min.1 + b.max.1))
}

/// A plant brush's coordinates stay inside `i32` while it is drawn.
pub open spec fn plant_fits(b: BrushView) -> bool {
    let (cx, cy) = plant_centre(b);
    &&& i32::MIN <= b.min.0 + b.max.0 <= i32::MAX
    &&& i32::MIN <= b.min.1 + b.max.1 <= i32::MAX
    &&& i32::MIN + 13 <= cx && cx + 13 <= i32::MAX
    &&& i32::MIN + 13 <= cy && cy + 13 <= i32::MAX
    &&& b.min.2 + 20 <= i32::MAX
}

/// A plant: two thin prisms, 20 units high, crossing at 45 degrees over the
/// centre of the brush's base.
#[verifier::opaque]
pub open spec fn plant_text(b: BrushView) -> Seq<char> {
    let (cx, cy) = plant_centre(b);
    let z1 = b.min.2;
    let z2 = z1 + 20;
    prism_text((cx - 11, cy - 13), (cx - 13, cy - 11), (cx + 11, cy + 13), (cx + 13, cy + 11), z1, z2, b.texture)
        + prism_text((cx - 13, cy + 11), (cx - 11, cy + 13), (cx + 13, cy - 11), (cx + 11, cy - 13), z1, z2, b.texture)
}

fn half_towards_zero(v: i64) -> (r: i64)
    requires
        i32::MIN + i32::MIN <= v <= i32::MAX + i32::MAX,
    ensures
        r == trunc_half(v as int),
{
    if v >= 0 {
        v / 2
    } else {
        let n: i64 = -v;
        -(n / 2)
    }
}

fn push_plant(s: &mut String, b: &Brush)
    requires
        plant_fits(b@),
    ensures
        final(s)@ == old(s)@ + plant_text(b@),
{
    let ghost s0 = s@;
    reveal(plant_text);
    let cx64 = half_towards_zero(b.min.0 as i64 + b.max.0 as i64);
    let cy64 = half_towards_zero(b.min.1 as i64 + b.max.1 as i64);
    let cx = cx64 as i32;
    let cy = cy64 as i32;
    let z1 = b.min.2;
    let z2 = z1 + 20;
    let tex = b.texture.as_str();
    push_prism(s, (cx - 11, cy - 13), (cx - 13, cy - 11), (cx + 11, cy + 13), (cx + 13, cy + 11), z1, z2, tex);
    push_prism(s, (cx - 13, cy + 11), (cx - 11, cy + 13), (cx + 13, cy - 11), (cx + 11, cy - 13), z1, z2, tex);
    assert(s@ =~= s0 + plant_text(b@));
}

/// The bottom texture of a box: `nodraw` when it rests on the lowest level
/// `floor` of the map, else the bottom of its face textures.
pub open spec fn bottom_tex(b: BrushView, floor: int) -> Seq<char> {
    if b.min.2 == floor {
        nodraw()
    } else {
        face_tex(b.texture).1
    }
}

/// How one brush is written, given the lowest level `floor` of the map.
pub open spec fn brush_text(b: BrushView, floor: int) -> Seq<char> {
    match b.kind {
        BrushKind::Box => box_text(b.min, b.max, face_tex(b.texture).0, bottom_tex(b, floor), face_tex(b.texture).2),
        BrushKind::Plant45 => plant_text(b),
    }
}

/// A brush whose drawing stays inside `i32`: boxes always, plants when
/// they fit.
pub open spec fn drawable(b: BrushView) -> bool {
    b.kind == BrushKind::Plant45 ==> plant_fits(b)
}

fn push_brush(s: &mut String, b: &Brush, floor: i32)
    requires
        drawable(b@),
    ensures
        final(s)@ == old(s)@ + brush_text(b@, floor as int),
{
    match b.kind {
        BrushKind::Box => {
            let (top, bottom, side) = face_textures(b.texture.as_str());
            if b.min.2 == floor {
                push_box(s, b.min, b.max, top.as_str(), "nodraw", side.as_str());
            } else {
                push_box(s, b.min, b.max, top.as_str(), bottom.as_str(), side.as_str());
            }
        },
        BrushKind::Plant45 => {
            push_plant(s, b);
        },
    }
}

/// Texture `x` is used when one brush is written.
pub open spec fn brush_uses(b: BrushView, floor: int, x: Seq<char>) -> bool {
    match b.kind {
        BrushKind::Box => x == face_tex(b.texture).0 || x == bottom_tex(b, floor) || x == face_tex(b.texture).2,
        BrushKind::Plant45 => x == b.texture,
    }
}

fn add_brush_textures(v: &mut Vec<String>, b: &Brush, floor: i32)
    requires
        strictly_sorted(strings_view(old(v)@)),
    ensures
        strictly_sorted(strings_view(final(v)@)),
        forall|x: Seq<char>| strings_view(final(v)@).contains(x) <==> (strings_view(old(v)@).contains(x) || brush_uses(b@, floor as int, x)),
{
    match b.kind {
        BrushKind::Box => {
            let (top, bottom, side) = face_textures(b.texture.as_str());
            insert_sorted(v, top.as_str());
            if b.min.2 == floor {
                insert_sorted(v, "nodraw");
            } else {
                insert_sorted(v, bottom.as_str());
            }
            insert_sorted(v, side.as_str());
        },
        BrushKind::Plant45 => {
            insert_sorted(v, b.texture.as_str());
        },
    }
}

/// The lowest `min.z` over all brushes; `i32::MAX` when there is none.
pub open spec fn lowest_z(bs: Seq<BrushView>) -> int
    decreases bs.len(),
{
    if bs.len() == 0 {
        i32::MAX as int
    } else {
        let p = lowest_z(bs.drop_last());
        if bs.last().min.2 < p { bs.last().min.2 } else { p }
    }
}

/// The brushes of `bs` that are (`world`) or are not structural, written in
/// order.
pub open spec fn section_text(bs: Seq<BrushView>, floor: int, world: bool) -> Seq<char>
    decreases bs.len(),
{
    if bs.len() == 0 {
        Seq::empty()
    } else {
        section_text(bs.drop_last(), floor, world) + if structural(bs.last().texture) == world {
            brush_text(bs.last(), floor)
        } else {
            Seq::empty()
        }
    }
}

/// How many brushes of `bs` are (`world`) or are not structural.
pub open spec fn section_count(bs: Seq<BrushView>, world: bool) -> nat
    decreases bs.len(),
{
    if bs.len() == 0 {
        0
    } else {
        section_count(bs.drop_last(), world) + if structural(bs.last().texture) == world { 1nat } else { 0nat }
    }
}

/// All brushes of `bs` written in order.
pub open spec fn brushes_text(bs: Seq<BrushView>, floor: int) -> Seq<char>
    decreases bs.len(),
{
    if bs.len() == 0 {
        Seq::empty()
    } else {
        brushes_text(bs.drop_last(), floor) + brush_text(bs.last(), floor)
    }
}

/// The hull as written: its first box (the floor) shows `nodraw` towards the
/// level and sky elsewhere; the others are written like any brush.
pub open spec fn hull_text(h: Seq<BrushView>, floor: int) -> Seq<char> {
    if h.len() == 0 {
        Seq::empty()
    } else {
        box_text(h[0].min, h[0].max, nodraw(), hull_texture(), hull_texture()) + brushes_text(h.drop_first(), floor)
    }
}

/// Texture `x` is used by some brush of `bs` from index `start` on.
pub open spec fn uses_from(bs: Seq<BrushView>, start: int, floor: int, x: Seq<char>) -> bool {
    exists|i: int| start <= i < bs.len() && brush_uses(#[trigger] bs[i], floor, x)
}

/// Texture `x` is used when the hull `h` is written.
pub open spec fn hull_uses(h: Seq<BrushView>, floor: int, x: Seq<char>) -> bool {
    h.len() > 0 && (x == nodraw() || x == hull_texture() || uses_from(h, 1, floor, x))
}

/// Some brush of `bs` is not structural.
pub open spec fn has_detail(bs: Seq<BrushView>) -> bool {
    exists|i: int| 0 <= i < bs.len() && !structural(#[trigger] bs[i].texture)
}

/// The `.map` document for `bs`: a header, the world entity with the
/// structural brushes and the hull, and a `func_detail` entity with the other
/// brushes when there are any.
pub open spec fn map_doc(bs: Seq<BrushView>) -> Seq<char> {
    let floor = lowest_z(bs);
    "// Game: Digital Paint: Paintball 2\n// Format: Quake2 (Valve)\n// entity 0\n{\n\"classname\" \"worldspawn\"\n\"mapversion\" \"220\"\n"@
        + section_text(bs, floor, true)
        + hull_text(hull(bs), floor)
        + "}\n"@
        + if has_detail(bs) {
            "// entity 1\n{\n\"classname\" \"func_detail\"\n"@ + section_text(bs, floor, false) + "}\n"@
        } else {
            Seq::empty()
        }
}

/// Every brush of `bs` can be drawn and its hull fits in `i32`.
pub open spec fn exportable(bs: Seq<BrushView>) -> bool {
    &&& hull_fits(bs)
    &&& forall|i: int| 0 <= i < bs.len() ==> drawable(#[trigger] bs[i])
}

/// A rendered map: its text, the textures it uses (each once, in `String`
/// order), and how many brushes went into the world, into detail, and into
/// the hull.
pub struct MapDocument {
    pub text: String,
    pub textures: Vec<String>,
    pub structural: usize,
    pub detail: usize,
    pub hull: usize,
}

fn lowest_z_of(brushes: &[Brush]) -> (r: i32)
    ensures
        r as int == lowest_z(brushes_view(brushes@)),
{
    let ghost bs = brushes_view(brushes@);
    let mut z = i32::MAX;
    let mut i: usize = 0;
    while i < brushes.len()
        invariant
            i <= brushes.len(),
            bs == brushes_view(brushes@),
            z as int == lowest_z(bs.take(i as int)),
        decreases brushes.len() - i,
    {
        assert(bs.take(i + 1).drop_last() =~= bs.take(i as int));
        if brushes[i].min.2 < z {
            z = brushes[i].min.2;
        }
        i = i + 1;
    }
    assert(bs.take(brushes.len() as int) =~= bs);
    z
}

/// Writes the brushes that are (`world`) or are not structural; returns how
/// many were written.
fn push_section(s: &mut String, brushes: &[Brush], floor: i32, world: bool) -> (n: usize)
    requires
        forall|i: int| 0 <= i < brushes@.len() ==> drawable(#[trigger] brushes_view(brushes@)[i]),
    ensures
        final(s)@ == old(s)@ + section_text(brushes_view(brushes@), floor as int, world),
        n == section_count(brushes_view(brushes@), world),
{
    let ghost bs = brushes_view(brushes@);
    let ghost s0 = s@;
    let mut n: usize = 0;
    let mut i: usize = 0;
    while i < brushes.len()
        invariant
            i <= brushes.len(),
            bs == brushes_view(brushes@),
            forall|k: int| 0 <= k < brushes@.len() ==> drawable(#[trigger] bs[k]),
            s@ == s0 + section_text(bs.take(i as int), floor as int, world),
            n == section_count(bs.take(i as int), world),
            n <= i,
        decreases brushes.len() - i,
    {
        assert(bs.take(i + 1).drop_last() =~= bs.take(i as int));
        assert(bs[i as int] == brushes@[i as int]@);
        if is_structural_brush(&brushes[i]) == world {
            push_brush(s, &brushes[i], floor);
            n = n + 1;
        }
        assert(s@ =~= s0 + section_text(bs.take(i + 1), floor as int, world));
        i = i + 1;
    }
    assert(bs.take(brushes.len() as int) =~= bs);
    n
}

fn push_hull(s: &mut String, hull_brushes: &Vec<Brush>, floor: i32)
    requires
        forall|i: int| 0 <= i < hull_brushes@.len() ==> drawable(#[trigger] brushes_view(hull_brushes@)[i]),
    ensures
        final(s)@ == old(s)@ + hull_text(brushes_view(hull_brushes@), floor as int),
{
    let ghost h = brushes_view(hull_brushes@);
    let ghost s0 = s@;
    if hull_brushes.len() == 0 {
        assert(s@ =~= s0 + hull_text(h, floor as int));
        return;
    }
    push_box(s, hull_brushes[0].min, hull_brushes[0].max, "nodraw", "sky1", "sky1");
    let ghost first = box_text(h[0].min, h[0].max, nodraw(), hull_texture(), hull_texture());
    let ghost rest = h.drop_first();
    assert(s@ =~= s0 + first + brushes_text(rest.take(0), floor as int));
    let mut i: usize = 1;
    while i < hull_brushes.len()
        invariant
            1 <= i <= hull_brushes.len(),
            h == brushes_view(hull_brushes@),
            rest == h.drop_first(),
            forall|k: int| 0 <= k < hull_brushes@.len() ==> drawable(#[trigger] h[k]),
            s@ == s0 + first + brushes_text(rest.take(i - 1), floor as int),
        decreases hull_brushes.len() - i,
    {
        assert(rest.take(i as int).drop_last() =~= rest.take(i - 1));
        assert(rest.take(i as int).last() == h[i as int]);
        assert(h[i as int] == hull_brushes@[i as int]@);
        push_brush(s, &hull_brushes[i], floor);
        assert(s@ =~= s0 + first + brushes_text(rest.take(i as int), floor as int));
        i = i + 1;
    }
    assert(rest.take(hull_brushes.len() - 1) =~= rest);
    assert(s@ =~= s0 + hull_text(h, floor as int));
}

/// Texture `x` is used by a brush of `bs` with index in `start..end`.
pub open spec fn uses_between(bs: Seq<BrushView>, start: int, end: int, floor: int, x: Seq<char>) -> bool {
    exists|k: int| start <= k < end && k < bs.len() && brush_uses(#[trigger] bs[k], floor, x)
}

proof fn lemma_uses_step(bs: Seq<BrushView>, start: int, i: int, floor: int, x: Seq<char>)
    requires
        start <= i < bs.len(),
    ensures
        uses_between(bs, start, i + 1, floor, x) == (uses_between(bs, start, i, floor, x) || brush_uses(bs[i], floor, x)),
{
    if uses_between(bs, start, i + 1, floor, x) {
        let k = choose|k: int| start <= k < i + 1 && k < bs.len() && brush_uses(#[trigger] bs[k], floor, x);
        if k < i {
            assert(start <= k < i && k < bs.len() && brush_uses(bs[k], floor, x));
        }
    }
    if uses_between(bs, start, i, floor, x) {
        let k = choose|k: int| start <= k < i && k < bs.len() && brush_uses(#[trigger] bs[k], floor, x);
        assert(start <= k < i + 1 && k < bs.len() && brush_uses(bs[k], floor, x));
    }
    if brush_uses(bs[i], floor, x) {
        assert(start <= i < i + 1 && i < bs.len() && brush_uses(bs[i], floor, x));
    }
}

/// Adds the textures used by `brushes[start..]` to a sorted list.
fn add_textures_from(v: &mut Vec<String>, brushes: &[Brush], start: usize, floor: i32)
    requires
        strictly_sorted(strings_view(old(v)@)),
    ensures
        strictly_sorted(strings_view(final(v)@)),
        forall|x: Seq<char>| strings_view(final(v)@).contains(x) <==> (strings_view(old(v)@).contains(x) || uses_from(brushes_view(brushes@), start as int, floor as int, x)),
{
    let ghost bs = brushes_view(brushes@);
    let ghost v0 = strings_view(v@);
    let mut i: usize = start;
    while i < brushes.len()
        invariant
            start <= i,
            bs == brushes_view(brushes@),
            strictly_sorted(strings_view(v@)),
            forall|x: Seq<char>| #[trigger] strings_view(v@).contains(x) == (v0.contains(x) || uses_between(bs, start as int, i as int, floor as int, x)),
        decreases brushes.len() - i,
    {
        let ghost before = strings_view(v@);
        assert(bs[i as int] == brushes@[i as int]@);
        add_brush_textures(v, &brushes[i], floor);
        assert forall|x: Seq<char>| #[trigger] strings_view(v@).contains(x) == (v0.contains(x) || uses_between(bs, start as int, i + 1, floor as int, x)) by {
            assert(before.contains(x) == (v0.contains(x) || uses_between(bs, start as int, i as int, floor as int, x)));
            lemma_uses_step(bs, start as int, i as int, floor as int, x);
        }
        i = i + 1;
    }
    assert forall|x: Seq<char>| strings_view(v@).contains(x) <==> (v0.contains(x) || uses_from(bs, start as int, floor as int, x)) by {
        assert(strings_view(v@).contains(x) == (v0.contains(x) || uses_between(bs, start as int, i as int, floor as int, x)));
        if uses_from(bs, start as int, floor as int, x) {
            let k = choose|k: int| start <= k < bs.len() && brush_uses(#[trigger] bs[k], floor as int, x);
            assert(start <= k < i && k < bs.len() && brush_uses(bs[k], floor as int, x));
        }
    }
}

proof fn lemma_detail_count(bs: Seq<BrushView>)
    ensures
        section_count(bs, false) > 0 <==> has_detail(bs),
    decreases bs.len(),
{
    if bs.len() > 0 {
        let p = bs.drop_last();
        lemma_detail_count(p);
        if has_detail(p) {
            let k = choose|k: int| 0 <= k < p.len() && !structural(#[trigger] p[k].texture);
            assert(bs[k] == p[k]);
        }
        if has_detail(bs) && !has_detail(p) {
            let k = choose|k: int| 0 <= k < bs.len() && !structural(#[trigger] bs[k].texture);
            if k < p.len() {
                assert(p[k] == bs[k]);
            }
        }
        if !structural(bs.last().texture) {
            assert(!structural(bs[bs.len() - 1].texture));
        }
    }
}

/// Renders brushes as a Quake 2 (Valve 220) map: the structural brushes and
/// a sky hull in the world entity, the other brushes in a `func_detail`
/// entity, and the sorted list of every texture the map uses.
pub fn render_map(brushes: &[Brush]) -> (r: MapDocument)
    requires
        exportable(brushes_view(brushes@)),
    ensures
        r.text@ == map_doc(brushes_view(brushes@)),
        strictly_sorted(strings_view(r.textures@)),
        forall|x: Seq<char>| strings_view(r.textures@).contains(x) <==> (
            uses_from(brushes_view(brushes@), 0, lowest_z(brushes_view(brushes@)), x)
            || hull_uses(hull(brushes_view(brushes@)), lowest_z(brushes_view(brushes@)), x)),
        r.structural == section_count(brushes_view(brushes@), true),
        r.detail == section_count(brushes_view(brushes@), false),
        r.hull == hull(brushes_view(brushes@)).len(),
{
    let ghost bs = brushes_view(brushes@);
    let floor = lowest_z_of(brushes);
    let hull_brushes = make_hull_brushes(brushes);
    let ghost h = brushes_view(hull_brushes@);
    assert forall|i: int| 0 <= i < h.len() implies drawable(#[trigger] h[i]) by {
        assert(h[i].kind == BrushKind::Box);
    }
    let mut text = String::new();
    text.append("// Game: Digital Paint: Paintball 2\n// Format: Quake2 (Valve)\n// entity 0\n{\n\"classname\" \"worldspawn\"\n\"mapversion\" \"220\"\n");
    let structural = push_section(&mut text, brushes, floor, true);
    push_hull(&mut text, &hull_brushes, floor);
    text.append("}\n");
    let mut detail_text = String::new();
    let detail = push_section(&mut detail_text, brushes, floor, false);
    proof {
        lemma_detail_count(bs);
    }
    if detail > 0 {
        text.append("// entity 1\n{\n\"classname\" \"func_detail\"\n");
        text.append(detail_text.as_str());
        text.append("}\n");
    }
    assert(text@ =~= map_doc(bs));

    let mut textures: Vec<String> = Vec::new();
    add_textures_from(&mut textures, brushes, 0, floor);
    if hull_brushes.len() > 0 {
        insert_sorted(&mut textures, "nodraw");
        insert_sorted(&mut textures, "sky1");
        add_textures_from(&mut textures, &hull_brushes, 1, floor);
    }
    let hull_count = hull_brushes.len();
    MapDocument { text, textures, structural, detail, hull: hull_count }
}

/// What `Path::parent` gives for path `p`, as text.
pub uninterp spec fn path_parent(p: Seq<char>) -> Option<Seq<char>>;

/// What `Path::file_stem` gives for path `p`, as text.
pub uninterp spec fn path_file_stem(p: Seq<char>) -> Option<Seq<char>>;

/// What `Path::join` gives for `base` joined with `file`, as text.
pub uninterp spec fn path_join(base: Seq<char>, file: Seq<char>) -> Seq<char>;

/// `std::path::Path::parent`: the path without its last component, `None`
/// for a root or an empty path. A parent of a UTF-8 path is UTF-8, so the
/// text is exact. The contract names the result and claims nothing else.
#[verifier::external_body]
fn parent_of(p: &str) -> (r: Option<String>)
    ensures
        match r {
            Some(q) => path_parent(p@) == Some(q@),
            None => path_parent(p@) is None,
        },
{
    match std::path::Path::new(p).parent() {
        Some(q) => Some(q.to_string_lossy().into_owned()),
        None => None,
    }
}

/// `std::path::Path::file_stem`: the file name without its last extension,
/// `None` when there is no file name. The contract names the result and
/// claims nothing else.
#[verifier::external_body]
fn file_stem_of(p: &str) -> (r: Option<String>)
    ensures
        match r {
            Some(q) => path_file_stem(p@) == Some(q@),
            None => path_file_stem(p@) is None,
        },
{
    match std::path::Path::new(p).file_stem() {
        Some(q) => Some(q.to_string_lossy().into_owned()),
        None => None,
    }
}

/// `std::path::Path::join`: `file` appended to `base` as a new component.
/// The contract names the result and claims nothing else.
#[verifier::external_body]
fn join_path(base: &str, file: &str) -> (r: String)
    ensures
        r@ == path_join(base@, file@),
{
    std::path::Path::new(base).join(file).to_string_lossy().into_owned()
}

/// The directory and file name of the texture list that goes with a map,
/// given the map path's parent and stem: `.` without a parent, and
/// `<stem>_textures.txt`, with `map` as the stem when there is none.
pub fn texture_list_parts(parent: Option<String>, stem: Option<String>) -> (r: (String, String))
    ensures
        r.0@ == match parent {
            Some(p) => p@,
            None => "."@,
        },
        r.1@ == match stem {
            Some(t) => t@,
            None => "map"@,
        } + "_textures.txt"@,
{
    let dir = match parent {
        Some(p) => p,
        None => owned("."),
    };
    let mut file = match stem {
        Some(t) => t,
        None => owned("map"),
    };
    file.append("_textures.txt");
    (dir, file)
}

/// The path of the texture list written next to map `output`.
pub open spec fn texture_list_name(output: Seq<char>) -> Seq<char> {
    let dir = match path_parent(output) {
        Some(p) => p,
        None => "."@,
    };
    let stem = match path_file_stem(output) {
        Some(t) => t,
        None => "map"@,
    };
    path_join(dir, stem + "_textures.txt"@)
}

/// The path of the texture list written next to map `output`:
/// `<dir>/<stem>_textures.txt`.
pub fn texture_list_path(output: &str) -> (r: String)
    ensures
        r@ == texture_list_name(output@),
{
    let parent = parent_of(output);
    let stem = file_stem_of(output);
    let (dir, file) = texture_list_parts(parent, stem);
    join_path(dir.as_str(), file.as_str())
}

/// The hull encloses every brush: each brush lies inside the bounding box
/// from `low_corner` to `high_corner`, whose six faces the hull boxes cover.
pub proof fn lemma_hull_encloses(bs: Seq<BrushView>, i: int)
    requires
        0 <= i < bs.len(),
    ensures
        low_corner(bs).0 <= bs[i].min.0,
        low_corner(bs).1 <= bs[i].min.1,
        low_corner(bs).2 <= bs[i].min.2,
        bs[i].max.0 <= high_corner(bs).0,
        bs[i].max.1 <= high_corner(bs).1,
        bs[i].max.2 <= high_corner(bs).2,
        hull(bs).len() == 6,
        hull(bs)[0].max.2 == low_corner(bs).2,
        hull(bs)[1].min.2 == high_corner(bs).2,
        hull(bs)[2].max.0 == low_corner(bs).0,
        hull(bs)[3].min.0 == high_corner(bs).0,
        hull(bs)[4].max.1 == low_corner(bs).1,
        hull(bs)[5].min.1 == high_corner(bs).1,
    decreases bs.len(),
{
    if bs.len() > 1 && i < bs.len() - 1 {
        lemma_hull_encloses(bs.drop_last(), i);
        assert(bs.drop_last()[i] == bs[i]);
    }
}

/// Every brush goes to exactly one entity: the structural brushes and the
/// detail brushes together are all the brushes.
pub proof fn lemma_sections_partition(bs: Seq<BrushView>)
    ensures
        section_count(bs, true) + section_count(bs, false) == bs.len(),
    decreases bs.len(),
{
    if bs.len() > 0 {
        lemma_sections_partition(bs.drop_last());
    }
}

/// Whether every brush can be drawn and the hull fits in `i32`.
pub fn can_export(brushes: &[Brush]) -> (r: bool)
    ensures
        r == exportable(brushes_view(brushes@)),
{
    let ghost bs = brushes_view(brushes@);
    if brushes.len() > 0 {
        let (lo, hi) = bounding_corners(brushes);
        let m: i32 = i32::MIN + 32;
        let n: i32 = i32::MAX - 32;
        if lo.0 < m || lo.1 < m || lo.2 < m || hi.0 > n || hi.1 > n || hi.2 > n {
            return false;
        }
    }
    let mut i: usize = 0;
    while i < brushes.len()
        invariant
            i <= brushes.len(),
            bs == brushes_view(brushes@),
            forall|k: int| 0 <= k < i ==> drawable(#[trigger] bs[k]),
        decreases brushes.len() - i,
    {
        let b = &brushes[i];
        assert(bs[i as int] == b@);
        if b.kind == BrushKind::Plant45 {
            let sx: i64 = b.min.0 as i64 + b.max.0 as i64;
            let sy: i64 = b.min.1 as i64 + b.max.1 as i64;
            if sx < i32::MIN as i64 || sx > i32::MAX as i64 || sy < i32::MIN as i64 || sy > i32::MAX as i64 {
                return false;
            }
            let cx = half_towards_zero(sx);
            let cy = half_towards_zero(sy);
            if cx < i32::MIN as i64 + 13 || cx + 13 > i32::MAX as i64 || cy < i32::MIN as i64 + 13
                || cy + 13 > i32::MAX as i64 || b.min.2 as i64 + 20 > i32::MAX as i64 {
                return false;
            }
        }
        i = i + 1;
    }
    true
}

proof fn lemma_corners_within(bs: Seq<BrushView>, lo: (int, int, int), hi: (int, int, int))
    requires
        bs.len() > 0,
        forall|i: int| 0 <= i < bs.len() ==> #[trigger] inside(bs[i], lo, hi),
    ensures
        lo.0 <= low_corner(bs).0 && lo.1 <= low_corner(bs).1 && lo.2 <= low_corner(bs).2,
        high_corner(bs).0 <= hi.0 && high_corner(bs).1 <= hi.1 && high_corner(bs).2 <= hi.2,
    decreases bs.len(),
{
    assert(inside(bs[0], lo, hi));
    if bs.len() > 1 {
        let p = bs.drop_last();
        assert forall|i: int| 0 <= i < p.len() implies #[trigger] inside(p[i], lo, hi) by {
            assert(p[i] == bs[i]);
        }
        lemma_corners_within(p, lo, hi);
        assert(inside(bs[bs.len() - 1], lo, hi));
    }
}

/// A grid size small enough that the grid's map coordinates, doubled for
/// plant centres and widened by the hull, still fit in an `i32`.
pub open spec fn leaves_hull_room(d: int) -> bool {
    0 <= d && 40 * d + 64 <= i32::MAX
}

/// What meshing produces can always be rendered: for a grid whose map
/// coordinates leave room for the hull, every brush can be drawn and the hull fits.
pub proof fn lemma_mesh_exportable(g: Seq<Option<BlockView>>, w: int, h: int, l: int, level: GreedyLevel)
    requires
        0 <= w,
        0 <= h,
        0 <= l,
        g.len() == w * h * l,
        leaves_hull_room(w),
        leaves_hull_room(h),
        leaves_hull_room(l),
    ensures
        exportable(optimized(g, w, h, l, level)),
{
    let bs = optimized(g, w, h, l, level);
    lemma_mesh_inside_grid(g, w, h, l, level);
    let lo = grid_lo(w, l);
    let hi = grid_hi(w, h, l);
    assert(-(w / 2) * 40 >= -20 * w && (w - w / 2) * 40 <= 20 * w + 20);
    assert(-(l / 2) * 40 >= -20 * l && (l - l / 2) * 40 <= 20 * l + 20);
    if bs.len() > 0 {
        lemma_corners_within(bs, lo, hi);
    }
    assert forall|i: int| 0 <= i < bs.len() implies drawable(#[trigger] bs[i]) by {
        assert(inside(bs[i], lo, hi));
    }
}

/// The hull depends on the bounding box alone: adding a brush that lies
/// within the bounding box of the others leaves the hull as it was.
pub proof fn lemma_hull_ignores_inner(bs: Seq<BrushView>, b: BrushView)
    requires
        bs.len() > 0,
        low_corner(bs).0 <= b.min.0 && low_corner(bs).1 <= b.min.1 && low_corner(bs).2 <= b.min.2,
        b.max.0 <= high_corner(bs).0 && b.max.1 <= high_corner(bs).1 && b.max.2 <= high_corner(bs).2,
    ensures
        hull(bs.push(b)) == hull(bs),
{
    assert(bs.push(b).drop_last() =~= bs);
}

/// Each component of the bounding box is reached by some brush.
proof fn lemma_corners_reached(bs: Seq<BrushView>)
    requires
        bs.len() > 0,
    ensures
        exists|i: int| 0 <= i < bs.len() && low_corner(bs).0 == #[trigger] bs[i].min.0,
        exists|i: int| 0 <= i < bs.len() && low_corner(bs).1 == #[trigger] bs[i].min.1,
        exists|i: int| 0 <= i < bs.len() && low_corner(bs).2 == #[trigger] bs[i].min.2,
        exists|i: int| 0 <= i < bs.len() && high_corner(bs).0 == #[trigger] bs[i].max.0,
        exists|i: int| 0 <= i < bs.len() && high_corner(bs).1 == #[trigger] bs[i].max.1,
        exists|i: int| 0 <= i < bs.len() && high_corner(bs).2 == #[trigger] bs[i].max.2,
    decreases bs.len(),
{
    if bs.len() == 1 {
        assert(low_corner(bs).0 == bs[0].min.0 && low_corner(bs).1 == bs[0].min.1 && low_corner(bs).2 == bs[0].min.2);
        assert(high_corner(bs).0 == bs[0].max.0 && high_corner(bs).1 == bs[0].max.1 && high_corner(bs).2 == bs[0].max.2);
    } else {
        let d = bs.drop_last();
        let n = bs.len() - 1;
        lemma_corners_reached(d);
        assert(bs[n] == bs.last());
        assert forall|i: int| 0 <= i < d.len() implies #[trigger] d[i] == bs[i] by {}
        let i0 = choose|i: int| 0 <= i < d.len() && low_corner(d).0 == #[trigger] d[i].min.0;
        let i1 = choose|i: int| 0 <= i < d.len() && low_corner(d).1 == #[trigger] d[i].min.1;
        let i2 = choose|i: int| 0 <= i < d.len() && low_corner(d).2 == #[trigger] d[i].min.2;
        let j0 = choose|i: int| 0 <= i < d.len() && high_corner(d).0 == #[trigger] d[i].max.0;
        let j1 = choose|i: int| 0 <= i < d.len() && high_corner(d).1 == #[trigger] d[i].max.1;
        let j2 = choose|i: int| 0 <= i < d.len() && high_corner(d).2 == #[trigger] d[i].max.2;
        assert(d[i0] == bs[i0] && d[i1] == bs[i1] && d[i2] == bs[i2]);
        assert(d[j0] == bs[j0] && d[j1] == bs[j1] && d[j2] == bs[j2]);
        assert(low_corner(bs) == min3(low_corner(d), bs[n].min));
        assert(high_corner(bs) == max3(high_corner(d), bs[n].max));
        assert(low_corner(bs).0 == bs[i0].min.0 || low_corner(bs).0 == bs[n].min.0);
        assert(low_corner(bs).1 == bs[i1].min.1 || low_corner(bs).1 == bs[n].min.1);
        assert(low_corner(bs).2 == bs[i2].min.2 || low_corner(bs).2 == bs[n].min.2);
    }
}

/// The hull does not depend on the order of the brushes, nor on how often
/// each occurs: two lists that hold the same brushes have the same hull.
pub proof fn lemma_hull_order_free(bs: Seq<BrushView>, cs: Seq<BrushView>)
    requires
        forall|i: int| 0 <= i < bs.len() ==> cs.contains(#[trigger] bs[i]),
        forall|j: int| 0 <= j < cs.len() ==> bs.contains(#[trigger] cs[j]),
    ensures
        hull(bs) == hull(cs),
{
    if bs.len() > 0 {
        assert(cs.contains(bs[0]));
        lemma_corners_reached(bs);
        lemma_corners_reached(cs);
        assert forall|j: int| 0 <= j < cs.len() implies
            low_corner(bs).0 <= (#[trigger] cs[j]).min.0 && low_corner(bs).1 <= cs[j].min.1 && low_corner(bs).2 <= cs[j].min.2
            && cs[j].max.0 <= high_corner(bs).0 && cs[j].max.1 <= high_corner(bs).1 && cs[j].max.2 <= high_corner(bs).2 by {
            assert(bs.contains(cs[j]));
            let i = choose|i: int| 0 <= i < bs.len() && bs[i] == cs[j];
            lemma_hull_encloses(bs, i);
        }
        assert forall|i: int| 0 <= i < bs.len() implies
            low_corner(cs).0 <= (#[trigger] bs[i]).min.0 && low_corner(cs).1 <= bs[i].min.1 && low_corner(cs).2 <= bs[i].min.2
            && bs[i].max.0 <= high_corner(cs).0 && bs[i].max.1 <= high_corner(cs).1 && bs[i].max.2 <= high_corner(cs).2 by {
            assert(cs.contains(bs[i]));
            let j = choose|j: int| 0 <= j < cs.len() && cs[j] == bs[i];
            lemma_hull_encloses(cs, j);
        }
        assert(low_corner(bs) == low_corner(cs));
        assert(high_corner(bs) == high_corner(cs));
    } else if cs.len() > 0 {
        assert(bs.contains(cs[0]));
    }
}

/// Terrain seals the world: a brush drawn with the texture of natural rock
/// (any block of the stone or deepslate culling groups other than an ore,
/// such as stone, dirt, gravel or deepslate) is structural, so adding it to
/// a list of brushes adds one brush to the world section and none to the
/// detail section.
pub proof fn lemma_terrain_is_structural(n: Seq<char>, bs: Seq<BrushView>, b: BrushView)
    requires
        is_terrain(n),
        !seq_ends_with(n, "_ore"@),
        b.texture == texture_for(n),
    ensures
        structural(texture_for(n)),
        section_count(bs.push(b), true) == section_count(bs, true) + 1,
        section_count(bs.push(b), false) == section_count(bs, false),
{
    lemma_rock_textures(n);
    assert(bs.push(b).drop_last() =~= bs);
}

} // verus!
