//! The voxel model shared by every stage: blocks, their properties, and the
//! grid that holds them.

use vstd::prelude::*;

use crate::text::{str_eq, owned};
use vstd::arithmetic::div_mod::lemma_fundamental_div_mod_converse;
use vstd::arithmetic::div_mod::lemma_fundamental_div_mod;
use vstd::arithmetic::div_mod::lemma_mod_pos_bound;

verus! {

/// One block of a schematic: its id (`minecraft:oak_stairs`), the texture
/// chosen for it, and its block-state properties in the order they were read.
/// When a key occurs more than once, the last occurrence counts.
#[derive(Clone, Debug)]
pub struct Block {
    pub name: String,
    pub texture: String,
    pub properties: Vec<(String, String)>,
}

/// The mathematical content of a [`Block`].
pub struct BlockView {
    pub name: Seq<char>,
    pub texture: Seq<char>,
    pub properties: Seq<(Seq<char>, Seq<char>)>,
}

pub open spec fn pair_view(p: (String, String)) -> (Seq<char>, Seq<char>) {
    (p.0@, p.1@)
}

impl View for Block {
    type V = BlockView;

    open spec fn view(&self) -> BlockView {
        BlockView {
            name: self.name@,
            texture: self.texture@,
            properties: self.properties@.map_values(|p: (String, String)| pair_view(p)),
        }
    }
}

/// The view of an optional block.
pub open spec fn cell_view(c: Option<Block>) -> Option<BlockView> {
    match c {
        Some(b) => Some(b@),
        None => None,
    }
}

/// The views of a sequence of optional blocks.
pub open spec fn cells_view(s: Seq<Option<Block>>) -> Seq<Option<BlockView>> {
    s.map_values(|c: Option<Block>| cell_view(c))
}

/// The value of property `key`: that of its last occurrence.
pub open spec fn prop_get(props: Seq<(Seq<char>, Seq<char>)>, key: Seq<char>) -> Option<Seq<char>>
    decreases props.len(),
{
    if props.len() == 0 {
        None
    } else if props.last().0 == key {
        Some(props.last().1)
    } else {
        prop_get(props.drop_last(), key)
    }
}

impl Block {
    /// A block whose texture is its own name and which has the given properties.
    pub fn new(name: &str, properties: Vec<(String, String)>) -> (b: Block)
        ensures
            b@.name == name@,
            b@.texture == name@,
            b.properties@ == properties@,
    {
        Block { name: owned(name), texture: owned(name), properties }
    }

    /// The value of property `key`, as [`prop_get`] defines it.
    pub fn property(&self, key: &str) -> (r: Option<&String>)
        ensures
            match r {
                Some(v) => prop_get(self@.properties, key@) == Some(v@),
                None => prop_get(self@.properties, key@) is None,
            },
    {
        let ghost ps = self@.properties;
        let mut i = self.properties.len();
        assert(ps.take(i as int) =~= ps);
        while i > 0
            invariant
                i <= self.properties.len(),
                ps == self@.properties,
                prop_get(ps, key@) == prop_get(ps.take(i as int), key@),
            decreases i,
        {
            let ghost pre = ps.take(i as int);
            assert(pre.drop_last() =~= ps.take(i - 1));
            assert(pre.last() == pair_view(self.properties@[i - 1]));
            if str_eq(self.properties[i - 1].0.as_str(), key) {
                return Some(&self.properties[i - 1].1);
            }
            i = i - 1;
        }
        assert(ps.take(0).len() == 0);
        None
    }

    /// A copy of this block.
    pub fn copy(&self) -> (r: Block)
        ensures
            r@ == self@,
    {
        let mut props: Vec<(String, String)> = Vec::new();
        for i in 0..self.properties.len()
            invariant
                props@.len() == i,
                forall|j: int| 0 <= j < i ==> pair_view(#[trigger] props@[j]) == pair_view(self.properties@[j]),
        {
            let k = self.properties[i].0.clone();
            let v = self.properties[i].1.clone();
            props.push((k, v));
        }
        let r = Block { name: self.name.clone(), texture: self.texture.clone(), properties: props };
        assert(r@.properties =~= self@.properties);
        r
    }
}

/// A box of `width` x `height` x `length` cells. Cell `(x, y, z)` is stored
/// at index `(y * length + z) * width + x`, that is `x` runs fastest, then
/// `z`, then `y` (the vertical axis).
pub struct VoxelMap {
    pub width: i32,
    pub height: i32,
    pub length: i32,
    pub blocks: Vec<Option<Block>>,
}

/// The flat index of cell `(x, y, z)` in a grid `w` wide and `l` long.
pub open spec fn idx(w: int, l: int, x: int, y: int, z: int) -> int {
    (y * l + z) * w + x
}

/// Cell `(x, y, z)` lies inside a `w` x `h` x `l` grid.
pub open spec fn in_grid(w: int, h: int, l: int, x: int, y: int, z: int) -> bool {
    0 <= x < w && 0 <= y < h && 0 <= z < l
}

/// The `x` coordinate of flat index `j`.
pub open spec fn pos_x(w: int, j: int) -> int {
    j % w
}

/// The `z` coordinate of flat index `j`.
pub open spec fn pos_z(w: int, l: int, j: int) -> int {
    (j / w) % l
}

/// The `y` coordinate of flat index `j`.
pub open spec fn pos_y(w: int, l: int, j: int) -> int {
    (j / w) / l
}

/// The index of a cell in range names that cell, and lies in range.
pub proof fn lemma_idx(w: int, h: int, l: int, x: int, y: int, z: int)
    requires
        in_grid(w, h, l, x, y, z),
    ensures
        0 <= idx(w, l, x, y, z) < w * h * l,
        pos_x(w, idx(w, l, x, y, z)) == x,
        pos_y(w, l, idx(w, l, x, y, z)) == y,
        pos_z(w, l, idx(w, l, x, y, z)) == z,
        0 <= y * l <= y * l + z <= (y * l + z) * w <= idx(w, l, x, y, z),
{
    let q = y * l + z;
    let j = idx(w, l, x, y, z);
    lemma_fundamental_div_mod_converse(j, w, q, x);
    lemma_fundamental_div_mod_converse(q, l, y, z);
    assert(0 <= q) by (nonlinear_arith)
        requires q == y * l + z, 0 <= y, 0 <= z, 0 < l;
    assert(y * l <= (h - 1) * l) by (nonlinear_arith)
        requires y <= h - 1, 0 <= l;
    assert((h - 1) * l == h * l - l) by (nonlinear_arith);
    assert(q < h * l);
    let hl = h * l;
    assert(q * w <= (hl - 1) * w) by (nonlinear_arith)
        requires q <= hl - 1, 0 < w;
    assert((hl - 1) * w == hl * w - w) by (nonlinear_arith);
    assert(hl * w == w * h * l) by (nonlinear_arith)
        requires hl == h * l;
    assert(0 <= j) by (nonlinear_arith)
        requires j == q * w + x, 0 <= x, 0 <= q, 0 < w;
    assert(q <= q * w) by (nonlinear_arith)
        requires 0 <= q, 0 < w;
    assert(0 <= y * l) by (nonlinear_arith)
        requires 0 <= y, 0 < l;
}

/// Every index of a grid names a cell in range.
pub proof fn lemma_pos(w: int, h: int, l: int, j: int)
    requires
        0 <= j < w * h * l,
        0 <= w,
        0 <= h,
        0 <= l,
    ensures
        in_grid(w, h, l, pos_x(w, j), pos_y(w, l, j), pos_z(w, l, j)),
        idx(w, l, pos_x(w, j), pos_y(w, l, j), pos_z(w, l, j)) == j,
{
    assert(w > 0 && h > 0 && l > 0) by (nonlinear_arith)
        requires 0 <= j < w * h * l, 0 <= w, 0 <= h, 0 <= l;
    let q = j / w;
    let x = j % w;
    lemma_fundamental_div_mod(j, w);
    lemma_mod_pos_bound(j, w);
    lemma_fundamental_div_mod(q, l);
    lemma_mod_pos_bound(q, l);
    let z = q % l;
    let y = q / l;
    assert(0 <= q) by (nonlinear_arith)
        requires j == w * q + x, 0 <= x < w, 0 <= j;
    assert(q < h * l) by (nonlinear_arith)
        requires j == w * q + x, 0 <= x < w, j < w * h * l, 0 <= q;
    assert(0 <= y < h) by (nonlinear_arith)
        requires q == l * y + z, 0 <= z < l, 0 <= q < h * l;
    assert(j == (y * l + z) * w + x) by (nonlinear_arith)
        requires j == w * q + x, q == l * y + z;
}

impl VoxelMap {
    /// The dimensions are not negative, the cell count fits in an `i32`,
    /// and there is one entry per cell.
    pub open spec fn wf(&self) -> bool {
        &&& 0 <= self.width
        &&& 0 <= self.height
        &&& 0 <= self.length
        &&& self.width * self.height * self.length <= i32::MAX
        &&& self.blocks@.len() == self.width * self.height * self.length
    }

    /// Whether the map is well formed: see [`VoxelMap::wf`].
    pub fn is_well_formed(&self) -> (r: bool)
        ensures
            r == self.wf(),
    {
        if self.width < 0 || self.height < 0 || self.length < 0 {
            return false;
        }
        let w = self.width as u128;
        let h = self.height as u128;
        let l = self.length as u128;
        assert(w * h <= 0x4000_0000_0000_0000) by (nonlinear_arith)
            requires w <= 0x8000_0000, h <= 0x8000_0000;
        assert(w * h * l <= 0x4000_0000_0000_0000 * 0x8000_0000) by (nonlinear_arith)
            requires w * h <= 0x4000_0000_0000_0000, l <= 0x8000_0000;
        let v = w * h * l;
        v <= 0x7fff_ffff && v == self.blocks.len() as u128
    }
}

/// The flat index of a cell in range.
pub fn index_of(w: i32, h: i32, l: i32, x: i32, y: i32, z: i32) -> (r: usize)
    requires
        in_grid(w as int, h as int, l as int, x as int, y as int, z as int),
        w * h * l <= i32::MAX,
    ensures
        r as int == idx(w as int, l as int, x as int, y as int, z as int),
        r < w * h * l,
{
    proof {
        lemma_idx(w as int, h as int, l as int, x as int, y as int, z as int);
    }
    let q = (y as usize) * (l as usize) + (z as usize);
    q * (w as usize) + (x as usize)
}

/// The coordinates of flat index `j`.
pub fn coords_of(w: i32, h: i32, l: i32, j: usize) -> (r: (i32, i32, i32))
    requires
        0 <= w,
        0 <= h,
        0 <= l,
        w * h * l <= i32::MAX,
        j < w * h * l,
    ensures
        r.0 as int == pos_x(w as int, j as int),
        r.1 as int == pos_y(w as int, l as int, j as int),
        r.2 as int == pos_z(w as int, l as int, j as int),
        in_grid(w as int, h as int, l as int, r.0 as int, r.1 as int, r.2 as int),
{
    proof {
        lemma_pos(w as int, h as int, l as int, j as int);
    }
    let ww = w as usize;
    let ll = l as usize;
    let q = j / ww;
    ((j % ww) as i32, (q / ll) as i32, (q % ll) as i32)
}

} // verus!
