//! The shape of a block, decided from its id and block-state properties.

use vstd::prelude::*;

use crate::model::{Block, BlockView, prop_get};
use crate::text::{str_eq, str_ends_with, str_contains, seq_ends_with, seq_contains};

verus! {

/// The geometric shape a block is rendered with.
#[derive(Copy, Clone, Debug, PartialEq, Eq, Structural)]
pub enum BlockShape {
    Full,
    SlabBottom,
    SlabTop,
    ThinPanelNS,
    ThinPanelEW,
    ThinCross,
    Path,
    PlantCross,
    Torch,
    Chest,
    Bed,
    StairNorthBottom,
    StairSouthBottom,
    StairEastBottom,
    StairWestBottom,
    StairNorthTop,
    StairSouthTop,
    StairEastTop,
    StairWestTop,
}

/// The chest ids.
pub open spec fn is_chest_name(n: Seq<char>) -> bool {
    ||| n == "minecraft:chest"@
    ||| n == "minecraft:trapped_chest"@
    ||| n == "minecraft:ender_chest"@
    ||| n == "minecraft:copper_chest"@
    ||| n == "minecraft:exposed_copper_chest"@
    ||| n == "minecraft:weathered_copper_chest"@
    ||| n == "minecraft:oxidized_copper_chest"@
    ||| n == "minecraft:waxed_copper_chest"@
    ||| n == "minecraft:waxed_exposed_copper_chest"@
    ||| n == "minecraft:waxed_weathered_copper_chest"@
    ||| n == "minecraft:waxed_oxidized_copper_chest"@
}

/// The flower, sapling, mushroom and grass ids drawn as crossed planes.
pub open spec fn is_cross_plant_name(n: Seq<char>) -> bool {
    ||| n == "minecraft:dandelion"@
    ||| n == "minecraft:poppy"@
    ||| n == "minecraft:blue_orchid"@
    ||| n == "minecraft:allium"@
    ||| n == "minecraft:azure_bluet"@
    ||| n == "minecraft:red_tulip"@
    ||| n == "minecraft:orange_tulip"@
    ||| n == "minecraft:white_tulip"@
    ||| n == "minecraft:pink_tulip"@
    ||| n == "minecraft:oxeye_daisy"@
    ||| n == "minecraft:cornflower"@
    ||| n == "minecraft:lily_of_the_valley"@
    ||| n == "minecraft:wither_rose"@
    ||| n == "minecraft:sunflower"@
    ||| n == "minecraft:lilac"@
    ||| n == "minecraft:rose_bush"@
    ||| n == "minecraft:peony"@
    ||| n == "minecraft:oak_sapling"@
    ||| n == "minecraft:spruce_sapling"@
    ||| n == "minecraft:birch_sapling"@
    ||| n == "minecraft:jungle_sapling"@
    ||| n == "minecraft:acacia_sapling"@
    ||| n == "minecraft:dark_oak_sapling"@
    ||| n == "minecraft:mangrove_propagule"@
    ||| n == "minecraft:brown_mushroom"@
    ||| n == "minecraft:red_mushroom"@
    ||| n == "minecraft:grass"@
    ||| n == "minecraft:short_grass"@
    ||| n == "minecraft:tall_grass"@
    ||| n == "minecraft:fern"@
    ||| n == "minecraft:large_fern"@
    ||| n == "minecraft:dead_bush"@
}

/// A plant: a listed id, or one whose id mentions a flower, sapling or mushroom.
pub open spec fn is_plant_like(n: Seq<char>) -> bool {
    ||| is_cross_plant_name(n)
    ||| seq_contains(n, "flower"@)
    ||| seq_contains(n, "sapling"@)
    ||| seq_contains(n, "mushroom"@)
}

/// Fences, panes, bars and portals: drawn as thin panels.
pub open spec fn is_thin_name(n: Seq<char>) -> bool {
    ||| seq_ends_with(n, "_fence"@)
    ||| seq_contains(n, "glass_pane"@)
    ||| seq_contains(n, "iron_bars"@)
    ||| seq_contains(n, "nether_portal"@)
}

/// The value of a property, or `default` when it is absent.
pub open spec fn prop_or(b: BlockView, key: Seq<char>, default: Seq<char>) -> Seq<char> {
    match prop_get(b.properties, key) {
        Some(v) => v,
        None => default,
    }
}

/// A connection property that is present and neither `false` nor `none`.
pub open spec fn prop_connected(b: BlockView, key: Seq<char>) -> bool {
    match prop_get(b.properties, key) {
        Some(v) => v != "false"@ && v != "none"@,
        None => false,
    }
}

/// The shape of a slab, from its `type` property.
pub open spec fn slab_shape(b: BlockView) -> BlockShape {
    let t = prop_or(b, "type"@, "bottom"@);
    if t == "top"@ {
        BlockShape::SlabTop
    } else if t == "double"@ {
        BlockShape::Full
    } else {
        BlockShape::SlabBottom
    }
}

/// The shape of a stair, from its `half` and `facing` properties.
pub open spec fn stair_shape(b: BlockView) -> BlockShape {
    let half = prop_or(b, "half"@, "bottom"@);
    let facing = prop_or(b, "facing"@, "north"@);
    if half == "top"@ {
        if facing == "north"@ {
            BlockShape::StairNorthTop
        } else if facing == "south"@ {
            BlockShape::StairSouthTop
        } else if facing == "east"@ {
            BlockShape::StairEastTop
        } else if facing == "west"@ {
            BlockShape::StairWestTop
        } else {
            BlockShape::StairNorthBottom
        }
    } else if half == "bottom"@ {
        if facing == "south"@ {
            BlockShape::StairSouthBottom
        } else if facing == "east"@ {
            BlockShape::StairEastBottom
        } else if facing == "west"@ {
            BlockShape::StairWestBottom
        } else {
            BlockShape::StairNorthBottom
        }
    } else {
        BlockShape::StairNorthBottom
    }
}

/// The shape of a thin block, from the sides it connects to.
pub open spec fn thin_shape(b: BlockView) -> BlockShape {
    let ns = prop_connected(b, "north"@) || prop_connected(b, "south"@);
    let ew = prop_connected(b, "east"@) || prop_connected(b, "west"@);
    if ns && !ew {
        BlockShape::ThinPanelNS
    } else if !ns && ew {
        BlockShape::ThinPanelEW
    } else {
        BlockShape::ThinCross
    }
}

/// The shape of a block: the first rule that applies, in the order
/// path, chest, plant, torch, bed, slab, stairs, thin; otherwise a full cube.
pub open spec fn shape_of(b: BlockView) -> BlockShape {
    let n = b.name;
    if n == "minecraft:dirt_path"@ {
        BlockShape::Path
    } else if is_chest_name(n) {
        BlockShape::Chest
    } else if is_plant_like(n) {
        BlockShape::PlantCross
    } else if seq_contains(n, "torch"@) {
        BlockShape::Torch
    } else if seq_ends_with(n, "_bed"@) {
        BlockShape::Bed
    } else if seq_ends_with(n, "_slab"@) {
        slab_shape(b)
    } else if seq_ends_with(n, "_stairs"@) {
        stair_shape(b)
    } else if is_thin_name(n) {
        thin_shape(b)
    } else {
        BlockShape::Full
    }
}

fn chest_name(n: &str) -> (r: bool)
    ensures
        r == is_chest_name(n@),
{
    str_eq(n, "minecraft:chest") ||
    str_eq(n, "minecraft:trapped_chest") ||
    str_eq(n, "minecraft:ender_chest") ||
    str_eq(n, "minecraft:copper_chest") ||
    str_eq(n, "minecraft:exposed_copper_chest") ||
    str_eq(n, "minecraft:weathered_copper_chest") ||
    str_eq(n, "minecraft:oxidized_copper_chest") ||
    str_eq(n, "minecraft:waxed_copper_chest") ||
    str_eq(n, "minecraft:waxed_exposed_copper_chest") ||
    str_eq(n, "minecraft:waxed_weathered_copper_chest") ||
    str_eq(n, "minecraft:waxed_oxidized_copper_chest")
}

fn cross_plant_name(n: &str) -> (r: bool)
    ensures
        r == is_cross_plant_name(n@),
{
    str_eq(n, "minecraft:dandelion") ||
    str_eq(n, "minecraft:poppy") ||
    str_eq(n, "minecraft:blue_orchid") ||
    str_eq(n, "minecraft:allium") ||
    str_eq(n, "minecraft:azure_bluet") ||
    str_eq(n, "minecraft:red_tulip") ||
    str_eq(n, "minecraft:orange_tulip") ||
    str_eq(n, "minecraft:white_tulip") ||
    str_eq(n, "minecraft:pink_tulip") ||
    str_eq(n, "minecraft:oxeye_daisy") ||
    str_eq(n, "minecraft:cornflower") ||
    str_eq(n, "minecraft:lily_of_the_valley") ||
    str_eq(n, "minecraft:wither_rose") ||
    str_eq(n, "minecraft:sunflower") ||
    str_eq(n, "minecraft:lilac") ||
    str_eq(n, "minecraft:rose_bush") ||
    str_eq(n, "minecraft:peony") ||
    str_eq(n, "minecraft:oak_sapling") ||
    str_eq(n, "minecraft:spruce_sapling") ||
    str_eq(n, "minecraft:birch_sapling") ||
    str_eq(n, "minecraft:jungle_sapling") ||
    str_eq(n, "minecraft:acacia_sapling") ||
    str_eq(n, "minecraft:dark_oak_sapling") ||
    str_eq(n, "minecraft:mangrove_propagule") ||
    str_eq(n, "minecraft:brown_mushroom") ||
    str_eq(n, "minecraft:red_mushroom") ||
    str_eq(n, "minecraft:grass") ||
    str_eq(n, "minecraft:short_grass") ||
    str_eq(n, "minecraft:tall_grass") ||
    str_eq(n, "minecraft:fern") ||
    str_eq(n, "minecraft:large_fern") ||
    str_eq(n, "minecraft:dead_bush")
}

fn property_or<'a>(b: &'a Block, key: &str, default: &'a str) -> (r: &'a str)
    ensures
        r@ == prop_or(b@, key@, default@),
{
    match b.property(key) {
        Some(v) => v.as_str(),
        None => default,
    }
}

fn connected(b: &Block, key: &str) -> (r: bool)
    ensures
        r == prop_connected(b@, key@),
{
    match b.property(key) {
        Some(v) => !str_eq(v.as_str(), "false") && !str_eq(v.as_str(), "none"),
        None => false,
    }
}

/// The shape a block is rendered with.
pub fn get_shape(block: &Block) -> (s: BlockShape)
    ensures
        s == shape_of(block@),
{
    let name = block.name.as_str();
    if str_eq(name, "minecraft:dirt_path") {
        return BlockShape::Path;
    }
    if chest_name(name) {
        return BlockShape::Chest;
    }
    if cross_plant_name(name) || str_contains(name, "flower") || str_contains(name, "sapling")
        || str_contains(name, "mushroom") {
        return BlockShape::PlantCross;
    }
    if str_contains(name, "torch") {
        return BlockShape::Torch;
    }
    if str_ends_with(name, "_bed") {
        return BlockShape::Bed;
    }
    if str_ends_with(name, "_slab") {
        let t = property_or(block, "type", "bottom");
        return if str_eq(t, "top") {
            BlockShape::SlabTop
        } else if str_eq(t, "double") {
            BlockShape::Full
        } else {
            BlockShape::SlabBottom
        };
    }
    if str_ends_with(name, "_stairs") {
        let half = property_or(block, "half", "bottom");
        let facing = property_or(block, "facing", "north");
        return if str_eq(half, "top") {
            if str_eq(facing, "north") {
                BlockShape::StairNorthTop
            } else if str_eq(facing, "south") {
                BlockShape::StairSouthTop
            } else if str_eq(facing, "east") {
                BlockShape::StairEastTop
            } else if str_eq(facing, "west") {
                BlockShape::StairWestTop
            } else {
                BlockShape::StairNorthBottom
            }
        } else if str_eq(half, "bottom") {
            if str_eq(facing, "south") {
                BlockShape::StairSouthBottom
            } else if str_eq(facing, "east") {
                BlockShape::StairEastBottom
            } else if str_eq(facing, "west") {
                BlockShape::StairWestBottom
            } else {
                BlockShape::StairNorthBottom
            }
        } else {
            BlockShape::StairNorthBottom
        };
    }
    if str_ends_with(name, "_fence") || str_contains(name, "glass_pane") || str_contains(name, "iron_bars")
        || str_contains(name, "nether_portal") {
        let ns = connected(block, "north") || connected(block, "south");
        let ew = connected(block, "east") || connected(block, "west");
        return if ns && !ew {
            BlockShape::ThinPanelNS
        } else if !ns && ew {
            BlockShape::ThinPanelEW
        } else {
            BlockShape::ThinCross
        };
    }
    BlockShape::Full
}

/// A dirt block is a full cube, whatever its properties.
pub proof fn lemma_dirt_is_full(b: BlockView)
    requires
        b.name == "minecraft:dirt"@,
    ensures
        shape_of(b) == BlockShape::Full,
{
    let n = b.name;
    reveal_strlit("minecraft:dirt");
    reveal_strlit("minecraft:dirt_path");
    reveal_strlit("minecraft:acacia_sapling");
    reveal_strlit("minecraft:allium");
    reveal_strlit("minecraft:azure_bluet");
    reveal_strlit("minecraft:birch_sapling");
    reveal_strlit("minecraft:blue_orchid");
    reveal_strlit("minecraft:brown_mushroom");
    reveal_strlit("minecraft:chest");
    reveal_strlit("minecraft:copper_chest");
    reveal_strlit("minecraft:cornflower");
    reveal_strlit("minecraft:dandelion");
    reveal_strlit("minecraft:dark_oak_sapling");
    reveal_strlit("minecraft:dead_bush");
    reveal_strlit("minecraft:ender_chest");
    reveal_strlit("minecraft:exposed_copper_chest");
    reveal_strlit("minecraft:fern");
    reveal_strlit("minecraft:grass");
    reveal_strlit("minecraft:jungle_sapling");
    reveal_strlit("minecraft:large_fern");
    reveal_strlit("minecraft:lilac");
    reveal_strlit("minecraft:lily_of_the_valley");
    reveal_strlit("minecraft:mangrove_propagule");
    reveal_strlit("minecraft:oak_sapling");
    reveal_strlit("minecraft:orange_tulip");
    reveal_strlit("minecraft:oxeye_daisy");
    reveal_strlit("minecraft:oxidized_copper_chest");
    reveal_strlit("minecraft:peony");
    reveal_strlit("minecraft:pink_tulip");
    reveal_strlit("minecraft:poppy");
    reveal_strlit("minecraft:red_mushroom");
    reveal_strlit("minecraft:red_tulip");
    reveal_strlit("minecraft:rose_bush");
    reveal_strlit("minecraft:short_grass");
    reveal_strlit("minecraft:spruce_sapling");
    reveal_strlit("minecraft:sunflower");
    reveal_strlit("minecraft:tall_grass");
    reveal_strlit("minecraft:trapped_chest");
    reveal_strlit("minecraft:waxed_copper_chest");
    reveal_strlit("minecraft:waxed_exposed_copper_chest");
    reveal_strlit("minecraft:waxed_oxidized_copper_chest");
    reveal_strlit("minecraft:waxed_weathered_copper_chest");
    reveal_strlit("minecraft:weathered_copper_chest");
    reveal_strlit("minecraft:white_tulip");
    reveal_strlit("minecraft:wither_rose");
    reveal_strlit("flower");
    assert forall|i: int| 0 <= i && i + 6 <= n.len() implies #[trigger] n.subrange(i, i + 6) != "flower"@ by {
        if n.subrange(i, i + 6) == "flower"@ {
            assert(n.subrange(i, i + 6)[0] == n[i]);
            assert(n.subrange(i, i + 6)[1] == n[i + 1]);
        }
    }
    reveal_strlit("sapling");
    assert forall|i: int| 0 <= i && i + 7 <= n.len() implies #[trigger] n.subrange(i, i + 7) != "sapling"@ by {
        if n.subrange(i, i + 7) == "sapling"@ {
            assert(n.subrange(i, i + 7)[0] == n[i]);
            assert(n.subrange(i, i + 7)[1] == n[i + 1]);
        }
    }
    reveal_strlit("mushroom");
    assert forall|i: int| 0 <= i && i + 8 <= n.len() implies #[trigger] n.subrange(i, i + 8) != "mushroom"@ by {
        if n.subrange(i, i + 8) == "mushroom"@ {
            assert(n.subrange(i, i + 8)[0] == n[i]);
            assert(n.subrange(i, i + 8)[1] == n[i + 1]);
        }
    }
    reveal_strlit("torch");
    assert forall|i: int| 0 <= i && i + 5 <= n.len() implies #[trigger] n.subrange(i, i + 5) != "torch"@ by {
        if n.subrange(i, i + 5) == "torch"@ {
            assert(n.subrange(i, i + 5)[0] == n[i]);
            assert(n.subrange(i, i + 5)[1] == n[i + 1]);
        }
    }
    reveal_strlit("glass_pane");
    assert forall|i: int| 0 <= i && i + 10 <= n.len() implies #[trigger] n.subrange(i, i + 10) != "glass_pane"@ by {
        if n.subrange(i, i + 10) == "glass_pane"@ {
            assert(n.subrange(i, i + 10)[0] == n[i]);
            assert(n.subrange(i, i + 10)[1] == n[i + 1]);
        }
    }
    reveal_strlit("iron_bars");
    assert forall|i: int| 0 <= i && i + 9 <= n.len() implies #[trigger] n.subrange(i, i + 9) != "iron_bars"@ by {
        if n.subrange(i, i + 9) == "iron_bars"@ {
            assert(n.subrange(i, i + 9)[0] == n[i]);
            assert(n.subrange(i, i + 9)[1] == n[i + 1]);
        }
    }
    reveal_strlit("nether_portal");
    assert forall|i: int| 0 <= i && i + 13 <= n.len() implies #[trigger] n.subrange(i, i + 13) != "nether_portal"@ by {
        if n.subrange(i, i + 13) == "nether_portal"@ {
            assert(n.subrange(i, i + 13)[0] == n[i]);
            assert(n.subrange(i, i + 13)[1] == n[i + 1]);
        }
    }
    reveal_strlit("_fence");
    reveal_strlit("_bed");
    reveal_strlit("_slab");
    reveal_strlit("_stairs");
    assert(n.subrange(n.len() - 6, n.len() as int)[0] == n[8]);
    assert(n.subrange(n.len() - 4, n.len() as int)[0] == n[10]);
    assert(n.subrange(n.len() - 5, n.len() as int)[0] == n[9]);
    assert(n.subrange(n.len() - 7, n.len() as int)[0] == n[7]);
}

} // verus!
