//! Which blocks are kept, which textures they get, and which hidden blocks
//! are culled before meshing.

use vstd::prelude::*;
use vstd::string::StringExecFns;

use crate::block_shapes::{BlockShape, get_shape, shape_of, is_chest_name, lemma_dirt_is_full};
use crate::model::{Block, BlockView, VoxelMap, cells_view, idx, in_grid, pos_x, pos_y, pos_z, index_of, lemma_idx, lemma_pos, coords_of};
use crate::text::{str_eq, str_contains, str_strip_prefix, seq_contains, seq_starts_with, seq_ends_with, owned};

verus! {

/// An id with the `minecraft:` namespace removed when present.
pub open spec fn base_name(n: Seq<char>) -> Seq<char> {
    if seq_starts_with(n, "minecraft:"@) {
        n.skip(10)
    } else {
        n
    }
}

/// The texture a block id (without namespace) is drawn with: stairs, slabs
/// and fences use their material, chests the chest, beds white wool, wood
/// the log, panes and stained glass plain glass; anything else itself.
pub open spec fn texture_alias(b: Seq<char>) -> Seq<char> {
    if b == "oak_stairs"@ || b == "oak_slab"@ {
        "oak_planks"@
    } else if b == "spruce_stairs"@ || b == "spruce_slab"@ {
        "spruce_planks"@
    } else if b == "birch_stairs"@ || b == "birch_slab"@ {
        "birch_planks"@
    } else if b == "jungle_stairs"@ || b == "jungle_slab"@ {
        "jungle_planks"@
    } else if b == "acacia_stairs"@ || b == "acacia_slab"@ {
        "acacia_planks"@
    } else if b == "dark_oak_stairs"@ || b == "dark_oak_slab"@ {
        "dark_oak_planks"@
    } else if b == "mangrove_stairs"@ || b == "mangrove_slab"@ {
        "mangrove_planks"@
    } else if b == "cherry_stairs"@ || b == "cherry_slab"@ {
        "cherry_planks"@
    } else if b == "bamboo_stairs"@ || b == "bamboo_slab"@ {
        "bamboo_planks"@
    } else if b == "bamboo_mosaic_stairs"@ || b == "bamboo_mosaic_slab"@ {
        "bamboo_mosaic"@
    } else if b == "crimson_stairs"@ || b == "crimson_slab"@ {
        "crimson_planks"@
    } else if b == "warped_stairs"@ || b == "warped_slab"@ {
        "warped_planks"@
    } else if b == "stone_stairs"@ || b == "stone_slab"@ {
        "stone"@
    } else if b == "cobblestone_stairs"@ || b == "cobblestone_slab"@ {
        "cobblestone"@
    } else if b == "mossy_cobblestone_stairs"@ || b == "mossy_cobblestone_slab"@ {
        "mossy_cobblestone"@
    } else if b == "stone_brick_stairs"@ || b == "stone_brick_slab"@ {
        "stone_bricks"@
    } else if b == "mossy_stone_brick_stairs"@ || b == "mossy_stone_brick_slab"@ {
        "mossy_stone_bricks"@
    } else if b == "granite_stairs"@ || b == "granite_slab"@ {
        "granite"@
    } else if b == "polished_granite_stairs"@ || b == "polished_granite_slab"@ {
        "polished_granite"@
    } else if b == "diorite_stairs"@ || b == "diorite_slab"@ {
        "diorite"@
    } else if b == "polished_diorite_stairs"@ || b == "polished_diorite_slab"@ {
        "polished_diorite"@
    } else if b == "andesite_stairs"@ || b == "andesite_slab"@ {
        "andesite"@
    } else if b == "polished_andesite_stairs"@ || b == "polished_andesite_slab"@ {
        "polished_andesite"@
    } else if b == "blackstone_stairs"@ || b == "blackstone_slab"@ {
        "blackstone"@
    } else if b == "polished_blackstone_stairs"@ || b == "polished_blackstone_slab"@ {
        "polished_blackstone"@
    } else if b == "polished_blackstone_brick_stairs"@ || b == "polished_blackstone_brick_slab"@ {
        "polished_blackstone_bricks"@
    } else if b == "brick_stairs"@ || b == "brick_slab"@ {
        "bricks"@
    } else if b == "mud_brick_stairs"@ || b == "mud_brick_slab"@ {
        "mud_bricks"@
    } else if b == "nether_brick_stairs"@ || b == "nether_brick_slab"@ {
        "nether_bricks"@
    } else if b == "red_nether_brick_stairs"@ || b == "red_nether_brick_slab"@ {
        "red_nether_bricks"@
    } else if b == "sandstone_stairs"@ || b == "sandstone_slab"@ {
        "sandstone"@
    } else if b == "smooth_sandstone_stairs"@ || b == "smooth_sandstone_slab"@ {
        "smooth_sandstone"@
    } else if b == "red_sandstone_stairs"@ || b == "red_sandstone_slab"@ {
        "red_sandstone"@
    } else if b == "smooth_red_sandstone_stairs"@ || b == "smooth_red_sandstone_slab"@ {
        "smooth_red_sandstone"@
    } else if b == "quartz_stairs"@ || b == "quartz_slab"@ {
        "quartz_block"@
    } else if b == "smooth_quartz_stairs"@ || b == "smooth_quartz_slab"@ {
        "smooth_quartz"@
    } else if b == "prismarine_stairs"@ || b == "prismarine_slab"@ {
        "prismarine"@
    } else if b == "prismarine_brick_stairs"@ || b == "prismarine_brick_slab"@ {
        "prismarine_bricks"@
    } else if b == "dark_prismarine_stairs"@ || b == "dark_prismarine_slab"@ {
        "dark_prismarine"@
    } else if b == "purpur_stairs"@ || b == "purpur_slab"@ {
        "purpur_block"@
    } else if b == "end_stone_brick_stairs"@ || b == "end_stone_brick_slab"@ {
        "end_stone_bricks"@
    } else if b == "deepslate_brick_stairs"@ || b == "deepslate_brick_slab"@ {
        "deepslate_bricks"@
    } else if b == "deepslate_tile_stairs"@ || b == "deepslate_tile_slab"@ {
        "deepslate_tiles"@
    } else if b == "cobbled_deepslate_stairs"@ || b == "cobbled_deepslate_slab"@ {
        "cobbled_deepslate"@
    } else if b == "polished_deepslate_stairs"@ || b == "polished_deepslate_slab"@ {
        "polished_deepslate"@
    } else if b == "cut_copper_stairs"@ || b == "cut_copper_slab"@ {
        "cut_copper"@
    } else if b == "exposed_cut_copper_stairs"@ || b == "exposed_cut_copper_slab"@ {
        "exposed_cut_copper"@
    } else if b == "weathered_cut_copper_stairs"@ || b == "weathered_cut_copper_slab"@ {
        "weathered_cut_copper"@
    } else if b == "oxidized_cut_copper_stairs"@ || b == "oxidized_cut_copper_slab"@ {
        "oxidized_cut_copper"@
    } else if b == "waxed_cut_copper_stairs"@ || b == "waxed_cut_copper_slab"@ {
        "waxed_cut_copper"@
    } else if b == "waxed_exposed_cut_copper_stairs"@ || b == "waxed_exposed_cut_copper_slab"@ {
        "waxed_exposed_cut_copper"@
    } else if b == "waxed_weathered_cut_copper_stairs"@ || b == "waxed_weathered_cut_copper_slab"@ {
        "waxed_weathered_cut_copper"@
    } else if b == "waxed_oxidized_cut_copper_stairs"@ || b == "waxed_oxidized_cut_copper_slab"@ {
        "waxed_oxidized_cut_copper"@
    } else if b == "oak_fence"@ {
        "oak_planks"@
    } else if b == "spruce_fence"@ {
        "spruce_planks"@
    } else if b == "birch_fence"@ {
        "birch_planks"@
    } else if b == "jungle_fence"@ {
        "jungle_planks"@
    } else if b == "acacia_fence"@ {
        "acacia_planks"@
    } else if b == "dark_oak_fence"@ {
        "dark_oak_planks"@
    } else if b == "mangrove_fence"@ {
        "mangrove_planks"@
    } else if b == "cherry_fence"@ {
        "cherry_planks"@
    } else if b == "bamboo_fence"@ {
        "bamboo_planks"@
    } else if b == "crimson_fence"@ {
        "crimson_planks"@
    } else if b == "warped_fence"@ {
        "warped_planks"@
    } else if b == "chest"@ || b == "trapped_chest"@ || b == "ender_chest"@ || b == "copper_chest"@ || b == "exposed_copper_chest"@ || b == "weathered_copper_chest"@ || b == "oxidized_copper_chest"@ || b == "waxed_copper_chest"@ || b == "waxed_exposed_copper_chest"@ || b == "waxed_weathered_copper_chest"@ || b == "waxed_oxidized_copper_chest"@ {
        "chest"@
    } else if b == "white_bed"@ || b == "orange_bed"@ || b == "magenta_bed"@ || b == "light_blue_bed"@ || b == "yellow_bed"@ || b == "lime_bed"@ || b == "pink_bed"@ || b == "gray_bed"@ || b == "light_gray_bed"@ || b == "cyan_bed"@ || b == "purple_bed"@ || b == "blue_bed"@ || b == "brown_bed"@ || b == "green_bed"@ || b == "red_bed"@ || b == "black_bed"@ {
        "white_wool"@
    } else if b == "oak_wood"@ || b == "stripped_oak_wood"@ {
        "oak_log"@
    } else if b == "spruce_wood"@ || b == "stripped_spruce_wood"@ {
        "spruce_log"@
    } else if b == "birch_wood"@ || b == "stripped_birch_wood"@ {
        "birch_log"@
    } else if b == "jungle_wood"@ || b == "stripped_jungle_wood"@ {
        "jungle_log"@
    } else if b == "acacia_wood"@ || b == "stripped_acacia_wood"@ {
        "acacia_log"@
    } else if b == "dark_oak_wood"@ || b == "stripped_dark_oak_wood"@ {
        "dark_oak_log"@
    } else if b == "mangrove_wood"@ || b == "stripped_mangrove_wood"@ {
        "mangrove_log"@
    } else if b == "cherry_wood"@ || b == "stripped_cherry_wood"@ {
        "cherry_log"@
    } else if b == "crimson_hyphae"@ || b == "stripped_crimson_hyphae"@ {
        "crimson_stem"@
    } else if b == "warped_hyphae"@ || b == "stripped_warped_hyphae"@ {
        "warped_stem"@
    } else if b == "glass_pane"@ || b == "tinted_glass"@ || b == "white_stained_glass_pane"@ || b == "white_stained_glass"@ || b == "light_gray_stained_glass_pane"@ || b == "light_gray_stained_glass"@ || b == "gray_stained_glass_pane"@ || b == "gray_stained_glass"@ || b == "black_stained_glass_pane"@ || b == "black_stained_glass"@ || b == "brown_stained_glass_pane"@ || b == "brown_stained_glass"@ || b == "red_stained_glass_pane"@ || b == "red_stained_glass"@ || b == "orange_stained_glass_pane"@ || b == "orange_stained_glass"@ || b == "yellow_stained_glass_pane"@ || b == "yellow_stained_glass"@ || b == "lime_stained_glass_pane"@ || b == "lime_stained_glass"@ || b == "green_stained_glass_pane"@ || b == "green_stained_glass"@ || b == "cyan_stained_glass_pane"@ || b == "cyan_stained_glass"@ || b == "light_blue_stained_glass_pane"@ || b == "light_blue_stained_glass"@ || b == "blue_stained_glass_pane"@ || b == "blue_stained_glass"@ || b == "purple_stained_glass_pane"@ || b == "purple_stained_glass"@ || b == "magenta_stained_glass_pane"@ || b == "magenta_stained_glass"@ || b == "pink_stained_glass_pane"@ || b == "pink_stained_glass"@ {
        "glass"@
    } else {
        b
    }
}

/// The texture path of a block id: `minecraft/` followed by its alias.
pub open spec fn texture_for(n: Seq<char>) -> Seq<char> {
    "minecraft/"@ + texture_alias(base_name(n))
}

fn alias<'a>(b: &'a str) -> (r: &'a str)
    ensures
        r@ == texture_alias(b@),
{
    if str_eq(b, "oak_stairs") || str_eq(b, "oak_slab") {
        "oak_planks"
    } else if str_eq(b, "spruce_stairs") || str_eq(b, "spruce_slab") {
        "spruce_planks"
    } else if str_eq(b, "birch_stairs") || str_eq(b, "birch_slab") {
        "birch_planks"
    } else if str_eq(b, "jungle_stairs") || str_eq(b, "jungle_slab") {
        "jungle_planks"
    } else if str_eq(b, "acacia_stairs") || str_eq(b, "acacia_slab") {
        "acacia_planks"
    } else if str_eq(b, "dark_oak_stairs") || str_eq(b, "dark_oak_slab") {
        "dark_oak_planks"
    } else if str_eq(b, "mangrove_stairs") || str_eq(b, "mangrove_slab") {
        "mangrove_planks"
    } else if str_eq(b, "cherry_stairs") || str_eq(b, "cherry_slab") {
        "cherry_planks"
    } else if str_eq(b, "bamboo_stairs") || str_eq(b, "bamboo_slab") {
        "bamboo_planks"
    } else if str_eq(b, "bamboo_mosaic_stairs") || str_eq(b, "bamboo_mosaic_slab") {
        "bamboo_mosaic"
    } else if str_eq(b, "crimson_stairs") || str_eq(b, "crimson_slab") {
        "crimson_planks"
    } else if str_eq(b, "warped_stairs") || str_eq(b, "warped_slab") {
        "warped_planks"
    } else if str_eq(b, "stone_stairs") || str_eq(b, "stone_slab") {
        "stone"
    } else if str_eq(b, "cobblestone_stairs") || str_eq(b, "cobblestone_slab") {
        "cobblestone"
    } else if str_eq(b, "mossy_cobblestone_stairs") || str_eq(b, "mossy_cobblestone_slab") {
        "mossy_cobblestone"
    } else if str_eq(b, "stone_brick_stairs") || str_eq(b, "stone_brick_slab") {
        "stone_bricks"
    } else if str_eq(b, "mossy_stone_brick_stairs") || str_eq(b, "mossy_stone_brick_slab") {
        "mossy_stone_bricks"
    } else if str_eq(b, "granite_stairs") || str_eq(b, "granite_slab") {
        "granite"
    } else if str_eq(b, "polished_granite_stairs") || str_eq(b, "polished_granite_slab") {
        "polished_granite"
    } else if str_eq(b, "diorite_stairs") || str_eq(b, "diorite_slab") {
        "diorite"
    } else if str_eq(b, "polished_diorite_stairs") || str_eq(b, "polished_diorite_slab") {
        "polished_diorite"
    } else if str_eq(b, "andesite_stairs") || str_eq(b, "andesite_slab") {
        "andesite"
    } else if str_eq(b, "polished_andesite_stairs") || str_eq(b, "polished_andesite_slab") {
        "polished_andesite"
    } else if str_eq(b, "blackstone_stairs") || str_eq(b, "blackstone_slab") {
        "blackstone"
    } else if str_eq(b, "polished_blackstone_stairs") || str_eq(b, "polished_blackstone_slab") {
        "polished_blackstone"
    } else if str_eq(b, "polished_blackstone_brick_stairs") || str_eq(b, "polished_blackstone_brick_slab") {
        "polished_blackstone_bricks"
    } else if str_eq(b, "brick_stairs") || str_eq(b, "brick_slab") {
        "bricks"
    } else if str_eq(b, "mud_brick_stairs") || str_eq(b, "mud_brick_slab") {
        "mud_bricks"
    } else if str_eq(b, "nether_brick_stairs") || str_eq(b, "nether_brick_slab") {
        "nether_bricks"
    } else if str_eq(b, "red_nether_brick_stairs") || str_eq(b, "red_nether_brick_slab") {
        "red_nether_bricks"
    } else if str_eq(b, "sandstone_stairs") || str_eq(b, "sandstone_slab") {
        "sandstone"
    } else if str_eq(b, "smooth_sandstone_stairs") || str_eq(b, "smooth_sandstone_slab") {
        "smooth_sandstone"
    } else if str_eq(b, "red_sandstone_stairs") || str_eq(b, "red_sandstone_slab") {
        "red_sandstone"
    } else if str_eq(b, "smooth_red_sandstone_stairs") || str_eq(b, "smooth_red_sandstone_slab") {
        "smooth_red_sandstone"
    } else if str_eq(b, "quartz_stairs") || str_eq(b, "quartz_slab") {
        "quartz_block"
    } else if str_eq(b, "smooth_quartz_stairs") || str_eq(b, "smooth_quartz_slab") {
        "smooth_quartz"
    } else if str_eq(b, "prismarine_stairs") || str_eq(b, "prismarine_slab") {
        "prismarine"
    } else if str_eq(b, "prismarine_brick_stairs") || str_eq(b, "prismarine_brick_slab") {
        "prismarine_bricks"
    } else if str_eq(b, "dark_prismarine_stairs") || str_eq(b, "dark_prismarine_slab") {
        "dark_prismarine"
    } else if str_eq(b, "purpur_stairs") || str_eq(b, "purpur_slab") {
        "purpur_block"
    } else if str_eq(b, "end_stone_brick_stairs") || str_eq(b, "end_stone_brick_slab") {
        "end_stone_bricks"
    } else if str_eq(b, "deepslate_brick_stairs") || str_eq(b, "deepslate_brick_slab") {
        "deepslate_bricks"
    } else if str_eq(b, "deepslate_tile_stairs") || str_eq(b, "deepslate_tile_slab") {
        "deepslate_tiles"
    } else if str_eq(b, "cobbled_deepslate_stairs") || str_eq(b, "cobbled_deepslate_slab") {
        "cobbled_deepslate"
    } else if str_eq(b, "polished_deepslate_stairs") || str_eq(b, "polished_deepslate_slab") {
        "polished_deepslate"
    } else if str_eq(b, "cut_copper_stairs") || str_eq(b, "cut_copper_slab") {
        "cut_copper"
    } else if str_eq(b, "exposed_cut_copper_stairs") || str_eq(b, "exposed_cut_copper_slab") {
        "exposed_cut_copper"
    } else if str_eq(b, "weathered_cut_copper_stairs") || str_eq(b, "weathered_cut_copper_slab") {
        "weathered_cut_copper"
    } else if str_eq(b, "oxidized_cut_copper_stairs") || str_eq(b, "oxidized_cut_copper_slab") {
        "oxidized_cut_copper"
    } else if str_eq(b, "waxed_cut_copper_stairs") || str_eq(b, "waxed_cut_copper_slab") {
        "waxed_cut_copper"
    } else if str_eq(b, "waxed_exposed_cut_copper_stairs") || str_eq(b, "waxed_exposed_cut_copper_slab") {
        "waxed_exposed_cut_copper"
    } else if str_eq(b, "waxed_weathered_cut_copper_stairs") || str_eq(b, "waxed_weathered_cut_copper_slab") {
        "waxed_weathered_cut_copper"
    } else if str_eq(b, "waxed_oxidized_cut_copper_stairs") || str_eq(b, "waxed_oxidized_cut_copper_slab") {
        "waxed_oxidized_cut_copper"
    } else if str_eq(b, "oak_fence") {
        "oak_planks"
    } else if str_eq(b, "spruce_fence") {
        "spruce_planks"
    } else if str_eq(b, "birch_fence") {
        "birch_planks"
    } else if str_eq(b, "jungle_fence") {
        "jungle_planks"
    } else if str_eq(b, "acacia_fence") {
        "acacia_planks"
    } else if str_eq(b, "dark_oak_fence") {
        "dark_oak_planks"
    } else if str_eq(b, "mangrove_fence") {
        "mangrove_planks"
    } else if str_eq(b, "cherry_fence") {
        "cherry_planks"
    } else if str_eq(b, "bamboo_fence") {
        "bamboo_planks"
    } else if str_eq(b, "crimson_fence") {
        "crimson_planks"
    } else if str_eq(b, "warped_fence") {
        "warped_planks"
    } else if str_eq(b, "chest") || str_eq(b, "trapped_chest") || str_eq(b, "ender_chest") || str_eq(b, "copper_chest") || str_eq(b, "exposed_copper_chest") || str_eq(b, "weathered_copper_chest") || str_eq(b, "oxidized_copper_chest") || str_eq(b, "waxed_copper_chest") || str_eq(b, "waxed_exposed_copper_chest") || str_eq(b, "waxed_weathered_copper_chest") || str_eq(b, "waxed_oxidized_copper_chest") {
        "chest"
    } else if str_eq(b, "white_bed") || str_eq(b, "orange_bed") || str_eq(b, "magenta_bed") || str_eq(b, "light_blue_bed") || str_eq(b, "yellow_bed") || str_eq(b, "lime_bed") || str_eq(b, "pink_bed") || str_eq(b, "gray_bed") || str_eq(b, "light_gray_bed") || str_eq(b, "cyan_bed") || str_eq(b, "purple_bed") || str_eq(b, "blue_bed") || str_eq(b, "brown_bed") || str_eq(b, "green_bed") || str_eq(b, "red_bed") || str_eq(b, "black_bed") {
        "white_wool"
    } else if str_eq(b, "oak_wood") || str_eq(b, "stripped_oak_wood") {
        "oak_log"
    } else if str_eq(b, "spruce_wood") || str_eq(b, "stripped_spruce_wood") {
        "spruce_log"
    } else if str_eq(b, "birch_wood") || str_eq(b, "stripped_birch_wood") {
        "birch_log"
    } else if str_eq(b, "jungle_wood") || str_eq(b, "stripped_jungle_wood") {
        "jungle_log"
    } else if str_eq(b, "acacia_wood") || str_eq(b, "stripped_acacia_wood") {
        "acacia_log"
    } else if str_eq(b, "dark_oak_wood") || str_eq(b, "stripped_dark_oak_wood") {
        "dark_oak_log"
    } else if str_eq(b, "mangrove_wood") || str_eq(b, "stripped_mangrove_wood") {
        "mangrove_log"
    } else if str_eq(b, "cherry_wood") || str_eq(b, "stripped_cherry_wood") {
        "cherry_log"
    } else if str_eq(b, "crimson_hyphae") || str_eq(b, "stripped_crimson_hyphae") {
        "crimson_stem"
    } else if str_eq(b, "warped_hyphae") || str_eq(b, "stripped_warped_hyphae") {
        "warped_stem"
    } else if str_eq(b, "glass_pane") || str_eq(b, "tinted_glass") || str_eq(b, "white_stained_glass_pane") || str_eq(b, "white_stained_glass") || str_eq(b, "light_gray_stained_glass_pane") || str_eq(b, "light_gray_stained_glass") || str_eq(b, "gray_stained_glass_pane") || str_eq(b, "gray_stained_glass") || str_eq(b, "black_stained_glass_pane") || str_eq(b, "black_stained_glass") || str_eq(b, "brown_stained_glass_pane") || str_eq(b, "brown_stained_glass") || str_eq(b, "red_stained_glass_pane") || str_eq(b, "red_stained_glass") || str_eq(b, "orange_stained_glass_pane") || str_eq(b, "orange_stained_glass") || str_eq(b, "yellow_stained_glass_pane") || str_eq(b, "yellow_stained_glass") || str_eq(b, "lime_stained_glass_pane") || str_eq(b, "lime_stained_glass") || str_eq(b, "green_stained_glass_pane") || str_eq(b, "green_stained_glass") || str_eq(b, "cyan_stained_glass_pane") || str_eq(b, "cyan_stained_glass") || str_eq(b, "light_blue_stained_glass_pane") || str_eq(b, "light_blue_stained_glass") || str_eq(b, "blue_stained_glass_pane") || str_eq(b, "blue_stained_glass") || str_eq(b, "purple_stained_glass_pane") || str_eq(b, "purple_stained_glass") || str_eq(b, "magenta_stained_glass_pane") || str_eq(b, "magenta_stained_glass") || str_eq(b, "pink_stained_glass_pane") || str_eq(b, "pink_stained_glass") {
        "glass"
    } else {
        b
    }
}

/// The texture path of a block id.
pub fn map_block_to_texture(name: &str) -> (r: String)
    ensures
        r@ == texture_for(name@),
{
    proof {
        reveal_strlit("minecraft:");
    }
    let base = match str_strip_prefix(name, "minecraft:") {
        Some(rest) => rest,
        None => name,
    };
    let mut r = owned("minecraft/");
    r.append(alias(base));
    r
}

/// Plants and crops that are left out of the map entirely.
pub open spec fn is_ignored_plant_name(n: Seq<char>) -> bool {
    ||| n == "minecraft:dandelion"@
    ||| n == "minecraft:poppy"@
    ||| n == "minecraft:blue_orchid"@
    ||| n == "minecraft:allium"@
    ||| n == "minecraft:azure_bluet"@
    ||| n == "minecraft:red_tulip"@
    ||| n == "minecraft:orange_tulip"@
    ||| n == "minecraft:white_tulip"@
    ||| n == "minecraft:pink_tulip"@
    ||| n == "minecraft:oxeye_daisy"@
    ||| n == "minecraft:cornflower"@
    ||| n == "minecraft:lily_of_the_valley"@
    ||| n == "minecraft:wither_rose"@
    ||| n == "minecraft:sunflower"@
    ||| n == "minecraft:lilac"@
    ||| n == "minecraft:rose_bush"@
    ||| n == "minecraft:peony"@
    ||| n == "minecraft:oak_sapling"@
    ||| n == "minecraft:spruce_sapling"@
    ||| n == "minecraft:birch_sapling"@
    ||| n == "minecraft:jungle_sapling"@
    ||| n == "minecraft:acacia_sapling"@
    ||| n == "minecraft:dark_oak_sapling"@
    ||| n == "minecraft:mangrove_propagule"@
    ||| n == "minecraft:brown_mushroom"@
    ||| n == "minecraft:red_mushroom"@
    ||| n == "minecraft:grass"@
    ||| n == "minecraft:short_grass"@
    ||| n == "minecraft:tall_grass"@
    ||| n == "minecraft:fern"@
    ||| n == "minecraft:large_fern"@
    ||| n == "minecraft:dead_bush"@
    ||| n == "minecraft:bush"@
    ||| n == "minecraft:wheat"@
    ||| n == "minecraft:carrots"@
    ||| n == "minecraft:potatoes"@
    ||| n == "minecraft:beetroots"@
    ||| n == "minecraft:nether_wart"@
    ||| n == "minecraft:sweet_berry_bush"@
    ||| n == "minecraft:cocoa"@
    ||| n == "minecraft:melon_stem"@
    ||| n == "minecraft:attached_melon_stem"@
    ||| n == "minecraft:pumpkin_stem"@
    ||| n == "minecraft:attached_pumpkin_stem"@
    ||| n == "minecraft:seagrass"@
    ||| n == "minecraft:tall_seagrass"@
    ||| n == "minecraft:sugar_cane"@
    ||| n == "minecraft:kelp"@
    ||| n == "minecraft:kelp_plant"@
    ||| n == "minecraft:vine"@
    ||| n == "minecraft:lily_pad"@
    ||| n == "minecraft:bamboo"@
    ||| n == "minecraft:glow_lichen"@
    ||| n == "minecraft:azalea"@
    ||| n == "minecraft:cave_vines"@
    ||| n == "minecraft:cave_vines_plant"@
    ||| n == "minecraft:weeping_vines"@
    ||| n == "minecraft:weeping_vines_plant"@
    ||| n == "minecraft:twisting_vines"@
    ||| n == "minecraft:twisting_vines_plant"@
    ||| n == "minecraft:crimson_roots"@
    ||| n == "minecraft:warped_roots"@
    ||| n == "minecraft:crimson_fungus"@
    ||| n == "minecraft:warped_fungus"@
    ||| n == "minecraft:nether_sprouts"@
    ||| n == "minecraft:hanging_roots"@
    ||| n == "minecraft:spore_blossom"@
    ||| n == "minecraft:big_dripleaf"@
    ||| n == "minecraft:big_dripleaf_stem"@
    ||| n == "minecraft:small_dripleaf"@
    ||| n == "minecraft:sea_pickle"@
    ||| n == "minecraft:pink_petals"@
    ||| n == "minecraft:pitcher_plant"@
    ||| n == "minecraft:pitcher_crop"@
    ||| n == "minecraft:leaf_litter"@
    ||| n == "minecraft:firefly_bush"@
    ||| n == "minecraft:short_dry_grass"@
    ||| n == "minecraft:tall_dry_grass"@
    ||| n == "minecraft:chorus_plant"@
    ||| n == "minecraft:pale_hanging_moss"@
    ||| n == "minecraft:open_eyeblossom"@
    ||| n == "minecraft:closed_eyeblossom"@
    ||| seq_contains(n, "flower"@)
    ||| seq_contains(n, "sapling"@)
    ||| seq_contains(n, "mushroom"@)
}

/// Air, structure voids and doors.
pub open spec fn is_air_or_door_name(n: Seq<char>) -> bool {
    ||| n == "minecraft:air"@
    ||| n == "air"@
    ||| n == "minecraft:cave_air"@
    ||| n == "cave_air"@
    ||| n == "minecraft:void_air"@
    ||| n == "void_air"@
    ||| n == "minecraft:structure_void"@
    ||| n == "minecraft:oak_door"@
    ||| n == "minecraft:spruce_door"@
    ||| n == "minecraft:birch_door"@
    ||| n == "minecraft:jungle_door"@
    ||| n == "minecraft:acacia_door"@
    ||| n == "minecraft:dark_oak_door"@
    ||| n == "minecraft:pale_oak_door"@
    ||| n == "minecraft:mangrove_door"@
    ||| n == "minecraft:cherry_door"@
    ||| n == "minecraft:bamboo_door"@
    ||| n == "minecraft:crimson_door"@
    ||| n == "minecraft:warped_door"@
    ||| n == "minecraft:iron_door"@
    ||| n == "minecraft:copper_door"@
    ||| n == "minecraft:exposed_copper_door"@
    ||| n == "minecraft:weathered_copper_door"@
    ||| n == "minecraft:oxidized_copper_door"@
    ||| n == "minecraft:waxed_copper_door"@
    ||| n == "minecraft:waxed_exposed_copper_door"@
    ||| n == "minecraft:waxed_weathered_copper_door"@
    ||| n == "minecraft:waxed_oxidized_copper_door"@
}

/// Blocks that are dropped before meshing.
pub open spec fn is_empty_name(n: Seq<char>) -> bool {
    is_air_or_door_name(n) || is_ignored_plant_name(n)
}

/// A kept full cube: such a block hides a neighbour's face.
pub open spec fn is_solid(b: BlockView) -> bool {
    !is_empty_name(b.name) && shape_of(b) == BlockShape::Full
}

/// Blocks of one culling group count as the same material: ores with their
/// host rock, everything else by id.
pub open spec fn cull_group_of(n: Seq<char>) -> Seq<char> {
    if n == "minecraft:stone"@ || n == "minecraft:dirt"@ || n == "minecraft:gravel"@ || n == "minecraft:coal_ore"@ || n == "minecraft:iron_ore"@ || n == "minecraft:copper_ore"@ || n == "minecraft:gold_ore"@ || n == "minecraft:redstone_ore"@ || n == "minecraft:lapis_ore"@ || n == "minecraft:diamond_ore"@ || n == "minecraft:emerald_ore"@ {
        "stone"@
    } else if n == "minecraft:deepslate"@ || n == "minecraft:deepslate_coal_ore"@ || n == "minecraft:deepslate_iron_ore"@ || n == "minecraft:deepslate_copper_ore"@ || n == "minecraft:deepslate_gold_ore"@ || n == "minecraft:deepslate_redstone_ore"@ || n == "minecraft:deepslate_lapis_ore"@ || n == "minecraft:deepslate_diamond_ore"@ || n == "minecraft:deepslate_emerald_ore"@ {
        "deepslate"@
    } else {
        n
    }
}

/// Natural rock: the stone and deepslate groups.
pub open spec fn is_terrain(n: Seq<char>) -> bool {
    cull_group_of(n) == "stone"@ || cull_group_of(n) == "deepslate"@
}

fn ignored_plant_name(n: &str) -> (r: bool)
    ensures
        r == is_ignored_plant_name(n@),
{
    str_eq(n, "minecraft:dandelion") ||
    str_eq(n, "minecraft:poppy") ||
    str_eq(n, "minecraft:blue_orchid") ||
    str_eq(n, "minecraft:allium") ||
    str_eq(n, "minecraft:azure_bluet") ||
    str_eq(n, "minecraft:red_tulip") ||
    str_eq(n, "minecraft:orange_tulip") ||
    str_eq(n, "minecraft:white_tulip") ||
    str_eq(n, "minecraft:pink_tulip") ||
    str_eq(n, "minecraft:oxeye_daisy") ||
    str_eq(n, "minecraft:cornflower") ||
    str_eq(n, "minecraft:lily_of_the_valley") ||
    str_eq(n, "minecraft:wither_rose") ||
    str_eq(n, "minecraft:sunflower") ||
    str_eq(n, "minecraft:lilac") ||
    str_eq(n, "minecraft:rose_bush") ||
    str_eq(n, "minecraft:peony") ||
    str_eq(n, "minecraft:oak_sapling") ||
    str_eq(n, "minecraft:spruce_sapling") ||
    str_eq(n, "minecraft:birch_sapling") ||
    str_eq(n, "minecraft:jungle_sapling") ||
    str_eq(n, "minecraft:acacia_sapling") ||
    str_eq(n, "minecraft:dark_oak_sapling") ||
    str_eq(n, "minecraft:mangrove_propagule") ||
    str_eq(n, "minecraft:brown_mushroom") ||
    str_eq(n, "minecraft:red_mushroom") ||
    str_eq(n, "minecraft:grass") ||
    str_eq(n, "minecraft:short_grass") ||
    str_eq(n, "minecraft:tall_grass") ||
    str_eq(n, "minecraft:fern") ||
    str_eq(n, "minecraft:large_fern") ||
    str_eq(n, "minecraft:dead_bush") ||
    str_eq(n, "minecraft:bush") ||
    str_eq(n, "minecraft:wheat") ||
    str_eq(n, "minecraft:carrots") ||
    str_eq(n, "minecraft:potatoes") ||
    str_eq(n, "minecraft:beetroots") ||
    str_eq(n, "minecraft:nether_wart") ||
    str_eq(n, "minecraft:sweet_berry_bush") ||
    str_eq(n, "minecraft:cocoa") ||
    str_eq(n, "minecraft:melon_stem") ||
    str_eq(n, "minecraft:attached_melon_stem") ||
    str_eq(n, "minecraft:pumpkin_stem") ||
    str_eq(n, "minecraft:attached_pumpkin_stem") ||
    str_eq(n, "minecraft:seagrass") ||
    str_eq(n, "minecraft:tall_seagrass") ||
    str_eq(n, "minecraft:sugar_cane") ||
    str_eq(n, "minecraft:kelp") ||
    str_eq(n, "minecraft:kelp_plant") ||
    str_eq(n, "minecraft:vine") ||
    str_eq(n, "minecraft:lily_pad") ||
    str_eq(n, "minecraft:bamboo") ||
    str_eq(n, "minecraft:glow_lichen") ||
    str_eq(n, "minecraft:azalea") ||
    str_eq(n, "minecraft:cave_vines") ||
    str_eq(n, "minecraft:cave_vines_plant") ||
    str_eq(n, "minecraft:weeping_vines") ||
    str_eq(n, "minecraft:weeping_vines_plant") ||
    str_eq(n, "minecraft:twisting_vines") ||
    str_eq(n, "minecraft:twisting_vines_plant") ||
    str_eq(n, "minecraft:crimson_roots") ||
    str_eq(n, "minecraft:warped_roots") ||
    str_eq(n, "minecraft:crimson_fungus") ||
    str_eq(n, "minecraft:warped_fungus") ||
    str_eq(n, "minecraft:nether_sprouts") ||
    str_eq(n, "minecraft:hanging_roots") ||
    str_eq(n, "minecraft:spore_blossom") ||
    str_eq(n, "minecraft:big_dripleaf") ||
    str_eq(n, "minecraft:big_dripleaf_stem") ||
    str_eq(n, "minecraft:small_dripleaf") ||
    str_eq(n, "minecraft:sea_pickle") ||
    str_eq(n, "minecraft:pink_petals") ||
    str_eq(n, "minecraft:pitcher_plant") ||
    str_eq(n, "minecraft:pitcher_crop") ||
    str_eq(n, "minecraft:leaf_litter") ||
    str_eq(n, "minecraft:firefly_bush") ||
    str_eq(n, "minecraft:short_dry_grass") ||
    str_eq(n, "minecraft:tall_dry_grass") ||
    str_eq(n, "minecraft:chorus_plant") ||
    str_eq(n, "minecraft:pale_hanging_moss") ||
    str_eq(n, "minecraft:open_eyeblossom") ||
    str_eq(n, "minecraft:closed_eyeblossom") ||
    str_contains(n, "flower") || str_contains(n, "sapling") || str_contains(n, "mushroom")
}

fn air_or_door_name(n: &str) -> (r: bool)
    ensures
        r == is_air_or_door_name(n@),
{
    str_eq(n, "minecraft:air") ||
    str_eq(n, "air") ||
    str_eq(n, "minecraft:cave_air") ||
    str_eq(n, "cave_air") ||
    str_eq(n, "minecraft:void_air") ||
    str_eq(n, "void_air") ||
    str_eq(n, "minecraft:structure_void") ||
    str_eq(n, "minecraft:oak_door") ||
    str_eq(n, "minecraft:spruce_door") ||
    str_eq(n, "minecraft:birch_door") ||
    str_eq(n, "minecraft:jungle_door") ||
    str_eq(n, "minecraft:acacia_door") ||
    str_eq(n, "minecraft:dark_oak_door") ||
    str_eq(n, "minecraft:pale_oak_door") ||
    str_eq(n, "minecraft:mangrove_door") ||
    str_eq(n, "minecraft:cherry_door") ||
    str_eq(n, "minecraft:bamboo_door") ||
    str_eq(n, "minecraft:crimson_door") ||
    str_eq(n, "minecraft:warped_door") ||
    str_eq(n, "minecraft:iron_door") ||
    str_eq(n, "minecraft:copper_door") ||
    str_eq(n, "minecraft:exposed_copper_door") ||
    str_eq(n, "minecraft:weathered_copper_door") ||
    str_eq(n, "minecraft:oxidized_copper_door") ||
    str_eq(n, "minecraft:waxed_copper_door") ||
    str_eq(n, "minecraft:waxed_exposed_copper_door") ||
    str_eq(n, "minecraft:waxed_weathered_copper_door") ||
    str_eq(n, "minecraft:waxed_oxidized_copper_door")
}

/// A plant or crop that is left out of the map.
pub fn is_ignored_plant(block: &Block) -> (r: bool)
    ensures
        r == is_ignored_plant_name(block@.name),
{
    ignored_plant_name(block.name.as_str())
}

/// A block that is dropped before meshing.
pub fn is_empty_block(block: &Block) -> (r: bool)
    ensures
        r == is_empty_name(block@.name),
{
    air_or_door_name(block.name.as_str()) || is_ignored_plant(block)
}

/// A kept full cube.
pub fn is_solid_for_boundary_cull(block: &Block) -> (r: bool)
    ensures
        r == is_solid(block@),
{
    !is_empty_block(block) && get_shape(block) == BlockShape::Full
}

/// The culling group of a block.
pub fn cull_group(block: &Block) -> (r: &str)
    ensures
        r@ == cull_group_of(block@.name),
{
    let n = block.name.as_str();
    if str_eq(n, "minecraft:stone") || str_eq(n, "minecraft:dirt") || str_eq(n, "minecraft:gravel") || str_eq(n, "minecraft:coal_ore") || str_eq(n, "minecraft:iron_ore") || str_eq(n, "minecraft:copper_ore") || str_eq(n, "minecraft:gold_ore") || str_eq(n, "minecraft:redstone_ore") || str_eq(n, "minecraft:lapis_ore") || str_eq(n, "minecraft:diamond_ore") || str_eq(n, "minecraft:emerald_ore") {
        "stone"
    } else if str_eq(n, "minecraft:deepslate") || str_eq(n, "minecraft:deepslate_coal_ore") || str_eq(n, "minecraft:deepslate_iron_ore") || str_eq(n, "minecraft:deepslate_copper_ore") || str_eq(n, "minecraft:deepslate_gold_ore") || str_eq(n, "minecraft:deepslate_redstone_ore") || str_eq(n, "minecraft:deepslate_lapis_ore") || str_eq(n, "minecraft:deepslate_diamond_ore") || str_eq(n, "minecraft:deepslate_emerald_ore") {
        "deepslate"
    } else {
        n
    }
}

/// Two blocks of the same culling group.
pub fn same_block(a: &Block, b: &Block) -> (r: bool)
    ensures
        r == (cull_group_of(a@.name) == cull_group_of(b@.name)),
{
    str_eq(cull_group(a), cull_group(b))
}

/// A block of natural rock.
pub fn is_terrain_family(block: &Block) -> (r: bool)
    ensures
        r == is_terrain(block@.name),
{
    let g = cull_group(block);
    str_eq(g, "stone") || str_eq(g, "deepslate")
}

// ---------------------------------------------------------------------
// Culling hidden blocks
// ---------------------------------------------------------------------

/// The cell at `(x, y, z)`.
pub open spec fn at(g: Seq<Option<BlockView>>, w: int, l: int, x: int, y: int, z: int) -> Option<BlockView> {
    g[idx(w, l, x, y, z)]
}

/// A cell after the first pass: empty blocks dropped, kept blocks textured.
pub open spec fn kept(c: Option<BlockView>) -> Option<BlockView> {
    match c {
        Some(b) => if is_empty_name(b.name) {
            None
        } else {
            Some(BlockView { name: b.name, texture: texture_for(b.name), properties: b.properties })
        },
        None => None,
    }
}

/// The cell holds a block of the same culling group as `c`.
pub open spec fn same_group_at(g: Seq<Option<BlockView>>, w: int, l: int, c: BlockView, x: int, y: int, z: int) -> bool {
    match at(g, w, l, x, y, z) {
        Some(nb) => cull_group_of(nb.name) == cull_group_of(c.name),
        None => false,
    }
}

/// The cell holds a solid block.
pub open spec fn solid_at(g: Seq<Option<BlockView>>, w: int, l: int, x: int, y: int, z: int) -> bool {
    match at(g, w, l, x, y, z) {
        Some(nb) => is_solid(nb),
        None => false,
    }
}

/// The cell holds a full cube.
pub open spec fn full_at(g: Seq<Option<BlockView>>, w: int, l: int, x: int, y: int, z: int) -> bool {
    match at(g, w, l, x, y, z) {
        Some(c) => shape_of(c) == BlockShape::Full,
        None => false,
    }
}

/// The cell holds a block with id `n`.
pub open spec fn named_at(g: Seq<Option<BlockView>>, w: int, l: int, x: int, y: int, z: int, n: Seq<char>) -> bool {
    match at(g, w, l, x, y, z) {
        Some(b) => b.name == n,
        None => false,
    }
}

/// An inner full cube whose six neighbours all belong to its culling group.
pub open spec fn interior_hidden(g: Seq<Option<BlockView>>, w: int, h: int, l: int, x: int, y: int, z: int) -> bool {
    &&& 1 <= x < w - 1
    &&& 1 <= y < h - 1
    &&& 1 <= z < l - 1
    &&& match at(g, w, l, x, y, z) {
        Some(c) => {
            &&& shape_of(c) == BlockShape::Full
            &&& same_group_at(g, w, l, c, x - 1, y, z)
            &&& same_group_at(g, w, l, c, x + 1, y, z)
            &&& same_group_at(g, w, l, c, x, y - 1, z)
            &&& same_group_at(g, w, l, c, x, y + 1, z)
            &&& same_group_at(g, w, l, c, x, y, z - 1)
            &&& same_group_at(g, w, l, c, x, y, z + 1)
        },
        None => false,
    }
}

/// Every neighbour inside the grid is solid.
pub open spec fn buried(g: Seq<Option<BlockView>>, w: int, h: int, l: int, x: int, y: int, z: int) -> bool {
    &&& (x > 0 ==> solid_at(g, w, l, x - 1, y, z))
    &&& (x < w - 1 ==> solid_at(g, w, l, x + 1, y, z))
    &&& (y > 0 ==> solid_at(g, w, l, x, y - 1, z))
    &&& (y < h - 1 ==> solid_at(g, w, l, x, y + 1, z))
    &&& (z > 0 ==> solid_at(g, w, l, x, y, z - 1))
    &&& (z < l - 1 ==> solid_at(g, w, l, x, y, z + 1))
}

/// The cell lies on a face of the grid.
pub open spec fn on_boundary(w: int, h: int, l: int, x: int, y: int, z: int) -> bool {
    x == 0 || x == w - 1 || y == 0 || y == h - 1 || z == 0 || z == l - 1
}

/// A full cube on a face of the grid whose neighbours inside the grid are all solid.
pub open spec fn boundary_hidden(g: Seq<Option<BlockView>>, w: int, h: int, l: int, x: int, y: int, z: int) -> bool {
    full_at(g, w, l, x, y, z) && on_boundary(w, h, l, x, y, z) && buried(g, w, h, l, x, y, z)
}

/// A full cube on the lowest layer that holds any block.
pub open spec fn floor_hidden(g: Seq<Option<BlockView>>, w: int, l: int, low_y: Option<int>, x: int, y: int, z: int) -> bool {
    low_y == Some(y) && full_at(g, w, l, x, y, z)
}

/// A dirt path beside the cell or beside the cell above it.
pub open spec fn path_nearby(g: Seq<Option<BlockView>>, w: int, h: int, l: int, x: int, y: int, z: int) -> bool {
    let p = "minecraft:dirt_path"@;
    ||| x > 0 && named_at(g, w, l, x - 1, y, z, p)
    ||| x < w - 1 && named_at(g, w, l, x + 1, y, z, p)
    ||| z > 0 && named_at(g, w, l, x, y, z - 1, p)
    ||| z < l - 1 && named_at(g, w, l, x, y, z + 1, p)
    ||| x > 0 && named_at(g, w, l, x - 1, y + 1, z, p)
    ||| x < w - 1 && named_at(g, w, l, x + 1, y + 1, z, p)
    ||| z > 0 && named_at(g, w, l, x, y + 1, z - 1, p)
    ||| z < l - 1 && named_at(g, w, l, x, y + 1, z + 1, p)
}

/// Dirt under a grass block, away from paths, with solid blocks on its four
/// sides (all inside the grid) and below it.
pub open spec fn dirt_hidden(g: Seq<Option<BlockView>>, w: int, h: int, l: int, x: int, y: int, z: int) -> bool {
    &&& y < h - 1
    &&& named_at(g, w, l, x, y, z, "minecraft:dirt"@)
    &&& named_at(g, w, l, x, y + 1, z, "minecraft:grass_block"@)
    &&& !path_nearby(g, w, h, l, x, y, z)
    &&& 0 < x < w - 1
    &&& 0 < z < l - 1
    &&& solid_at(g, w, l, x - 1, y, z)
    &&& solid_at(g, w, l, x + 1, y, z)
    &&& solid_at(g, w, l, x, y, z - 1)
    &&& solid_at(g, w, l, x, y, z + 1)
    &&& y > 0
    &&& solid_at(g, w, l, x, y - 1, z)
}

/// The lowest and highest used `x` and `z`.
pub struct SideSpan {
    pub low_x: Option<int>,
    pub high_x: Option<int>,
    pub low_z: Option<int>,
    pub high_z: Option<int>,
}

/// A rock full cube on an outermost used column or row whose neighbours
/// inside the grid are all solid.
pub open spec fn side_hidden(g: Seq<Option<BlockView>>, w: int, h: int, l: int, e: SideSpan, x: int, y: int, z: int) -> bool {
    &&& match at(g, w, l, x, y, z) {
        Some(c) => shape_of(c) == BlockShape::Full && is_terrain(c.name),
        None => false,
    }
    &&& (e.low_x == Some(x) || e.high_x == Some(x) || e.low_z == Some(z) || e.high_z == Some(z))
    &&& buried(g, w, h, l, x, y, z)
}

/// Coordinate `axis` (0 for x, 1 for y, 2 for z) of index `j`.
pub open spec fn coord(w: int, l: int, j: int, axis: int) -> int {
    if axis == 0 {
        pos_x(w, j)
    } else if axis == 1 {
        pos_y(w, l, j)
    } else {
        pos_z(w, l, j)
    }
}

pub open spec fn opt_min(a: Option<int>, c: int) -> Option<int> {
    match a {
        Some(m) => Some(if c < m { c } else { m }),
        None => Some(c),
    }
}

pub open spec fn opt_max(a: Option<int>, c: int) -> Option<int> {
    match a {
        Some(m) => Some(if c > m { c } else { m }),
        None => Some(c),
    }
}

/// The least coordinate `axis` of a block among the first `k` cells.
pub open spec fn lowest_used(g: Seq<Option<BlockView>>, w: int, l: int, k: int, axis: int) -> Option<int>
    decreases k,
{
    if k <= 0 {
        None
    } else if g[k - 1] is Some {
        opt_min(lowest_used(g, w, l, k - 1, axis), coord(w, l, k - 1, axis))
    } else {
        lowest_used(g, w, l, k - 1, axis)
    }
}

/// The greatest coordinate `axis` of a block among the first `k` cells.
pub open spec fn highest_used(g: Seq<Option<BlockView>>, w: int, l: int, k: int, axis: int) -> Option<int>
    decreases k,
{
    if k <= 0 {
        None
    } else if g[k - 1] is Some {
        opt_max(highest_used(g, w, l, k - 1, axis), coord(w, l, k - 1, axis))
    } else {
        highest_used(g, w, l, k - 1, axis)
    }
}

/// The cells of a grid for which `p` holds of their coordinates.
pub open spec fn cells_where(w: int, l: int, n: int, p: spec_fn(int, int, int) -> bool) -> Seq<bool> {
    Seq::new(n as nat, |j: int| p(pos_x(w, j), pos_y(w, l, j), pos_z(w, l, j)))
}

/// `s` with the cells marked in `m` emptied.
pub open spec fn remove_where(s: Seq<Option<BlockView>>, m: Seq<bool>) -> Seq<Option<BlockView>> {
    Seq::new(s.len(), |j: int| if m[j] { None } else { s[j] })
}

/// The used side span of a grid.
pub open spec fn side_span(g: Seq<Option<BlockView>>, w: int, l: int) -> SideSpan {
    SideSpan {
        low_x: lowest_used(g, w, l, g.len() as int, 0),
        high_x: highest_used(g, w, l, g.len() as int, 0),
        low_z: lowest_used(g, w, l, g.len() as int, 2),
        high_z: highest_used(g, w, l, g.len() as int, 2),
    }
}

/// The grid after dropping empty blocks and applying textures.
pub open spec fn textured(g: Seq<Option<BlockView>>) -> Seq<Option<BlockView>> {
    g.map_values(|c: Option<BlockView>| kept(c))
}

/// After interior culling.
pub open spec fn after_interior(s0: Seq<Option<BlockView>>, w: int, h: int, l: int) -> Seq<Option<BlockView>> {
    remove_where(s0, cells_where(w, l, s0.len() as int, |x: int, y: int, z: int| interior_hidden(s0, w, h, l, x, y, z)))
}

/// After boundary culling.
pub open spec fn after_boundary(s1: Seq<Option<BlockView>>, w: int, h: int, l: int) -> Seq<Option<BlockView>> {
    remove_where(s1, cells_where(w, l, s1.len() as int, |x: int, y: int, z: int| boundary_hidden(s1, w, h, l, x, y, z)))
}

/// After floor culling.
pub open spec fn after_floor(s2: Seq<Option<BlockView>>, w: int, l: int) -> Seq<Option<BlockView>> {
    let low_y = lowest_used(s2, w, l, s2.len() as int, 1);
    remove_where(s2, cells_where(w, l, s2.len() as int, |x: int, y: int, z: int| floor_hidden(s2, w, l, low_y, x, y, z)))
}

/// The cells that the last two passes cull, both judged on the textured grid.
pub open spec fn late_mask(s0: Seq<Option<BlockView>>, w: int, h: int, l: int) -> Seq<bool> {
    let e = side_span(s0, w, l);
    cells_where(w, l, s0.len() as int, |x: int, y: int, z: int| dirt_hidden(s0, w, h, l, x, y, z) || side_hidden(s0, w, h, l, e, x, y, z))
}

/// The grid that [`filter_blocks`] produces from `g`.
pub open spec fn filtered(g: Seq<Option<BlockView>>, w: int, h: int, l: int) -> Seq<Option<BlockView>> {
    let s0 = textured(g);
    let s3 = after_floor(after_boundary(after_interior(s0, w, h, l), w, h, l), w, l);
    remove_where(s3, late_mask(s0, w, h, l))
}

/// The cell culled by one of the passes of [`filter_blocks`].
pub enum Pass {
    Interior,
    Boundary,
    Floor,
    Late,
}

pub open spec fn pass_hidden(
    pass: Pass,
    g: Seq<Option<BlockView>>,
    w: int,
    h: int,
    l: int,
    low_y: Option<int>,
    e: SideSpan,
    x: int,
    y: int,
    z: int,
) -> bool {
    match pass {
        Pass::Interior => interior_hidden(g, w, h, l, x, y, z),
        Pass::Boundary => boundary_hidden(g, w, h, l, x, y, z),
        Pass::Floor => floor_hidden(g, w, l, low_y, x, y, z),
        Pass::Late => dirt_hidden(g, w, h, l, x, y, z) || side_hidden(g, w, h, l, e, x, y, z),
    }
}

/// An `i32` option as an integer option.
pub open spec fn oi(o: Option<i32>) -> Option<int> {
    match o {
        Some(v) => Some(v as int),
        None => None,
    }
}

/// The used extent of a grid, as computed.
struct Used {
    lo_x: Option<i32>,
    hi_x: Option<i32>,
    lo_y: Option<i32>,
    lo_z: Option<i32>,
    hi_z: Option<i32>,
}

/// The grid `g` (of `w * h * l` cells) and its dimensions fit together.
pub open spec fn grid_ok(g: Seq<Option<Block>>, w: int, h: int, l: int) -> bool {
    0 <= w && 0 <= h && 0 <= l && w * h * l <= i32::MAX && g.len() == w * h * l
}

fn cell<'a>(g: &'a Vec<Option<Block>>, w: i32, h: i32, l: i32, x: i32, y: i32, z: i32) -> (r: &'a Option<Block>)
    requires
        grid_ok(g@, w as int, h as int, l as int),
        in_grid(w as int, h as int, l as int, x as int, y as int, z as int),
    ensures
        cell_view_eq(*r, at(cells_view(g@), w as int, l as int, x as int, y as int, z as int)),
{
    let i = index_of(w, h, l, x, y, z);
    &g[i]
}

pub open spec fn cell_view_eq(c: Option<Block>, v: Option<BlockView>) -> bool {
    crate::model::cell_view(c) == v
}

fn solid_at_e(g: &Vec<Option<Block>>, w: i32, h: i32, l: i32, x: i32, y: i32, z: i32) -> (r: bool)
    requires
        grid_ok(g@, w as int, h as int, l as int),
        in_grid(w as int, h as int, l as int, x as int, y as int, z as int),
    ensures
        r == solid_at(cells_view(g@), w as int, l as int, x as int, y as int, z as int),
{
    match cell(g, w, h, l, x, y, z) {
        Some(b) => is_solid_for_boundary_cull(b),
        None => false,
    }
}

fn full_at_e(g: &Vec<Option<Block>>, w: i32, h: i32, l: i32, x: i32, y: i32, z: i32) -> (r: bool)
    requires
        grid_ok(g@, w as int, h as int, l as int),
        in_grid(w as int, h as int, l as int, x as int, y as int, z as int),
    ensures
        r == full_at(cells_view(g@), w as int, l as int, x as int, y as int, z as int),
{
    match cell(g, w, h, l, x, y, z) {
        Some(b) => get_shape(b) == BlockShape::Full,
        None => false,
    }
}

fn named_at_e(g: &Vec<Option<Block>>, w: i32, h: i32, l: i32, x: i32, y: i32, z: i32, n: &str) -> (r: bool)
    requires
        grid_ok(g@, w as int, h as int, l as int),
        in_grid(w as int, h as int, l as int, x as int, y as int, z as int),
    ensures
        r == named_at(cells_view(g@), w as int, l as int, x as int, y as int, z as int, n@),
{
    match cell(g, w, h, l, x, y, z) {
        Some(b) => str_eq(b.name.as_str(), n),
        None => false,
    }
}

fn same_group_at_e(g: &Vec<Option<Block>>, w: i32, h: i32, l: i32, c: &Block, x: i32, y: i32, z: i32) -> (r: bool)
    requires
        grid_ok(g@, w as int, h as int, l as int),
        in_grid(w as int, h as int, l as int, x as int, y as int, z as int),
    ensures
        r == same_group_at(cells_view(g@), w as int, l as int, c@, x as int, y as int, z as int),
{
    match cell(g, w, h, l, x, y, z) {
        Some(nb) => same_block(c, nb),
        None => false,
    }
}

fn interior_hidden_e(g: &Vec<Option<Block>>, w: i32, h: i32, l: i32, x: i32, y: i32, z: i32) -> (r: bool)
    requires
        grid_ok(g@, w as int, h as int, l as int),
        in_grid(w as int, h as int, l as int, x as int, y as int, z as int),
    ensures
        r == interior_hidden(cells_view(g@), w as int, h as int, l as int, x as int, y as int, z as int),
{
    if !(1 <= x && x < w - 1 && 1 <= y && y < h - 1 && 1 <= z && z < l - 1) {
        return false;
    }
    match cell(g, w, h, l, x, y, z) {
        Some(c) => {
            get_shape(c) == BlockShape::Full
                && same_group_at_e(g, w, h, l, c, x - 1, y, z)
                && same_group_at_e(g, w, h, l, c, x + 1, y, z)
                && same_group_at_e(g, w, h, l, c, x, y - 1, z)
                && same_group_at_e(g, w, h, l, c, x, y + 1, z)
                && same_group_at_e(g, w, h, l, c, x, y, z - 1)
                && same_group_at_e(g, w, h, l, c, x, y, z + 1)
        },
        None => false,
    }
}

fn buried_e(g: &Vec<Option<Block>>, w: i32, h: i32, l: i32, x: i32, y: i32, z: i32) -> (r: bool)
    requires
        grid_ok(g@, w as int, h as int, l as int),
        in_grid(w as int, h as int, l as int, x as int, y as int, z as int),
    ensures
        r == buried(cells_view(g@), w as int, h as int, l as int, x as int, y as int, z as int),
{
    (x == 0 || solid_at_e(g, w, h, l, x - 1, y, z))
        && (x >= w - 1 || solid_at_e(g, w, h, l, x + 1, y, z))
        && (y == 0 || solid_at_e(g, w, h, l, x, y - 1, z))
        && (y >= h - 1 || solid_at_e(g, w, h, l, x, y + 1, z))
        && (z == 0 || solid_at_e(g, w, h, l, x, y, z - 1))
        && (z >= l - 1 || solid_at_e(g, w, h, l, x, y, z + 1))
}

fn path_nearby_e(g: &Vec<Option<Block>>, w: i32, h: i32, l: i32, x: i32, y: i32, z: i32) -> (r: bool)
    requires
        grid_ok(g@, w as int, h as int, l as int),
        in_grid(w as int, h as int, l as int, x as int, y as int, z as int),
        y < h - 1,
    ensures
        r == path_nearby(cells_view(g@), w as int, h as int, l as int, x as int, y as int, z as int),
{
    let p = "minecraft:dirt_path";
    (x > 0 && named_at_e(g, w, h, l, x - 1, y, z, p))
        || (x < w - 1 && named_at_e(g, w, h, l, x + 1, y, z, p))
        || (z > 0 && named_at_e(g, w, h, l, x, y, z - 1, p))
        || (z < l - 1 && named_at_e(g, w, h, l, x, y, z + 1, p))
        || (x > 0 && named_at_e(g, w, h, l, x - 1, y + 1, z, p))
        || (x < w - 1 && named_at_e(g, w, h, l, x + 1, y + 1, z, p))
        || (z > 0 && named_at_e(g, w, h, l, x, y + 1, z - 1, p))
        || (z < l - 1 && named_at_e(g, w, h, l, x, y + 1, z + 1, p))
}

fn dirt_hidden_e(g: &Vec<Option<Block>>, w: i32, h: i32, l: i32, x: i32, y: i32, z: i32) -> (r: bool)
    requires
        grid_ok(g@, w as int, h as int, l as int),
        in_grid(w as int, h as int, l as int, x as int, y as int, z as int),
    ensures
        r == dirt_hidden(cells_view(g@), w as int, h as int, l as int, x as int, y as int, z as int),
{
    y < h - 1
        && named_at_e(g, w, h, l, x, y, z, "minecraft:dirt")
        && named_at_e(g, w, h, l, x, y + 1, z, "minecraft:grass_block")
        && !path_nearby_e(g, w, h, l, x, y, z)
        && 0 < x && x < w - 1 && 0 < z && z < l - 1
        && solid_at_e(g, w, h, l, x - 1, y, z)
        && solid_at_e(g, w, h, l, x + 1, y, z)
        && solid_at_e(g, w, h, l, x, y, z - 1)
        && solid_at_e(g, w, h, l, x, y, z + 1)
        && y > 0
        && solid_at_e(g, w, h, l, x, y - 1, z)
}

fn opt_eq(a: Option<i32>, v: i32) -> (r: bool)
    ensures
        r == (oi(a) == Some(v as int)),
{
    match a {
        Some(m) => m == v,
        None => false,
    }
}

fn side_hidden_e(g: &Vec<Option<Block>>, w: i32, h: i32, l: i32, e: &Used, x: i32, y: i32, z: i32) -> (r: bool)
    requires
        grid_ok(g@, w as int, h as int, l as int),
        in_grid(w as int, h as int, l as int, x as int, y as int, z as int),
    ensures
        r == side_hidden(
            cells_view(g@),
            w as int,
            h as int,
            l as int,
            SideSpan { low_x: oi(e.lo_x), high_x: oi(e.hi_x), low_z: oi(e.lo_z), high_z: oi(e.hi_z) },
            x as int,
            y as int,
            z as int,
        ),
{
    let rock = match cell(g, w, h, l, x, y, z) {
        Some(c) => get_shape(c) == BlockShape::Full && is_terrain_family(c),
        None => false,
    };
    rock && (opt_eq(e.lo_x, x) || opt_eq(e.hi_x, x) || opt_eq(e.lo_z, z) || opt_eq(e.hi_z, z))
        && buried_e(g, w, h, l, x, y, z)
}

fn hidden_at(pass: &Pass, g: &Vec<Option<Block>>, w: i32, h: i32, l: i32, e: &Used, x: i32, y: i32, z: i32) -> (r: bool)
    requires
        grid_ok(g@, w as int, h as int, l as int),
        in_grid(w as int, h as int, l as int, x as int, y as int, z as int),
    ensures
        r == pass_hidden(
            *pass,
            cells_view(g@),
            w as int,
            h as int,
            l as int,
            oi(e.lo_y),
            SideSpan { low_x: oi(e.lo_x), high_x: oi(e.hi_x), low_z: oi(e.lo_z), high_z: oi(e.hi_z) },
            x as int,
            y as int,
            z as int,
        ),
{
    match pass {
        Pass::Interior => interior_hidden_e(g, w, h, l, x, y, z),
        Pass::Boundary => {
            full_at_e(g, w, h, l, x, y, z)
                && (x == 0 || x == w - 1 || y == 0 || y == h - 1 || z == 0 || z == l - 1)
                && buried_e(g, w, h, l, x, y, z)
        },
        Pass::Floor => opt_eq(e.lo_y, y) && full_at_e(g, w, h, l, x, y, z),
        Pass::Late => dirt_hidden_e(g, w, h, l, x, y, z) || side_hidden_e(g, w, h, l, e, x, y, z),
    }
}


/// The cells that `pass` culls from `g`.
fn mask(pass: &Pass, g: &Vec<Option<Block>>, w: i32, h: i32, l: i32, e: &Used) -> (m: Vec<bool>)
    requires
        grid_ok(g@, w as int, h as int, l as int),
    ensures
        m@ == cells_where(
            w as int,
            l as int,
            g@.len() as int,
            |x: int, y: int, z: int|
                pass_hidden(
                    *pass,
                    cells_view(g@),
                    w as int,
                    h as int,
                    l as int,
                    oi(e.lo_y),
                    SideSpan { low_x: oi(e.lo_x), high_x: oi(e.hi_x), low_z: oi(e.lo_z), high_z: oi(e.hi_z) },
                    x,
                    y,
                    z,
                ),
        ),
{
    let ghost sp = SideSpan { low_x: oi(e.lo_x), high_x: oi(e.hi_x), low_z: oi(e.lo_z), high_z: oi(e.hi_z) };
    let ghost target = cells_where(
        w as int,
        l as int,
        g@.len() as int,
        |x: int, y: int, z: int| pass_hidden(*pass, cells_view(g@), w as int, h as int, l as int, oi(e.lo_y), sp, x, y, z),
    );
    let mut m: Vec<bool> = Vec::new();
    let n = g.len();
    for j in 0..n
        invariant
            n == g@.len(),
            grid_ok(g@, w as int, h as int, l as int),
            target.len() == n,
            target == cells_where(
                w as int,
                l as int,
                g@.len() as int,
                |x: int, y: int, z: int| pass_hidden(*pass, cells_view(g@), w as int, h as int, l as int, oi(e.lo_y), sp, x, y, z),
            ),
            sp == (SideSpan { low_x: oi(e.lo_x), high_x: oi(e.hi_x), low_z: oi(e.lo_z), high_z: oi(e.hi_z) }),
            m@ == target.take(j as int),
    {
        let (x, y, z) = coords_of(w, h, l, j);
        let v = hidden_at(pass, g, w, h, l, e, x, y, z);
        m.push(v);
        assert(m@ =~= target.take(j + 1));
    }
    assert(target.take(n as int) =~= target);
    m
}

/// Empties the cells marked in `m`.
fn apply_mask(blocks: &mut Vec<Option<Block>>, m: &Vec<bool>)
    requires
        m@.len() == old(blocks)@.len(),
    ensures
        final(blocks)@.len() == old(blocks)@.len(),
        cells_view(final(blocks)@) == remove_where(cells_view(old(blocks)@), m@),
{
    let ghost start = cells_view(blocks@);
    let n = blocks.len();
    for i in 0..n
        invariant
            n == blocks@.len(),
            m@.len() == n,
            start.len() == n,
            forall|j: int| 0 <= j < i ==> crate::model::cell_view(#[trigger] blocks@[j]) == (if m@[j] { None } else { start[j] }),
            forall|j: int| i <= j < n ==> crate::model::cell_view(#[trigger] blocks@[j]) == start[j],
    {
        if m[i] {
            blocks.set(i, None);
        }
    }
    assert(cells_view(blocks@) =~= remove_where(start, m@));
}

/// Drops empty blocks and gives the others their textures.
fn keep_and_texture(blocks: &mut Vec<Option<Block>>)
    ensures
        final(blocks)@.len() == old(blocks)@.len(),
        cells_view(final(blocks)@) == textured(cells_view(old(blocks)@)),
{
    let ghost start = cells_view(blocks@);
    let n = blocks.len();
    for i in 0..n
        invariant
            n == blocks@.len(),
            start.len() == n,
            forall|j: int| 0 <= j < i ==> crate::model::cell_view(#[trigger] blocks@[j]) == kept(start[j]),
            forall|j: int| i <= j < n ==> crate::model::cell_view(#[trigger] blocks@[j]) == start[j],
    {
        let mut c: Option<Block> = None;
        blocks.set_and_swap(i, &mut c);
        let next = match c {
            Some(b) => {
                if is_empty_block(&b) {
                    None
                } else {
                    let Block { name, texture: _, properties } = b;
                    let texture = map_block_to_texture(name.as_str());
                    Some(Block { name, texture, properties })
                }
            },
            None => None,
        };
        blocks.set(i, next);
    }
    assert(cells_view(blocks@) =~= textured(start));
}

fn min_i32(a: Option<i32>, c: i32) -> (r: Option<i32>)
    ensures
        oi(r) == opt_min(oi(a), c as int),
{
    match a {
        Some(m) => Some(if c < m { c } else { m }),
        None => Some(c),
    }
}

fn max_i32(a: Option<i32>, c: i32) -> (r: Option<i32>)
    ensures
        oi(r) == opt_max(oi(a), c as int),
{
    match a {
        Some(m) => Some(if c > m { c } else { m }),
        None => Some(c),
    }
}

/// The least and greatest used coordinates of a grid.
fn used_extent(g: &Vec<Option<Block>>, w: i32, h: i32, l: i32) -> (e: Used)
    requires
        grid_ok(g@, w as int, h as int, l as int),
    ensures
        oi(e.lo_x) == lowest_used(cells_view(g@), w as int, l as int, g@.len() as int, 0),
        oi(e.hi_x) == highest_used(cells_view(g@), w as int, l as int, g@.len() as int, 0),
        oi(e.lo_y) == lowest_used(cells_view(g@), w as int, l as int, g@.len() as int, 1),
        oi(e.lo_z) == lowest_used(cells_view(g@), w as int, l as int, g@.len() as int, 2),
        oi(e.hi_z) == highest_used(cells_view(g@), w as int, l as int, g@.len() as int, 2),
{
    let ghost gv = cells_view(g@);
    let mut e = Used { lo_x: None, hi_x: None, lo_y: None, lo_z: None, hi_z: None };
    let n = g.len();
    for j in 0..n
        invariant
            n == g@.len(),
            gv == cells_view(g@),
            grid_ok(g@, w as int, h as int, l as int),
            oi(e.lo_x) == lowest_used(gv, w as int, l as int, j as int, 0),
            oi(e.hi_x) == highest_used(gv, w as int, l as int, j as int, 0),
            oi(e.lo_y) == lowest_used(gv, w as int, l as int, j as int, 1),
            oi(e.lo_z) == lowest_used(gv, w as int, l as int, j as int, 2),
            oi(e.hi_z) == highest_used(gv, w as int, l as int, j as int, 2),
    {
        if g[j].is_some() {
            let (x, y, z) = coords_of(w, h, l, j);
            e = Used {
                lo_x: min_i32(e.lo_x, x),
                hi_x: max_i32(e.hi_x, x),
                lo_y: min_i32(e.lo_y, y),
                lo_z: min_i32(e.lo_z, z),
                hi_z: max_i32(e.hi_z, z),
            };
        }
    }
    e
}

/// Drops air, doors and small plants, gives every other block its texture,
/// and removes full blocks that can never be seen: inner blocks surrounded by
/// their own material, buried blocks on the faces of the grid, full blocks of
/// the lowest used layer, dirt hidden under grass, and buried rock on the
/// outermost used columns and rows.
pub fn filter_blocks(map: VoxelMap) -> (r: VoxelMap)
    requires
        map.wf(),
    ensures
        r.width == map.width,
        r.height == map.height,
        r.length == map.length,
        r.wf(),
        cells_view(r.blocks@) == filtered(cells_view(map.blocks@), map.width as int, map.height as int, map.length as int),
{
    let VoxelMap { width: w, height: h, length: l, blocks: mut blocks } = map;
    let ghost g = cells_view(blocks@);
    let ghost (wi, hi, li) = (w as int, h as int, l as int);
    keep_and_texture(&mut blocks);
    let ghost s0 = cells_view(blocks@);
    let e0 = used_extent(&blocks, w, h, l);
    let late = mask(&Pass::Late, &blocks, w, h, l, &e0);
    proof {
        let sp = side_span(s0, wi, li);
        assert(late@ =~= late_mask(s0, wi, hi, li));
    }
    let m1 = mask(&Pass::Interior, &blocks, w, h, l, &e0);
    assert(m1@ =~= cells_where(wi, li, s0.len() as int, |x: int, y: int, z: int| interior_hidden(s0, wi, hi, li, x, y, z)));
    apply_mask(&mut blocks, &m1);
    let ghost s1 = cells_view(blocks@);
    assert(s1 == after_interior(s0, wi, hi, li));
    let m2 = mask(&Pass::Boundary, &blocks, w, h, l, &e0);
    assert(m2@ =~= cells_where(wi, li, s1.len() as int, |x: int, y: int, z: int| boundary_hidden(s1, wi, hi, li, x, y, z)));
    apply_mask(&mut blocks, &m2);
    let ghost s2 = cells_view(blocks@);
    assert(s2 == after_boundary(s1, wi, hi, li));
    let e2 = used_extent(&blocks, w, h, l);
    let m3 = mask(&Pass::Floor, &blocks, w, h, l, &e2);
    assert(m3@ =~= cells_where(wi, li, s2.len() as int, |x: int, y: int, z: int| floor_hidden(s2, wi, li, lowest_used(s2, wi, li, s2.len() as int, 1), x, y, z)));
    apply_mask(&mut blocks, &m3);
    let ghost s3 = cells_view(blocks@);
    assert(s3 == after_floor(s2, wi, li));
    apply_mask(&mut blocks, &late);
    VoxelMap { width: w, height: h, length: l, blocks }
}

/// Filtering keeps the grid's size, and every cell either becomes empty or
/// keeps its block with the texture its name maps to; in particular no air,
/// door or ignored plant is left.
pub proof fn lemma_filter_drops_or_textures(g: Seq<Option<BlockView>>, w: int, h: int, l: int, j: int)
    requires
        0 <= j < g.len(),
    ensures
        filtered(g, w, h, l).len() == g.len(),
        filtered(g, w, h, l)[j] is None || filtered(g, w, h, l)[j] == kept(g[j]),
        match filtered(g, w, h, l)[j] {
            Some(b) => !is_empty_name(b.name) && b.texture == texture_for(b.name),
            None => true,
        },
{
}

/// No air is left after filtering: a cell that held air, cave air, void
/// air or a structure void, with or without the `minecraft:` namespace, is
/// empty in the filtered grid.
pub proof fn lemma_filter_drops_air(g: Seq<Option<BlockView>>, w: int, h: int, l: int, j: int)
    requires
        0 <= j < g.len(),
        g[j] matches Some(b) && (
            b.name == "minecraft:air"@ ||
            b.name == "air"@ ||
            b.name == "minecraft:cave_air"@ ||
            b.name == "cave_air"@ ||
            b.name == "minecraft:void_air"@ ||
            b.name == "void_air"@ ||
            b.name == "minecraft:structure_void"@
        ),
    ensures
        filtered(g, w, h, l)[j] is None,
{
    lemma_filter_drops_or_textures(g, w, h, l, j);
}

/// Doors are deleted: a cell that held any of the vanilla doors is empty in
/// the filtered grid.
pub proof fn lemma_filter_drops_doors(g: Seq<Option<BlockView>>, w: int, h: int, l: int, j: int)
    requires
        0 <= j < g.len(),
        g[j] matches Some(b) && (
            b.name == "minecraft:oak_door"@ ||
            b.name == "minecraft:spruce_door"@ ||
            b.name == "minecraft:birch_door"@ ||
            b.name == "minecraft:jungle_door"@ ||
            b.name == "minecraft:acacia_door"@ ||
            b.name == "minecraft:dark_oak_door"@ ||
            b.name == "minecraft:pale_oak_door"@ ||
            b.name == "minecraft:mangrove_door"@ ||
            b.name == "minecraft:cherry_door"@ ||
            b.name == "minecraft:bamboo_door"@ ||
            b.name == "minecraft:crimson_door"@ ||
            b.name == "minecraft:warped_door"@ ||
            b.name == "minecraft:iron_door"@ ||
            b.name == "minecraft:copper_door"@ ||
            b.name == "minecraft:exposed_copper_door"@ ||
            b.name == "minecraft:weathered_copper_door"@ ||
            b.name == "minecraft:oxidized_copper_door"@ ||
            b.name == "minecraft:waxed_copper_door"@ ||
            b.name == "minecraft:waxed_exposed_copper_door"@ ||
            b.name == "minecraft:waxed_weathered_copper_door"@ ||
            b.name == "minecraft:waxed_oxidized_copper_door"@
        ),
    ensures
        filtered(g, w, h, l)[j] is None,
{
    lemma_filter_drops_or_textures(g, w, h, l, j);
}

/// Grass and plants are culled: a cell that held any of the vanilla grasses,
/// flowers, crops, vines, roots, water plants and other small plants, or any
/// block whose id names a flower, sapling or mushroom, is empty in the
/// filtered grid.
pub proof fn lemma_filter_drops_plants(g: Seq<Option<BlockView>>, w: int, h: int, l: int, j: int)
    requires
        0 <= j < g.len(),
        g[j] matches Some(b) && (
            b.name == "minecraft:dandelion"@ ||
            b.name == "minecraft:poppy"@ ||
            b.name == "minecraft:blue_orchid"@ ||
            b.name == "minecraft:allium"@ ||
            b.name == "minecraft:azure_bluet"@ ||
            b.name == "minecraft:red_tulip"@ ||
            b.name == "minecraft:orange_tulip"@ ||
            b.name == "minecraft:white_tulip"@ ||
            b.name == "minecraft:pink_tulip"@ ||
            b.name == "minecraft:oxeye_daisy"@ ||
            b.name == "minecraft:cornflower"@ ||
            b.name == "minecraft:lily_of_the_valley"@ ||
            b.name == "minecraft:wither_rose"@ ||
            b.name == "minecraft:sunflower"@ ||
            b.name == "minecraft:lilac"@ ||
            b.name == "minecraft:rose_bush"@ ||
            b.name == "minecraft:peony"@ ||
            b.name == "minecraft:oak_sapling"@ ||
            b.name == "minecraft:spruce_sapling"@ ||
            b.name == "minecraft:birch_sapling"@ ||
            b.name == "minecraft:jungle_sapling"@ ||
            b.name == "minecraft:acacia_sapling"@ ||
            b.name == "minecraft:dark_oak_sapling"@ ||
            b.name == "minecraft:mangrove_propagule"@ ||
            b.name == "minecraft:brown_mushroom"@ ||
            b.name == "minecraft:red_mushroom"@ ||
            b.name == "minecraft:grass"@ ||
            b.name == "minecraft:short_grass"@ ||
            b.name == "minecraft:tall_grass"@ ||
            b.name == "minecraft:fern"@ ||
            b.name == "minecraft:large_fern"@ ||
            b.name == "minecraft:dead_bush"@ ||
            b.name == "minecraft:bush"@ ||
            b.name == "minecraft:wheat"@ ||
            b.name == "minecraft:carrots"@ ||
            b.name == "minecraft:potatoes"@ ||
            b.name == "minecraft:beetroots"@ ||
            b.name == "minecraft:nether_wart"@ ||
            b.name == "minecraft:sweet_berry_bush"@ ||
            b.name == "minecraft:cocoa"@ ||
            b.name == "minecraft:melon_stem"@ ||
            b.name == "minecraft:attached_melon_stem"@ ||
            b.name == "minecraft:pumpkin_stem"@ ||
            b.name == "minecraft:attached_pumpkin_stem"@ ||
            b.name == "minecraft:seagrass"@ ||
            b.name == "minecraft:tall_seagrass"@ ||
            b.name == "minecraft:sugar_cane"@ ||
            b.name == "minecraft:kelp"@ ||
            b.name == "minecraft:kelp_plant"@ ||
            b.name == "minecraft:vine"@ ||
            b.name == "minecraft:lily_pad"@ ||
            b.name == "minecraft:bamboo"@ ||
            b.name == "minecraft:glow_lichen"@ ||
            b.name == "minecraft:azalea"@ ||
            b.name == "minecraft:cave_vines"@ ||
            b.name == "minecraft:cave_vines_plant"@ ||
            b.name == "minecraft:weeping_vines"@ ||
            b.name == "minecraft:weeping_vines_plant"@ ||
            b.name == "minecraft:twisting_vines"@ ||
            b.name == "minecraft:twisting_vines_plant"@ ||
            b.name == "minecraft:crimson_roots"@ ||
            b.name == "minecraft:warped_roots"@ ||
            b.name == "minecraft:crimson_fungus"@ ||
            b.name == "minecraft:warped_fungus"@ ||
            b.name == "minecraft:nether_sprouts"@ ||
            b.name == "minecraft:hanging_roots"@ ||
            b.name == "minecraft:spore_blossom"@ ||
            b.name == "minecraft:big_dripleaf"@ ||
            b.name == "minecraft:big_dripleaf_stem"@ ||
            b.name == "minecraft:small_dripleaf"@ ||
            b.name == "minecraft:sea_pickle"@ ||
            b.name == "minecraft:pink_petals"@ ||
            b.name == "minecraft:pitcher_plant"@ ||
            b.name == "minecraft:pitcher_crop"@ ||
            b.name == "minecraft:leaf_litter"@ ||
            b.name == "minecraft:firefly_bush"@ ||
            b.name == "minecraft:short_dry_grass"@ ||
            b.name == "minecraft:tall_dry_grass"@ ||
            b.name == "minecraft:chorus_plant"@ ||
            b.name == "minecraft:pale_hanging_moss"@ ||
            b.name == "minecraft:open_eyeblossom"@ ||
            b.name == "minecraft:closed_eyeblossom"@ ||
            seq_contains(b.name, "flower"@) || seq_contains(b.name, "sapling"@) || seq_contains(b.name, "mushroom"@)
        ),
    ensures
        filtered(g, w, h, l)[j] is None,
{
    lemma_filter_drops_or_textures(g, w, h, l, j);
}

/// Only full cubes are culled: a kept block of any other shape is in the
/// filtered grid.
pub proof fn lemma_filter_keeps_partial_blocks(g: Seq<Option<BlockView>>, w: int, h: int, l: int, j: int)
    requires
        0 <= w,
        0 <= h,
        0 <= l,
        g.len() == w * h * l,
        0 <= j < g.len(),
        kept(g[j]) matches Some(b) && shape_of(b) != BlockShape::Full,
    ensures
        filtered(g, w, h, l)[j] == kept(g[j]),
{
    let b = kept(g[j])->0;
    if b.name == "minecraft:dirt"@ {
        lemma_dirt_is_full(b);
    }
    lemma_pos(w, h, l, j);
    let x = pos_x(w, j);
    let y = pos_y(w, l, j);
    let z = pos_z(w, l, j);
    let s0 = textured(g);
    let s1 = after_interior(s0, w, h, l);
    assert(at(s0, w, l, x, y, z) == s0[j]);
    assert(!interior_hidden(s0, w, h, l, x, y, z));
    assert(s1[j] == s0[j]);
    let s2 = after_boundary(s1, w, h, l);
    assert(at(s1, w, l, x, y, z) == s1[j]);
    assert(!boundary_hidden(s1, w, h, l, x, y, z));
    assert(s2[j] == s0[j]);
    let s3 = after_floor(s2, w, l);
    assert(at(s2, w, l, x, y, z) == s2[j]);
    assert(!full_at(s2, w, l, x, y, z));
    assert(s3[j] == s0[j]);
    assert(!named_at(s0, w, l, x, y, z, "minecraft:dirt"@));
    assert(!dirt_hidden(s0, w, h, l, x, y, z));
    assert(!side_hidden(s0, w, h, l, side_span(s0, w, l), x, y, z));
    assert(!late_mask(s0, w, h, l)[j]);
}

/// A hidden interior block is culled: a kept full cube away from the grid's
/// faces whose six neighbours all belong to its culling group is not in the
/// filtered grid.
pub proof fn lemma_filter_culls_interior(g: Seq<Option<BlockView>>, w: int, h: int, l: int, x: int, y: int, z: int)
    requires
        0 <= w,
        0 <= h,
        0 <= l,
        g.len() == w * h * l,
        in_grid(w, h, l, x, y, z),
        interior_hidden(textured(g), w, h, l, x, y, z),
    ensures
        filtered(g, w, h, l)[idx(w, l, x, y, z)] is None,
{
    lemma_idx(w, h, l, x, y, z);
    let j = idx(w, l, x, y, z);
    let s0 = textured(g);
    assert(cells_where(w, l, s0.len() as int, |a: int, b: int, c: int| interior_hidden(s0, w, h, l, a, b, c))[j]);
}

/// Texturing is idempotent: dropping empty blocks and texturing the others
/// a second time changes nothing.
pub proof fn lemma_texturing_idempotent(g: Seq<Option<BlockView>>)
    ensures
        textured(textured(g)) == textured(g),
{
    assert(textured(textured(g)) =~= textured(g));
}

/// Each of these textures is drawn with itself.
proof fn lemma_alias_fixed_0()
    ensures
        texture_alias("acacia_log"@) == "acacia_log"@,
        texture_alias("acacia_planks"@) == "acacia_planks"@,
        texture_alias("andesite"@) == "andesite"@,
        texture_alias("bamboo_mosaic"@) == "bamboo_mosaic"@,
        texture_alias("bamboo_planks"@) == "bamboo_planks"@,
        texture_alias("birch_log"@) == "birch_log"@,
        texture_alias("birch_planks"@) == "birch_planks"@,
        texture_alias("blackstone"@) == "blackstone"@,
        texture_alias("bricks"@) == "bricks"@,
        texture_alias("cherry_log"@) == "cherry_log"@,
        texture_alias("cherry_planks"@) == "cherry_planks"@,
        texture_alias("chest"@) == "chest"@,
        texture_alias("cobbled_deepslate"@) == "cobbled_deepslate"@,
        texture_alias("cobblestone"@) == "cobblestone"@,
        texture_alias("crimson_planks"@) == "crimson_planks"@,
        texture_alias("crimson_stem"@) == "crimson_stem"@,
        texture_alias("cut_copper"@) == "cut_copper"@,
        texture_alias("dark_oak_log"@) == "dark_oak_log"@,
        texture_alias("dark_oak_planks"@) == "dark_oak_planks"@,
        texture_alias("dark_prismarine"@) == "dark_prismarine"@,
        texture_alias("deepslate_bricks"@) == "deepslate_bricks"@,
        texture_alias("deepslate_tiles"@) == "deepslate_tiles"@,
{
    reveal_strlit("acacia_fence");
    reveal_strlit("acacia_log");
    reveal_strlit("acacia_planks");
    reveal_strlit("acacia_slab");
    reveal_strlit("acacia_stairs");
    reveal_strlit("acacia_wood");
    reveal_strlit("andesite");
    reveal_strlit("andesite_slab");
    reveal_strlit("andesite_stairs");
    reveal_strlit("bamboo_fence");
    reveal_strlit("bamboo_mosaic");
    reveal_strlit("bamboo_mosaic_slab");
    reveal_strlit("bamboo_mosaic_stairs");
    reveal_strlit("bamboo_planks");
    reveal_strlit("bamboo_slab");
    reveal_strlit("bamboo_stairs");
    reveal_strlit("birch_fence");
    reveal_strlit("birch_log");
    reveal_strlit("birch_planks");
    reveal_strlit("birch_slab");
    reveal_strlit("birch_stairs");
    reveal_strlit("birch_wood");
    reveal_strlit("black_bed");
    reveal_strlit("black_stained_glass");
    reveal_strlit("black_stained_glass_pane");
    reveal_strlit("blackstone");
    reveal_strlit("blackstone_slab");
    reveal_strlit("blackstone_stairs");
    reveal_strlit("blue_bed");
    reveal_strlit("blue_stained_glass");
    reveal_strlit("blue_stained_glass_pane");
    reveal_strlit("brick_slab");
    reveal_strlit("brick_stairs");
    reveal_strlit("bricks");
    reveal_strlit("brown_bed");
    reveal_strlit("brown_stained_glass");
    reveal_strlit("brown_stained_glass_pane");
    reveal_strlit("cherry_fence");
    reveal_strlit("cherry_log");
    reveal_strlit("cherry_planks");
    reveal_strlit("cherry_slab");
    reveal_strlit("cherry_stairs");
    reveal_strlit("cherry_wood");
    reveal_strlit("chest");
    reveal_strlit("cobbled_deepslate");
    reveal_strlit("cobbled_deepslate_slab");
    reveal_strlit("cobbled_deepslate_stairs");
    reveal_strlit("cobblestone");
    reveal_strlit("cobblestone_slab");
    reveal_strlit("cobblestone_stairs");
    reveal_strlit("copper_chest");
    reveal_strlit("crimson_fence");
    reveal_strlit("crimson_hyphae");
    reveal_strlit("crimson_planks");
    reveal_strlit("crimson_slab");
    reveal_strlit("crimson_stairs");
    reveal_strlit("crimson_stem");
    reveal_strlit("cut_copper");
    reveal_strlit("cut_copper_slab");
    reveal_strlit("cut_copper_stairs");
    reveal_strlit("cyan_bed");
    reveal_strlit("cyan_stained_glass");
    reveal_strlit("cyan_stained_glass_pane");
    reveal_strlit("dark_oak_fence");
    reveal_strlit("dark_oak_log");
    reveal_strlit("dark_oak_planks");
    reveal_strlit("dark_oak_slab");
    reveal_strlit("dark_oak_stairs");
    reveal_strlit("dark_oak_wood");
    reveal_strlit("dark_prismarine");
    reveal_strlit("dark_prismarine_slab");
    reveal_strlit("dark_prismarine_stairs");
    reveal_strlit("deepslate_brick_slab");
    reveal_strlit("deepslate_brick_stairs");
    reveal_strlit("deepslate_bricks");
    reveal_strlit("deepslate_tile_slab");
    reveal_strlit("deepslate_tile_stairs");
    reveal_strlit("deepslate_tiles");
    reveal_strlit("diorite");
    reveal_strlit("diorite_slab");
    reveal_strlit("diorite_stairs");
    reveal_strlit("end_stone_brick_slab");
    reveal_strlit("end_stone_brick_stairs");
    reveal_strlit("end_stone_bricks");
    reveal_strlit("ender_chest");
    reveal_strlit("exposed_copper_chest");
    reveal_strlit("exposed_cut_copper");
    reveal_strlit("exposed_cut_copper_slab");
    reveal_strlit("exposed_cut_copper_stairs");
    reveal_strlit("glass");
    reveal_strlit("glass_pane");
    reveal_strlit("granite");
    reveal_strlit("granite_slab");
    reveal_strlit("granite_stairs");
    reveal_strlit("gray_bed");
    reveal_strlit("gray_stained_glass");
    reveal_strlit("gray_stained_glass_pane");
    reveal_strlit("green_bed");
    reveal_strlit("green_stained_glass");
    reveal_strlit("green_stained_glass_pane");
    reveal_strlit("jungle_fence");
    reveal_strlit("jungle_log");
    reveal_strlit("jungle_planks");
    reveal_strlit("jungle_slab");
    reveal_strlit("jungle_stairs");
    reveal_strlit("jungle_wood");
    reveal_strlit("light_blue_bed");
    reveal_strlit("light_blue_stained_glass");
    reveal_strlit("light_blue_stained_glass_pane");
    reveal_strlit("light_gray_bed");
    reveal_strlit("light_gray_stained_glass");
    reveal_strlit("light_gray_stained_glass_pane");
    reveal_strlit("lime_bed");
    reveal_strlit("lime_stained_glass");
    reveal_strlit("lime_stained_glass_pane");
    reveal_strlit("magenta_bed");
    reveal_strlit("magenta_stained_glass");
    reveal_strlit("magenta_stained_glass_pane");
    reveal_strlit("mangrove_fence");
    reveal_strlit("mangrove_log");
    reveal_strlit("mangrove_planks");
    reveal_strlit("mangrove_slab");
    reveal_strlit("mangrove_stairs");
    reveal_strlit("mangrove_wood");
    reveal_strlit("mossy_cobblestone");
    reveal_strlit("mossy_cobblestone_slab");
    reveal_strlit("mossy_cobblestone_stairs");
    reveal_strlit("mossy_stone_brick_slab");
    reveal_strlit("mossy_stone_brick_stairs");
    reveal_strlit("mossy_stone_bricks");
    reveal_strlit("mud_brick_slab");
    reveal_strlit("mud_brick_stairs");
    reveal_strlit("mud_bricks");
    reveal_strlit("nether_brick_slab");
    reveal_strlit("nether_brick_stairs");
    reveal_strlit("nether_bricks");
    reveal_strlit("oak_fence");
    reveal_strlit("oak_log");
    reveal_strlit("oak_planks");
    reveal_strlit("oak_slab");
    reveal_strlit("oak_stairs");
    reveal_strlit("oak_wood");
    reveal_strlit("orange_bed");
    reveal_strlit("orange_stained_glass");
    reveal_strlit("orange_stained_glass_pane");
    reveal_strlit("oxidized_copper_chest");
    reveal_strlit("oxidized_cut_copper");
    reveal_strlit("oxidized_cut_copper_slab");
    reveal_strlit("oxidized_cut_copper_stairs");
    reveal_strlit("pink_bed");
    reveal_strlit("pink_stained_glass");
    reveal_strlit("pink_stained_glass_pane");
    reveal_strlit("polished_andesite");
    reveal_strlit("polished_andesite_slab");
    reveal_strlit("polished_andesite_stairs");
    reveal_strlit("polished_blackstone");
    reveal_strlit("polished_blackstone_brick_slab");
    reveal_strlit("polished_blackstone_brick_stairs");
    reveal_strlit("polished_blackstone_bricks");
    reveal_strlit("polished_blackstone_slab");
    reveal_strlit("polished_blackstone_stairs");
    reveal_strlit("polished_deepslate");
    reveal_strlit("polished_deepslate_slab");
    reveal_strlit("polished_deepslate_stairs");
    reveal_strlit("polished_diorite");
    reveal_strlit("polished_diorite_slab");
    reveal_strlit("polished_diorite_stairs");
    reveal_strlit("polished_granite");
    reveal_strlit("polished_granite_slab");
    reveal_strlit("polished_granite_stairs");
    reveal_strlit("prismarine");
    reveal_strlit("prismarine_brick_slab");
    reveal_strlit("prismarine_brick_stairs");
    reveal_strlit("prismarine_bricks");
    reveal_strlit("prismarine_slab");
    reveal_strlit("prismarine_stairs");
    reveal_strlit("purple_bed");
    reveal_strlit("purple_stained_glass");
    reveal_strlit("purple_stained_glass_pane");
    reveal_strlit("purpur_block");
    reveal_strlit("purpur_slab");
    reveal_strlit("purpur_stairs");
    reveal_strlit("quartz_block");
    reveal_strlit("quartz_slab");
    reveal_strlit("quartz_stairs");
    reveal_strlit("red_bed");
    reveal_strlit("red_nether_brick_slab");
    reveal_strlit("red_nether_brick_stairs");
    reveal_strlit("red_nether_bricks");
    reveal_strlit("red_sandstone");
    reveal_strlit("red_sandstone_slab");
    reveal_strlit("red_sandstone_stairs");
    reveal_strlit("red_stained_glass");
    reveal_strlit("red_stained_glass_pane");
    reveal_strlit("sandstone");
    reveal_strlit("sandstone_slab");
    reveal_strlit("sandstone_stairs");
    reveal_strlit("smooth_quartz");
    reveal_strlit("smooth_quartz_slab");
    reveal_strlit("smooth_quartz_stairs");
    reveal_strlit("smooth_red_sandstone");
    reveal_strlit("smooth_red_sandstone_slab");
    reveal_strlit("smooth_red_sandstone_stairs");
    reveal_strlit("smooth_sandstone");
    reveal_strlit("smooth_sandstone_slab");
    reveal_strlit("smooth_sandstone_stairs");
    reveal_strlit("spruce_fence");
    reveal_strlit("spruce_log");
    reveal_strlit("spruce_planks");
    reveal_strlit("spruce_slab");
    reveal_strlit("spruce_stairs");
    reveal_strlit("spruce_wood");
    reveal_strlit("stone");
    reveal_strlit("stone_brick_slab");
    reveal_strlit("stone_brick_stairs");
    reveal_strlit("stone_bricks");
    reveal_strlit("stone_slab");
    reveal_strlit("stone_stairs");
    reveal_strlit("stripped_acacia_wood");
    reveal_strlit("stripped_birch_wood");
    reveal_strlit("stripped_cherry_wood");
    reveal_strlit("stripped_crimson_hyphae");
    reveal_strlit("stripped_dark_oak_wood");
    reveal_strlit("stripped_jungle_wood");
    reveal_strlit("stripped_mangrove_wood");
    reveal_strlit("stripped_oak_wood");
    reveal_strlit("stripped_spruce_wood");
    reveal_strlit("stripped_warped_hyphae");
    reveal_strlit("tinted_glass");
    reveal_strlit("trapped_chest");
    reveal_strlit("warped_fence");
    reveal_strlit("warped_hyphae");
    reveal_strlit("warped_planks");
    reveal_strlit("warped_slab");
    reveal_strlit("warped_stairs");
    reveal_strlit("warped_stem");
    reveal_strlit("waxed_copper_chest");
    reveal_strlit("waxed_cut_copper");
    reveal_strlit("waxed_cut_copper_slab");
    reveal_strlit("waxed_cut_copper_stairs");
    reveal_strlit("waxed_exposed_copper_chest");
    reveal_strlit("waxed_exposed_cut_copper");
    reveal_strlit("waxed_exposed_cut_copper_slab");
    reveal_strlit("waxed_exposed_cut_copper_stairs");
    reveal_strlit("waxed_oxidized_copper_chest");
    reveal_strlit("waxed_oxidized_cut_copper");
    reveal_strlit("waxed_oxidized_cut_copper_slab");
    reveal_strlit("waxed_oxidized_cut_copper_stairs");
    reveal_strlit("waxed_weathered_copper_chest");
    reveal_strlit("waxed_weathered_cut_copper");
    reveal_strlit("waxed_weathered_cut_copper_slab");
    reveal_strlit("waxed_weathered_cut_copper_stairs");
    reveal_strlit("weathered_copper_chest");
    reveal_strlit("weathered_cut_copper");
    reveal_strlit("weathered_cut_copper_slab");
    reveal_strlit("weathered_cut_copper_stairs");
    reveal_strlit("white_bed");
    reveal_strlit("white_stained_glass");
    reveal_strlit("white_stained_glass_pane");
    reveal_strlit("white_wool");
    reveal_strlit("yellow_bed");
    reveal_strlit("yellow_stained_glass");
    reveal_strlit("yellow_stained_glass_pane");
    assert("acacia_log"@[0] != "oak_stairs"@[0]);
    assert("acacia_log"@[0] != "birch_slab"@[0]);
    assert("acacia_log"@[0] != "stone_slab"@[0]);
    assert("acacia_log"@[0] != "brick_slab"@[0]);
    assert("acacia_log"@[0] != "orange_bed"@[0]);
    assert("acacia_log"@[0] != "yellow_bed"@[0]);
    assert("acacia_log"@[0] != "purple_bed"@[0]);
    assert("acacia_log"@[0] != "birch_wood"@[0]);
    assert("acacia_log"@[0] != "glass_pane"@[0]);
    assert("acacia_planks"@[0] != "spruce_stairs"@[0]);
    assert("acacia_planks"@[0] != "jungle_stairs"@[0]);
    assert("acacia_planks"@[7] != "acacia_stairs"@[7]);
    assert("acacia_planks"@[0] != "dark_oak_slab"@[0]);
    assert("acacia_planks"@[0] != "mangrove_slab"@[0]);
    assert("acacia_planks"@[0] != "cherry_stairs"@[0]);
    assert("acacia_planks"@[0] != "bamboo_stairs"@[0]);
    assert("acacia_planks"@[0] != "warped_stairs"@[0]);
    assert("acacia_planks"@[1] != "andesite_slab"@[1]);
    assert("acacia_planks"@[0] != "quartz_stairs"@[0]);
    assert("acacia_planks"@[0] != "purpur_stairs"@[0]);
    assert("acacia_planks"@[0] != "crimson_fence"@[0]);
    assert("acacia_planks"@[0] != "trapped_chest"@[0]);
    assert("acacia_planks"@[0] != "dark_oak_wood"@[0]);
    assert("acacia_planks"@[0] != "mangrove_wood"@[0]);
    assert("acacia_planks"@[0] != "warped_hyphae"@[0]);
    assert("andesite"@[0] != "oak_slab"@[0]);
    assert("andesite"@.len() != "andesite_stairs"@.len());
    assert("andesite"@.len() != "andesite_slab"@.len());
    assert("andesite"@.len() != "polished_andesite_stairs"@.len());
    assert("andesite"@.len() != "polished_andesite_slab"@.len());
    assert("andesite"@[0] != "lime_bed"@[0]);
    assert("andesite"@[0] != "pink_bed"@[0]);
    assert("andesite"@[0] != "gray_bed"@[0]);
    assert("andesite"@[0] != "cyan_bed"@[0]);
    assert("andesite"@[0] != "blue_bed"@[0]);
    assert("andesite"@[0] != "oak_wood"@[0]);
    assert("bamboo_mosaic"@[0] != "spruce_stairs"@[0]);
    assert("bamboo_mosaic"@[0] != "jungle_stairs"@[0]);
    assert("bamboo_mosaic"@[0] != "acacia_stairs"@[0]);
    assert("bamboo_mosaic"@[0] != "dark_oak_slab"@[0]);
    assert("bamboo_mosaic"@[0] != "mangrove_slab"@[0]);
    assert("bamboo_mosaic"@[0] != "cherry_stairs"@[0]);
    assert("bamboo_mosaic"@[7] != "bamboo_stairs"@[7]);
    assert("bamboo_mosaic"@.len() != "bamboo_mosaic_stairs"@.len());
    assert("bamboo_mosaic"@.len() != "bamboo_mosaic_slab"@.len());
    assert("bamboo_mosaic"@[0] != "warped_stairs"@[0]);
    assert("bamboo_mosaic"@[0] != "andesite_slab"@[0]);
    assert("bamboo_mosaic"@[0] != "quartz_stairs"@[0]);
    assert("bamboo_mosaic"@[0] != "purpur_stairs"@[0]);
    assert("bamboo_mosaic"@[0] != "crimson_fence"@[0]);
    assert("bamboo_mosaic"@[0] != "trapped_chest"@[0]);
    assert("bamboo_mosaic"@[0] != "dark_oak_wood"@[0]);
    assert("bamboo_mosaic"@[0] != "mangrove_wood"@[0]);
    assert("bamboo_mosaic"@[0] != "warped_hyphae"@[0]);
    assert("bamboo_planks"@[0] != "spruce_stairs"@[0]);
    assert("bamboo_planks"@[0] != "jungle_stairs"@[0]);
    assert("bamboo_planks"@[0] != "acacia_stairs"@[0]);
    assert("bamboo_planks"@[0] != "dark_oak_slab"@[0]);
    assert("bamboo_planks"@[0] != "mangrove_slab"@[0]);
    assert("bamboo_planks"@[0] != "cherry_stairs"@[0]);
    assert("bamboo_planks"@[7] != "bamboo_stairs"@[7]);
    assert("bamboo_planks"@[0] != "warped_stairs"@[0]);
    assert("bamboo_planks"@[0] != "andesite_slab"@[0]);
    assert("bamboo_planks"@[0] != "quartz_stairs"@[0]);
    assert("bamboo_planks"@[0] != "purpur_stairs"@[0]);
    assert("bamboo_planks"@[0] != "crimson_fence"@[0]);
    assert("bamboo_planks"@[0] != "trapped_chest"@[0]);
    assert("bamboo_planks"@[0] != "dark_oak_wood"@[0]);
    assert("bamboo_planks"@[0] != "mangrove_wood"@[0]);
    assert("bamboo_planks"@[0] != "warped_hyphae"@[0]);
    assert("birch_log"@[0] != "oak_fence"@[0]);
    assert("birch_log"@[0] != "white_bed"@[0]);
    assert("birch_log"@[1] != "brown_bed"@[1]);
    assert("birch_log"@[0] != "green_bed"@[0]);
    assert("birch_log"@[1] != "black_bed"@[1]);
    assert("birch_planks"@[6] != "birch_stairs"@[6]);
    assert("birch_planks"@[0] != "crimson_slab"@[0]);
    assert("birch_planks"@[0] != "stone_stairs"@[0]);
    assert("birch_planks"@[0] != "granite_slab"@[0]);
    assert("birch_planks"@[0] != "diorite_slab"@[0]);
    assert("birch_planks"@[1] != "brick_stairs"@[1]);
    assert("birch_planks"@[0] != "spruce_fence"@[0]);
    assert("birch_planks"@[0] != "jungle_fence"@[0]);
    assert("birch_planks"@[0] != "acacia_fence"@[0]);
    assert("birch_planks"@[0] != "cherry_fence"@[0]);
    assert("birch_planks"@[1] != "bamboo_fence"@[1]);
    assert("birch_planks"@[0] != "warped_fence"@[0]);
    assert("birch_planks"@[0] != "copper_chest"@[0]);
    assert("birch_planks"@[0] != "tinted_glass"@[0]);
    assert("blackstone"@[0] != "oak_stairs"@[0]);
    assert("blackstone"@[1] != "birch_slab"@[1]);
    assert("blackstone"@[0] != "stone_slab"@[0]);
    assert("blackstone"@.len() != "blackstone_stairs"@.len());
    assert("blackstone"@.len() != "blackstone_slab"@.len());
    assert("blackstone"@.len() != "polished_blackstone_stairs"@.len());
    assert("blackstone"@.len() != "polished_blackstone_slab"@.len());
    assert("blackstone"@.len() != "polished_blackstone_brick_stairs"@.len());
    assert("blackstone"@.len() != "polished_blackstone_brick_slab"@.len());
    assert("blackstone"@[1] != "brick_slab"@[1]);
    assert("blackstone"@[0] != "orange_bed"@[0]);
    assert("blackstone"@[0] != "yellow_bed"@[0]);
    assert("blackstone"@[0] != "purple_bed"@[0]);
    assert("blackstone"@[1] != "birch_wood"@[1]);
    assert("blackstone"@[0] != "glass_pane"@[0]);
    assert("cherry_log"@[0] != "oak_stairs"@[0]);
    assert("cherry_log"@[0] != "birch_slab"@[0]);
    assert("cherry_log"@[0] != "stone_slab"@[0]);
    assert("cherry_log"@[0] != "brick_slab"@[0]);
    assert("cherry_log"@[0] != "orange_bed"@[0]);
    assert("cherry_log"@[0] != "yellow_bed"@[0]);
    assert("cherry_log"@[0] != "purple_bed"@[0]);
    assert("cherry_log"@[0] != "birch_wood"@[0]);
    assert("cherry_log"@[0] != "glass_pane"@[0]);
    assert("cherry_planks"@[0] != "spruce_stairs"@[0]);
    assert("cherry_planks"@[0] != "jungle_stairs"@[0]);
    assert("cherry_planks"@[0] != "acacia_stairs"@[0]);
    assert("cherry_planks"@[0] != "dark_oak_slab"@[0]);
    assert("cherry_planks"@[0] != "mangrove_slab"@[0]);
    assert("cherry_planks"@[7] != "cherry_stairs"@[7]);
    assert("cherry_planks"@[0] != "bamboo_stairs"@[0]);
    assert("cherry_planks"@[0] != "warped_stairs"@[0]);
    assert("cherry_planks"@[0] != "andesite_slab"@[0]);
    assert("cherry_planks"@[0] != "quartz_stairs"@[0]);
    assert("cherry_planks"@[0] != "purpur_stairs"@[0]);
    assert("cherry_planks"@[1] != "crimson_fence"@[1]);
    assert("cherry_planks"@[0] != "trapped_chest"@[0]);
    assert("cherry_planks"@[0] != "dark_oak_wood"@[0]);
    assert("cherry_planks"@[0] != "mangrove_wood"@[0]);
    assert("cherry_planks"@[0] != "warped_hyphae"@[0]);
    assert("cobbled_deepslate"@[0] != "blackstone_stairs"@[0]);
    assert("cobbled_deepslate"@[0] != "nether_brick_slab"@[0]);
    assert("cobbled_deepslate"@[0] != "prismarine_stairs"@[0]);
    assert("cobbled_deepslate"@.len() != "cobbled_deepslate_stairs"@.len());
    assert("cobbled_deepslate"@.len() != "cobbled_deepslate_slab"@.len());
    assert("cobbled_deepslate"@[1] != "cut_copper_stairs"@[1]);
    assert("cobbled_deepslate"@[0] != "stripped_oak_wood"@[0]);
    assert("cobbled_deepslate"@[0] != "red_stained_glass"@[0]);
    assert("cobblestone"@[0] != "spruce_slab"@[0]);
    assert("cobblestone"@[0] != "jungle_slab"@[0]);
    assert("cobblestone"@[0] != "acacia_slab"@[0]);
    assert("cobblestone"@[1] != "cherry_slab"@[1]);
    assert("cobblestone"@[0] != "bamboo_slab"@[0]);
    assert("cobblestone"@[0] != "warped_slab"@[0]);
    assert("cobblestone"@.len() != "cobblestone_stairs"@.len());
    assert("cobblestone"@.len() != "cobblestone_slab"@.len());
    assert("cobblestone"@.len() != "mossy_cobblestone_stairs"@.len());
    assert("cobblestone"@.len() != "mossy_cobblestone_slab"@.len());
    assert("cobblestone"@[0] != "quartz_slab"@[0]);
    assert("cobblestone"@[0] != "purpur_slab"@[0]);
    assert("cobblestone"@[0] != "birch_fence"@[0]);
    assert("cobblestone"@[0] != "ender_chest"@[0]);
    assert("cobblestone"@[0] != "magenta_bed"@[0]);
    assert("cobblestone"@[0] != "spruce_wood"@[0]);
    assert("cobblestone"@[0] != "jungle_wood"@[0]);
    assert("cobblestone"@[0] != "acacia_wood"@[0]);
    assert("cobblestone"@[1] != "cherry_wood"@[1]);
    assert("crimson_planks"@[8] != "crimson_stairs"@[8]);
    assert("crimson_planks"@[0] != "granite_stairs"@[0]);
    assert("crimson_planks"@[0] != "diorite_stairs"@[0]);
    assert("crimson_planks"@[0] != "mud_brick_slab"@[0]);
    assert("crimson_planks"@[0] != "sandstone_slab"@[0]);
    assert("crimson_planks"@[0] != "dark_oak_fence"@[0]);
    assert("crimson_planks"@[0] != "mangrove_fence"@[0]);
    assert("crimson_planks"@[0] != "light_blue_bed"@[0]);
    assert("crimson_planks"@[0] != "light_gray_bed"@[0]);
    assert("crimson_planks"@[8] != "crimson_hyphae"@[8]);
    assert("crimson_stem"@[0] != "birch_stairs"@[0]);
    assert("crimson_stem"@[9] != "crimson_slab"@[9]);
    assert("crimson_stem"@[0] != "stone_stairs"@[0]);
    assert("crimson_stem"@[0] != "granite_slab"@[0]);
    assert("crimson_stem"@[0] != "diorite_slab"@[0]);
    assert("crimson_stem"@[0] != "brick_stairs"@[0]);
    assert("crimson_stem"@[0] != "spruce_fence"@[0]);
    assert("crimson_stem"@[0] != "jungle_fence"@[0]);
    assert("crimson_stem"@[0] != "acacia_fence"@[0]);
    assert("crimson_stem"@[1] != "cherry_fence"@[1]);
    assert("crimson_stem"@[0] != "bamboo_fence"@[0]);
    assert("crimson_stem"@[0] != "warped_fence"@[0]);
    assert("crimson_stem"@[1] != "copper_chest"@[1]);
    assert("crimson_stem"@[0] != "tinted_glass"@[0]);
    assert("cut_copper"@[0] != "oak_stairs"@[0]);
    assert("cut_copper"@[0] != "birch_slab"@[0]);
    assert("cut_copper"@[0] != "stone_slab"@[0]);
    assert("cut_copper"@[0] != "brick_slab"@[0]);
    assert("cut_copper"@.len() != "cut_copper_stairs"@.len());
    assert("cut_copper"@.len() != "cut_copper_slab"@.len());
    assert("cut_copper"@.len() != "exposed_cut_copper_stairs"@.len());
    assert("cut_copper"@.len() != "exposed_cut_copper_slab"@.len());
    assert("cut_copper"@.len() != "weathered_cut_copper_stairs"@.len());
    assert("cut_copper"@.len() != "weathered_cut_copper_slab"@.len());
    assert("cut_copper"@.len() != "oxidized_cut_copper_stairs"@.len());
    assert("cut_copper"@.len() != "oxidized_cut_copper_slab"@.len());
    assert("cut_copper"@.len() != "waxed_cut_copper_stairs"@.len());
    assert("cut_copper"@.len() != "waxed_cut_copper_slab"@.len());
    assert("cut_copper"@.len() != "waxed_exposed_cut_copper_stairs"@.len());
    assert("cut_copper"@.len() != "waxed_exposed_cut_copper_slab"@.len());
    assert("cut_copper"@.len() != "waxed_weathered_cut_copper_stairs"@.len());
    assert("cut_copper"@.len() != "waxed_weathered_cut_copper_slab"@.len());
    assert("cut_copper"@.len() != "waxed_oxidized_cut_copper_stairs"@.len());
    assert("cut_copper"@.len() != "waxed_oxidized_cut_copper_slab"@.len());
    assert("cut_copper"@[0] != "orange_bed"@[0]);
    assert("cut_copper"@[0] != "yellow_bed"@[0]);
    assert("cut_copper"@[0] != "purple_bed"@[0]);
    assert("cut_copper"@[0] != "birch_wood"@[0]);
    assert("cut_copper"@[0] != "glass_pane"@[0]);
    assert("dark_oak_log"@[0] != "birch_stairs"@[0]);
    assert("dark_oak_log"@[0] != "crimson_slab"@[0]);
    assert("dark_oak_log"@[0] != "stone_stairs"@[0]);
    assert("dark_oak_log"@[0] != "granite_slab"@[0]);
    assert("dark_oak_log"@[1] != "diorite_slab"@[1]);
    assert("dark_oak_log"@[0] != "brick_stairs"@[0]);
    assert("dark_oak_log"@[0] != "spruce_fence"@[0]);
    assert("dark_oak_log"@[0] != "jungle_fence"@[0]);
    assert("dark_oak_log"@[0] != "acacia_fence"@[0]);
    assert("dark_oak_log"@[0] != "cherry_fence"@[0]);
    assert("dark_oak_log"@[0] != "bamboo_fence"@[0]);
    assert("dark_oak_log"@[0] != "warped_fence"@[0]);
    assert("dark_oak_log"@[0] != "copper_chest"@[0]);
    assert("dark_oak_log"@[0] != "tinted_glass"@[0]);
    assert("dark_oak_planks"@[9] != "dark_oak_stairs"@[9]);
    assert("dark_oak_planks"@[0] != "mangrove_stairs"@[0]);
    assert("dark_oak_planks"@[0] != "andesite_stairs"@[0]);
    assert("dark_oak_planks"@[0] != "blackstone_slab"@[0]);
    assert("dark_oak_planks"@[0] != "prismarine_slab"@[0]);
    assert("dark_oak_planks"@[0] != "cut_copper_slab"@[0]);
    assert("dark_prismarine"@[5] != "dark_oak_stairs"@[5]);
    assert("dark_prismarine"@[0] != "mangrove_stairs"@[0]);
    assert("dark_prismarine"@[0] != "andesite_stairs"@[0]);
    assert("dark_prismarine"@[0] != "blackstone_slab"@[0]);
    assert("dark_prismarine"@[0] != "prismarine_slab"@[0]);
    assert("dark_prismarine"@.len() != "dark_prismarine_stairs"@.len());
    assert("dark_prismarine"@.len() != "dark_prismarine_slab"@.len());
    assert("dark_prismarine"@[0] != "cut_copper_slab"@[0]);
    assert("deepslate_bricks"@[0] != "cobblestone_slab"@[0]);
    assert("deepslate_bricks"@[0] != "stone_brick_slab"@[0]);
    assert("deepslate_bricks"@[0] != "mud_brick_stairs"@[0]);
    assert("deepslate_bricks"@[0] != "sandstone_stairs"@[0]);
    assert("deepslate_tiles"@[1] != "dark_oak_stairs"@[1]);
    assert("deepslate_tiles"@[0] != "mangrove_stairs"@[0]);
    assert("deepslate_tiles"@[0] != "andesite_stairs"@[0]);
    assert("deepslate_tiles"@[0] != "blackstone_slab"@[0]);
    assert("deepslate_tiles"@[0] != "prismarine_slab"@[0]);
    assert("deepslate_tiles"@[0] != "cut_copper_slab"@[0]);
}

/// Each of these textures is drawn with itself.
proof fn lemma_alias_fixed_1()
    ensures
        texture_alias("diorite"@) == "diorite"@,
        texture_alias("end_stone_bricks"@) == "end_stone_bricks"@,
        texture_alias("exposed_cut_copper"@) == "exposed_cut_copper"@,
        texture_alias("glass"@) == "glass"@,
        texture_alias("granite"@) == "granite"@,
        texture_alias("jungle_log"@) == "jungle_log"@,
        texture_alias("jungle_planks"@) == "jungle_planks"@,
        texture_alias("mangrove_log"@) == "mangrove_log"@,
        texture_alias("mangrove_planks"@) == "mangrove_planks"@,
        texture_alias("mossy_cobblestone"@) == "mossy_cobblestone"@,
        texture_alias("mossy_stone_bricks"@) == "mossy_stone_bricks"@,
        texture_alias("mud_bricks"@) == "mud_bricks"@,
        texture_alias("nether_bricks"@) == "nether_bricks"@,
        texture_alias("oak_log"@) == "oak_log"@,
        texture_alias("oak_planks"@) == "oak_planks"@,
        texture_alias("oxidized_cut_copper"@) == "oxidized_cut_copper"@,
        texture_alias("polished_andesite"@) == "polished_andesite"@,
        texture_alias("polished_blackstone"@) == "polished_blackstone"@,
        texture_alias("polished_blackstone_bricks"@) == "polished_blackstone_bricks"@,
        texture_alias("polished_deepslate"@) == "polished_deepslate"@,
        texture_alias("polished_diorite"@) == "polished_diorite"@,
        texture_alias("polished_granite"@) == "polished_granite"@,
{
    reveal_strlit("acacia_fence");
    reveal_strlit("acacia_log");
    reveal_strlit("acacia_planks");
    reveal_strlit("acacia_slab");
    reveal_strlit("acacia_stairs");
    reveal_strlit("acacia_wood");
    reveal_strlit("andesite");
    reveal_strlit("andesite_slab");
    reveal_strlit("andesite_stairs");
    reveal_strlit("bamboo_fence");
    reveal_strlit("bamboo_mosaic");
    reveal_strlit("bamboo_mosaic_slab");
    reveal_strlit("bamboo_mosaic_stairs");
    reveal_strlit("bamboo_planks");
    reveal_strlit("bamboo_slab");
    reveal_strlit("bamboo_stairs");
    reveal_strlit("birch_fence");
    reveal_strlit("birch_log");
    reveal_strlit("birch_planks");
    reveal_strlit("birch_slab");
    reveal_strlit("birch_stairs");
    reveal_strlit("birch_wood");
    reveal_strlit("black_bed");
    reveal_strlit("black_stained_glass");
    reveal_strlit("black_stained_glass_pane");
    reveal_strlit("blackstone");
    reveal_strlit("blackstone_slab");
    reveal_strlit("blackstone_stairs");
    reveal_strlit("blue_bed");
    reveal_strlit("blue_stained_glass");
    reveal_strlit("blue_stained_glass_pane");
    reveal_strlit("brick_slab");
    reveal_strlit("brick_stairs");
    reveal_strlit("bricks");
    reveal_strlit("brown_bed");
    reveal_strlit("brown_stained_glass");
    reveal_strlit("brown_stained_glass_pane");
    reveal_strlit("cherry_fence");
    reveal_strlit("cherry_log");
    reveal_strlit("cherry_planks");
    reveal_strlit("cherry_slab");
    reveal_strlit("cherry_stairs");
    reveal_strlit("cherry_wood");
    reveal_strlit("chest");
    reveal_strlit("cobbled_deepslate");
    reveal_strlit("cobbled_deepslate_slab");
    reveal_strlit("cobbled_deepslate_stairs");
    reveal_strlit("cobblestone");
    reveal_strlit("cobblestone_slab");
    reveal_strlit("cobblestone_stairs");
    reveal_strlit("copper_chest");
    reveal_strlit("crimson_fence");
    reveal_strlit("crimson_hyphae");
    reveal_strlit("crimson_planks");
    reveal_strlit("crimson_slab");
    reveal_strlit("crimson_stairs");
    reveal_strlit("crimson_stem");
    reveal_strlit("cut_copper");
    reveal_strlit("cut_copper_slab");
    reveal_strlit("cut_copper_stairs");
    reveal_strlit("cyan_bed");
    reveal_strlit("cyan_stained_glass");
    reveal_strlit("cyan_stained_glass_pane");
    reveal_strlit("dark_oak_fence");
    reveal_strlit("dark_oak_log");
    reveal_strlit("dark_oak_planks");
    reveal_strlit("dark_oak_slab");
    reveal_strlit("dark_oak_stairs");
    reveal_strlit("dark_oak_wood");
    reveal_strlit("dark_prismarine");
    reveal_strlit("dark_prismarine_slab");
    reveal_strlit("dark_prismarine_stairs");
    reveal_strlit("deepslate_brick_slab");
    reveal_strlit("deepslate_brick_stairs");
    reveal_strlit("deepslate_bricks");
    reveal_strlit("deepslate_tile_slab");
    reveal_strlit("deepslate_tile_stairs");
    reveal_strlit("deepslate_tiles");
    reveal_strlit("diorite");
    reveal_strlit("diorite_slab");
    reveal_strlit("diorite_stairs");
    reveal_strlit("end_stone_brick_slab");
    reveal_strlit("end_stone_brick_stairs");
    reveal_strlit("end_stone_bricks");
    reveal_strlit("ender_chest");
    reveal_strlit("exposed_copper_chest");
    reveal_strlit("exposed_cut_copper");
    reveal_strlit("exposed_cut_copper_slab");
    reveal_strlit("exposed_cut_copper_stairs");
    reveal_strlit("glass");
    reveal_strlit("glass_pane");
    reveal_strlit("granite");
    reveal_strlit("granite_slab");
    reveal_strlit("granite_stairs");
    reveal_strlit("gray_bed");
    reveal_strlit("gray_stained_glass");
    reveal_strlit("gray_stained_glass_pane");
    reveal_strlit("green_bed");
    reveal_strlit("green_stained_glass");
    reveal_strlit("green_stained_glass_pane");
    reveal_strlit("jungle_fence");
    reveal_strlit("jungle_log");
    reveal_strlit("jungle_planks");
    reveal_strlit("jungle_slab");
    reveal_strlit("jungle_stairs");
    reveal_strlit("jungle_wood");
    reveal_strlit("light_blue_bed");
    reveal_strlit("light_blue_stained_glass");
    reveal_strlit("light_blue_stained_glass_pane");
    reveal_strlit("light_gray_bed");
    reveal_strlit("light_gray_stained_glass");
    reveal_strlit("light_gray_stained_glass_pane");
    reveal_strlit("lime_bed");
    reveal_strlit("lime_stained_glass");
    reveal_strlit("lime_stained_glass_pane");
    reveal_strlit("magenta_bed");
    reveal_strlit("magenta_stained_glass");
    reveal_strlit("magenta_stained_glass_pane");
    reveal_strlit("mangrove_fence");
    reveal_strlit("mangrove_log");
    reveal_strlit("mangrove_planks");
    reveal_strlit("mangrove_slab");
    reveal_strlit("mangrove_stairs");
    reveal_strlit("mangrove_wood");
    reveal_strlit("mossy_cobblestone");
    reveal_strlit("mossy_cobblestone_slab");
    reveal_strlit("mossy_cobblestone_stairs");
    reveal_strlit("mossy_stone_brick_slab");
    reveal_strlit("mossy_stone_brick_stairs");
    reveal_strlit("mossy_stone_bricks");
    reveal_strlit("mud_brick_slab");
    reveal_strlit("mud_brick_stairs");
    reveal_strlit("mud_bricks");
    reveal_strlit("nether_brick_slab");
    reveal_strlit("nether_brick_stairs");
    reveal_strlit("nether_bricks");
    reveal_strlit("oak_fence");
    reveal_strlit("oak_log");
    reveal_strlit("oak_planks");
    reveal_strlit("oak_slab");
    reveal_strlit("oak_stairs");
    reveal_strlit("oak_wood");
    reveal_strlit("orange_bed");
    reveal_strlit("orange_stained_glass");
    reveal_strlit("orange_stained_glass_pane");
    reveal_strlit("oxidized_copper_chest");
    reveal_strlit("oxidized_cut_copper");
    reveal_strlit("oxidized_cut_copper_slab");
    reveal_strlit("oxidized_cut_copper_stairs");
    reveal_strlit("pink_bed");
    reveal_strlit("pink_stained_glass");
    reveal_strlit("pink_stained_glass_pane");
    reveal_strlit("polished_andesite");
    reveal_strlit("polished_andesite_slab");
    reveal_strlit("polished_andesite_stairs");
    reveal_strlit("polished_blackstone");
    reveal_strlit("polished_blackstone_brick_slab");
    reveal_strlit("polished_blackstone_brick_stairs");
    reveal_strlit("polished_blackstone_bricks");
    reveal_strlit("polished_blackstone_slab");
    reveal_strlit("polished_blackstone_stairs");
    reveal_strlit("polished_deepslate");
    reveal_strlit("polished_deepslate_slab");
    reveal_strlit("polished_deepslate_stairs");
    reveal_strlit("polished_diorite");
    reveal_strlit("polished_diorite_slab");
    reveal_strlit("polished_diorite_stairs");
    reveal_strlit("polished_granite");
    reveal_strlit("polished_granite_slab");
    reveal_strlit("polished_granite_stairs");
    reveal_strlit("prismarine");
    reveal_strlit("prismarine_brick_slab");
    reveal_strlit("prismarine_brick_stairs");
    reveal_strlit("prismarine_bricks");
    reveal_strlit("prismarine_slab");
    reveal_strlit("prismarine_stairs");
    reveal_strlit("purple_bed");
    reveal_strlit("purple_stained_glass");
    reveal_strlit("purple_stained_glass_pane");
    reveal_strlit("purpur_block");
    reveal_strlit("purpur_slab");
    reveal_strlit("purpur_stairs");
    reveal_strlit("quartz_block");
    reveal_strlit("quartz_slab");
    reveal_strlit("quartz_stairs");
    reveal_strlit("red_bed");
    reveal_strlit("red_nether_brick_slab");
    reveal_strlit("red_nether_brick_stairs");
    reveal_strlit("red_nether_bricks");
    reveal_strlit("red_sandstone");
    reveal_strlit("red_sandstone_slab");
    reveal_strlit("red_sandstone_stairs");
    reveal_strlit("red_stained_glass");
    reveal_strlit("red_stained_glass_pane");
    reveal_strlit("sandstone");
    reveal_strlit("sandstone_slab");
    reveal_strlit("sandstone_stairs");
    reveal_strlit("smooth_quartz");
    reveal_strlit("smooth_quartz_slab");
    reveal_strlit("smooth_quartz_stairs");
    reveal_strlit("smooth_red_sandstone");
    reveal_strlit("smooth_red_sandstone_slab");
    reveal_strlit("smooth_red_sandstone_stairs");
    reveal_strlit("smooth_sandstone");
    reveal_strlit("smooth_sandstone_slab");
    reveal_strlit("smooth_sandstone_stairs");
    reveal_strlit("spruce_fence");
    reveal_strlit("spruce_log");
    reveal_strlit("spruce_planks");
    reveal_strlit("spruce_slab");
    reveal_strlit("spruce_stairs");
    reveal_strlit("spruce_wood");
    reveal_strlit("stone");
    reveal_strlit("stone_brick_slab");
    reveal_strlit("stone_brick_stairs");
    reveal_strlit("stone_bricks");
    reveal_strlit("stone_slab");
    reveal_strlit("stone_stairs");
    reveal_strlit("stripped_acacia_wood");
    reveal_strlit("stripped_birch_wood");
    reveal_strlit("stripped_cherry_wood");
    reveal_strlit("stripped_crimson_hyphae");
    reveal_strlit("stripped_dark_oak_wood");
    reveal_strlit("stripped_jungle_wood");
    reveal_strlit("stripped_mangrove_wood");
    reveal_strlit("stripped_oak_wood");
    reveal_strlit("stripped_spruce_wood");
    reveal_strlit("stripped_warped_hyphae");
    reveal_strlit("tinted_glass");
    reveal_strlit("trapped_chest");
    reveal_strlit("warped_fence");
    reveal_strlit("warped_hyphae");
    reveal_strlit("warped_planks");
    reveal_strlit("warped_slab");
    reveal_strlit("warped_stairs");
    reveal_strlit("warped_stem");
    reveal_strlit("waxed_copper_chest");
    reveal_strlit("waxed_cut_copper");
    reveal_strlit("waxed_cut_copper_slab");
    reveal_strlit("waxed_cut_copper_stairs");
    reveal_strlit("waxed_exposed_copper_chest");
    reveal_strlit("waxed_exposed_cut_copper");
    reveal_strlit("waxed_exposed_cut_copper_slab");
    reveal_strlit("waxed_exposed_cut_copper_stairs");
    reveal_strlit("waxed_oxidized_copper_chest");
    reveal_strlit("waxed_oxidized_cut_copper");
    reveal_strlit("waxed_oxidized_cut_copper_slab");
    reveal_strlit("waxed_oxidized_cut_copper_stairs");
    reveal_strlit("waxed_weathered_copper_chest");
    reveal_strlit("waxed_weathered_cut_copper");
    reveal_strlit("waxed_weathered_cut_copper_slab");
    reveal_strlit("waxed_weathered_cut_copper_stairs");
    reveal_strlit("weathered_copper_chest");
    reveal_strlit("weathered_cut_copper");
    reveal_strlit("weathered_cut_copper_slab");
    reveal_strlit("weathered_cut_copper_stairs");
    reveal_strlit("white_bed");
    reveal_strlit("white_stained_glass");
    reveal_strlit("white_stained_glass_pane");
    reveal_strlit("white_wool");
    reveal_strlit("yellow_bed");
    reveal_strlit("yellow_stained_glass");
    reveal_strlit("yellow_stained_glass_pane");
    assert("diorite"@.len() != "diorite_stairs"@.len());
    assert("diorite"@.len() != "diorite_slab"@.len());
    assert("diorite"@.len() != "polished_diorite_stairs"@.len());
    assert("diorite"@.len() != "polished_diorite_slab"@.len());
    assert("diorite"@[0] != "red_bed"@[0]);
    assert("end_stone_bricks"@[0] != "cobblestone_slab"@[0]);
    assert("end_stone_bricks"@[0] != "stone_brick_slab"@[0]);
    assert("end_stone_bricks"@[0] != "mud_brick_stairs"@[0]);
    assert("end_stone_bricks"@[0] != "sandstone_stairs"@[0]);
    assert("exposed_cut_copper"@[0] != "bamboo_mosaic_slab"@[0]);
    assert("exposed_cut_copper"@[0] != "cobblestone_stairs"@[0]);
    assert("exposed_cut_copper"@[0] != "stone_brick_stairs"@[0]);
    assert("exposed_cut_copper"@[0] != "red_sandstone_slab"@[0]);
    assert("exposed_cut_copper"@[0] != "smooth_quartz_slab"@[0]);
    assert("exposed_cut_copper"@.len() != "exposed_cut_copper_stairs"@.len());
    assert("exposed_cut_copper"@.len() != "exposed_cut_copper_slab"@.len());
    assert("exposed_cut_copper"@.len() != "waxed_exposed_cut_copper_stairs"@.len());
    assert("exposed_cut_copper"@.len() != "waxed_exposed_cut_copper_slab"@.len());
    assert("exposed_cut_copper"@[0] != "waxed_copper_chest"@[0]);
    assert("exposed_cut_copper"@[0] != "gray_stained_glass"@[0]);
    assert("exposed_cut_copper"@[0] != "lime_stained_glass"@[0]);
    assert("exposed_cut_copper"@[0] != "cyan_stained_glass"@[0]);
    assert("exposed_cut_copper"@[0] != "blue_stained_glass"@[0]);
    assert("exposed_cut_copper"@[0] != "pink_stained_glass"@[0]);
    assert("glass"@[0] != "chest"@[0]);
    assert("glass"@.len() != "glass_pane"@.len());
    assert("glass"@.len() != "tinted_glass"@.len());
    assert("glass"@.len() != "white_stained_glass_pane"@.len());
    assert("glass"@.len() != "white_stained_glass"@.len());
    assert("glass"@.len() != "light_gray_stained_glass_pane"@.len());
    assert("glass"@.len() != "light_gray_stained_glass"@.len());
    assert("glass"@.len() != "gray_stained_glass_pane"@.len());
    assert("glass"@.len() != "gray_stained_glass"@.len());
    assert("glass"@.len() != "black_stained_glass_pane"@.len());
    assert("glass"@.len() != "black_stained_glass"@.len());
    assert("glass"@.len() != "brown_stained_glass_pane"@.len());
    assert("glass"@.len() != "brown_stained_glass"@.len());
    assert("glass"@.len() != "red_stained_glass_pane"@.len());
    assert("glass"@.len() != "red_stained_glass"@.len());
    assert("glass"@.len() != "orange_stained_glass_pane"@.len());
    assert("glass"@.len() != "orange_stained_glass"@.len());
    assert("glass"@.len() != "yellow_stained_glass_pane"@.len());
    assert("glass"@.len() != "yellow_stained_glass"@.len());
    assert("glass"@.len() != "lime_stained_glass_pane"@.len());
    assert("glass"@.len() != "lime_stained_glass"@.len());
    assert("glass"@.len() != "green_stained_glass_pane"@.len());
    assert("glass"@.len() != "green_stained_glass"@.len());
    assert("glass"@.len() != "cyan_stained_glass_pane"@.len());
    assert("glass"@.len() != "cyan_stained_glass"@.len());
    assert("glass"@.len() != "light_blue_stained_glass_pane"@.len());
    assert("glass"@.len() != "light_blue_stained_glass"@.len());
    assert("glass"@.len() != "blue_stained_glass_pane"@.len());
    assert("glass"@.len() != "blue_stained_glass"@.len());
    assert("glass"@.len() != "purple_stained_glass_pane"@.len());
    assert("glass"@.len() != "purple_stained_glass"@.len());
    assert("glass"@.len() != "magenta_stained_glass_pane"@.len());
    assert("glass"@.len() != "magenta_stained_glass"@.len());
    assert("glass"@.len() != "pink_stained_glass_pane"@.len());
    assert("glass"@.len() != "pink_stained_glass"@.len());
    assert("granite"@.len() != "granite_stairs"@.len());
    assert("granite"@.len() != "granite_slab"@.len());
    assert("granite"@.len() != "polished_granite_stairs"@.len());
    assert("granite"@.len() != "polished_granite_slab"@.len());
    assert("granite"@[0] != "red_bed"@[0]);
    assert("jungle_log"@[0] != "oak_stairs"@[0]);
    assert("jungle_log"@[0] != "birch_slab"@[0]);
    assert("jungle_log"@[0] != "stone_slab"@[0]);
    assert("jungle_log"@[0] != "brick_slab"@[0]);
    assert("jungle_log"@[0] != "orange_bed"@[0]);
    assert("jungle_log"@[0] != "yellow_bed"@[0]);
    assert("jungle_log"@[0] != "purple_bed"@[0]);
    assert("jungle_log"@[0] != "birch_wood"@[0]);
    assert("jungle_log"@[0] != "glass_pane"@[0]);
    assert("jungle_planks"@[0] != "spruce_stairs"@[0]);
    assert("jungle_planks"@[7] != "jungle_stairs"@[7]);
    assert("jungle_planks"@[0] != "acacia_stairs"@[0]);
    assert("jungle_planks"@[0] != "dark_oak_slab"@[0]);
    assert("jungle_planks"@[0] != "mangrove_slab"@[0]);
    assert("jungle_planks"@[0] != "cherry_stairs"@[0]);
    assert("jungle_planks"@[0] != "bamboo_stairs"@[0]);
    assert("jungle_planks"@[0] != "warped_stairs"@[0]);
    assert("jungle_planks"@[0] != "andesite_slab"@[0]);
    assert("jungle_planks"@[0] != "quartz_stairs"@[0]);
    assert("jungle_planks"@[0] != "purpur_stairs"@[0]);
    assert("jungle_planks"@[0] != "crimson_fence"@[0]);
    assert("jungle_planks"@[0] != "trapped_chest"@[0]);
    assert("jungle_planks"@[0] != "dark_oak_wood"@[0]);
    assert("jungle_planks"@[0] != "mangrove_wood"@[0]);
    assert("jungle_planks"@[0] != "warped_hyphae"@[0]);
    assert("mangrove_log"@[0] != "birch_stairs"@[0]);
    assert("mangrove_log"@[0] != "crimson_slab"@[0]);
    assert("mangrove_log"@[0] != "stone_stairs"@[0]);
    assert("mangrove_log"@[0] != "granite_slab"@[0]);
    assert("mangrove_log"@[0] != "diorite_slab"@[0]);
    assert("mangrove_log"@[0] != "brick_stairs"@[0]);
    assert("mangrove_log"@[0] != "spruce_fence"@[0]);
    assert("mangrove_log"@[0] != "jungle_fence"@[0]);
    assert("mangrove_log"@[0] != "acacia_fence"@[0]);
    assert("mangrove_log"@[0] != "cherry_fence"@[0]);
    assert("mangrove_log"@[0] != "bamboo_fence"@[0]);
    assert("mangrove_log"@[0] != "warped_fence"@[0]);
    assert("mangrove_log"@[0] != "copper_chest"@[0]);
    assert("mangrove_log"@[0] != "tinted_glass"@[0]);
    assert("mangrove_planks"@[0] != "dark_oak_stairs"@[0]);
    assert("mangrove_planks"@[9] != "mangrove_stairs"@[9]);
    assert("mangrove_planks"@[0] != "andesite_stairs"@[0]);
    assert("mangrove_planks"@[0] != "blackstone_slab"@[0]);
    assert("mangrove_planks"@[0] != "prismarine_slab"@[0]);
    assert("mangrove_planks"@[0] != "cut_copper_slab"@[0]);
    assert("mossy_cobblestone"@.len() != "mossy_cobblestone_stairs"@.len());
    assert("mossy_cobblestone"@.len() != "mossy_cobblestone_slab"@.len());
    assert("mossy_cobblestone"@[0] != "blackstone_stairs"@[0]);
    assert("mossy_cobblestone"@[0] != "nether_brick_slab"@[0]);
    assert("mossy_cobblestone"@[0] != "prismarine_stairs"@[0]);
    assert("mossy_cobblestone"@[0] != "cut_copper_stairs"@[0]);
    assert("mossy_cobblestone"@[0] != "stripped_oak_wood"@[0]);
    assert("mossy_cobblestone"@[0] != "red_stained_glass"@[0]);
    assert("mossy_stone_bricks"@[0] != "bamboo_mosaic_slab"@[0]);
    assert("mossy_stone_bricks"@[0] != "cobblestone_stairs"@[0]);
    assert("mossy_stone_bricks"@[0] != "stone_brick_stairs"@[0]);
    assert("mossy_stone_bricks"@[0] != "red_sandstone_slab"@[0]);
    assert("mossy_stone_bricks"@[0] != "smooth_quartz_slab"@[0]);
    assert("mossy_stone_bricks"@[0] != "waxed_copper_chest"@[0]);
    assert("mossy_stone_bricks"@[0] != "gray_stained_glass"@[0]);
    assert("mossy_stone_bricks"@[0] != "lime_stained_glass"@[0]);
    assert("mossy_stone_bricks"@[0] != "cyan_stained_glass"@[0]);
    assert("mossy_stone_bricks"@[0] != "blue_stained_glass"@[0]);
    assert("mossy_stone_bricks"@[0] != "pink_stained_glass"@[0]);
    assert("mud_bricks"@[0] != "oak_stairs"@[0]);
    assert("mud_bricks"@[0] != "birch_slab"@[0]);
    assert("mud_bricks"@[0] != "stone_slab"@[0]);
    assert("mud_bricks"@[0] != "brick_slab"@[0]);
    assert("mud_bricks"@[0] != "orange_bed"@[0]);
    assert("mud_bricks"@[0] != "yellow_bed"@[0]);
    assert("mud_bricks"@[0] != "purple_bed"@[0]);
    assert("mud_bricks"@[0] != "birch_wood"@[0]);
    assert("mud_bricks"@[0] != "glass_pane"@[0]);
    assert("nether_bricks"@[0] != "spruce_stairs"@[0]);
    assert("nether_bricks"@[0] != "jungle_stairs"@[0]);
    assert("nether_bricks"@[0] != "acacia_stairs"@[0]);
    assert("nether_bricks"@[0] != "dark_oak_slab"@[0]);
    assert("nether_bricks"@[0] != "mangrove_slab"@[0]);
    assert("nether_bricks"@[0] != "cherry_stairs"@[0]);
    assert("nether_bricks"@[0] != "bamboo_stairs"@[0]);
    assert("nether_bricks"@[0] != "warped_stairs"@[0]);
    assert("nether_bricks"@[0] != "andesite_slab"@[0]);
    assert("nether_bricks"@[0] != "quartz_stairs"@[0]);
    assert("nether_bricks"@[0] != "purpur_stairs"@[0]);
    assert("nether_bricks"@[0] != "crimson_fence"@[0]);
    assert("nether_bricks"@[0] != "trapped_chest"@[0]);
    assert("nether_bricks"@[0] != "dark_oak_wood"@[0]);
    assert("nether_bricks"@[0] != "mangrove_wood"@[0]);
    assert("nether_bricks"@[0] != "warped_hyphae"@[0]);
    assert("oak_log"@[0] != "red_bed"@[0]);
    assert("oak_planks"@[4] != "oak_stairs"@[4]);
    assert("oak_planks"@[0] != "birch_slab"@[0]);
    assert("oak_planks"@[0] != "stone_slab"@[0]);
    assert("oak_planks"@[0] != "brick_slab"@[0]);
    assert("oak_planks"@[1] != "orange_bed"@[1]);
    assert("oak_planks"@[0] != "yellow_bed"@[0]);
    assert("oak_planks"@[0] != "purple_bed"@[0]);
    assert("oak_planks"@[0] != "birch_wood"@[0]);
    assert("oak_planks"@[0] != "glass_pane"@[0]);
    assert("oxidized_cut_copper"@[0] != "nether_brick_stairs"@[0]);
    assert("oxidized_cut_copper"@[0] != "deepslate_tile_slab"@[0]);
    assert("oxidized_cut_copper"@.len() != "oxidized_cut_copper_stairs"@.len());
    assert("oxidized_cut_copper"@.len() != "oxidized_cut_copper_slab"@.len());
    assert("oxidized_cut_copper"@.len() != "waxed_oxidized_cut_copper_stairs"@.len());
    assert("oxidized_cut_copper"@.len() != "waxed_oxidized_cut_copper_slab"@.len());
    assert("oxidized_cut_copper"@[0] != "stripped_birch_wood"@[0]);
    assert("oxidized_cut_copper"@[0] != "white_stained_glass"@[0]);
    assert("oxidized_cut_copper"@[0] != "black_stained_glass"@[0]);
    assert("oxidized_cut_copper"@[0] != "brown_stained_glass"@[0]);
    assert("oxidized_cut_copper"@[0] != "green_stained_glass"@[0]);
    assert("polished_andesite"@.len() != "polished_andesite_stairs"@.len());
    assert("polished_andesite"@.len() != "polished_andesite_slab"@.len());
    assert("polished_andesite"@[0] != "blackstone_stairs"@[0]);
    assert("polished_andesite"@[0] != "nether_brick_slab"@[0]);
    assert("polished_andesite"@[1] != "prismarine_stairs"@[1]);
    assert("polished_andesite"@[0] != "cut_copper_stairs"@[0]);
    assert("polished_andesite"@[0] != "stripped_oak_wood"@[0]);
    assert("polished_andesite"@[0] != "red_stained_glass"@[0]);
    assert("polished_blackstone"@.len() != "polished_blackstone_stairs"@.len());
    assert("polished_blackstone"@.len() != "polished_blackstone_slab"@.len());
    assert("polished_blackstone"@.len() != "polished_blackstone_brick_stairs"@.len());
    assert("polished_blackstone"@.len() != "polished_blackstone_brick_slab"@.len());
    assert("polished_blackstone"@[0] != "nether_brick_stairs"@[0]);
    assert("polished_blackstone"@[0] != "deepslate_tile_slab"@[0]);
    assert("polished_blackstone"@[0] != "stripped_birch_wood"@[0]);
    assert("polished_blackstone"@[0] != "white_stained_glass"@[0]);
    assert("polished_blackstone"@[0] != "black_stained_glass"@[0]);
    assert("polished_blackstone"@[0] != "brown_stained_glass"@[0]);
    assert("polished_blackstone"@[0] != "green_stained_glass"@[0]);
    assert("polished_blackstone_bricks"@[20] != "polished_blackstone_stairs"@[20]);
    assert("polished_blackstone_bricks"@[0] != "oxidized_cut_copper_stairs"@[0]);
    assert("polished_blackstone_bricks"@[0] != "waxed_exposed_copper_chest"@[0]);
    assert("polished_blackstone_bricks"@[0] != "magenta_stained_glass_pane"@[0]);
    assert("polished_deepslate"@[0] != "bamboo_mosaic_slab"@[0]);
    assert("polished_deepslate"@[0] != "cobblestone_stairs"@[0]);
    assert("polished_deepslate"@[0] != "stone_brick_stairs"@[0]);
    assert("polished_deepslate"@[0] != "red_sandstone_slab"@[0]);
    assert("polished_deepslate"@[0] != "smooth_quartz_slab"@[0]);
    assert("polished_deepslate"@.len() != "polished_deepslate_stairs"@.len());
    assert("polished_deepslate"@.len() != "polished_deepslate_slab"@.len());
    assert("polished_deepslate"@[0] != "waxed_copper_chest"@[0]);
    assert("polished_deepslate"@[0] != "gray_stained_glass"@[0]);
    assert("polished_deepslate"@[0] != "lime_stained_glass"@[0]);
    assert("polished_deepslate"@[0] != "cyan_stained_glass"@[0]);
    assert("polished_deepslate"@[0] != "blue_stained_glass"@[0]);
    assert("polished_deepslate"@[1] != "pink_stained_glass"@[1]);
    assert("polished_diorite"@[0] != "cobblestone_slab"@[0]);
    assert("polished_diorite"@[0] != "stone_brick_slab"@[0]);
    assert("polished_diorite"@.len() != "polished_diorite_stairs"@.len());
    assert("polished_diorite"@.len() != "polished_diorite_slab"@.len());
    assert("polished_diorite"@[0] != "mud_brick_stairs"@[0]);
    assert("polished_diorite"@[0] != "sandstone_stairs"@[0]);
    assert("polished_granite"@[0] != "cobblestone_slab"@[0]);
    assert("polished_granite"@[0] != "stone_brick_slab"@[0]);
    assert("polished_granite"@.len() != "polished_granite_stairs"@.len());
    assert("polished_granite"@.len() != "polished_granite_slab"@.len());
    assert("polished_granite"@[0] != "mud_brick_stairs"@[0]);
    assert("polished_granite"@[0] != "sandstone_stairs"@[0]);
}

/// Each of these textures is drawn with itself.
proof fn lemma_alias_fixed_2()
    ensures
        texture_alias("prismarine"@) == "prismarine"@,
        texture_alias("prismarine_bricks"@) == "prismarine_bricks"@,
        texture_alias("purpur_block"@) == "purpur_block"@,
        texture_alias("quartz_block"@) == "quartz_block"@,
        texture_alias("red_nether_bricks"@) == "red_nether_bricks"@,
        texture_alias("red_sandstone"@) == "red_sandstone"@,
        texture_alias("sandstone"@) == "sandstone"@,
        texture_alias("smooth_quartz"@) == "smooth_quartz"@,
        texture_alias("smooth_red_sandstone"@) == "smooth_red_sandstone"@,
        texture_alias("smooth_sandstone"@) == "smooth_sandstone"@,
        texture_alias("spruce_log"@) == "spruce_log"@,
        texture_alias("spruce_planks"@) == "spruce_planks"@,
        texture_alias("stone"@) == "stone"@,
        texture_alias("stone_bricks"@) == "stone_bricks"@,
        texture_alias("warped_planks"@) == "warped_planks"@,
        texture_alias("warped_stem"@) == "warped_stem"@,
        texture_alias("waxed_cut_copper"@) == "waxed_cut_copper"@,
        texture_alias("waxed_exposed_cut_copper"@) == "waxed_exposed_cut_copper"@,
        texture_alias("waxed_oxidized_cut_copper"@) == "waxed_oxidized_cut_copper"@,
        texture_alias("waxed_weathered_cut_copper"@) == "waxed_weathered_cut_copper"@,
        texture_alias("weathered_cut_copper"@) == "weathered_cut_copper"@,
        texture_alias("white_wool"@) == "white_wool"@,
{
    reveal_strlit("acacia_fence");
    reveal_strlit("acacia_log");
    reveal_strlit("acacia_planks");
    reveal_strlit("acacia_slab");
    reveal_strlit("acacia_stairs");
    reveal_strlit("acacia_wood");
    reveal_strlit("andesite");
    reveal_strlit("andesite_slab");
    reveal_strlit("andesite_stairs");
    reveal_strlit("bamboo_fence");
    reveal_strlit("bamboo_mosaic");
    reveal_strlit("bamboo_mosaic_slab");
    reveal_strlit("bamboo_mosaic_stairs");
    reveal_strlit("bamboo_planks");
    reveal_strlit("bamboo_slab");
    reveal_strlit("bamboo_stairs");
    reveal_strlit("birch_fence");
    reveal_strlit("birch_log");
    reveal_strlit("birch_planks");
    reveal_strlit("birch_slab");
    reveal_strlit("birch_stairs");
    reveal_strlit("birch_wood");
    reveal_strlit("black_bed");
    reveal_strlit("black_stained_glass");
    reveal_strlit("black_stained_glass_pane");
    reveal_strlit("blackstone");
    reveal_strlit("blackstone_slab");
    reveal_strlit("blackstone_stairs");
    reveal_strlit("blue_bed");
    reveal_strlit("blue_stained_glass");
    reveal_strlit("blue_stained_glass_pane");
    reveal_strlit("brick_slab");
    reveal_strlit("brick_stairs");
    reveal_strlit("bricks");
    reveal_strlit("brown_bed");
    reveal_strlit("brown_stained_glass");
    reveal_strlit("brown_stained_glass_pane");
    reveal_strlit("cherry_fence");
    reveal_strlit("cherry_log");
    reveal_strlit("cherry_planks");
    reveal_strlit("cherry_slab");
    reveal_strlit("cherry_stairs");
    reveal_strlit("cherry_wood");
    reveal_strlit("chest");
    reveal_strlit("cobbled_deepslate");
    reveal_strlit("cobbled_deepslate_slab");
    reveal_strlit("cobbled_deepslate_stairs");
    reveal_strlit("cobblestone");
    reveal_strlit("cobblestone_slab");
    reveal_strlit("cobblestone_stairs");
    reveal_strlit("copper_chest");
    reveal_strlit("crimson_fence");
    reveal_strlit("crimson_hyphae");
    reveal_strlit("crimson_planks");
    reveal_strlit("crimson_slab");
    reveal_strlit("crimson_stairs");
    reveal_strlit("crimson_stem");
    reveal_strlit("cut_copper");
    reveal_strlit("cut_copper_slab");
    reveal_strlit("cut_copper_stairs");
    reveal_strlit("cyan_bed");
    reveal_strlit("cyan_stained_glass");
    reveal_strlit("cyan_stained_glass_pane");
    reveal_strlit("dark_oak_fence");
    reveal_strlit("dark_oak_log");
    reveal_strlit("dark_oak_planks");
    reveal_strlit("dark_oak_slab");
    reveal_strlit("dark_oak_stairs");
    reveal_strlit("dark_oak_wood");
    reveal_strlit("dark_prismarine");
    reveal_strlit("dark_prismarine_slab");
    reveal_strlit("dark_prismarine_stairs");
    reveal_strlit("deepslate_brick_slab");
    reveal_strlit("deepslate_brick_stairs");
    reveal_strlit("deepslate_bricks");
    reveal_strlit("deepslate_tile_slab");
    reveal_strlit("deepslate_tile_stairs");
    reveal_strlit("deepslate_tiles");
    reveal_strlit("diorite");
    reveal_strlit("diorite_slab");
    reveal_strlit("diorite_stairs");
    reveal_strlit("end_stone_brick_slab");
    reveal_strlit("end_stone_brick_stairs");
    reveal_strlit("end_stone_bricks");
    reveal_strlit("ender_chest");
    reveal_strlit("exposed_copper_chest");
    reveal_strlit("exposed_cut_copper");
    reveal_strlit("exposed_cut_copper_slab");
    reveal_strlit("exposed_cut_copper_stairs");
    reveal_strlit("glass");
    reveal_strlit("glass_pane");
    reveal_strlit("granite");
    reveal_strlit("granite_slab");
    reveal_strlit("granite_stairs");
    reveal_strlit("gray_bed");
    reveal_strlit("gray_stained_glass");
    reveal_strlit("gray_stained_glass_pane");
    reveal_strlit("green_bed");
    reveal_strlit("green_stained_glass");
    reveal_strlit("green_stained_glass_pane");
    reveal_strlit("jungle_fence");
    reveal_strlit("jungle_log");
    reveal_strlit("jungle_planks");
    reveal_strlit("jungle_slab");
    reveal_strlit("jungle_stairs");
    reveal_strlit("jungle_wood");
    reveal_strlit("light_blue_bed");
    reveal_strlit("light_blue_stained_glass");
    reveal_strlit("light_blue_stained_glass_pane");
    reveal_strlit("light_gray_bed");
    reveal_strlit("light_gray_stained_glass");
    reveal_strlit("light_gray_stained_glass_pane");
    reveal_strlit("lime_bed");
    reveal_strlit("lime_stained_glass");
    reveal_strlit("lime_stained_glass_pane");
    reveal_strlit("magenta_bed");
    reveal_strlit("magenta_stained_glass");
    reveal_strlit("magenta_stained_glass_pane");
    reveal_strlit("mangrove_fence");
    reveal_strlit("mangrove_log");
    reveal_strlit("mangrove_planks");
    reveal_strlit("mangrove_slab");
    reveal_strlit("mangrove_stairs");
    reveal_strlit("mangrove_wood");
    reveal_strlit("mossy_cobblestone");
    reveal_strlit("mossy_cobblestone_slab");
    reveal_strlit("mossy_cobblestone_stairs");
    reveal_strlit("mossy_stone_brick_slab");
    reveal_strlit("mossy_stone_brick_stairs");
    reveal_strlit("mossy_stone_bricks");
    reveal_strlit("mud_brick_slab");
    reveal_strlit("mud_brick_stairs");
    reveal_strlit("mud_bricks");
    reveal_strlit("nether_brick_slab");
    reveal_strlit("nether_brick_stairs");
    reveal_strlit("nether_bricks");
    reveal_strlit("oak_fence");
    reveal_strlit("oak_log");
    reveal_strlit("oak_planks");
    reveal_strlit("oak_slab");
    reveal_strlit("oak_stairs");
    reveal_strlit("oak_wood");
    reveal_strlit("orange_bed");
    reveal_strlit("orange_stained_glass");
    reveal_strlit("orange_stained_glass_pane");
    reveal_strlit("oxidized_copper_chest");
    reveal_strlit("oxidized_cut_copper");
    reveal_strlit("oxidized_cut_copper_slab");
    reveal_strlit("oxidized_cut_copper_stairs");
    reveal_strlit("pink_bed");
    reveal_strlit("pink_stained_glass");
    reveal_strlit("pink_stained_glass_pane");
    reveal_strlit("polished_andesite");
    reveal_strlit("polished_andesite_slab");
    reveal_strlit("polished_andesite_stairs");
    reveal_strlit("polished_blackstone");
    reveal_strlit("polished_blackstone_brick_slab");
    reveal_strlit("polished_blackstone_brick_stairs");
    reveal_strlit("polished_blackstone_bricks");
    reveal_strlit("polished_blackstone_slab");
    reveal_strlit("polished_blackstone_stairs");
    reveal_strlit("polished_deepslate");
    reveal_strlit("polished_deepslate_slab");
    reveal_strlit("polished_deepslate_stairs");
    reveal_strlit("polished_diorite");
    reveal_strlit("polished_diorite_slab");
    reveal_strlit("polished_diorite_stairs");
    reveal_strlit("polished_granite");
    reveal_strlit("polished_granite_slab");
    reveal_strlit("polished_granite_stairs");
    reveal_strlit("prismarine");
    reveal_strlit("prismarine_brick_slab");
    reveal_strlit("prismarine_brick_stairs");
    reveal_strlit("prismarine_bricks");
    reveal_strlit("prismarine_slab");
    reveal_strlit("prismarine_stairs");
    reveal_strlit("purple_bed");
    reveal_strlit("purple_stained_glass");
    reveal_strlit("purple_stained_glass_pane");
    reveal_strlit("purpur_block");
    reveal_strlit("purpur_slab");
    reveal_strlit("purpur_stairs");
    reveal_strlit("quartz_block");
    reveal_strlit("quartz_slab");
    reveal_strlit("quartz_stairs");
    reveal_strlit("red_bed");
    reveal_strlit("red_nether_brick_slab");
    reveal_strlit("red_nether_brick_stairs");
    reveal_strlit("red_nether_bricks");
    reveal_strlit("red_sandstone");
    reveal_strlit("red_sandstone_slab");
    reveal_strlit("red_sandstone_stairs");
    reveal_strlit("red_stained_glass");
    reveal_strlit("red_stained_glass_pane");
    reveal_strlit("sandstone");
    reveal_strlit("sandstone_slab");
    reveal_strlit("sandstone_stairs");
    reveal_strlit("smooth_quartz");
    reveal_strlit("smooth_quartz_slab");
    reveal_strlit("smooth_quartz_stairs");
    reveal_strlit("smooth_red_sandstone");
    reveal_strlit("smooth_red_sandstone_slab");
    reveal_strlit("smooth_red_sandstone_stairs");
    reveal_strlit("smooth_sandstone");
    reveal_strlit("smooth_sandstone_slab");
    reveal_strlit("smooth_sandstone_stairs");
    reveal_strlit("spruce_fence");
    reveal_strlit("spruce_log");
    reveal_strlit("spruce_planks");
    reveal_strlit("spruce_slab");
    reveal_strlit("spruce_stairs");
    reveal_strlit("spruce_wood");
    reveal_strlit("stone");
    reveal_strlit("stone_brick_slab");
    reveal_strlit("stone_brick_stairs");
    reveal_strlit("stone_bricks");
    reveal_strlit("stone_slab");
    reveal_strlit("stone_stairs");
    reveal_strlit("stripped_acacia_wood");
    reveal_strlit("stripped_birch_wood");
    reveal_strlit("stripped_cherry_wood");
    reveal_strlit("stripped_crimson_hyphae");
    reveal_strlit("stripped_dark_oak_wood");
    reveal_strlit("stripped_jungle_wood");
    reveal_strlit("stripped_mangrove_wood");
    reveal_strlit("stripped_oak_wood");
    reveal_strlit("stripped_spruce_wood");
    reveal_strlit("stripped_warped_hyphae");
    reveal_strlit("tinted_glass");
    reveal_strlit("trapped_chest");
    reveal_strlit("warped_fence");
    reveal_strlit("warped_hyphae");
    reveal_strlit("warped_planks");
    reveal_strlit("warped_slab");
    reveal_strlit("warped_stairs");
    reveal_strlit("warped_stem");
    reveal_strlit("waxed_copper_chest");
    reveal_strlit("waxed_cut_copper");
    reveal_strlit("waxed_cut_copper_slab");
    reveal_strlit("waxed_cut_copper_stairs");
    reveal_strlit("waxed_exposed_copper_chest");
    reveal_strlit("waxed_exposed_cut_copper");
    reveal_strlit("waxed_exposed_cut_copper_slab");
    reveal_strlit("waxed_exposed_cut_copper_stairs");
    reveal_strlit("waxed_oxidized_copper_chest");
    reveal_strlit("waxed_oxidized_cut_copper");
    reveal_strlit("waxed_oxidized_cut_copper_slab");
    reveal_strlit("waxed_oxidized_cut_copper_stairs");
    reveal_strlit("waxed_weathered_copper_chest");
    reveal_strlit("waxed_weathered_cut_copper");
    reveal_strlit("waxed_weathered_cut_copper_slab");
    reveal_strlit("waxed_weathered_cut_copper_stairs");
    reveal_strlit("weathered_copper_chest");
    reveal_strlit("weathered_cut_copper");
    reveal_strlit("weathered_cut_copper_slab");
    reveal_strlit("weathered_cut_copper_stairs");
    reveal_strlit("white_bed");
    reveal_strlit("white_stained_glass");
    reveal_strlit("white_stained_glass_pane");
    reveal_strlit("white_wool");
    reveal_strlit("yellow_bed");
    reveal_strlit("yellow_stained_glass");
    reveal_strlit("yellow_stained_glass_pane");
    assert("prismarine"@[0] != "oak_stairs"@[0]);
    assert("prismarine"@[0] != "birch_slab"@[0]);
    assert("prismarine"@[0] != "stone_slab"@[0]);
    assert("prismarine"@[0] != "brick_slab"@[0]);
    assert("prismarine"@.len() != "prismarine_stairs"@.len());
    assert("prismarine"@.len() != "prismarine_slab"@.len());
    assert("prismarine"@.len() != "prismarine_brick_stairs"@.len());
    assert("prismarine"@.len() != "prismarine_brick_slab"@.len());
    assert("prismarine"@.len() != "dark_prismarine_stairs"@.len());
    assert("prismarine"@.len() != "dark_prismarine_slab"@.len());
    assert("prismarine"@[0] != "orange_bed"@[0]);
    assert("prismarine"@[0] != "yellow_bed"@[0]);
    assert("prismarine"@[1] != "purple_bed"@[1]);
    assert("prismarine"@[0] != "birch_wood"@[0]);
    assert("prismarine"@[0] != "glass_pane"@[0]);
    assert("prismarine_bricks"@[0] != "blackstone_stairs"@[0]);
    assert("prismarine_bricks"@[0] != "nether_brick_slab"@[0]);
    assert("prismarine_bricks"@[11] != "prismarine_stairs"@[11]);
    assert("prismarine_bricks"@[0] != "cut_copper_stairs"@[0]);
    assert("prismarine_bricks"@[0] != "stripped_oak_wood"@[0]);
    assert("prismarine_bricks"@[0] != "red_stained_glass"@[0]);
    assert("purpur_block"@[0] != "birch_stairs"@[0]);
    assert("purpur_block"@[0] != "crimson_slab"@[0]);
    assert("purpur_block"@[0] != "stone_stairs"@[0]);
    assert("purpur_block"@[0] != "granite_slab"@[0]);
    assert("purpur_block"@[0] != "diorite_slab"@[0]);
    assert("purpur_block"@[0] != "brick_stairs"@[0]);
    assert("purpur_block"@[0] != "spruce_fence"@[0]);
    assert("purpur_block"@[0] != "jungle_fence"@[0]);
    assert("purpur_block"@[0] != "acacia_fence"@[0]);
    assert("purpur_block"@[0] != "cherry_fence"@[0]);
    assert("purpur_block"@[0] != "bamboo_fence"@[0]);
    assert("purpur_block"@[0] != "warped_fence"@[0]);
    assert("purpur_block"@[0] != "copper_chest"@[0]);
    assert("purpur_block"@[0] != "tinted_glass"@[0]);
    assert("quartz_block"@[0] != "birch_stairs"@[0]);
    assert("quartz_block"@[0] != "crimson_slab"@[0]);
    assert("quartz_block"@[0] != "stone_stairs"@[0]);
    assert("quartz_block"@[0] != "granite_slab"@[0]);
    assert("quartz_block"@[0] != "diorite_slab"@[0]);
    assert("quartz_block"@[0] != "brick_stairs"@[0]);
    assert("quartz_block"@[0] != "spruce_fence"@[0]);
    assert("quartz_block"@[0] != "jungle_fence"@[0]);
    assert("quartz_block"@[0] != "acacia_fence"@[0]);
    assert("quartz_block"@[0] != "cherry_fence"@[0]);
    assert("quartz_block"@[0] != "bamboo_fence"@[0]);
    assert("quartz_block"@[0] != "warped_fence"@[0]);
    assert("quartz_block"@[0] != "copper_chest"@[0]);
    assert("quartz_block"@[0] != "tinted_glass"@[0]);
    assert("red_nether_bricks"@[0] != "blackstone_stairs"@[0]);
    assert("red_nether_bricks"@[0] != "nether_brick_slab"@[0]);
    assert("red_nether_bricks"@[0] != "prismarine_stairs"@[0]);
    assert("red_nether_bricks"@[0] != "cut_copper_stairs"@[0]);
    assert("red_nether_bricks"@[0] != "stripped_oak_wood"@[0]);
    assert("red_nether_bricks"@[4] != "red_stained_glass"@[4]);
    assert("red_sandstone"@[0] != "spruce_stairs"@[0]);
    assert("red_sandstone"@[0] != "jungle_stairs"@[0]);
    assert("red_sandstone"@[0] != "acacia_stairs"@[0]);
    assert("red_sandstone"@[0] != "dark_oak_slab"@[0]);
    assert("red_sandstone"@[0] != "mangrove_slab"@[0]);
    assert("red_sandstone"@[0] != "cherry_stairs"@[0]);
    assert("red_sandstone"@[0] != "bamboo_stairs"@[0]);
    assert("red_sandstone"@[0] != "warped_stairs"@[0]);
    assert("red_sandstone"@[0] != "andesite_slab"@[0]);
    assert("red_sandstone"@.len() != "red_sandstone_stairs"@.len());
    assert("red_sandstone"@.len() != "red_sandstone_slab"@.len());
    assert("red_sandstone"@.len() != "smooth_red_sandstone_stairs"@.len());
    assert("red_sandstone"@.len() != "smooth_red_sandstone_slab"@.len());
    assert("red_sandstone"@[0] != "quartz_stairs"@[0]);
    assert("red_sandstone"@[0] != "purpur_stairs"@[0]);
    assert("red_sandstone"@[0] != "crimson_fence"@[0]);
    assert("red_sandstone"@[0] != "trapped_chest"@[0]);
    assert("red_sandstone"@[0] != "dark_oak_wood"@[0]);
    assert("red_sandstone"@[0] != "mangrove_wood"@[0]);
    assert("red_sandstone"@[0] != "warped_hyphae"@[0]);
    assert("sandstone"@.len() != "sandstone_stairs"@.len());
    assert("sandstone"@.len() != "sandstone_slab"@.len());
    assert("sandstone"@.len() != "smooth_sandstone_stairs"@.len());
    assert("sandstone"@.len() != "smooth_sandstone_slab"@.len());
    assert("sandstone"@.len() != "red_sandstone_stairs"@.len());
    assert("sandstone"@.len() != "red_sandstone_slab"@.len());
    assert("sandstone"@.len() != "smooth_red_sandstone_stairs"@.len());
    assert("sandstone"@.len() != "smooth_red_sandstone_slab"@.len());
    assert("sandstone"@[0] != "oak_fence"@[0]);
    assert("sandstone"@[0] != "white_bed"@[0]);
    assert("sandstone"@[0] != "brown_bed"@[0]);
    assert("sandstone"@[0] != "green_bed"@[0]);
    assert("sandstone"@[0] != "black_bed"@[0]);
    assert("smooth_quartz"@[1] != "spruce_stairs"@[1]);
    assert("smooth_quartz"@[0] != "jungle_stairs"@[0]);
    assert("smooth_quartz"@[0] != "acacia_stairs"@[0]);
    assert("smooth_quartz"@[0] != "dark_oak_slab"@[0]);
    assert("smooth_quartz"@[0] != "mangrove_slab"@[0]);
    assert("smooth_quartz"@[0] != "cherry_stairs"@[0]);
    assert("smooth_quartz"@[0] != "bamboo_stairs"@[0]);
    assert("smooth_quartz"@[0] != "warped_stairs"@[0]);
    assert("smooth_quartz"@[0] != "andesite_slab"@[0]);
    assert("smooth_quartz"@[0] != "quartz_stairs"@[0]);
    assert("smooth_quartz"@.len() != "smooth_quartz_stairs"@.len());
    assert("smooth_quartz"@.len() != "smooth_quartz_slab"@.len());
    assert("smooth_quartz"@[0] != "purpur_stairs"@[0]);
    assert("smooth_quartz"@[0] != "crimson_fence"@[0]);
    assert("smooth_quartz"@[0] != "trapped_chest"@[0]);
    assert("smooth_quartz"@[0] != "dark_oak_wood"@[0]);
    assert("smooth_quartz"@[0] != "mangrove_wood"@[0]);
    assert("smooth_quartz"@[0] != "warped_hyphae"@[0]);
    assert("smooth_red_sandstone"@[0] != "bamboo_mosaic_stairs"@[0]);
    assert("smooth_red_sandstone"@[0] != "red_sandstone_stairs"@[0]);
    assert("smooth_red_sandstone"@.len() != "smooth_red_sandstone_stairs"@.len());
    assert("smooth_red_sandstone"@.len() != "smooth_red_sandstone_slab"@.len());
    assert("smooth_red_sandstone"@[7] != "smooth_quartz_stairs"@[7]);
    assert("smooth_red_sandstone"@[0] != "dark_prismarine_slab"@[0]);
    assert("smooth_red_sandstone"@[0] != "end_stone_brick_slab"@[0]);
    assert("smooth_red_sandstone"@[0] != "deepslate_brick_slab"@[0]);
    assert("smooth_red_sandstone"@[0] != "exposed_copper_chest"@[0]);
    assert("smooth_red_sandstone"@[1] != "stripped_spruce_wood"@[1]);
    assert("smooth_red_sandstone"@[1] != "stripped_jungle_wood"@[1]);
    assert("smooth_red_sandstone"@[1] != "stripped_acacia_wood"@[1]);
    assert("smooth_red_sandstone"@[1] != "stripped_cherry_wood"@[1]);
    assert("smooth_red_sandstone"@[0] != "orange_stained_glass"@[0]);
    assert("smooth_red_sandstone"@[0] != "yellow_stained_glass"@[0]);
    assert("smooth_red_sandstone"@[0] != "purple_stained_glass"@[0]);
    assert("smooth_sandstone"@[0] != "cobblestone_slab"@[0]);
    assert("smooth_sandstone"@[1] != "stone_brick_slab"@[1]);
    assert("smooth_sandstone"@[0] != "mud_brick_stairs"@[0]);
    assert("smooth_sandstone"@[1] != "sandstone_stairs"@[1]);
    assert("smooth_sandstone"@.len() != "smooth_sandstone_stairs"@.len());
    assert("smooth_sandstone"@.len() != "smooth_sandstone_slab"@.len());
    assert("spruce_log"@[0] != "oak_stairs"@[0]);
    assert("spruce_log"@[0] != "birch_slab"@[0]);
    assert("spruce_log"@[1] != "stone_slab"@[1]);
    assert("spruce_log"@[0] != "brick_slab"@[0]);
    assert("spruce_log"@[0] != "orange_bed"@[0]);
    assert("spruce_log"@[0] != "yellow_bed"@[0]);
    assert("spruce_log"@[0] != "purple_bed"@[0]);
    assert("spruce_log"@[0] != "birch_wood"@[0]);
    assert("spruce_log"@[0] != "glass_pane"@[0]);
    assert("spruce_planks"@[7] != "spruce_stairs"@[7]);
    assert("spruce_planks"@[0] != "jungle_stairs"@[0]);
    assert("spruce_planks"@[0] != "acacia_stairs"@[0]);
    assert("spruce_planks"@[0] != "dark_oak_slab"@[0]);
    assert("spruce_planks"@[0] != "mangrove_slab"@[0]);
    assert("spruce_planks"@[0] != "cherry_stairs"@[0]);
    assert("spruce_planks"@[0] != "bamboo_stairs"@[0]);
    assert("spruce_planks"@[0] != "warped_stairs"@[0]);
    assert("spruce_planks"@[0] != "andesite_slab"@[0]);
    assert("spruce_planks"@[0] != "quartz_stairs"@[0]);
    assert("spruce_planks"@[0] != "purpur_stairs"@[0]);
    assert("spruce_planks"@[0] != "crimson_fence"@[0]);
    assert("spruce_planks"@[0] != "trapped_chest"@[0]);
    assert("spruce_planks"@[0] != "dark_oak_wood"@[0]);
    assert("spruce_planks"@[0] != "mangrove_wood"@[0]);
    assert("spruce_planks"@[0] != "warped_hyphae"@[0]);
    assert("stone"@.len() != "stone_stairs"@.len());
    assert("stone"@.len() != "stone_slab"@.len());
    assert("stone"@.len() != "cobblestone_stairs"@.len());
    assert("stone"@.len() != "cobblestone_slab"@.len());
    assert("stone"@.len() != "mossy_cobblestone_stairs"@.len());
    assert("stone"@.len() != "mossy_cobblestone_slab"@.len());
    assert("stone"@.len() != "stone_brick_stairs"@.len());
    assert("stone"@.len() != "stone_brick_slab"@.len());
    assert("stone"@.len() != "mossy_stone_brick_stairs"@.len());
    assert("stone"@.len() != "mossy_stone_brick_slab"@.len());
    assert("stone"@.len() != "blackstone_stairs"@.len());
    assert("stone"@.len() != "blackstone_slab"@.len());
    assert("stone"@.len() != "polished_blackstone_stairs"@.len());
    assert("stone"@.len() != "polished_blackstone_slab"@.len());
    assert("stone"@.len() != "polished_blackstone_brick_stairs"@.len());
    assert("stone"@.len() != "polished_blackstone_brick_slab"@.len());
    assert("stone"@.len() != "sandstone_stairs"@.len());
    assert("stone"@.len() != "sandstone_slab"@.len());
    assert("stone"@.len() != "smooth_sandstone_stairs"@.len());
    assert("stone"@.len() != "smooth_sandstone_slab"@.len());
    assert("stone"@.len() != "red_sandstone_stairs"@.len());
    assert("stone"@.len() != "red_sandstone_slab"@.len());
    assert("stone"@.len() != "smooth_red_sandstone_stairs"@.len());
    assert("stone"@.len() != "smooth_red_sandstone_slab"@.len());
    assert("stone"@.len() != "end_stone_brick_stairs"@.len());
    assert("stone"@.len() != "end_stone_brick_slab"@.len());
    assert("stone"@[0] != "chest"@[0]);
    assert("stone_bricks"@[0] != "birch_stairs"@[0]);
    assert("stone_bricks"@[0] != "crimson_slab"@[0]);
    assert("stone_bricks"@[6] != "stone_stairs"@[6]);
    assert("stone_bricks"@[0] != "granite_slab"@[0]);
    assert("stone_bricks"@[0] != "diorite_slab"@[0]);
    assert("stone_bricks"@[0] != "brick_stairs"@[0]);
    assert("stone_bricks"@[1] != "spruce_fence"@[1]);
    assert("stone_bricks"@[0] != "jungle_fence"@[0]);
    assert("stone_bricks"@[0] != "acacia_fence"@[0]);
    assert("stone_bricks"@[0] != "cherry_fence"@[0]);
    assert("stone_bricks"@[0] != "bamboo_fence"@[0]);
    assert("stone_bricks"@[0] != "warped_fence"@[0]);
    assert("stone_bricks"@[0] != "copper_chest"@[0]);
    assert("stone_bricks"@[0] != "tinted_glass"@[0]);
    assert("warped_planks"@[0] != "spruce_stairs"@[0]);
    assert("warped_planks"@[0] != "jungle_stairs"@[0]);
    assert("warped_planks"@[0] != "acacia_stairs"@[0]);
    assert("warped_planks"@[0] != "dark_oak_slab"@[0]);
    assert("warped_planks"@[0] != "mangrove_slab"@[0]);
    assert("warped_planks"@[0] != "cherry_stairs"@[0]);
    assert("warped_planks"@[0] != "bamboo_stairs"@[0]);
    assert("warped_planks"@[7] != "warped_stairs"@[7]);
    assert("warped_planks"@[0] != "andesite_slab"@[0]);
    assert("warped_planks"@[0] != "quartz_stairs"@[0]);
    assert("warped_planks"@[0] != "purpur_stairs"@[0]);
    assert("warped_planks"@[0] != "crimson_fence"@[0]);
    assert("warped_planks"@[0] != "trapped_chest"@[0]);
    assert("warped_planks"@[0] != "dark_oak_wood"@[0]);
    assert("warped_planks"@[0] != "mangrove_wood"@[0]);
    assert("warped_planks"@[7] != "warped_hyphae"@[7]);
    assert("warped_stem"@[0] != "spruce_slab"@[0]);
    assert("warped_stem"@[0] != "jungle_slab"@[0]);
    assert("warped_stem"@[0] != "acacia_slab"@[0]);
    assert("warped_stem"@[0] != "cherry_slab"@[0]);
    assert("warped_stem"@[0] != "bamboo_slab"@[0]);
    assert("warped_stem"@[8] != "warped_slab"@[8]);
    assert("warped_stem"@[0] != "quartz_slab"@[0]);
    assert("warped_stem"@[0] != "purpur_slab"@[0]);
    assert("warped_stem"@[0] != "birch_fence"@[0]);
    assert("warped_stem"@[0] != "ender_chest"@[0]);
    assert("warped_stem"@[0] != "magenta_bed"@[0]);
    assert("warped_stem"@[0] != "spruce_wood"@[0]);
    assert("warped_stem"@[0] != "jungle_wood"@[0]);
    assert("warped_stem"@[0] != "acacia_wood"@[0]);
    assert("warped_stem"@[0] != "cherry_wood"@[0]);
    assert("waxed_cut_copper"@[0] != "cobblestone_slab"@[0]);
    assert("waxed_cut_copper"@[0] != "stone_brick_slab"@[0]);
    assert("waxed_cut_copper"@[0] != "mud_brick_stairs"@[0]);
    assert("waxed_cut_copper"@[0] != "sandstone_stairs"@[0]);
    assert("waxed_cut_copper"@.len() != "waxed_cut_copper_stairs"@.len());
    assert("waxed_cut_copper"@.len() != "waxed_cut_copper_slab"@.len());
    assert("waxed_exposed_cut_copper"@[0] != "mossy_cobblestone_stairs"@[0]);
    assert("waxed_exposed_cut_copper"@[0] != "mossy_stone_brick_stairs"@[0]);
    assert("waxed_exposed_cut_copper"@[0] != "polished_andesite_stairs"@[0]);
    assert("waxed_exposed_cut_copper"@[0] != "polished_blackstone_slab"@[0]);
    assert("waxed_exposed_cut_copper"@[0] != "cobbled_deepslate_stairs"@[0]);
    assert("waxed_exposed_cut_copper"@[0] != "oxidized_cut_copper_slab"@[0]);
    assert("waxed_exposed_cut_copper"@.len() != "waxed_exposed_cut_copper_stairs"@.len());
    assert("waxed_exposed_cut_copper"@.len() != "waxed_exposed_cut_copper_slab"@.len());
    assert("waxed_exposed_cut_copper"@[1] != "white_stained_glass_pane"@[1]);
    assert("waxed_exposed_cut_copper"@[0] != "light_gray_stained_glass"@[0]);
    assert("waxed_exposed_cut_copper"@[0] != "black_stained_glass_pane"@[0]);
    assert("waxed_exposed_cut_copper"@[0] != "brown_stained_glass_pane"@[0]);
    assert("waxed_exposed_cut_copper"@[0] != "green_stained_glass_pane"@[0]);
    assert("waxed_exposed_cut_copper"@[0] != "light_blue_stained_glass"@[0]);
    assert("waxed_oxidized_cut_copper"@[0] != "smooth_red_sandstone_slab"@[0]);
    assert("waxed_oxidized_cut_copper"@[0] != "polished_deepslate_stairs"@[0]);
    assert("waxed_oxidized_cut_copper"@[0] != "exposed_cut_copper_stairs"@[0]);
    assert("waxed_oxidized_cut_copper"@[1] != "weathered_cut_copper_slab"@[1]);
    assert("waxed_oxidized_cut_copper"@.len() != "waxed_oxidized_cut_copper_stairs"@.len());
    assert("waxed_oxidized_cut_copper"@.len() != "waxed_oxidized_cut_copper_slab"@.len());
    assert("waxed_oxidized_cut_copper"@[0] != "orange_stained_glass_pane"@[0]);
    assert("waxed_oxidized_cut_copper"@[0] != "yellow_stained_glass_pane"@[0]);
    assert("waxed_oxidized_cut_copper"@[0] != "purple_stained_glass_pane"@[0]);
    assert("waxed_weathered_cut_copper"@[0] != "polished_blackstone_stairs"@[0]);
    assert("waxed_weathered_cut_copper"@[0] != "oxidized_cut_copper_stairs"@[0]);
    assert("waxed_weathered_cut_copper"@.len() != "waxed_weathered_cut_copper_stairs"@.len());
    assert("waxed_weathered_cut_copper"@.len() != "waxed_weathered_cut_copper_slab"@.len());
    assert("waxed_weathered_cut_copper"@[6] != "waxed_exposed_copper_chest"@[6]);
    assert("waxed_weathered_cut_copper"@[0] != "magenta_stained_glass_pane"@[0]);
    assert("weathered_cut_copper"@[0] != "bamboo_mosaic_stairs"@[0]);
    assert("weathered_cut_copper"@[0] != "red_sandstone_stairs"@[0]);
    assert("weathered_cut_copper"@[0] != "smooth_quartz_stairs"@[0]);
    assert("weathered_cut_copper"@[0] != "dark_prismarine_slab"@[0]);
    assert("weathered_cut_copper"@[0] != "end_stone_brick_slab"@[0]);
    assert("weathered_cut_copper"@[0] != "deepslate_brick_slab"@[0]);
    assert("weathered_cut_copper"@.len() != "weathered_cut_copper_stairs"@.len());
    assert("weathered_cut_copper"@.len() != "weathered_cut_copper_slab"@.len());
    assert("weathered_cut_copper"@.len() != "waxed_weathered_cut_copper_stairs"@.len());
    assert("weathered_cut_copper"@.len() != "waxed_weathered_cut_copper_slab"@.len());
    assert("weathered_cut_copper"@[0] != "exposed_copper_chest"@[0]);
    assert("weathered_cut_copper"@[0] != "stripped_spruce_wood"@[0]);
    assert("weathered_cut_copper"@[0] != "stripped_jungle_wood"@[0]);
    assert("weathered_cut_copper"@[0] != "stripped_acacia_wood"@[0]);
    assert("weathered_cut_copper"@[0] != "stripped_cherry_wood"@[0]);
    assert("weathered_cut_copper"@[0] != "orange_stained_glass"@[0]);
    assert("weathered_cut_copper"@[0] != "yellow_stained_glass"@[0]);
    assert("weathered_cut_copper"@[0] != "purple_stained_glass"@[0]);
    assert("white_wool"@[0] != "oak_stairs"@[0]);
    assert("white_wool"@[0] != "birch_slab"@[0]);
    assert("white_wool"@[0] != "stone_slab"@[0]);
    assert("white_wool"@[0] != "brick_slab"@[0]);
    assert("white_wool"@[0] != "orange_bed"@[0]);
    assert("white_wool"@[0] != "yellow_bed"@[0]);
    assert("white_wool"@[0] != "purple_bed"@[0]);
    assert("white_wool"@[0] != "birch_wood"@[0]);
    assert("white_wool"@[0] != "glass_pane"@[0]);
}

/// The ids drawn with the chest texture are exactly the chest ids.
proof fn lemma_alias_chest(x: Seq<char>)
    ensures
        texture_alias(x) == "chest"@ <==> (
            x == "chest"@ ||
            x == "trapped_chest"@ ||
            x == "ender_chest"@ ||
            x == "copper_chest"@ ||
            x == "exposed_copper_chest"@ ||
            x == "weathered_copper_chest"@ ||
            x == "oxidized_copper_chest"@ ||
            x == "waxed_copper_chest"@ ||
            x == "waxed_exposed_copper_chest"@ ||
            x == "waxed_weathered_copper_chest"@ ||
            x == "waxed_oxidized_copper_chest"@
        ),
{
    reveal_strlit("acacia_fence");
    reveal_strlit("acacia_log");
    reveal_strlit("acacia_planks");
    reveal_strlit("acacia_slab");
    reveal_strlit("acacia_stairs");
    reveal_strlit("acacia_wood");
    reveal_strlit("andesite");
    reveal_strlit("andesite_slab");
    reveal_strlit("andesite_stairs");
    reveal_strlit("bamboo_fence");
    reveal_strlit("bamboo_mosaic");
    reveal_strlit("bamboo_mosaic_slab");
    reveal_strlit("bamboo_mosaic_stairs");
    reveal_strlit("bamboo_planks");
    reveal_strlit("bamboo_slab");
    reveal_strlit("bamboo_stairs");
    reveal_strlit("birch_fence");
    reveal_strlit("birch_log");
    reveal_strlit("birch_planks");
    reveal_strlit("birch_slab");
    reveal_strlit("birch_stairs");
    reveal_strlit("birch_wood");
    reveal_strlit("black_bed");
    reveal_strlit("black_stained_glass");
    reveal_strlit("black_stained_glass_pane");
    reveal_strlit("blackstone");
    reveal_strlit("blackstone_slab");
    reveal_strlit("blackstone_stairs");
    reveal_strlit("blue_bed");
    reveal_strlit("blue_stained_glass");
    reveal_strlit("blue_stained_glass_pane");
    reveal_strlit("brick_slab");
    reveal_strlit("brick_stairs");
    reveal_strlit("bricks");
    reveal_strlit("brown_bed");
    reveal_strlit("brown_stained_glass");
    reveal_strlit("brown_stained_glass_pane");
    reveal_strlit("cherry_fence");
    reveal_strlit("cherry_log");
    reveal_strlit("cherry_planks");
    reveal_strlit("cherry_slab");
    reveal_strlit("cherry_stairs");
    reveal_strlit("cherry_wood");
    reveal_strlit("chest");
    reveal_strlit("cobbled_deepslate");
    reveal_strlit("cobbled_deepslate_slab");
    reveal_strlit("cobbled_deepslate_stairs");
    reveal_strlit("cobblestone");
    reveal_strlit("cobblestone_slab");
    reveal_strlit("cobblestone_stairs");
    reveal_strlit("copper_chest");
    reveal_strlit("crimson_fence");
    reveal_strlit("crimson_hyphae");
    reveal_strlit("crimson_planks");
    reveal_strlit("crimson_slab");
    reveal_strlit("crimson_stairs");
    reveal_strlit("crimson_stem");
    reveal_strlit("cut_copper");
    reveal_strlit("cut_copper_slab");
    reveal_strlit("cut_copper_stairs");
    reveal_strlit("cyan_bed");
    reveal_strlit("cyan_stained_glass");
    reveal_strlit("cyan_stained_glass_pane");
    reveal_strlit("dark_oak_fence");
    reveal_strlit("dark_oak_log");
    reveal_strlit("dark_oak_planks");
    reveal_strlit("dark_oak_slab");
    reveal_strlit("dark_oak_stairs");
    reveal_strlit("dark_oak_wood");
    reveal_strlit("dark_prismarine");
    reveal_strlit("dark_prismarine_slab");
    reveal_strlit("dark_prismarine_stairs");
    reveal_strlit("deepslate_brick_slab");
    reveal_strlit("deepslate_brick_stairs");
    reveal_strlit("deepslate_bricks");
    reveal_strlit("deepslate_tile_slab");
    reveal_strlit("deepslate_tile_stairs");
    reveal_strlit("deepslate_tiles");
    reveal_strlit("diorite");
    reveal_strlit("diorite_slab");
    reveal_strlit("diorite_stairs");
    reveal_strlit("end_stone_brick_slab");
    reveal_strlit("end_stone_brick_stairs");
    reveal_strlit("end_stone_bricks");
    reveal_strlit("ender_chest");
    reveal_strlit("exposed_copper_chest");
    reveal_strlit("exposed_cut_copper");
    reveal_strlit("exposed_cut_copper_slab");
    reveal_strlit("exposed_cut_copper_stairs");
    reveal_strlit("glass");
    reveal_strlit("glass_pane");
    reveal_strlit("granite");
    reveal_strlit("granite_slab");
    reveal_strlit("granite_stairs");
    reveal_strlit("gray_bed");
    reveal_strlit("gray_stained_glass");
    reveal_strlit("gray_stained_glass_pane");
    reveal_strlit("green_bed");
    reveal_strlit("green_stained_glass");
    reveal_strlit("green_stained_glass_pane");
    reveal_strlit("jungle_fence");
    reveal_strlit("jungle_log");
    reveal_strlit("jungle_planks");
    reveal_strlit("jungle_slab");
    reveal_strlit("jungle_stairs");
    reveal_strlit("jungle_wood");
    reveal_strlit("light_blue_bed");
    reveal_strlit("light_blue_stained_glass");
    reveal_strlit("light_blue_stained_glass_pane");
    reveal_strlit("light_gray_bed");
    reveal_strlit("light_gray_stained_glass");
    reveal_strlit("light_gray_stained_glass_pane");
    reveal_strlit("lime_bed");
    reveal_strlit("lime_stained_glass");
    reveal_strlit("lime_stained_glass_pane");
    reveal_strlit("magenta_bed");
    reveal_strlit("magenta_stained_glass");
    reveal_strlit("magenta_stained_glass_pane");
    reveal_strlit("mangrove_fence");
    reveal_strlit("mangrove_log");
    reveal_strlit("mangrove_planks");
    reveal_strlit("mangrove_slab");
    reveal_strlit("mangrove_stairs");
    reveal_strlit("mangrove_wood");
    reveal_strlit("mossy_cobblestone");
    reveal_strlit("mossy_cobblestone_slab");
    reveal_strlit("mossy_cobblestone_stairs");
    reveal_strlit("mossy_stone_brick_slab");
    reveal_strlit("mossy_stone_brick_stairs");
    reveal_strlit("mossy_stone_bricks");
    reveal_strlit("mud_brick_slab");
    reveal_strlit("mud_brick_stairs");
    reveal_strlit("mud_bricks");
    reveal_strlit("nether_brick_slab");
    reveal_strlit("nether_brick_stairs");
    reveal_strlit("nether_bricks");
    reveal_strlit("oak_fence");
    reveal_strlit("oak_log");
    reveal_strlit("oak_planks");
    reveal_strlit("oak_slab");
    reveal_strlit("oak_stairs");
    reveal_strlit("oak_wood");
    reveal_strlit("orange_bed");
    reveal_strlit("orange_stained_glass");
    reveal_strlit("orange_stained_glass_pane");
    reveal_strlit("oxidized_copper_chest");
    reveal_strlit("oxidized_cut_copper");
    reveal_strlit("oxidized_cut_copper_slab");
    reveal_strlit("oxidized_cut_copper_stairs");
    reveal_strlit("pink_bed");
    reveal_strlit("pink_stained_glass");
    reveal_strlit("pink_stained_glass_pane");
    reveal_strlit("polished_andesite");
    reveal_strlit("polished_andesite_slab");
    reveal_strlit("polished_andesite_stairs");
    reveal_strlit("polished_blackstone");
    reveal_strlit("polished_blackstone_brick_slab");
    reveal_strlit("polished_blackstone_brick_stairs");
    reveal_strlit("polished_blackstone_bricks");
    reveal_strlit("polished_blackstone_slab");
    reveal_strlit("polished_blackstone_stairs");
    reveal_strlit("polished_deepslate");
    reveal_strlit("polished_deepslate_slab");
    reveal_strlit("polished_deepslate_stairs");
    reveal_strlit("polished_diorite");
    reveal_strlit("polished_diorite_slab");
    reveal_strlit("polished_diorite_stairs");
    reveal_strlit("polished_granite");
    reveal_strlit("polished_granite_slab");
    reveal_strlit("polished_granite_stairs");
    reveal_strlit("prismarine");
    reveal_strlit("prismarine_brick_slab");
    reveal_strlit("prismarine_brick_stairs");
    reveal_strlit("prismarine_bricks");
    reveal_strlit("prismarine_slab");
    reveal_strlit("prismarine_stairs");
    reveal_strlit("purple_bed");
    reveal_strlit("purple_stained_glass");
    reveal_strlit("purple_stained_glass_pane");
    reveal_strlit("purpur_block");
    reveal_strlit("purpur_slab");
    reveal_strlit("purpur_stairs");
    reveal_strlit("quartz_block");
    reveal_strlit("quartz_slab");
    reveal_strlit("quartz_stairs");
    reveal_strlit("red_bed");
    reveal_strlit("red_nether_brick_slab");
    reveal_strlit("red_nether_brick_stairs");
    reveal_strlit("red_nether_bricks");
    reveal_strlit("red_sandstone");
    reveal_strlit("red_sandstone_slab");
    reveal_strlit("red_sandstone_stairs");
    reveal_strlit("red_stained_glass");
    reveal_strlit("red_stained_glass_pane");
    reveal_strlit("sandstone");
    reveal_strlit("sandstone_slab");
    reveal_strlit("sandstone_stairs");
    reveal_strlit("smooth_quartz");
    reveal_strlit("smooth_quartz_slab");
    reveal_strlit("smooth_quartz_stairs");
    reveal_strlit("smooth_red_sandstone");
    reveal_strlit("smooth_red_sandstone_slab");
    reveal_strlit("smooth_red_sandstone_stairs");
    reveal_strlit("smooth_sandstone");
    reveal_strlit("smooth_sandstone_slab");
    reveal_strlit("smooth_sandstone_stairs");
    reveal_strlit("spruce_fence");
    reveal_strlit("spruce_log");
    reveal_strlit("spruce_planks");
    reveal_strlit("spruce_slab");
    reveal_strlit("spruce_stairs");
    reveal_strlit("spruce_wood");
    reveal_strlit("stone");
    reveal_strlit("stone_brick_slab");
    reveal_strlit("stone_brick_stairs");
    reveal_strlit("stone_bricks");
    reveal_strlit("stone_slab");
    reveal_strlit("stone_stairs");
    reveal_strlit("stripped_acacia_wood");
    reveal_strlit("stripped_birch_wood");
    reveal_strlit("stripped_cherry_wood");
    reveal_strlit("stripped_crimson_hyphae");
    reveal_strlit("stripped_dark_oak_wood");
    reveal_strlit("stripped_jungle_wood");
    reveal_strlit("stripped_mangrove_wood");
    reveal_strlit("stripped_oak_wood");
    reveal_strlit("stripped_spruce_wood");
    reveal_strlit("stripped_warped_hyphae");
    reveal_strlit("tinted_glass");
    reveal_strlit("trapped_chest");
    reveal_strlit("warped_fence");
    reveal_strlit("warped_hyphae");
    reveal_strlit("warped_planks");
    reveal_strlit("warped_slab");
    reveal_strlit("warped_stairs");
    reveal_strlit("warped_stem");
    reveal_strlit("waxed_copper_chest");
    reveal_strlit("waxed_cut_copper");
    reveal_strlit("waxed_cut_copper_slab");
    reveal_strlit("waxed_cut_copper_stairs");
    reveal_strlit("waxed_exposed_copper_chest");
    reveal_strlit("waxed_exposed_cut_copper");
    reveal_strlit("waxed_exposed_cut_copper_slab");
    reveal_strlit("waxed_exposed_cut_copper_stairs");
    reveal_strlit("waxed_oxidized_copper_chest");
    reveal_strlit("waxed_oxidized_cut_copper");
    reveal_strlit("waxed_oxidized_cut_copper_slab");
    reveal_strlit("waxed_oxidized_cut_copper_stairs");
    reveal_strlit("waxed_weathered_copper_chest");
    reveal_strlit("waxed_weathered_cut_copper");
    reveal_strlit("waxed_weathered_cut_copper_slab");
    reveal_strlit("waxed_weathered_cut_copper_stairs");
    reveal_strlit("weathered_copper_chest");
    reveal_strlit("weathered_cut_copper");
    reveal_strlit("weathered_cut_copper_slab");
    reveal_strlit("weathered_cut_copper_stairs");
    reveal_strlit("white_bed");
    reveal_strlit("white_stained_glass");
    reveal_strlit("white_stained_glass_pane");
    reveal_strlit("white_wool");
    reveal_strlit("yellow_bed");
    reveal_strlit("yellow_stained_glass");
    reveal_strlit("yellow_stained_glass_pane");
    assert("glass"@[0] != "chest"@[0]);
    assert("stone"@[0] != "chest"@[0]);
    assert("trapped_chest"@[0] != "spruce_stairs"@[0]);
    assert("trapped_chest"@[0] != "jungle_stairs"@[0]);
    assert("trapped_chest"@[0] != "acacia_stairs"@[0]);
    assert("trapped_chest"@[0] != "dark_oak_slab"@[0]);
    assert("trapped_chest"@[0] != "mangrove_slab"@[0]);
    assert("trapped_chest"@[0] != "cherry_stairs"@[0]);
    assert("trapped_chest"@[0] != "bamboo_stairs"@[0]);
    assert("trapped_chest"@[0] != "warped_stairs"@[0]);
    assert("trapped_chest"@[0] != "andesite_slab"@[0]);
    assert("trapped_chest"@[0] != "quartz_stairs"@[0]);
    assert("trapped_chest"@[0] != "purpur_stairs"@[0]);
    assert("trapped_chest"@[0] != "crimson_fence"@[0]);
    assert("trapped_chest"@.len() != "chest"@.len());
    assert("ender_chest"@[0] != "spruce_slab"@[0]);
    assert("ender_chest"@[0] != "jungle_slab"@[0]);
    assert("ender_chest"@[0] != "acacia_slab"@[0]);
    assert("ender_chest"@[0] != "cherry_slab"@[0]);
    assert("ender_chest"@[0] != "bamboo_slab"@[0]);
    assert("ender_chest"@[0] != "warped_slab"@[0]);
    assert("ender_chest"@[0] != "quartz_slab"@[0]);
    assert("ender_chest"@[0] != "purpur_slab"@[0]);
    assert("ender_chest"@[0] != "birch_fence"@[0]);
    assert("ender_chest"@.len() != "chest"@.len());
    assert("copper_chest"@[0] != "birch_stairs"@[0]);
    assert("copper_chest"@[1] != "crimson_slab"@[1]);
    assert("copper_chest"@[0] != "stone_stairs"@[0]);
    assert("copper_chest"@[0] != "granite_slab"@[0]);
    assert("copper_chest"@[0] != "diorite_slab"@[0]);
    assert("copper_chest"@[0] != "brick_stairs"@[0]);
    assert("copper_chest"@[0] != "spruce_fence"@[0]);
    assert("copper_chest"@[0] != "jungle_fence"@[0]);
    assert("copper_chest"@[0] != "acacia_fence"@[0]);
    assert("copper_chest"@[1] != "cherry_fence"@[1]);
    assert("copper_chest"@[0] != "bamboo_fence"@[0]);
    assert("copper_chest"@[0] != "warped_fence"@[0]);
    assert("copper_chest"@.len() != "chest"@.len());
    assert("exposed_copper_chest"@[0] != "bamboo_mosaic_stairs"@[0]);
    assert("exposed_copper_chest"@[0] != "red_sandstone_stairs"@[0]);
    assert("exposed_copper_chest"@[0] != "smooth_quartz_stairs"@[0]);
    assert("exposed_copper_chest"@[0] != "dark_prismarine_slab"@[0]);
    assert("exposed_copper_chest"@[1] != "end_stone_brick_slab"@[1]);
    assert("exposed_copper_chest"@[0] != "deepslate_brick_slab"@[0]);
    assert("exposed_copper_chest"@.len() != "chest"@.len());
    assert("exposed_copper_chest"@.len() != "copper_chest"@.len());
    assert("weathered_copper_chest"@[0] != "mossy_cobblestone_slab"@[0]);
    assert("weathered_copper_chest"@[0] != "mossy_stone_brick_slab"@[0]);
    assert("weathered_copper_chest"@[0] != "polished_andesite_slab"@[0]);
    assert("weathered_copper_chest"@[0] != "dark_prismarine_stairs"@[0]);
    assert("weathered_copper_chest"@[0] != "end_stone_brick_stairs"@[0]);
    assert("weathered_copper_chest"@[0] != "deepslate_brick_stairs"@[0]);
    assert("weathered_copper_chest"@[0] != "cobbled_deepslate_slab"@[0]);
    assert("weathered_copper_chest"@.len() != "chest"@.len());
    assert("weathered_copper_chest"@.len() != "copper_chest"@.len());
    assert("oxidized_copper_chest"@[0] != "polished_granite_slab"@[0]);
    assert("oxidized_copper_chest"@[0] != "polished_diorite_slab"@[0]);
    assert("oxidized_copper_chest"@[0] != "red_nether_brick_slab"@[0]);
    assert("oxidized_copper_chest"@[0] != "smooth_sandstone_slab"@[0]);
    assert("oxidized_copper_chest"@[0] != "prismarine_brick_slab"@[0]);
    assert("oxidized_copper_chest"@[0] != "deepslate_tile_stairs"@[0]);
    assert("oxidized_copper_chest"@[0] != "waxed_cut_copper_slab"@[0]);
    assert("oxidized_copper_chest"@.len() != "chest"@.len());
    assert("oxidized_copper_chest"@.len() != "copper_chest"@.len());
    assert("waxed_copper_chest"@[0] != "bamboo_mosaic_slab"@[0]);
    assert("waxed_copper_chest"@[0] != "cobblestone_stairs"@[0]);
    assert("waxed_copper_chest"@[0] != "stone_brick_stairs"@[0]);
    assert("waxed_copper_chest"@[0] != "red_sandstone_slab"@[0]);
    assert("waxed_copper_chest"@[0] != "smooth_quartz_slab"@[0]);
    assert("waxed_copper_chest"@.len() != "chest"@.len());
    assert("waxed_copper_chest"@.len() != "copper_chest"@.len());
    assert("waxed_exposed_copper_chest"@[0] != "polished_blackstone_stairs"@[0]);
    assert("waxed_exposed_copper_chest"@[0] != "oxidized_cut_copper_stairs"@[0]);
    assert("waxed_exposed_copper_chest"@.len() != "chest"@.len());
    assert("waxed_exposed_copper_chest"@.len() != "copper_chest"@.len());
    assert("waxed_exposed_copper_chest"@.len() != "exposed_copper_chest"@.len());
    assert("waxed_weathered_copper_chest"@.len() != "chest"@.len());
    assert("waxed_weathered_copper_chest"@.len() != "copper_chest"@.len());
    assert("waxed_weathered_copper_chest"@.len() != "weathered_copper_chest"@.len());
    assert("waxed_oxidized_copper_chest"@[0] != "smooth_red_sandstone_stairs"@[0]);
    assert("waxed_oxidized_copper_chest"@[1] != "weathered_cut_copper_stairs"@[1]);
    assert("waxed_oxidized_copper_chest"@.len() != "chest"@.len());
    assert("waxed_oxidized_copper_chest"@.len() != "copper_chest"@.len());
    assert("waxed_oxidized_copper_chest"@.len() != "oxidized_copper_chest"@.len());
}

/// Exactly the blocks drawn with the chest texture have the chest shape: a
/// block of the `minecraft:` namespace is drawn as a chest box if and only if
/// its texture is `minecraft/chest`.
pub proof fn lemma_chest_texture_is_chest_shape(b: BlockView)
    requires
        seq_starts_with(b.name, "minecraft:"@),
    ensures
        (texture_for(b.name) == "minecraft/chest"@) == (shape_of(b) == BlockShape::Chest),
{
    reveal_strlit("minecraft:");
    reveal_strlit("minecraft/");
    reveal_strlit("minecraft/chest");
    reveal_strlit("chest");
    reveal_strlit("minecraft:dirt_path");
    reveal_strlit("chest");
    reveal_strlit("minecraft:chest");
    reveal_strlit("trapped_chest");
    reveal_strlit("minecraft:trapped_chest");
    reveal_strlit("ender_chest");
    reveal_strlit("minecraft:ender_chest");
    reveal_strlit("copper_chest");
    reveal_strlit("minecraft:copper_chest");
    reveal_strlit("exposed_copper_chest");
    reveal_strlit("minecraft:exposed_copper_chest");
    reveal_strlit("weathered_copper_chest");
    reveal_strlit("minecraft:weathered_copper_chest");
    reveal_strlit("oxidized_copper_chest");
    reveal_strlit("minecraft:oxidized_copper_chest");
    reveal_strlit("waxed_copper_chest");
    reveal_strlit("minecraft:waxed_copper_chest");
    reveal_strlit("waxed_exposed_copper_chest");
    reveal_strlit("minecraft:waxed_exposed_copper_chest");
    reveal_strlit("waxed_weathered_copper_chest");
    reveal_strlit("minecraft:waxed_weathered_copper_chest");
    reveal_strlit("waxed_oxidized_copper_chest");
    reveal_strlit("minecraft:waxed_oxidized_copper_chest");
    let n = b.name;
    let base = n.skip(10);
    assert(base_name(n) == base);
    assert(n =~= "minecraft:"@ + base);
    lemma_alias_chest(base);
    let a = texture_alias(base);
    assert(("minecraft/"@ + a).skip(10) =~= a);
    assert("minecraft/chest"@ =~= "minecraft/"@ + "chest"@);
    assert(("minecraft/"@ + "chest"@).skip(10) =~= "chest"@);
    assert("minecraft:"@ + "chest"@ =~= "minecraft:chest"@);
    assert("minecraft:chest"@.len() != "minecraft:dirt_path"@.len());
    assert("minecraft:"@ + "trapped_chest"@ =~= "minecraft:trapped_chest"@);
    assert("minecraft:trapped_chest"@.len() != "minecraft:dirt_path"@.len());
    assert("minecraft:"@ + "ender_chest"@ =~= "minecraft:ender_chest"@);
    assert("minecraft:ender_chest"@.len() != "minecraft:dirt_path"@.len());
    assert("minecraft:"@ + "copper_chest"@ =~= "minecraft:copper_chest"@);
    assert("minecraft:copper_chest"@.len() != "minecraft:dirt_path"@.len());
    assert("minecraft:"@ + "exposed_copper_chest"@ =~= "minecraft:exposed_copper_chest"@);
    assert("minecraft:exposed_copper_chest"@.len() != "minecraft:dirt_path"@.len());
    assert("minecraft:"@ + "weathered_copper_chest"@ =~= "minecraft:weathered_copper_chest"@);
    assert("minecraft:weathered_copper_chest"@.len() != "minecraft:dirt_path"@.len());
    assert("minecraft:"@ + "oxidized_copper_chest"@ =~= "minecraft:oxidized_copper_chest"@);
    assert("minecraft:oxidized_copper_chest"@.len() != "minecraft:dirt_path"@.len());
    assert("minecraft:"@ + "waxed_copper_chest"@ =~= "minecraft:waxed_copper_chest"@);
    assert("minecraft:waxed_copper_chest"@.len() != "minecraft:dirt_path"@.len());
    assert("minecraft:"@ + "waxed_exposed_copper_chest"@ =~= "minecraft:waxed_exposed_copper_chest"@);
    assert("minecraft:waxed_exposed_copper_chest"@.len() != "minecraft:dirt_path"@.len());
    assert("minecraft:"@ + "waxed_weathered_copper_chest"@ =~= "minecraft:waxed_weathered_copper_chest"@);
    assert("minecraft:waxed_weathered_copper_chest"@.len() != "minecraft:dirt_path"@.len());
    assert("minecraft:"@ + "waxed_oxidized_copper_chest"@ =~= "minecraft:waxed_oxidized_copper_chest"@);
    assert("minecraft:waxed_oxidized_copper_chest"@.len() != "minecraft:dirt_path"@.len());
    assert((texture_for(n) == "minecraft/chest"@) == (a == "chest"@));
    assert forall|y: Seq<char>| #[trigger] ("minecraft:"@ + y).skip(10) == y by {
        assert(("minecraft:"@ + y).skip(10) =~= y);
    }
    assert((a == "chest"@) == is_chest_name(n));
    assert(is_chest_name(n) == (shape_of(b) == BlockShape::Chest));
}

/// The natural rock of the culling groups (stone, dirt, gravel and
/// deepslate, with or without namespace; the ores excluded) is drawn with its
/// own texture.
pub(crate) proof fn lemma_rock_textures(n: Seq<char>)
    requires
        is_terrain(n),
        !seq_ends_with(n, "_ore"@),
    ensures
            texture_for(n) == "minecraft/stone"@ ||
            texture_for(n) == "minecraft/dirt"@ ||
            texture_for(n) == "minecraft/gravel"@ ||
            texture_for(n) == "minecraft/deepslate"@,
{
    reveal_strlit("dirt");
    reveal_strlit("gravel");
    reveal_strlit("_ore");
    reveal_strlit("acacia_fence");
    reveal_strlit("acacia_log");
    reveal_strlit("acacia_planks");
    reveal_strlit("acacia_slab");
    reveal_strlit("acacia_stairs");
    reveal_strlit("acacia_wood");
    reveal_strlit("andesite");
    reveal_strlit("andesite_slab");
    reveal_strlit("andesite_stairs");
    reveal_strlit("bamboo_fence");
    reveal_strlit("bamboo_mosaic");
    reveal_strlit("bamboo_mosaic_slab");
    reveal_strlit("bamboo_mosaic_stairs");
    reveal_strlit("bamboo_planks");
    reveal_strlit("bamboo_slab");
    reveal_strlit("bamboo_stairs");
    reveal_strlit("birch_fence");
    reveal_strlit("birch_log");
    reveal_strlit("birch_planks");
    reveal_strlit("birch_slab");
    reveal_strlit("birch_stairs");
    reveal_strlit("birch_wood");
    reveal_strlit("black_bed");
    reveal_strlit("black_stained_glass");
    reveal_strlit("black_stained_glass_pane");
    reveal_strlit("blackstone");
    reveal_strlit("blackstone_slab");
    reveal_strlit("blackstone_stairs");
    reveal_strlit("blue_bed");
    reveal_strlit("blue_stained_glass");
    reveal_strlit("blue_stained_glass_pane");
    reveal_strlit("brick_slab");
    reveal_strlit("brick_stairs");
    reveal_strlit("bricks");
    reveal_strlit("brown_bed");
    reveal_strlit("brown_stained_glass");
    reveal_strlit("brown_stained_glass_pane");
    reveal_strlit("cherry_fence");
    reveal_strlit("cherry_log");
    reveal_strlit("cherry_planks");
    reveal_strlit("cherry_slab");
    reveal_strlit("cherry_stairs");
    reveal_strlit("cherry_wood");
    reveal_strlit("chest");
    reveal_strlit("cobbled_deepslate");
    reveal_strlit("cobbled_deepslate_slab");
    reveal_strlit("cobbled_deepslate_stairs");
    reveal_strlit("cobblestone");
    reveal_strlit("cobblestone_slab");
    reveal_strlit("cobblestone_stairs");
    reveal_strlit("copper_chest");
    reveal_strlit("crimson_fence");
    reveal_strlit("crimson_hyphae");
    reveal_strlit("crimson_planks");
    reveal_strlit("crimson_slab");
    reveal_strlit("crimson_stairs");
    reveal_strlit("crimson_stem");
    reveal_strlit("cut_copper");
    reveal_strlit("cut_copper_slab");
    reveal_strlit("cut_copper_stairs");
    reveal_strlit("cyan_bed");
    reveal_strlit("cyan_stained_glass");
    reveal_strlit("cyan_stained_glass_pane");
    reveal_strlit("dark_oak_fence");
    reveal_strlit("dark_oak_log");
    reveal_strlit("dark_oak_planks");
    reveal_strlit("dark_oak_slab");
    reveal_strlit("dark_oak_stairs");
    reveal_strlit("dark_oak_wood");
    reveal_strlit("dark_prismarine");
    reveal_strlit("dark_prismarine_slab");
    reveal_strlit("dark_prismarine_stairs");
    reveal_strlit("deepslate");
    reveal_strlit("deepslate_brick_slab");
    reveal_strlit("deepslate_brick_stairs");
    reveal_strlit("deepslate_bricks");
    reveal_strlit("deepslate_tile_slab");
    reveal_strlit("deepslate_tile_stairs");
    reveal_strlit("deepslate_tiles");
    reveal_strlit("diorite");
    reveal_strlit("diorite_slab");
    reveal_strlit("diorite_stairs");
    reveal_strlit("end_stone_brick_slab");
    reveal_strlit("end_stone_brick_stairs");
    reveal_strlit("end_stone_bricks");
    reveal_strlit("ender_chest");
    reveal_strlit("exposed_copper_chest");
    reveal_strlit("exposed_cut_copper");
    reveal_strlit("exposed_cut_copper_slab");
    reveal_strlit("exposed_cut_copper_stairs");
    reveal_strlit("glass");
    reveal_strlit("glass_pane");
    reveal_strlit("granite");
    reveal_strlit("granite_slab");
    reveal_strlit("granite_stairs");
    reveal_strlit("gray_bed");
    reveal_strlit("gray_stained_glass");
    reveal_strlit("gray_stained_glass_pane");
    reveal_strlit("green_bed");
    reveal_strlit("green_stained_glass");
    reveal_strlit("green_stained_glass_pane");
    reveal_strlit("jungle_fence");
    reveal_strlit("jungle_log");
    reveal_strlit("jungle_planks");
    reveal_strlit("jungle_slab");
    reveal_strlit("jungle_stairs");
    reveal_strlit("jungle_wood");
    reveal_strlit("light_blue_bed");
    reveal_strlit("light_blue_stained_glass");
    reveal_strlit("light_blue_stained_glass_pane");
    reveal_strlit("light_gray_bed");
    reveal_strlit("light_gray_stained_glass");
    reveal_strlit("light_gray_stained_glass_pane");
    reveal_strlit("lime_bed");
    reveal_strlit("lime_stained_glass");
    reveal_strlit("lime_stained_glass_pane");
    reveal_strlit("magenta_bed");
    reveal_strlit("magenta_stained_glass");
    reveal_strlit("magenta_stained_glass_pane");
    reveal_strlit("mangrove_fence");
    reveal_strlit("mangrove_log");
    reveal_strlit("mangrove_planks");
    reveal_strlit("mangrove_slab");
    reveal_strlit("mangrove_stairs");
    reveal_strlit("mangrove_wood");
    reveal_strlit("minecraft/");
    reveal_strlit("minecraft/deepslate");
    reveal_strlit("minecraft/dirt");
    reveal_strlit("minecraft/gravel");
    reveal_strlit("minecraft/stone");
    reveal_strlit("minecraft:");
    reveal_strlit("minecraft:coal_ore");
    reveal_strlit("minecraft:copper_ore");
    reveal_strlit("minecraft:deepslate");
    reveal_strlit("minecraft:deepslate_coal_ore");
    reveal_strlit("minecraft:deepslate_copper_ore");
    reveal_strlit("minecraft:deepslate_diamond_ore");
    reveal_strlit("minecraft:deepslate_emerald_ore");
    reveal_strlit("minecraft:deepslate_gold_ore");
    reveal_strlit("minecraft:deepslate_iron_ore");
    reveal_strlit("minecraft:deepslate_lapis_ore");
    reveal_strlit("minecraft:deepslate_redstone_ore");
    reveal_strlit("minecraft:diamond_ore");
    reveal_strlit("minecraft:dirt");
    reveal_strlit("minecraft:emerald_ore");
    reveal_strlit("minecraft:gold_ore");
    reveal_strlit("minecraft:gravel");
    reveal_strlit("minecraft:iron_ore");
    reveal_strlit("minecraft:lapis_ore");
    reveal_strlit("minecraft:redstone_ore");
    reveal_strlit("minecraft:stone");
    reveal_strlit("mossy_cobblestone");
    reveal_strlit("mossy_cobblestone_slab");
    reveal_strlit("mossy_cobblestone_stairs");
    reveal_strlit("mossy_stone_brick_slab");
    reveal_strlit("mossy_stone_brick_stairs");
    reveal_strlit("mossy_stone_bricks");
    reveal_strlit("mud_brick_slab");
    reveal_strlit("mud_brick_stairs");
    reveal_strlit("mud_bricks");
    reveal_strlit("nether_brick_slab");
    reveal_strlit("nether_brick_stairs");
    reveal_strlit("nether_bricks");
    reveal_strlit("oak_fence");
    reveal_strlit("oak_log");
    reveal_strlit("oak_planks");
    reveal_strlit("oak_slab");
    reveal_strlit("oak_stairs");
    reveal_strlit("oak_wood");
    reveal_strlit("orange_bed");
    reveal_strlit("orange_stained_glass");
    reveal_strlit("orange_stained_glass_pane");
    reveal_strlit("oxidized_copper_chest");
    reveal_strlit("oxidized_cut_copper");
    reveal_strlit("oxidized_cut_copper_slab");
    reveal_strlit("oxidized_cut_copper_stairs");
    reveal_strlit("pink_bed");
    reveal_strlit("pink_stained_glass");
    reveal_strlit("pink_stained_glass_pane");
    reveal_strlit("polished_andesite");
    reveal_strlit("polished_andesite_slab");
    reveal_strlit("polished_andesite_stairs");
    reveal_strlit("polished_blackstone");
    reveal_strlit("polished_blackstone_brick_slab");
    reveal_strlit("polished_blackstone_brick_stairs");
    reveal_strlit("polished_blackstone_bricks");
    reveal_strlit("polished_blackstone_slab");
    reveal_strlit("polished_blackstone_stairs");
    reveal_strlit("polished_deepslate");
    reveal_strlit("polished_deepslate_slab");
    reveal_strlit("polished_deepslate_stairs");
    reveal_strlit("polished_diorite");
    reveal_strlit("polished_diorite_slab");
    reveal_strlit("polished_diorite_stairs");
    reveal_strlit("polished_granite");
    reveal_strlit("polished_granite_slab");
    reveal_strlit("polished_granite_stairs");
    reveal_strlit("prismarine");
    reveal_strlit("prismarine_brick_slab");
    reveal_strlit("prismarine_brick_stairs");
    reveal_strlit("prismarine_bricks");
    reveal_strlit("prismarine_slab");
    reveal_strlit("prismarine_stairs");
    reveal_strlit("purple_bed");
    reveal_strlit("purple_stained_glass");
    reveal_strlit("purple_stained_glass_pane");
    reveal_strlit("purpur_block");
    reveal_strlit("purpur_slab");
    reveal_strlit("purpur_stairs");
    reveal_strlit("quartz_block");
    reveal_strlit("quartz_slab");
    reveal_strlit("quartz_stairs");
    reveal_strlit("red_bed");
    reveal_strlit("red_nether_brick_slab");
    reveal_strlit("red_nether_brick_stairs");
    reveal_strlit("red_nether_bricks");
    reveal_strlit("red_sandstone");
    reveal_strlit("red_sandstone_slab");
    reveal_strlit("red_sandstone_stairs");
    reveal_strlit("red_stained_glass");
    reveal_strlit("red_stained_glass_pane");
    reveal_strlit("sandstone");
    reveal_strlit("sandstone_slab");
    reveal_strlit("sandstone_stairs");
    reveal_strlit("smooth_quartz");
    reveal_strlit("smooth_quartz_slab");
    reveal_strlit("smooth_quartz_stairs");
    reveal_strlit("smooth_red_sandstone");
    reveal_strlit("smooth_red_sandstone_slab");
    reveal_strlit("smooth_red_sandstone_stairs");
    reveal_strlit("smooth_sandstone");
    reveal_strlit("smooth_sandstone_slab");
    reveal_strlit("smooth_sandstone_stairs");
    reveal_strlit("spruce_fence");
    reveal_strlit("spruce_log");
    reveal_strlit("spruce_planks");
    reveal_strlit("spruce_slab");
    reveal_strlit("spruce_stairs");
    reveal_strlit("spruce_wood");
    reveal_strlit("stone");
    reveal_strlit("stone_brick_slab");
    reveal_strlit("stone_brick_stairs");
    reveal_strlit("stone_bricks");
    reveal_strlit("stone_slab");
    reveal_strlit("stone_stairs");
    reveal_strlit("stripped_acacia_wood");
    reveal_strlit("stripped_birch_wood");
    reveal_strlit("stripped_cherry_wood");
    reveal_strlit("stripped_crimson_hyphae");
    reveal_strlit("stripped_dark_oak_wood");
    reveal_strlit("stripped_jungle_wood");
    reveal_strlit("stripped_mangrove_wood");
    reveal_strlit("stripped_oak_wood");
    reveal_strlit("stripped_spruce_wood");
    reveal_strlit("stripped_warped_hyphae");
    reveal_strlit("tinted_glass");
    reveal_strlit("trapped_chest");
    reveal_strlit("warped_fence");
    reveal_strlit("warped_hyphae");
    reveal_strlit("warped_planks");
    reveal_strlit("warped_slab");
    reveal_strlit("warped_stairs");
    reveal_strlit("warped_stem");
    reveal_strlit("waxed_copper_chest");
    reveal_strlit("waxed_cut_copper");
    reveal_strlit("waxed_cut_copper_slab");
    reveal_strlit("waxed_cut_copper_stairs");
    reveal_strlit("waxed_exposed_copper_chest");
    reveal_strlit("waxed_exposed_cut_copper");
    reveal_strlit("waxed_exposed_cut_copper_slab");
    reveal_strlit("waxed_exposed_cut_copper_stairs");
    reveal_strlit("waxed_oxidized_copper_chest");
    reveal_strlit("waxed_oxidized_cut_copper");
    reveal_strlit("waxed_oxidized_cut_copper_slab");
    reveal_strlit("waxed_oxidized_cut_copper_stairs");
    reveal_strlit("waxed_weathered_copper_chest");
    reveal_strlit("waxed_weathered_cut_copper");
    reveal_strlit("waxed_weathered_cut_copper_slab");
    reveal_strlit("waxed_weathered_cut_copper_stairs");
    reveal_strlit("weathered_copper_chest");
    reveal_strlit("weathered_cut_copper");
    reveal_strlit("weathered_cut_copper_slab");
    reveal_strlit("weathered_cut_copper_stairs");
    reveal_strlit("white_bed");
    reveal_strlit("white_stained_glass");
    reveal_strlit("white_stained_glass_pane");
    reveal_strlit("white_wool");
    reveal_strlit("yellow_bed");
    reveal_strlit("yellow_stained_glass");
    reveal_strlit("yellow_stained_glass_pane");
    assert("stone"@.len() != "stone_stairs"@.len());
    assert("stone"@.len() != "stone_slab"@.len());
    assert("stone"@.len() != "cobblestone_stairs"@.len());
    assert("stone"@.len() != "cobblestone_slab"@.len());
    assert("stone"@.len() != "mossy_cobblestone_stairs"@.len());
    assert("stone"@.len() != "mossy_cobblestone_slab"@.len());
    assert("stone"@.len() != "stone_brick_stairs"@.len());
    assert("stone"@.len() != "stone_brick_slab"@.len());
    assert("stone"@.len() != "mossy_stone_brick_stairs"@.len());
    assert("stone"@.len() != "mossy_stone_brick_slab"@.len());
    assert("stone"@.len() != "blackstone_stairs"@.len());
    assert("stone"@.len() != "blackstone_slab"@.len());
    assert("stone"@.len() != "polished_blackstone_stairs"@.len());
    assert("stone"@.len() != "polished_blackstone_slab"@.len());
    assert("stone"@.len() != "polished_blackstone_brick_stairs"@.len());
    assert("stone"@.len() != "polished_blackstone_brick_slab"@.len());
    assert("stone"@.len() != "sandstone_stairs"@.len());
    assert("stone"@.len() != "sandstone_slab"@.len());
    assert("stone"@.len() != "smooth_sandstone_stairs"@.len());
    assert("stone"@.len() != "smooth_sandstone_slab"@.len());
    assert("stone"@.len() != "red_sandstone_stairs"@.len());
    assert("stone"@.len() != "red_sandstone_slab"@.len());
    assert("stone"@.len() != "smooth_red_sandstone_stairs"@.len());
    assert("stone"@.len() != "smooth_red_sandstone_slab"@.len());
    assert("stone"@.len() != "end_stone_brick_stairs"@.len());
    assert("stone"@.len() != "end_stone_brick_slab"@.len());
    assert("stone"@[0] != "chest"@[0]);
    assert("deepslate"@.len() != "deepslate_brick_stairs"@.len());
    assert("deepslate"@.len() != "deepslate_brick_slab"@.len());
    assert("deepslate"@.len() != "deepslate_tile_stairs"@.len());
    assert("deepslate"@.len() != "deepslate_tile_slab"@.len());
    assert("deepslate"@.len() != "cobbled_deepslate_stairs"@.len());
    assert("deepslate"@.len() != "cobbled_deepslate_slab"@.len());
    assert("deepslate"@.len() != "polished_deepslate_stairs"@.len());
    assert("deepslate"@.len() != "polished_deepslate_slab"@.len());
    assert("deepslate"@[0] != "oak_fence"@[0]);
    assert("deepslate"@[0] != "white_bed"@[0]);
    assert("deepslate"@[0] != "brown_bed"@[0]);
    assert("deepslate"@[0] != "green_bed"@[0]);
    assert("deepslate"@[0] != "black_bed"@[0]);
    assert("minecraft:coal_ore"@.subrange(14, 18) =~= "_ore"@);
    assert("minecraft:iron_ore"@.subrange(14, 18) =~= "_ore"@);
    assert("minecraft:copper_ore"@.subrange(16, 20) =~= "_ore"@);
    assert("minecraft:gold_ore"@.subrange(14, 18) =~= "_ore"@);
    assert("minecraft:redstone_ore"@.subrange(18, 22) =~= "_ore"@);
    assert("minecraft:lapis_ore"@.subrange(15, 19) =~= "_ore"@);
    assert("minecraft:diamond_ore"@.subrange(17, 21) =~= "_ore"@);
    assert("minecraft:emerald_ore"@.subrange(17, 21) =~= "_ore"@);
    assert("minecraft:deepslate_coal_ore"@.subrange(24, 28) =~= "_ore"@);
    assert("minecraft:deepslate_iron_ore"@.subrange(24, 28) =~= "_ore"@);
    assert("minecraft:deepslate_copper_ore"@.subrange(26, 30) =~= "_ore"@);
    assert("minecraft:deepslate_gold_ore"@.subrange(24, 28) =~= "_ore"@);
    assert("minecraft:deepslate_redstone_ore"@.subrange(28, 32) =~= "_ore"@);
    assert("minecraft:deepslate_lapis_ore"@.subrange(25, 29) =~= "_ore"@);
    assert("minecraft:deepslate_diamond_ore"@.subrange(27, 31) =~= "_ore"@);
    assert("minecraft:deepslate_emerald_ore"@.subrange(27, 31) =~= "_ore"@);
    assert("minecraft:stone"@.subrange(0, 10) =~= "minecraft:"@);
    assert("minecraft:stone"@.skip(10) =~= "stone"@);
    assert("minecraft/"@ + "stone"@ =~= "minecraft/stone"@);
    assert("minecraft:dirt"@.subrange(0, 10) =~= "minecraft:"@);
    assert("minecraft:dirt"@.skip(10) =~= "dirt"@);
    assert("minecraft/"@ + "dirt"@ =~= "minecraft/dirt"@);
    assert("minecraft:gravel"@.subrange(0, 10) =~= "minecraft:"@);
    assert("minecraft:gravel"@.skip(10) =~= "gravel"@);
    assert("minecraft/"@ + "gravel"@ =~= "minecraft/gravel"@);
    assert("minecraft:deepslate"@.subrange(0, 10) =~= "minecraft:"@);
    assert("minecraft:deepslate"@.skip(10) =~= "deepslate"@);
    assert("minecraft/"@ + "deepslate"@ =~= "minecraft/deepslate"@);
}

/// The glass ids, without namespace, are drawn with glass.
proof fn lemma_glass_alias(x: Seq<char>)
    requires
            x == "glass_pane"@ ||
            x == "tinted_glass"@ ||
            x == "white_stained_glass_pane"@ ||
            x == "white_stained_glass"@ ||
            x == "light_gray_stained_glass_pane"@ ||
            x == "light_gray_stained_glass"@ ||
            x == "gray_stained_glass_pane"@ ||
            x == "gray_stained_glass"@ ||
            x == "black_stained_glass_pane"@ ||
            x == "black_stained_glass"@ ||
            x == "brown_stained_glass_pane"@ ||
            x == "brown_stained_glass"@ ||
            x == "red_stained_glass_pane"@ ||
            x == "red_stained_glass"@ ||
            x == "orange_stained_glass_pane"@ ||
            x == "orange_stained_glass"@ ||
            x == "yellow_stained_glass_pane"@ ||
            x == "yellow_stained_glass"@ ||
            x == "lime_stained_glass_pane"@ ||
            x == "lime_stained_glass"@ ||
            x == "green_stained_glass_pane"@ ||
            x == "green_stained_glass"@ ||
            x == "cyan_stained_glass_pane"@ ||
            x == "cyan_stained_glass"@ ||
            x == "light_blue_stained_glass_pane"@ ||
            x == "light_blue_stained_glass"@ ||
            x == "blue_stained_glass_pane"@ ||
            x == "blue_stained_glass"@ ||
            x == "purple_stained_glass_pane"@ ||
            x == "purple_stained_glass"@ ||
            x == "magenta_stained_glass_pane"@ ||
            x == "magenta_stained_glass"@ ||
            x == "pink_stained_glass_pane"@ ||
            x == "pink_stained_glass"@ ||
            x == "glass"@,
    ensures
        texture_alias(x) == "glass"@,
{
    reveal_strlit("acacia_fence");
    reveal_strlit("acacia_log");
    reveal_strlit("acacia_planks");
    reveal_strlit("acacia_slab");
    reveal_strlit("acacia_stairs");
    reveal_strlit("acacia_wood");
    reveal_strlit("andesite");
    reveal_strlit("andesite_slab");
    reveal_strlit("andesite_stairs");
    reveal_strlit("bamboo_fence");
    reveal_strlit("bamboo_mosaic");
    reveal_strlit("bamboo_mosaic_slab");
    reveal_strlit("bamboo_mosaic_stairs");
    reveal_strlit("bamboo_planks");
    reveal_strlit("bamboo_slab");
    reveal_strlit("bamboo_stairs");
    reveal_strlit("birch_fence");
    reveal_strlit("birch_log");
    reveal_strlit("birch_planks");
    reveal_strlit("birch_slab");
    reveal_strlit("birch_stairs");
    reveal_strlit("birch_wood");
    reveal_strlit("black_bed");
    reveal_strlit("black_stained_glass");
    reveal_strlit("black_stained_glass_pane");
    reveal_strlit("blackstone");
    reveal_strlit("blackstone_slab");
    reveal_strlit("blackstone_stairs");
    reveal_strlit("blue_bed");
    reveal_strlit("blue_stained_glass");
    reveal_strlit("blue_stained_glass_pane");
    reveal_strlit("brick_slab");
    reveal_strlit("brick_stairs");
    reveal_strlit("bricks");
    reveal_strlit("brown_bed");
    reveal_strlit("brown_stained_glass");
    reveal_strlit("brown_stained_glass_pane");
    reveal_strlit("cherry_fence");
    reveal_strlit("cherry_log");
    reveal_strlit("cherry_planks");
    reveal_strlit("cherry_slab");
    reveal_strlit("cherry_stairs");
    reveal_strlit("cherry_wood");
    reveal_strlit("chest");
    reveal_strlit("cobbled_deepslate");
    reveal_strlit("cobbled_deepslate_slab");
    reveal_strlit("cobbled_deepslate_stairs");
    reveal_strlit("cobblestone");
    reveal_strlit("cobblestone_slab");
    reveal_strlit("cobblestone_stairs");
    reveal_strlit("copper_chest");
    reveal_strlit("crimson_fence");
    reveal_strlit("crimson_hyphae");
    reveal_strlit("crimson_planks");
    reveal_strlit("crimson_slab");
    reveal_strlit("crimson_stairs");
    reveal_strlit("crimson_stem");
    reveal_strlit("cut_copper");
    reveal_strlit("cut_copper_slab");
    reveal_strlit("cut_copper_stairs");
    reveal_strlit("cyan_bed");
    reveal_strlit("cyan_stained_glass");
    reveal_strlit("cyan_stained_glass_pane");
    reveal_strlit("dark_oak_fence");
    reveal_strlit("dark_oak_log");
    reveal_strlit("dark_oak_planks");
    reveal_strlit("dark_oak_slab");
    reveal_strlit("dark_oak_stairs");
    reveal_strlit("dark_oak_wood");
    reveal_strlit("dark_prismarine");
    reveal_strlit("dark_prismarine_slab");
    reveal_strlit("dark_prismarine_stairs");
    reveal_strlit("deepslate_brick_slab");
    reveal_strlit("deepslate_brick_stairs");
    reveal_strlit("deepslate_bricks");
    reveal_strlit("deepslate_tile_slab");
    reveal_strlit("deepslate_tile_stairs");
    reveal_strlit("deepslate_tiles");
    reveal_strlit("diorite");
    reveal_strlit("diorite_slab");
    reveal_strlit("diorite_stairs");
    reveal_strlit("end_stone_brick_slab");
    reveal_strlit("end_stone_brick_stairs");
    reveal_strlit("end_stone_bricks");
    reveal_strlit("ender_chest");
    reveal_strlit("exposed_copper_chest");
    reveal_strlit("exposed_cut_copper");
    reveal_strlit("exposed_cut_copper_slab");
    reveal_strlit("exposed_cut_copper_stairs");
    reveal_strlit("glass");
    reveal_strlit("glass_pane");
    reveal_strlit("granite");
    reveal_strlit("granite_slab");
    reveal_strlit("granite_stairs");
    reveal_strlit("gray_bed");
    reveal_strlit("gray_stained_glass");
    reveal_strlit("gray_stained_glass_pane");
    reveal_strlit("green_bed");
    reveal_strlit("green_stained_glass");
    reveal_strlit("green_stained_glass_pane");
    reveal_strlit("jungle_fence");
    reveal_strlit("jungle_log");
    reveal_strlit("jungle_planks");
    reveal_strlit("jungle_slab");
    reveal_strlit("jungle_stairs");
    reveal_strlit("jungle_wood");
    reveal_strlit("light_blue_bed");
    reveal_strlit("light_blue_stained_glass");
    reveal_strlit("light_blue_stained_glass_pane");
    reveal_strlit("light_gray_bed");
    reveal_strlit("light_gray_stained_glass");
    reveal_strlit("light_gray_stained_glass_pane");
    reveal_strlit("lime_bed");
    reveal_strlit("lime_stained_glass");
    reveal_strlit("lime_stained_glass_pane");
    reveal_strlit("magenta_bed");
    reveal_strlit("magenta_stained_glass");
    reveal_strlit("magenta_stained_glass_pane");
    reveal_strlit("mangrove_fence");
    reveal_strlit("mangrove_log");
    reveal_strlit("mangrove_planks");
    reveal_strlit("mangrove_slab");
    reveal_strlit("mangrove_stairs");
    reveal_strlit("mangrove_wood");
    reveal_strlit("mossy_cobblestone");
    reveal_strlit("mossy_cobblestone_slab");
    reveal_strlit("mossy_cobblestone_stairs");
    reveal_strlit("mossy_stone_brick_slab");
    reveal_strlit("mossy_stone_brick_stairs");
    reveal_strlit("mossy_stone_bricks");
    reveal_strlit("mud_brick_slab");
    reveal_strlit("mud_brick_stairs");
    reveal_strlit("mud_bricks");
    reveal_strlit("nether_brick_slab");
    reveal_strlit("nether_brick_stairs");
    reveal_strlit("nether_bricks");
    reveal_strlit("oak_fence");
    reveal_strlit("oak_log");
    reveal_strlit("oak_planks");
    reveal_strlit("oak_slab");
    reveal_strlit("oak_stairs");
    reveal_strlit("oak_wood");
    reveal_strlit("orange_bed");
    reveal_strlit("orange_stained_glass");
    reveal_strlit("orange_stained_glass_pane");
    reveal_strlit("oxidized_copper_chest");
    reveal_strlit("oxidized_cut_copper");
    reveal_strlit("oxidized_cut_copper_slab");
    reveal_strlit("oxidized_cut_copper_stairs");
    reveal_strlit("pink_bed");
    reveal_strlit("pink_stained_glass");
    reveal_strlit("pink_stained_glass_pane");
    reveal_strlit("polished_andesite");
    reveal_strlit("polished_andesite_slab");
    reveal_strlit("polished_andesite_stairs");
    reveal_strlit("polished_blackstone");
    reveal_strlit("polished_blackstone_brick_slab");
    reveal_strlit("polished_blackstone_brick_stairs");
    reveal_strlit("polished_blackstone_bricks");
    reveal_strlit("polished_blackstone_slab");
    reveal_strlit("polished_blackstone_stairs");
    reveal_strlit("polished_deepslate");
    reveal_strlit("polished_deepslate_slab");
    reveal_strlit("polished_deepslate_stairs");
    reveal_strlit("polished_diorite");
    reveal_strlit("polished_diorite_slab");
    reveal_strlit("polished_diorite_stairs");
    reveal_strlit("polished_granite");
    reveal_strlit("polished_granite_slab");
    reveal_strlit("polished_granite_stairs");
    reveal_strlit("prismarine");
    reveal_strlit("prismarine_brick_slab");
    reveal_strlit("prismarine_brick_stairs");
    reveal_strlit("prismarine_bricks");
    reveal_strlit("prismarine_slab");
    reveal_strlit("prismarine_stairs");
    reveal_strlit("purple_bed");
    reveal_strlit("purple_stained_glass");
    reveal_strlit("purple_stained_glass_pane");
    reveal_strlit("purpur_block");
    reveal_strlit("purpur_slab");
    reveal_strlit("purpur_stairs");
    reveal_strlit("quartz_block");
    reveal_strlit("quartz_slab");
    reveal_strlit("quartz_stairs");
    reveal_strlit("red_bed");
    reveal_strlit("red_nether_brick_slab");
    reveal_strlit("red_nether_brick_stairs");
    reveal_strlit("red_nether_bricks");
    reveal_strlit("red_sandstone");
    reveal_strlit("red_sandstone_slab");
    reveal_strlit("red_sandstone_stairs");
    reveal_strlit("red_stained_glass");
    reveal_strlit("red_stained_glass_pane");
    reveal_strlit("sandstone");
    reveal_strlit("sandstone_slab");
    reveal_strlit("sandstone_stairs");
    reveal_strlit("smooth_quartz");
    reveal_strlit("smooth_quartz_slab");
    reveal_strlit("smooth_quartz_stairs");
    reveal_strlit("smooth_red_sandstone");
    reveal_strlit("smooth_red_sandstone_slab");
    reveal_strlit("smooth_red_sandstone_stairs");
    reveal_strlit("smooth_sandstone");
    reveal_strlit("smooth_sandstone_slab");
    reveal_strlit("smooth_sandstone_stairs");
    reveal_strlit("spruce_fence");
    reveal_strlit("spruce_log");
    reveal_strlit("spruce_planks");
    reveal_strlit("spruce_slab");
    reveal_strlit("spruce_stairs");
    reveal_strlit("spruce_wood");
    reveal_strlit("stone");
    reveal_strlit("stone_brick_slab");
    reveal_strlit("stone_brick_stairs");
    reveal_strlit("stone_bricks");
    reveal_strlit("stone_slab");
    reveal_strlit("stone_stairs");
    reveal_strlit("stripped_acacia_wood");
    reveal_strlit("stripped_birch_wood");
    reveal_strlit("stripped_cherry_wood");
    reveal_strlit("stripped_crimson_hyphae");
    reveal_strlit("stripped_dark_oak_wood");
    reveal_strlit("stripped_jungle_wood");
    reveal_strlit("stripped_mangrove_wood");
    reveal_strlit("stripped_oak_wood");
    reveal_strlit("stripped_spruce_wood");
    reveal_strlit("stripped_warped_hyphae");
    reveal_strlit("tinted_glass");
    reveal_strlit("trapped_chest");
    reveal_strlit("warped_fence");
    reveal_strlit("warped_hyphae");
    reveal_strlit("warped_planks");
    reveal_strlit("warped_slab");
    reveal_strlit("warped_stairs");
    reveal_strlit("warped_stem");
    reveal_strlit("waxed_copper_chest");
    reveal_strlit("waxed_cut_copper");
    reveal_strlit("waxed_cut_copper_slab");
    reveal_strlit("waxed_cut_copper_stairs");
    reveal_strlit("waxed_exposed_copper_chest");
    reveal_strlit("waxed_exposed_cut_copper");
    reveal_strlit("waxed_exposed_cut_copper_slab");
    reveal_strlit("waxed_exposed_cut_copper_stairs");
    reveal_strlit("waxed_oxidized_copper_chest");
    reveal_strlit("waxed_oxidized_cut_copper");
    reveal_strlit("waxed_oxidized_cut_copper_slab");
    reveal_strlit("waxed_oxidized_cut_copper_stairs");
    reveal_strlit("waxed_weathered_copper_chest");
    reveal_strlit("waxed_weathered_cut_copper");
    reveal_strlit("waxed_weathered_cut_copper_slab");
    reveal_strlit("waxed_weathered_cut_copper_stairs");
    reveal_strlit("weathered_copper_chest");
    reveal_strlit("weathered_cut_copper");
    reveal_strlit("weathered_cut_copper_slab");
    reveal_strlit("weathered_cut_copper_stairs");
    reveal_strlit("white_bed");
    reveal_strlit("white_stained_glass");
    reveal_strlit("white_stained_glass_pane");
    reveal_strlit("white_wool");
    reveal_strlit("yellow_bed");
    reveal_strlit("yellow_stained_glass");
    reveal_strlit("yellow_stained_glass_pane");
    assert("glass_pane"@[0] != "oak_stairs"@[0]);
    assert("glass_pane"@[0] != "birch_slab"@[0]);
    assert("glass_pane"@[0] != "stone_slab"@[0]);
    assert("glass_pane"@[0] != "brick_slab"@[0]);
    assert("glass_pane"@[0] != "orange_bed"@[0]);
    assert("glass_pane"@[0] != "yellow_bed"@[0]);
    assert("glass_pane"@[0] != "purple_bed"@[0]);
    assert("glass_pane"@[0] != "birch_wood"@[0]);
    assert("tinted_glass"@[0] != "birch_stairs"@[0]);
    assert("tinted_glass"@[0] != "crimson_slab"@[0]);
    assert("tinted_glass"@[0] != "stone_stairs"@[0]);
    assert("tinted_glass"@[0] != "granite_slab"@[0]);
    assert("tinted_glass"@[0] != "diorite_slab"@[0]);
    assert("tinted_glass"@[0] != "brick_stairs"@[0]);
    assert("tinted_glass"@[0] != "spruce_fence"@[0]);
    assert("tinted_glass"@[0] != "jungle_fence"@[0]);
    assert("tinted_glass"@[0] != "acacia_fence"@[0]);
    assert("tinted_glass"@[0] != "cherry_fence"@[0]);
    assert("tinted_glass"@[0] != "bamboo_fence"@[0]);
    assert("tinted_glass"@[0] != "warped_fence"@[0]);
    assert("tinted_glass"@[0] != "copper_chest"@[0]);
    assert("white_stained_glass_pane"@[0] != "mossy_cobblestone_stairs"@[0]);
    assert("white_stained_glass_pane"@[0] != "mossy_stone_brick_stairs"@[0]);
    assert("white_stained_glass_pane"@[0] != "polished_andesite_stairs"@[0]);
    assert("white_stained_glass_pane"@[0] != "polished_blackstone_slab"@[0]);
    assert("white_stained_glass_pane"@[0] != "cobbled_deepslate_stairs"@[0]);
    assert("white_stained_glass_pane"@[0] != "oxidized_cut_copper_slab"@[0]);
    assert("white_stained_glass_pane"@.len() != "glass_pane"@.len());
    assert("white_stained_glass"@[0] != "nether_brick_stairs"@[0]);
    assert("white_stained_glass"@[0] != "deepslate_tile_slab"@[0]);
    assert("white_stained_glass"@[0] != "stripped_birch_wood"@[0]);
    assert("white_stained_glass"@.len() != "white_stained_glass_pane"@.len());
    assert("light_gray_stained_glass_pane"@[0] != "waxed_exposed_cut_copper_slab"@[0]);
    assert("light_gray_stained_glass_pane"@.len() != "glass_pane"@.len());
    assert("light_gray_stained_glass"@[0] != "mossy_cobblestone_stairs"@[0]);
    assert("light_gray_stained_glass"@[0] != "mossy_stone_brick_stairs"@[0]);
    assert("light_gray_stained_glass"@[0] != "polished_andesite_stairs"@[0]);
    assert("light_gray_stained_glass"@[0] != "polished_blackstone_slab"@[0]);
    assert("light_gray_stained_glass"@[0] != "cobbled_deepslate_stairs"@[0]);
    assert("light_gray_stained_glass"@[0] != "oxidized_cut_copper_slab"@[0]);
    assert("light_gray_stained_glass"@[0] != "white_stained_glass_pane"@[0]);
    assert("light_gray_stained_glass"@.len() != "light_gray_stained_glass_pane"@.len());
    assert("gray_stained_glass_pane"@[0] != "polished_granite_stairs"@[0]);
    assert("gray_stained_glass_pane"@[0] != "polished_diorite_stairs"@[0]);
    assert("gray_stained_glass_pane"@[0] != "red_nether_brick_stairs"@[0]);
    assert("gray_stained_glass_pane"@[0] != "smooth_sandstone_stairs"@[0]);
    assert("gray_stained_glass_pane"@[0] != "prismarine_brick_stairs"@[0]);
    assert("gray_stained_glass_pane"@[0] != "polished_deepslate_slab"@[0]);
    assert("gray_stained_glass_pane"@[0] != "exposed_cut_copper_slab"@[0]);
    assert("gray_stained_glass_pane"@[0] != "waxed_cut_copper_stairs"@[0]);
    assert("gray_stained_glass_pane"@[0] != "stripped_crimson_hyphae"@[0]);
    assert("gray_stained_glass_pane"@.len() != "glass_pane"@.len());
    assert("gray_stained_glass_pane"@.len() != "light_gray_stained_glass_pane"@.len());
    assert("gray_stained_glass"@[0] != "bamboo_mosaic_slab"@[0]);
    assert("gray_stained_glass"@[0] != "cobblestone_stairs"@[0]);
    assert("gray_stained_glass"@[0] != "stone_brick_stairs"@[0]);
    assert("gray_stained_glass"@[0] != "red_sandstone_slab"@[0]);
    assert("gray_stained_glass"@[0] != "smooth_quartz_slab"@[0]);
    assert("gray_stained_glass"@[0] != "waxed_copper_chest"@[0]);
    assert("gray_stained_glass"@.len() != "light_gray_stained_glass_pane"@.len());
    assert("gray_stained_glass"@.len() != "light_gray_stained_glass"@.len());
    assert("gray_stained_glass"@.len() != "gray_stained_glass_pane"@.len());
    assert("black_stained_glass_pane"@[0] != "mossy_cobblestone_stairs"@[0]);
    assert("black_stained_glass_pane"@[0] != "mossy_stone_brick_stairs"@[0]);
    assert("black_stained_glass_pane"@[0] != "polished_andesite_stairs"@[0]);
    assert("black_stained_glass_pane"@[0] != "polished_blackstone_slab"@[0]);
    assert("black_stained_glass_pane"@[0] != "cobbled_deepslate_stairs"@[0]);
    assert("black_stained_glass_pane"@[0] != "oxidized_cut_copper_slab"@[0]);
    assert("black_stained_glass_pane"@.len() != "glass_pane"@.len());
    assert("black_stained_glass_pane"@[0] != "white_stained_glass_pane"@[0]);
    assert("black_stained_glass_pane"@[0] != "light_gray_stained_glass"@[0]);
    assert("black_stained_glass"@[0] != "nether_brick_stairs"@[0]);
    assert("black_stained_glass"@[0] != "deepslate_tile_slab"@[0]);
    assert("black_stained_glass"@[0] != "stripped_birch_wood"@[0]);
    assert("black_stained_glass"@[0] != "white_stained_glass"@[0]);
    assert("black_stained_glass"@.len() != "black_stained_glass_pane"@.len());
    assert("brown_stained_glass_pane"@[0] != "mossy_cobblestone_stairs"@[0]);
    assert("brown_stained_glass_pane"@[0] != "mossy_stone_brick_stairs"@[0]);
    assert("brown_stained_glass_pane"@[0] != "polished_andesite_stairs"@[0]);
    assert("brown_stained_glass_pane"@[0] != "polished_blackstone_slab"@[0]);
    assert("brown_stained_glass_pane"@[0] != "cobbled_deepslate_stairs"@[0]);
    assert("brown_stained_glass_pane"@[0] != "oxidized_cut_copper_slab"@[0]);
    assert("brown_stained_glass_pane"@.len() != "glass_pane"@.len());
    assert("brown_stained_glass_pane"@[0] != "white_stained_glass_pane"@[0]);
    assert("brown_stained_glass_pane"@[0] != "light_gray_stained_glass"@[0]);
    assert("brown_stained_glass_pane"@[1] != "black_stained_glass_pane"@[1]);
    assert("brown_stained_glass"@[0] != "nether_brick_stairs"@[0]);
    assert("brown_stained_glass"@[0] != "deepslate_tile_slab"@[0]);
    assert("brown_stained_glass"@[0] != "stripped_birch_wood"@[0]);
    assert("brown_stained_glass"@[0] != "white_stained_glass"@[0]);
    assert("brown_stained_glass"@[1] != "black_stained_glass"@[1]);
    assert("brown_stained_glass"@.len() != "brown_stained_glass_pane"@.len());
    assert("red_stained_glass_pane"@[0] != "mossy_cobblestone_slab"@[0]);
    assert("red_stained_glass_pane"@[0] != "mossy_stone_brick_slab"@[0]);
    assert("red_stained_glass_pane"@[0] != "polished_andesite_slab"@[0]);
    assert("red_stained_glass_pane"@[0] != "dark_prismarine_stairs"@[0]);
    assert("red_stained_glass_pane"@[0] != "end_stone_brick_stairs"@[0]);
    assert("red_stained_glass_pane"@[0] != "deepslate_brick_stairs"@[0]);
    assert("red_stained_glass_pane"@[0] != "cobbled_deepslate_slab"@[0]);
    assert("red_stained_glass_pane"@[0] != "weathered_copper_chest"@[0]);
    assert("red_stained_glass_pane"@[0] != "stripped_dark_oak_wood"@[0]);
    assert("red_stained_glass_pane"@[0] != "stripped_mangrove_wood"@[0]);
    assert("red_stained_glass_pane"@[0] != "stripped_warped_hyphae"@[0]);
    assert("red_stained_glass_pane"@.len() != "glass_pane"@.len());
    assert("red_stained_glass"@[0] != "blackstone_stairs"@[0]);
    assert("red_stained_glass"@[0] != "nether_brick_slab"@[0]);
    assert("red_stained_glass"@[0] != "prismarine_stairs"@[0]);
    assert("red_stained_glass"@[0] != "cut_copper_stairs"@[0]);
    assert("red_stained_glass"@[0] != "stripped_oak_wood"@[0]);
    assert("red_stained_glass"@.len() != "red_stained_glass_pane"@.len());
    assert("orange_stained_glass_pane"@[0] != "smooth_red_sandstone_slab"@[0]);
    assert("orange_stained_glass_pane"@[0] != "polished_deepslate_stairs"@[0]);
    assert("orange_stained_glass_pane"@[0] != "exposed_cut_copper_stairs"@[0]);
    assert("orange_stained_glass_pane"@[0] != "weathered_cut_copper_slab"@[0]);
    assert("orange_stained_glass_pane"@.len() != "glass_pane"@.len());
    assert("orange_stained_glass"@[0] != "bamboo_mosaic_stairs"@[0]);
    assert("orange_stained_glass"@[0] != "red_sandstone_stairs"@[0]);
    assert("orange_stained_glass"@[0] != "smooth_quartz_stairs"@[0]);
    assert("orange_stained_glass"@[0] != "dark_prismarine_slab"@[0]);
    assert("orange_stained_glass"@[0] != "end_stone_brick_slab"@[0]);
    assert("orange_stained_glass"@[0] != "deepslate_brick_slab"@[0]);
    assert("orange_stained_glass"@[0] != "exposed_copper_chest"@[0]);
    assert("orange_stained_glass"@[0] != "stripped_spruce_wood"@[0]);
    assert("orange_stained_glass"@[0] != "stripped_jungle_wood"@[0]);
    assert("orange_stained_glass"@[0] != "stripped_acacia_wood"@[0]);
    assert("orange_stained_glass"@[0] != "stripped_cherry_wood"@[0]);
    assert("orange_stained_glass"@.len() != "orange_stained_glass_pane"@.len());
    assert("yellow_stained_glass_pane"@[0] != "smooth_red_sandstone_slab"@[0]);
    assert("yellow_stained_glass_pane"@[0] != "polished_deepslate_stairs"@[0]);
    assert("yellow_stained_glass_pane"@[0] != "exposed_cut_copper_stairs"@[0]);
    assert("yellow_stained_glass_pane"@[0] != "weathered_cut_copper_slab"@[0]);
    assert("yellow_stained_glass_pane"@.len() != "glass_pane"@.len());
    assert("yellow_stained_glass_pane"@[0] != "orange_stained_glass_pane"@[0]);
    assert("yellow_stained_glass"@[0] != "bamboo_mosaic_stairs"@[0]);
    assert("yellow_stained_glass"@[0] != "red_sandstone_stairs"@[0]);
    assert("yellow_stained_glass"@[0] != "smooth_quartz_stairs"@[0]);
    assert("yellow_stained_glass"@[0] != "dark_prismarine_slab"@[0]);
    assert("yellow_stained_glass"@[0] != "end_stone_brick_slab"@[0]);
    assert("yellow_stained_glass"@[0] != "deepslate_brick_slab"@[0]);
    assert("yellow_stained_glass"@[0] != "exposed_copper_chest"@[0]);
    assert("yellow_stained_glass"@[0] != "stripped_spruce_wood"@[0]);
    assert("yellow_stained_glass"@[0] != "stripped_jungle_wood"@[0]);
    assert("yellow_stained_glass"@[0] != "stripped_acacia_wood"@[0]);
    assert("yellow_stained_glass"@[0] != "stripped_cherry_wood"@[0]);
    assert("yellow_stained_glass"@[0] != "orange_stained_glass"@[0]);
    assert("yellow_stained_glass"@.len() != "yellow_stained_glass_pane"@.len());
    assert("lime_stained_glass_pane"@[0] != "polished_granite_stairs"@[0]);
    assert("lime_stained_glass_pane"@[0] != "polished_diorite_stairs"@[0]);
    assert("lime_stained_glass_pane"@[0] != "red_nether_brick_stairs"@[0]);
    assert("lime_stained_glass_pane"@[0] != "smooth_sandstone_stairs"@[0]);
    assert("lime_stained_glass_pane"@[0] != "prismarine_brick_stairs"@[0]);
    assert("lime_stained_glass_pane"@[0] != "polished_deepslate_slab"@[0]);
    assert("lime_stained_glass_pane"@[0] != "exposed_cut_copper_slab"@[0]);
    assert("lime_stained_glass_pane"@[0] != "waxed_cut_copper_stairs"@[0]);
    assert("lime_stained_glass_pane"@[0] != "stripped_crimson_hyphae"@[0]);
    assert("lime_stained_glass_pane"@.len() != "glass_pane"@.len());
    assert("lime_stained_glass_pane"@[0] != "gray_stained_glass_pane"@[0]);
    assert("lime_stained_glass"@[0] != "bamboo_mosaic_slab"@[0]);
    assert("lime_stained_glass"@[0] != "cobblestone_stairs"@[0]);
    assert("lime_stained_glass"@[0] != "stone_brick_stairs"@[0]);
    assert("lime_stained_glass"@[0] != "red_sandstone_slab"@[0]);
    assert("lime_stained_glass"@[0] != "smooth_quartz_slab"@[0]);
    assert("lime_stained_glass"@[0] != "waxed_copper_chest"@[0]);
    assert("lime_stained_glass"@[0] != "gray_stained_glass"@[0]);
    assert("lime_stained_glass"@.len() != "lime_stained_glass_pane"@.len());
    assert("green_stained_glass_pane"@[0] != "mossy_cobblestone_stairs"@[0]);
    assert("green_stained_glass_pane"@[0] != "mossy_stone_brick_stairs"@[0]);
    assert("green_stained_glass_pane"@[0] != "polished_andesite_stairs"@[0]);
    assert("green_stained_glass_pane"@[0] != "polished_blackstone_slab"@[0]);
    assert("green_stained_glass_pane"@[0] != "cobbled_deepslate_stairs"@[0]);
    assert("green_stained_glass_pane"@[0] != "oxidized_cut_copper_slab"@[0]);
    assert("green_stained_glass_pane"@.len() != "glass_pane"@.len());
    assert("green_stained_glass_pane"@[0] != "white_stained_glass_pane"@[0]);
    assert("green_stained_glass_pane"@[0] != "light_gray_stained_glass"@[0]);
    assert("green_stained_glass_pane"@[0] != "black_stained_glass_pane"@[0]);
    assert("green_stained_glass_pane"@[0] != "brown_stained_glass_pane"@[0]);
    assert("green_stained_glass"@[0] != "nether_brick_stairs"@[0]);
    assert("green_stained_glass"@[0] != "deepslate_tile_slab"@[0]);
    assert("green_stained_glass"@[0] != "stripped_birch_wood"@[0]);
    assert("green_stained_glass"@[0] != "white_stained_glass"@[0]);
    assert("green_stained_glass"@[0] != "black_stained_glass"@[0]);
    assert("green_stained_glass"@[0] != "brown_stained_glass"@[0]);
    assert("green_stained_glass"@.len() != "green_stained_glass_pane"@.len());
    assert("cyan_stained_glass_pane"@[0] != "polished_granite_stairs"@[0]);
    assert("cyan_stained_glass_pane"@[0] != "polished_diorite_stairs"@[0]);
    assert("cyan_stained_glass_pane"@[0] != "red_nether_brick_stairs"@[0]);
    assert("cyan_stained_glass_pane"@[0] != "smooth_sandstone_stairs"@[0]);
    assert("cyan_stained_glass_pane"@[0] != "prismarine_brick_stairs"@[0]);
    assert("cyan_stained_glass_pane"@[0] != "polished_deepslate_slab"@[0]);
    assert("cyan_stained_glass_pane"@[0] != "exposed_cut_copper_slab"@[0]);
    assert("cyan_stained_glass_pane"@[0] != "waxed_cut_copper_stairs"@[0]);
    assert("cyan_stained_glass_pane"@[0] != "stripped_crimson_hyphae"@[0]);
    assert("cyan_stained_glass_pane"@.len() != "glass_pane"@.len());
    assert("cyan_stained_glass_pane"@[0] != "gray_stained_glass_pane"@[0]);
    assert("cyan_stained_glass_pane"@[0] != "lime_stained_glass_pane"@[0]);
    assert("cyan_stained_glass"@[0] != "bamboo_mosaic_slab"@[0]);
    assert("cyan_stained_glass"@[1] != "cobblestone_stairs"@[1]);
    assert("cyan_stained_glass"@[0] != "stone_brick_stairs"@[0]);
    assert("cyan_stained_glass"@[0] != "red_sandstone_slab"@[0]);
    assert("cyan_stained_glass"@[0] != "smooth_quartz_slab"@[0]);
    assert("cyan_stained_glass"@[0] != "waxed_copper_chest"@[0]);
    assert("cyan_stained_glass"@[0] != "gray_stained_glass"@[0]);
    assert("cyan_stained_glass"@[0] != "lime_stained_glass"@[0]);
    assert("cyan_stained_glass"@.len() != "cyan_stained_glass_pane"@.len());
    assert("light_blue_stained_glass_pane"@[0] != "waxed_exposed_cut_copper_slab"@[0]);
    assert("light_blue_stained_glass_pane"@.len() != "glass_pane"@.len());
    assert("light_blue_stained_glass_pane"@[6] != "light_gray_stained_glass_pane"@[6]);
    assert("light_blue_stained_glass"@[0] != "mossy_cobblestone_stairs"@[0]);
    assert("light_blue_stained_glass"@[0] != "mossy_stone_brick_stairs"@[0]);
    assert("light_blue_stained_glass"@[0] != "polished_andesite_stairs"@[0]);
    assert("light_blue_stained_glass"@[0] != "polished_blackstone_slab"@[0]);
    assert("light_blue_stained_glass"@[0] != "cobbled_deepslate_stairs"@[0]);
    assert("light_blue_stained_glass"@[0] != "oxidized_cut_copper_slab"@[0]);
    assert("light_blue_stained_glass"@[0] != "white_stained_glass_pane"@[0]);
    assert("light_blue_stained_glass"@[6] != "light_gray_stained_glass"@[6]);
    assert("light_blue_stained_glass"@[0] != "black_stained_glass_pane"@[0]);
    assert("light_blue_stained_glass"@[0] != "brown_stained_glass_pane"@[0]);
    assert("light_blue_stained_glass"@[0] != "green_stained_glass_pane"@[0]);
    assert("light_blue_stained_glass"@.len() != "light_blue_stained_glass_pane"@.len());
    assert("blue_stained_glass_pane"@[0] != "polished_granite_stairs"@[0]);
    assert("blue_stained_glass_pane"@[0] != "polished_diorite_stairs"@[0]);
    assert("blue_stained_glass_pane"@[0] != "red_nether_brick_stairs"@[0]);
    assert("blue_stained_glass_pane"@[0] != "smooth_sandstone_stairs"@[0]);
    assert("blue_stained_glass_pane"@[0] != "prismarine_brick_stairs"@[0]);
    assert("blue_stained_glass_pane"@[0] != "polished_deepslate_slab"@[0]);
    assert("blue_stained_glass_pane"@[0] != "exposed_cut_copper_slab"@[0]);
    assert("blue_stained_glass_pane"@[0] != "waxed_cut_copper_stairs"@[0]);
    assert("blue_stained_glass_pane"@[0] != "stripped_crimson_hyphae"@[0]);
    assert("blue_stained_glass_pane"@.len() != "glass_pane"@.len());
    assert("blue_stained_glass_pane"@[0] != "gray_stained_glass_pane"@[0]);
    assert("blue_stained_glass_pane"@[0] != "lime_stained_glass_pane"@[0]);
    assert("blue_stained_glass_pane"@[0] != "cyan_stained_glass_pane"@[0]);
    assert("blue_stained_glass_pane"@.len() != "light_blue_stained_glass_pane"@.len());
    assert("blue_stained_glass"@[1] != "bamboo_mosaic_slab"@[1]);
    assert("blue_stained_glass"@[0] != "cobblestone_stairs"@[0]);
    assert("blue_stained_glass"@[0] != "stone_brick_stairs"@[0]);
    assert("blue_stained_glass"@[0] != "red_sandstone_slab"@[0]);
    assert("blue_stained_glass"@[0] != "smooth_quartz_slab"@[0]);
    assert("blue_stained_glass"@[0] != "waxed_copper_chest"@[0]);
    assert("blue_stained_glass"@[0] != "gray_stained_glass"@[0]);
    assert("blue_stained_glass"@[0] != "lime_stained_glass"@[0]);
    assert("blue_stained_glass"@[0] != "cyan_stained_glass"@[0]);
    assert("blue_stained_glass"@.len() != "light_blue_stained_glass_pane"@.len());
    assert("blue_stained_glass"@.len() != "light_blue_stained_glass"@.len());
    assert("blue_stained_glass"@.len() != "blue_stained_glass_pane"@.len());
    assert("purple_stained_glass_pane"@[0] != "smooth_red_sandstone_slab"@[0]);
    assert("purple_stained_glass_pane"@[1] != "polished_deepslate_stairs"@[1]);
    assert("purple_stained_glass_pane"@[0] != "exposed_cut_copper_stairs"@[0]);
    assert("purple_stained_glass_pane"@[0] != "weathered_cut_copper_slab"@[0]);
    assert("purple_stained_glass_pane"@.len() != "glass_pane"@.len());
    assert("purple_stained_glass_pane"@[0] != "orange_stained_glass_pane"@[0]);
    assert("purple_stained_glass_pane"@[0] != "yellow_stained_glass_pane"@[0]);
    assert("purple_stained_glass"@[0] != "bamboo_mosaic_stairs"@[0]);
    assert("purple_stained_glass"@[0] != "red_sandstone_stairs"@[0]);
    assert("purple_stained_glass"@[0] != "smooth_quartz_stairs"@[0]);
    assert("purple_stained_glass"@[0] != "dark_prismarine_slab"@[0]);
    assert("purple_stained_glass"@[0] != "end_stone_brick_slab"@[0]);
    assert("purple_stained_glass"@[0] != "deepslate_brick_slab"@[0]);
    assert("purple_stained_glass"@[0] != "exposed_copper_chest"@[0]);
    assert("purple_stained_glass"@[0] != "stripped_spruce_wood"@[0]);
    assert("purple_stained_glass"@[0] != "stripped_jungle_wood"@[0]);
    assert("purple_stained_glass"@[0] != "stripped_acacia_wood"@[0]);
    assert("purple_stained_glass"@[0] != "stripped_cherry_wood"@[0]);
    assert("purple_stained_glass"@[0] != "orange_stained_glass"@[0]);
    assert("purple_stained_glass"@[0] != "yellow_stained_glass"@[0]);
    assert("purple_stained_glass"@.len() != "purple_stained_glass_pane"@.len());
    assert("magenta_stained_glass_pane"@[0] != "polished_blackstone_stairs"@[0]);
    assert("magenta_stained_glass_pane"@[0] != "oxidized_cut_copper_stairs"@[0]);
    assert("magenta_stained_glass_pane"@[0] != "waxed_exposed_copper_chest"@[0]);
    assert("magenta_stained_glass_pane"@.len() != "glass_pane"@.len());
    assert("magenta_stained_glass"@[0] != "polished_granite_slab"@[0]);
    assert("magenta_stained_glass"@[0] != "polished_diorite_slab"@[0]);
    assert("magenta_stained_glass"@[0] != "red_nether_brick_slab"@[0]);
    assert("magenta_stained_glass"@[0] != "smooth_sandstone_slab"@[0]);
    assert("magenta_stained_glass"@[0] != "prismarine_brick_slab"@[0]);
    assert("magenta_stained_glass"@[0] != "deepslate_tile_stairs"@[0]);
    assert("magenta_stained_glass"@[0] != "waxed_cut_copper_slab"@[0]);
    assert("magenta_stained_glass"@[0] != "oxidized_copper_chest"@[0]);
    assert("magenta_stained_glass"@.len() != "magenta_stained_glass_pane"@.len());
    assert("pink_stained_glass_pane"@[1] != "polished_granite_stairs"@[1]);
    assert("pink_stained_glass_pane"@[1] != "polished_diorite_stairs"@[1]);
    assert("pink_stained_glass_pane"@[0] != "red_nether_brick_stairs"@[0]);
    assert("pink_stained_glass_pane"@[0] != "smooth_sandstone_stairs"@[0]);
    assert("pink_stained_glass_pane"@[1] != "prismarine_brick_stairs"@[1]);
    assert("pink_stained_glass_pane"@[1] != "polished_deepslate_slab"@[1]);
    assert("pink_stained_glass_pane"@[0] != "exposed_cut_copper_slab"@[0]);
    assert("pink_stained_glass_pane"@[0] != "waxed_cut_copper_stairs"@[0]);
    assert("pink_stained_glass_pane"@[0] != "stripped_crimson_hyphae"@[0]);
    assert("pink_stained_glass_pane"@.len() != "glass_pane"@.len());
    assert("pink_stained_glass_pane"@[0] != "gray_stained_glass_pane"@[0]);
    assert("pink_stained_glass_pane"@[0] != "lime_stained_glass_pane"@[0]);
    assert("pink_stained_glass_pane"@[0] != "cyan_stained_glass_pane"@[0]);
    assert("pink_stained_glass_pane"@[0] != "blue_stained_glass_pane"@[0]);
    assert("pink_stained_glass"@[0] != "bamboo_mosaic_slab"@[0]);
    assert("pink_stained_glass"@[0] != "cobblestone_stairs"@[0]);
    assert("pink_stained_glass"@[0] != "stone_brick_stairs"@[0]);
    assert("pink_stained_glass"@[0] != "red_sandstone_slab"@[0]);
    assert("pink_stained_glass"@[0] != "smooth_quartz_slab"@[0]);
    assert("pink_stained_glass"@[0] != "waxed_copper_chest"@[0]);
    assert("pink_stained_glass"@[0] != "gray_stained_glass"@[0]);
    assert("pink_stained_glass"@[0] != "lime_stained_glass"@[0]);
    assert("pink_stained_glass"@[0] != "cyan_stained_glass"@[0]);
    assert("pink_stained_glass"@[0] != "blue_stained_glass"@[0]);
    assert("pink_stained_glass"@.len() != "pink_stained_glass_pane"@.len());
    assert("glass"@[0] != "chest"@[0]);
    assert("glass"@.len() != "glass_pane"@.len());
    assert("glass"@.len() != "tinted_glass"@.len());
    assert("glass"@.len() != "white_stained_glass_pane"@.len());
    assert("glass"@.len() != "white_stained_glass"@.len());
    assert("glass"@.len() != "light_gray_stained_glass_pane"@.len());
    assert("glass"@.len() != "light_gray_stained_glass"@.len());
    assert("glass"@.len() != "gray_stained_glass_pane"@.len());
    assert("glass"@.len() != "gray_stained_glass"@.len());
    assert("glass"@.len() != "black_stained_glass_pane"@.len());
    assert("glass"@.len() != "black_stained_glass"@.len());
    assert("glass"@.len() != "brown_stained_glass_pane"@.len());
    assert("glass"@.len() != "brown_stained_glass"@.len());
    assert("glass"@.len() != "red_stained_glass_pane"@.len());
    assert("glass"@.len() != "red_stained_glass"@.len());
    assert("glass"@.len() != "orange_stained_glass_pane"@.len());
    assert("glass"@.len() != "orange_stained_glass"@.len());
    assert("glass"@.len() != "yellow_stained_glass_pane"@.len());
    assert("glass"@.len() != "yellow_stained_glass"@.len());
    assert("glass"@.len() != "lime_stained_glass_pane"@.len());
    assert("glass"@.len() != "lime_stained_glass"@.len());
    assert("glass"@.len() != "green_stained_glass_pane"@.len());
    assert("glass"@.len() != "green_stained_glass"@.len());
    assert("glass"@.len() != "cyan_stained_glass_pane"@.len());
    assert("glass"@.len() != "cyan_stained_glass"@.len());
    assert("glass"@.len() != "light_blue_stained_glass_pane"@.len());
    assert("glass"@.len() != "light_blue_stained_glass"@.len());
    assert("glass"@.len() != "blue_stained_glass_pane"@.len());
    assert("glass"@.len() != "blue_stained_glass"@.len());
    assert("glass"@.len() != "purple_stained_glass_pane"@.len());
    assert("glass"@.len() != "purple_stained_glass"@.len());
    assert("glass"@.len() != "magenta_stained_glass_pane"@.len());
    assert("glass"@.len() != "magenta_stained_glass"@.len());
    assert("glass"@.len() != "pink_stained_glass_pane"@.len());
    assert("glass"@.len() != "pink_stained_glass"@.len());
}

/// Every glass block and pane becomes plain glass: stained glass and panes
/// of every colour, tinted glass and the plain pane are all drawn with the
/// texture of `minecraft:glass`, which is `minecraft/glass`.
pub proof fn lemma_all_glass_is_glass(n: Seq<char>)
    requires
            n == "minecraft:glass_pane"@ ||
            n == "minecraft:tinted_glass"@ ||
            n == "minecraft:white_stained_glass_pane"@ ||
            n == "minecraft:white_stained_glass"@ ||
            n == "minecraft:light_gray_stained_glass_pane"@ ||
            n == "minecraft:light_gray_stained_glass"@ ||
            n == "minecraft:gray_stained_glass_pane"@ ||
            n == "minecraft:gray_stained_glass"@ ||
            n == "minecraft:black_stained_glass_pane"@ ||
            n == "minecraft:black_stained_glass"@ ||
            n == "minecraft:brown_stained_glass_pane"@ ||
            n == "minecraft:brown_stained_glass"@ ||
            n == "minecraft:red_stained_glass_pane"@ ||
            n == "minecraft:red_stained_glass"@ ||
            n == "minecraft:orange_stained_glass_pane"@ ||
            n == "minecraft:orange_stained_glass"@ ||
            n == "minecraft:yellow_stained_glass_pane"@ ||
            n == "minecraft:yellow_stained_glass"@ ||
            n == "minecraft:lime_stained_glass_pane"@ ||
            n == "minecraft:lime_stained_glass"@ ||
            n == "minecraft:green_stained_glass_pane"@ ||
            n == "minecraft:green_stained_glass"@ ||
            n == "minecraft:cyan_stained_glass_pane"@ ||
            n == "minecraft:cyan_stained_glass"@ ||
            n == "minecraft:light_blue_stained_glass_pane"@ ||
            n == "minecraft:light_blue_stained_glass"@ ||
            n == "minecraft:blue_stained_glass_pane"@ ||
            n == "minecraft:blue_stained_glass"@ ||
            n == "minecraft:purple_stained_glass_pane"@ ||
            n == "minecraft:purple_stained_glass"@ ||
            n == "minecraft:magenta_stained_glass_pane"@ ||
            n == "minecraft:magenta_stained_glass"@ ||
            n == "minecraft:pink_stained_glass_pane"@ ||
            n == "minecraft:pink_stained_glass"@ ||
            n == "minecraft:glass"@,
    ensures
        texture_for(n) == texture_for("minecraft:glass"@),
        texture_for(n) == "minecraft/glass"@,
{
    reveal_strlit("minecraft:");
    reveal_strlit("minecraft/");
    reveal_strlit("minecraft/glass");
    reveal_strlit("glass");
    reveal_strlit("glass_pane");
    reveal_strlit("minecraft:glass_pane");
    reveal_strlit("tinted_glass");
    reveal_strlit("minecraft:tinted_glass");
    reveal_strlit("white_stained_glass_pane");
    reveal_strlit("minecraft:white_stained_glass_pane");
    reveal_strlit("white_stained_glass");
    reveal_strlit("minecraft:white_stained_glass");
    reveal_strlit("light_gray_stained_glass_pane");
    reveal_strlit("minecraft:light_gray_stained_glass_pane");
    reveal_strlit("light_gray_stained_glass");
    reveal_strlit("minecraft:light_gray_stained_glass");
    reveal_strlit("gray_stained_glass_pane");
    reveal_strlit("minecraft:gray_stained_glass_pane");
    reveal_strlit("gray_stained_glass");
    reveal_strlit("minecraft:gray_stained_glass");
    reveal_strlit("black_stained_glass_pane");
    reveal_strlit("minecraft:black_stained_glass_pane");
    reveal_strlit("black_stained_glass");
    reveal_strlit("minecraft:black_stained_glass");
    reveal_strlit("brown_stained_glass_pane");
    reveal_strlit("minecraft:brown_stained_glass_pane");
    reveal_strlit("brown_stained_glass");
    reveal_strlit("minecraft:brown_stained_glass");
    reveal_strlit("red_stained_glass_pane");
    reveal_strlit("minecraft:red_stained_glass_pane");
    reveal_strlit("red_stained_glass");
    reveal_strlit("minecraft:red_stained_glass");
    reveal_strlit("orange_stained_glass_pane");
    reveal_strlit("minecraft:orange_stained_glass_pane");
    reveal_strlit("orange_stained_glass");
    reveal_strlit("minecraft:orange_stained_glass");
    reveal_strlit("yellow_stained_glass_pane");
    reveal_strlit("minecraft:yellow_stained_glass_pane");
    reveal_strlit("yellow_stained_glass");
    reveal_strlit("minecraft:yellow_stained_glass");
    reveal_strlit("lime_stained_glass_pane");
    reveal_strlit("minecraft:lime_stained_glass_pane");
    reveal_strlit("lime_stained_glass");
    reveal_strlit("minecraft:lime_stained_glass");
    reveal_strlit("green_stained_glass_pane");
    reveal_strlit("minecraft:green_stained_glass_pane");
    reveal_strlit("green_stained_glass");
    reveal_strlit("minecraft:green_stained_glass");
    reveal_strlit("cyan_stained_glass_pane");
    reveal_strlit("minecraft:cyan_stained_glass_pane");
    reveal_strlit("cyan_stained_glass");
    reveal_strlit("minecraft:cyan_stained_glass");
    reveal_strlit("light_blue_stained_glass_pane");
    reveal_strlit("minecraft:light_blue_stained_glass_pane");
    reveal_strlit("light_blue_stained_glass");
    reveal_strlit("minecraft:light_blue_stained_glass");
    reveal_strlit("blue_stained_glass_pane");
    reveal_strlit("minecraft:blue_stained_glass_pane");
    reveal_strlit("blue_stained_glass");
    reveal_strlit("minecraft:blue_stained_glass");
    reveal_strlit("purple_stained_glass_pane");
    reveal_strlit("minecraft:purple_stained_glass_pane");
    reveal_strlit("purple_stained_glass");
    reveal_strlit("minecraft:purple_stained_glass");
    reveal_strlit("magenta_stained_glass_pane");
    reveal_strlit("minecraft:magenta_stained_glass_pane");
    reveal_strlit("magenta_stained_glass");
    reveal_strlit("minecraft:magenta_stained_glass");
    reveal_strlit("pink_stained_glass_pane");
    reveal_strlit("minecraft:pink_stained_glass_pane");
    reveal_strlit("pink_stained_glass");
    reveal_strlit("minecraft:pink_stained_glass");
    reveal_strlit("glass");
    reveal_strlit("minecraft:glass");
    assert("minecraft:"@ + "glass_pane"@ =~= "minecraft:glass_pane"@);
    assert("minecraft:"@ + "tinted_glass"@ =~= "minecraft:tinted_glass"@);
    assert("minecraft:"@ + "white_stained_glass_pane"@ =~= "minecraft:white_stained_glass_pane"@);
    assert("minecraft:"@ + "white_stained_glass"@ =~= "minecraft:white_stained_glass"@);
    assert("minecraft:"@ + "light_gray_stained_glass_pane"@ =~= "minecraft:light_gray_stained_glass_pane"@);
    assert("minecraft:"@ + "light_gray_stained_glass"@ =~= "minecraft:light_gray_stained_glass"@);
    assert("minecraft:"@ + "gray_stained_glass_pane"@ =~= "minecraft:gray_stained_glass_pane"@);
    assert("minecraft:"@ + "gray_stained_glass"@ =~= "minecraft:gray_stained_glass"@);
    assert("minecraft:"@ + "black_stained_glass_pane"@ =~= "minecraft:black_stained_glass_pane"@);
    assert("minecraft:"@ + "black_stained_glass"@ =~= "minecraft:black_stained_glass"@);
    assert("minecraft:"@ + "brown_stained_glass_pane"@ =~= "minecraft:brown_stained_glass_pane"@);
    assert("minecraft:"@ + "brown_stained_glass"@ =~= "minecraft:brown_stained_glass"@);
    assert("minecraft:"@ + "red_stained_glass_pane"@ =~= "minecraft:red_stained_glass_pane"@);
    assert("minecraft:"@ + "red_stained_glass"@ =~= "minecraft:red_stained_glass"@);
    assert("minecraft:"@ + "orange_stained_glass_pane"@ =~= "minecraft:orange_stained_glass_pane"@);
    assert("minecraft:"@ + "orange_stained_glass"@ =~= "minecraft:orange_stained_glass"@);
    assert("minecraft:"@ + "yellow_stained_glass_pane"@ =~= "minecraft:yellow_stained_glass_pane"@);
    assert("minecraft:"@ + "yellow_stained_glass"@ =~= "minecraft:yellow_stained_glass"@);
    assert("minecraft:"@ + "lime_stained_glass_pane"@ =~= "minecraft:lime_stained_glass_pane"@);
    assert("minecraft:"@ + "lime_stained_glass"@ =~= "minecraft:lime_stained_glass"@);
    assert("minecraft:"@ + "green_stained_glass_pane"@ =~= "minecraft:green_stained_glass_pane"@);
    assert("minecraft:"@ + "green_stained_glass"@ =~= "minecraft:green_stained_glass"@);
    assert("minecraft:"@ + "cyan_stained_glass_pane"@ =~= "minecraft:cyan_stained_glass_pane"@);
    assert("minecraft:"@ + "cyan_stained_glass"@ =~= "minecraft:cyan_stained_glass"@);
    assert("minecraft:"@ + "light_blue_stained_glass_pane"@ =~= "minecraft:light_blue_stained_glass_pane"@);
    assert("minecraft:"@ + "light_blue_stained_glass"@ =~= "minecraft:light_blue_stained_glass"@);
    assert("minecraft:"@ + "blue_stained_glass_pane"@ =~= "minecraft:blue_stained_glass_pane"@);
    assert("minecraft:"@ + "blue_stained_glass"@ =~= "minecraft:blue_stained_glass"@);
    assert("minecraft:"@ + "purple_stained_glass_pane"@ =~= "minecraft:purple_stained_glass_pane"@);
    assert("minecraft:"@ + "purple_stained_glass"@ =~= "minecraft:purple_stained_glass"@);
    assert("minecraft:"@ + "magenta_stained_glass_pane"@ =~= "minecraft:magenta_stained_glass_pane"@);
    assert("minecraft:"@ + "magenta_stained_glass"@ =~= "minecraft:magenta_stained_glass"@);
    assert("minecraft:"@ + "pink_stained_glass_pane"@ =~= "minecraft:pink_stained_glass_pane"@);
    assert("minecraft:"@ + "pink_stained_glass"@ =~= "minecraft:pink_stained_glass"@);
    assert("minecraft:"@ + "glass"@ =~= "minecraft:glass"@);
    let x = n.skip(10);
    assert(n.subrange(0, 10) =~= "minecraft:"@);
    assert(base_name(n) == x);
    assert(n =~= "minecraft:"@ + x);
    assert(("minecraft:"@ + x).skip(10) =~= x);
    assert(("minecraft:"@ + "glass_pane"@).skip(10) =~= "glass_pane"@);
    assert(("minecraft:"@ + "tinted_glass"@).skip(10) =~= "tinted_glass"@);
    assert(("minecraft:"@ + "white_stained_glass_pane"@).skip(10) =~= "white_stained_glass_pane"@);
    assert(("minecraft:"@ + "white_stained_glass"@).skip(10) =~= "white_stained_glass"@);
    assert(("minecraft:"@ + "light_gray_stained_glass_pane"@).skip(10) =~= "light_gray_stained_glass_pane"@);
    assert(("minecraft:"@ + "light_gray_stained_glass"@).skip(10) =~= "light_gray_stained_glass"@);
    assert(("minecraft:"@ + "gray_stained_glass_pane"@).skip(10) =~= "gray_stained_glass_pane"@);
    assert(("minecraft:"@ + "gray_stained_glass"@).skip(10) =~= "gray_stained_glass"@);
    assert(("minecraft:"@ + "black_stained_glass_pane"@).skip(10) =~= "black_stained_glass_pane"@);
    assert(("minecraft:"@ + "black_stained_glass"@).skip(10) =~= "black_stained_glass"@);
    assert(("minecraft:"@ + "brown_stained_glass_pane"@).skip(10) =~= "brown_stained_glass_pane"@);
    assert(("minecraft:"@ + "brown_stained_glass"@).skip(10) =~= "brown_stained_glass"@);
    assert(("minecraft:"@ + "red_stained_glass_pane"@).skip(10) =~= "red_stained_glass_pane"@);
    assert(("minecraft:"@ + "red_stained_glass"@).skip(10) =~= "red_stained_glass"@);
    assert(("minecraft:"@ + "orange_stained_glass_pane"@).skip(10) =~= "orange_stained_glass_pane"@);
    assert(("minecraft:"@ + "orange_stained_glass"@).skip(10) =~= "orange_stained_glass"@);
    assert(("minecraft:"@ + "yellow_stained_glass_pane"@).skip(10) =~= "yellow_stained_glass_pane"@);
    assert(("minecraft:"@ + "yellow_stained_glass"@).skip(10) =~= "yellow_stained_glass"@);
    assert(("minecraft:"@ + "lime_stained_glass_pane"@).skip(10) =~= "lime_stained_glass_pane"@);
    assert(("minecraft:"@ + "lime_stained_glass"@).skip(10) =~= "lime_stained_glass"@);
    assert(("minecraft:"@ + "green_stained_glass_pane"@).skip(10) =~= "green_stained_glass_pane"@);
    assert(("minecraft:"@ + "green_stained_glass"@).skip(10) =~= "green_stained_glass"@);
    assert(("minecraft:"@ + "cyan_stained_glass_pane"@).skip(10) =~= "cyan_stained_glass_pane"@);
    assert(("minecraft:"@ + "cyan_stained_glass"@).skip(10) =~= "cyan_stained_glass"@);
    assert(("minecraft:"@ + "light_blue_stained_glass_pane"@).skip(10) =~= "light_blue_stained_glass_pane"@);
    assert(("minecraft:"@ + "light_blue_stained_glass"@).skip(10) =~= "light_blue_stained_glass"@);
    assert(("minecraft:"@ + "blue_stained_glass_pane"@).skip(10) =~= "blue_stained_glass_pane"@);
    assert(("minecraft:"@ + "blue_stained_glass"@).skip(10) =~= "blue_stained_glass"@);
    assert(("minecraft:"@ + "purple_stained_glass_pane"@).skip(10) =~= "purple_stained_glass_pane"@);
    assert(("minecraft:"@ + "purple_stained_glass"@).skip(10) =~= "purple_stained_glass"@);
    assert(("minecraft:"@ + "magenta_stained_glass_pane"@).skip(10) =~= "magenta_stained_glass_pane"@);
    assert(("minecraft:"@ + "magenta_stained_glass"@).skip(10) =~= "magenta_stained_glass"@);
    assert(("minecraft:"@ + "pink_stained_glass_pane"@).skip(10) =~= "pink_stained_glass_pane"@);
    assert(("minecraft:"@ + "pink_stained_glass"@).skip(10) =~= "pink_stained_glass"@);
    assert(("minecraft:"@ + "glass"@).skip(10) =~= "glass"@);
    lemma_glass_alias(x);
    lemma_glass_alias("glass"@);
    let g = "minecraft:glass"@;
    assert(g.subrange(0, 10) =~= "minecraft:"@);
    assert(g.skip(10) =~= "glass"@);
    assert("minecraft/"@ + "glass"@ =~= "minecraft/glass"@);
}

/// Every texture target maps to itself: the texture of the block id
/// `minecraft:<t>`, where `minecraft/<t>` is the texture of some id, is
/// `minecraft/<t>` again.
pub proof fn lemma_texture_targets_fixed(n: Seq<char>)
    ensures
        seq_starts_with(texture_for(n), "minecraft/"@),
        texture_for("minecraft:"@ + texture_for(n).skip(10)) == texture_for(n),
{
    reveal_strlit("minecraft/");
    reveal_strlit("minecraft:");
    lemma_alias_fixed_0();
    lemma_alias_fixed_1();
    lemma_alias_fixed_2();
    let a = texture_alias(base_name(n));
    assert(texture_for(n).skip(10) =~= a);
    let n2 = "minecraft:"@ + a;
    assert(n2.subrange(0, 10) =~= "minecraft:"@);
    assert(n2.skip(10) =~= a);
    assert(base_name(n2) == a);
    assert(texture_for(n).subrange(0, 10) =~= "minecraft/"@);
}

} // verus!
