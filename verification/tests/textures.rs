use dptrenchcraft::filter::{
    cull_group, is_empty_block, is_ignored_plant, is_solid_for_boundary_cull, is_terrain_family,
    map_block_to_texture, same_block,
};
use dptrenchcraft::model::Block;

fn named(name: &str) -> Block {
    Block::new(name, Vec::new())
}

#[test]
fn stairs_and_slabs_use_their_material() {
    assert_eq!(map_block_to_texture("minecraft:oak_stairs"), "minecraft/oak_planks");
    assert_eq!(map_block_to_texture("minecraft:stone_brick_slab"), "minecraft/stone_bricks");
    assert_eq!(map_block_to_texture("minecraft:quartz_stairs"), "minecraft/quartz_block");
    assert_eq!(map_block_to_texture("minecraft:waxed_oxidized_cut_copper_slab"), "minecraft/waxed_oxidized_cut_copper");
}

#[test]
fn grouped_blocks_share_a_texture() {
    assert_eq!(map_block_to_texture("minecraft:ender_chest"), "minecraft/chest");
    assert_eq!(map_block_to_texture("minecraft:blue_bed"), "minecraft/white_wool");
    assert_eq!(map_block_to_texture("minecraft:stripped_cherry_wood"), "minecraft/cherry_log");
    assert_eq!(map_block_to_texture("minecraft:warped_hyphae"), "minecraft/warped_stem");
    assert_eq!(map_block_to_texture("minecraft:red_stained_glass_pane"), "minecraft/glass");
    assert_eq!(map_block_to_texture("minecraft:glass_pane"), "minecraft/glass");
    assert_eq!(map_block_to_texture("minecraft:birch_fence"), "minecraft/birch_planks");
}

#[test]
fn other_blocks_keep_their_name() {
    assert_eq!(map_block_to_texture("minecraft:stone"), "minecraft/stone");
    assert_eq!(map_block_to_texture("stone"), "minecraft/stone");
    assert_eq!(map_block_to_texture("oak_stairs"), "minecraft/oak_planks");
    assert_eq!(map_block_to_texture("mymod:thing"), "minecraft/mymod:thing");
    assert_eq!(map_block_to_texture(""), "minecraft/");
}

#[test]
fn air_doors_and_plants_are_empty() {
    for n in ["minecraft:air", "air", "cave_air", "minecraft:void_air", "minecraft:structure_void", "minecraft:iron_door", "minecraft:waxed_oxidized_copper_door"] {
        assert!(is_empty_block(&named(n)), "{}", n);
    }
    for n in ["minecraft:poppy", "minecraft:wheat", "minecraft:attached_pumpkin_stem", "minecraft:flowering_azalea", "minecraft:cherry_sapling", "minecraft:mushroom_stem"] {
        assert!(is_ignored_plant(&named(n)), "{}", n);
        assert!(is_empty_block(&named(n)), "{}", n);
    }
    for n in ["minecraft:stone", "minecraft:oak_trapdoor", "structure_void", "minecraft:torch"] {
        assert!(!is_empty_block(&named(n)), "{}", n);
    }
}

#[test]
fn solid_means_kept_full_cube() {
    assert!(is_solid_for_boundary_cull(&named("minecraft:stone")));
    assert!(!is_solid_for_boundary_cull(&named("minecraft:air")));
    assert!(!is_solid_for_boundary_cull(&named("minecraft:oak_stairs")));
    assert!(!is_solid_for_boundary_cull(&named("minecraft:red_mushroom")));
}

#[test]
fn ores_cull_with_their_rock() {
    assert_eq!(cull_group(&named("minecraft:coal_ore")), "stone");
    assert_eq!(cull_group(&named("minecraft:dirt")), "stone");
    assert_eq!(cull_group(&named("minecraft:deepslate_diamond_ore")), "deepslate");
    assert_eq!(cull_group(&named("minecraft:oak_planks")), "minecraft:oak_planks");
    assert!(same_block(&named("minecraft:stone"), &named("minecraft:emerald_ore")));
    assert!(!same_block(&named("minecraft:stone"), &named("minecraft:deepslate")));
    assert!(same_block(&named("minecraft:oak_planks"), &named("minecraft:oak_planks")));
    assert!(is_terrain_family(&named("minecraft:gravel")));
    assert!(is_terrain_family(&named("minecraft:deepslate_lapis_ore")));
    assert!(!is_terrain_family(&named("minecraft:cobblestone")));
}

#[test]
fn every_glass_type_becomes_plain_glass() {
    let colours = [
        "white", "orange", "magenta", "light_blue", "yellow", "lime", "pink", "gray", "light_gray", "cyan",
        "purple", "blue", "brown", "green", "red", "black",
    ];
    assert_eq!(map_block_to_texture("minecraft:glass"), "minecraft/glass");
    assert_eq!(map_block_to_texture("minecraft:glass_pane"), "minecraft/glass");
    for c in colours {
        assert_eq!(map_block_to_texture(&format!("minecraft:{}_stained_glass", c)), "minecraft/glass", "{}", c);
        assert_eq!(map_block_to_texture(&format!("minecraft:{}_stained_glass_pane", c)), "minecraft/glass", "{}", c);
    }
}

#[test]
fn all_doors_and_water_plants_are_dropped() {
    assert!(is_empty_block(&named("minecraft:pale_oak_door")));
    for n in ["minecraft:seagrass", "minecraft:tall_seagrass", "minecraft:sugar_cane", "minecraft:kelp", "minecraft:kelp_plant"] {
        assert!(is_ignored_plant(&named(n)), "{}", n);
        assert!(is_empty_block(&named(n)), "{}", n);
    }
}

#[test]
fn tinted_glass_becomes_plain_glass() {
    assert_eq!(map_block_to_texture("minecraft:tinted_glass"), "minecraft/glass");
}

#[test]
fn every_small_vanilla_plant_is_dropped() {
    for n in [
        "minecraft:vine", "minecraft:lily_pad", "minecraft:bamboo", "minecraft:glow_lichen", "minecraft:azalea",
        "minecraft:cave_vines", "minecraft:cave_vines_plant", "minecraft:weeping_vines", "minecraft:weeping_vines_plant",
        "minecraft:twisting_vines", "minecraft:twisting_vines_plant", "minecraft:crimson_roots", "minecraft:warped_roots",
        "minecraft:crimson_fungus", "minecraft:warped_fungus", "minecraft:nether_sprouts", "minecraft:hanging_roots",
        "minecraft:spore_blossom", "minecraft:big_dripleaf", "minecraft:big_dripleaf_stem", "minecraft:small_dripleaf",
        "minecraft:sea_pickle", "minecraft:pink_petals", "minecraft:pitcher_plant", "minecraft:pitcher_crop",
        "minecraft:torchflower", "minecraft:wildflowers", "minecraft:bamboo_sapling", "minecraft:cactus_flower",
        "minecraft:leaf_litter", "minecraft:firefly_bush", "minecraft:pale_hanging_moss", "minecraft:closed_eyeblossom",
    ] {
        assert!(is_ignored_plant(&named(n)), "{}", n);
        assert!(is_empty_block(&named(n)), "{}", n);
    }
    for n in ["minecraft:oak_leaves", "minecraft:moss_block", "minecraft:bamboo_planks", "minecraft:vine_block"] {
        assert!(!is_ignored_plant(&named(n)), "{}", n);
    }
}

#[test]
fn texture_targets_map_to_themselves() {
    for n in [
        "minecraft:oak_stairs", "minecraft:blackstone_slab", "minecraft:mud_brick_stairs", "minecraft:sandstone_slab",
        "minecraft:cut_copper_stairs", "minecraft:stone_slab", "minecraft:cherry_wood", "minecraft:lime_bed",
        "minecraft:trapped_chest", "minecraft:tinted_glass", "minecraft:crimson_hyphae", "minecraft:stone", "dirt", "",
    ] {
        let r = map_block_to_texture(n);
        assert!(r.starts_with("minecraft/"), "{}", n);
        let again = format!("minecraft:{}", &r["minecraft/".len()..]);
        assert_eq!(map_block_to_texture(&again), r, "{}", n);
    }
}
