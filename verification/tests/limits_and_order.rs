use std::collections::BTreeSet;

use dptrenchcraft::model::{coords_of, index_of, Block, VoxelMap};
use dptrenchcraft::optimizer::{optimize_mesh, GreedyLevel};
use dptrenchcraft::parser::{litematic_in_limits, region_positions, volume_in_limits, LitematicRegion, LitematicSchematic, NbtTag};
use dptrenchcraft::text::{insert_sorted, str_lt};

#[test]
fn a_full_block_is_a_forty_unit_cube() {
    let mut blocks: Vec<Option<Block>> = vec![None; 9];
    blocks[8] = Some(Block {
        name: "minecraft:stone".to_string(),
        texture: "minecraft/stone".to_string(),
        properties: vec![],
    });
    let map = VoxelMap { width: 3, height: 1, length: 3, blocks };
    let r = optimize_mesh(&map, GreedyLevel::NoMerge);
    assert_eq!(r.len(), 1);
    assert_eq!((r[0].min, r[0].max), ((40, 40, 0), (80, 80, 40)));
}

#[test]
fn string_order_matches_std() {
    let words = ["", "a", "b", "ab", "abc", "abd", "z", "é", "minecraft/dirt", "minecraft/dirt_path", "nodraw", "sky1", "Sky1"];
    for a in words {
        for b in words {
            assert_eq!(str_lt(a, b), a < b, "{:?} < {:?}", a, b);
        }
    }
}

#[test]
fn sorted_insertion_matches_a_set() {
    let input = ["sky1", "nodraw", "minecraft/stone", "sky1", "minecraft/dirt", "nodraw", "a", "minecraft/dirt"];
    let mut v: Vec<String> = Vec::new();
    let mut set = BTreeSet::new();
    for t in input {
        insert_sorted(&mut v, t);
        set.insert(t.to_string());
        assert_eq!(v, set.iter().cloned().collect::<Vec<_>>());
    }
}

#[test]
fn cell_indices_round_trip() {
    let (w, h, l) = (3, 4, 5);
    let mut seen = vec![false; 60];
    for y in 0..h {
        for z in 0..l {
            for x in 0..w {
                let i = index_of(w, h, l, x, y, z);
                assert_eq!(i, ((y * l + z) * w + x) as usize);
                assert_eq!(coords_of(w, h, l, i), (x, y, z));
                assert!(!seen[i]);
                seen[i] = true;
            }
        }
    }
}

#[test]
fn well_formed_maps() {
    let ok = VoxelMap { width: 2, height: 2, length: 1, blocks: vec![None; 4] };
    assert!(ok.is_well_formed());
    let wrong_len = VoxelMap { width: 2, height: 2, length: 1, blocks: vec![None; 3] };
    assert!(!wrong_len.is_well_formed());
    let negative = VoxelMap { width: -1, height: 2, length: 1, blocks: vec![] };
    assert!(!negative.is_well_formed());
    let huge = VoxelMap { width: 100_000, height: 100_000, length: 1, blocks: vec![] };
    assert!(!huge.is_well_formed());
}

fn dims(w: i32, h: i32, l: i32) -> NbtTag {
    NbtTag::Compound(vec![
        ("Width".to_string(), NbtTag::Int(w)),
        ("Height".to_string(), NbtTag::Int(h)),
        ("Length".to_string(), NbtTag::Int(l)),
    ])
}

#[test]
fn schematic_volume_limits() {
    assert!(volume_in_limits(&dims(16, 16, 16)));
    assert!(volume_in_limits(&dims(i32::MAX, i32::MAX, 1)));
    assert!(!volume_in_limits(&dims(i32::MAX, i32::MAX, 4)));
    assert!(volume_in_limits(&dims(i32::MAX, i32::MAX, -4)));
    assert!(volume_in_limits(&NbtTag::Other));
}

fn region(size: (i32, i32, i32), n: usize) -> LitematicSchematic {
    LitematicSchematic { regions: vec![LitematicRegion { size, block_names: vec!["a".to_string(); n] }] }
}

#[test]
fn litematic_limits() {
    assert!(litematic_in_limits(&LitematicSchematic { regions: vec![] }));
    assert!(litematic_in_limits(&region((2, 1, 1), 2)));
    assert!(!litematic_in_limits(&region((2, 1, 1), 1)));
    assert!(litematic_in_limits(&region((-1, 1, 3), 3)));
    assert!(!litematic_in_limits(&region((-2, 1, 1), 2)));
    assert!(!litematic_in_limits(&region((i32::MIN, 1, 1), 0)));
    assert!(litematic_in_limits(&region((0, 5, 5), 0)));
}

#[test]
fn region_positions_follow_storage_order() {
    let p = region_positions((2, 2, 2));
    assert_eq!(p, vec![(0, 0, 0), (1, 0, 0), (0, 0, 1), (1, 0, 1), (0, 1, 0), (1, 1, 0), (0, 1, 1), (1, 1, 1)]);
    let n = region_positions((-2, 1, -1));
    assert_eq!(n, vec![(-1, 0, 0), (0, 0, 0)]);
    assert_eq!(region_positions((3, 4, 5)).len(), 60);
}
