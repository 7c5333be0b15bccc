use dptrenchcraft::filter::{filter_blocks, map_block_to_texture};
use dptrenchcraft::model::{Block, VoxelMap};

fn named(name: &str) -> Option<Block> {
    Some(Block::new(name, Vec::new()))
}

fn grid(w: i32, h: i32, l: i32, cells: Vec<Option<Block>>) -> VoxelMap {
    VoxelMap { width: w, height: h, length: l, blocks: cells }
}

#[test]
fn air_is_dropped() {
    let m = filter_blocks(grid(1, 1, 1, vec![named("minecraft:air")]));
    assert!(m.blocks[0].is_none());
}

#[test]
fn a_lone_full_block_is_culled() {
    let m = filter_blocks(grid(1, 1, 1, vec![named("minecraft:stone")]));
    assert!(m.blocks[0].is_none());
}

#[test]
fn kept_blocks_get_their_texture() {
    let stairs = Block::new("minecraft:oak_stairs", vec![("facing".to_string(), "east".to_string())]);
    let m = filter_blocks(grid(1, 1, 1, vec![Some(stairs)]));
    let b = m.blocks[0].as_ref().unwrap();
    assert_eq!(b.name, "minecraft:oak_stairs");
    assert_eq!(b.texture, "minecraft/oak_planks");
    assert_eq!(b.properties, vec![("facing".to_string(), "east".to_string())]);
}

#[test]
fn lowest_floor_full_blocks_are_culled() {
    let m = filter_blocks(grid(1, 2, 1, vec![named("minecraft:stone"), named("minecraft:oak_stairs")]));
    assert_eq!((m.width, m.height, m.length), (1, 2, 1));
    assert!(m.blocks[0].is_none());
    assert_eq!(m.blocks[1].as_ref().unwrap().texture, "minecraft/oak_planks");
}

#[test]
fn a_stone_cube_keeps_only_its_top_centre() {
    let cells = (0..27).map(|_| named("minecraft:stone")).collect();
    let m = filter_blocks(grid(3, 3, 3, cells));
    assert_eq!(m.blocks.len(), 27);
    for (i, c) in m.blocks.iter().enumerate() {
        if i == 22 {
            let b = c.as_ref().unwrap();
            assert_eq!(b.name, "minecraft:stone");
            assert_eq!(b.texture, "minecraft/stone");
        } else {
            assert!(c.is_none(), "cell {} should be culled", i);
        }
    }
}

#[test]
fn filtering_only_drops_or_retextures() {
    let names = [
        "minecraft:stone", "minecraft:oak_stairs", "minecraft:air", "minecraft:dirt",
        "minecraft:grass_block", "minecraft:poppy", "minecraft:glass_pane", "minecraft:oak_slab",
    ];
    let cells: Vec<Option<Block>> = (0..27).map(|i| if i % 5 == 4 { None } else { named(names[i % names.len()]) }).collect();
    let before: Vec<Option<Block>> = cells.clone();
    let m = filter_blocks(grid(3, 3, 3, cells));
    assert_eq!(m.blocks.len(), before.len());
    for (after, orig) in m.blocks.iter().zip(before.iter()) {
        if let Some(b) = after {
            let o = orig.as_ref().unwrap();
            assert_eq!(b.name, o.name);
            assert_eq!(b.texture, map_block_to_texture(&o.name));
            assert_ne!(b.name, "minecraft:air");
            assert_ne!(b.name, "minecraft:poppy");
        }
    }
}

#[test]
fn partial_blocks_survive_filtering() {
    let mut cells: Vec<Option<Block>> = (0..27).map(|_| named("minecraft:stone")).collect();
    cells[13] = named("minecraft:oak_slab");
    cells[4] = named("minecraft:glass_pane");
    let m = filter_blocks(grid(3, 3, 3, cells));
    assert_eq!(m.blocks[13].as_ref().unwrap().texture, "minecraft/oak_planks");
    assert_eq!(m.blocks[4].as_ref().unwrap().texture, "minecraft/glass");
}
