use dptrenchcraft::model::{Block, VoxelMap};
use dptrenchcraft::block_shapes::BlockShape;
use dptrenchcraft::optimizer::{
    can_optimize, optimize_mesh, single_block_brush, stair_brushes, to_quake, Brush, BrushKind, GreedyLevel,
};

fn textured(name: &str, texture: &str, props: &[(&str, &str)]) -> Option<Block> {
    let properties = props.iter().map(|(k, v)| (k.to_string(), v.to_string())).collect();
    Some(Block { name: name.to_string(), texture: texture.to_string(), properties })
}

fn stone() -> Option<Block> {
    textured("minecraft:stone", "minecraft/stone", &[])
}

fn corners(b: &Brush) -> ((i32, i32, i32), (i32, i32, i32)) {
    (b.min, b.max)
}

#[test]
fn default_level_merges_everything() {
    assert_eq!(GreedyLevel::default(), GreedyLevel::All);
}

#[test]
fn full_blocks_merge_into_one_box() {
    let map = VoxelMap { width: 2, height: 1, length: 1, blocks: vec![stone(), stone()] };
    let r = optimize_mesh(&map, GreedyLevel::All);
    assert_eq!(r.len(), 1);
    assert_eq!(corners(&r[0]), ((-40, 0, 0), (40, 40, 40)));
    assert_eq!(r[0].texture, "minecraft/stone");
    assert_eq!(r[0].kind, BrushKind::Box);
    let r = optimize_mesh(&map, GreedyLevel::FullOnly);
    assert_eq!(r.len(), 1);
}

#[test]
fn rectangles_rise_through_layers() {
    let map = VoxelMap { width: 1, height: 2, length: 1, blocks: vec![stone(), stone()] };
    let r = optimize_mesh(&map, GreedyLevel::All);
    assert_eq!(r.len(), 1);
    assert_eq!(corners(&r[0]), ((0, 0, 0), (40, 40, 80)));
}

#[test]
fn different_textures_do_not_merge() {
    let map = VoxelMap {
        width: 2,
        height: 1,
        length: 1,
        blocks: vec![stone(), textured("minecraft:dirt", "minecraft/dirt", &[])],
    };
    let r = optimize_mesh(&map, GreedyLevel::All);
    assert_eq!(r.len(), 2);
    assert_eq!(corners(&r[0]), ((-40, 0, 0), (0, 40, 40)));
    assert_eq!(r[0].texture, "minecraft/stone");
    assert_eq!(corners(&r[1]), ((0, 0, 0), (40, 40, 40)));
    assert_eq!(r[1].texture, "minecraft/dirt");
}

#[test]
fn no_merge_gives_each_block_its_own_brush() {
    let map = VoxelMap { width: 2, height: 1, length: 1, blocks: vec![stone(), stone()] };
    let r = optimize_mesh(&map, GreedyLevel::NoMerge);
    assert_eq!(r.len(), 2);
    assert_eq!(corners(&r[0]), ((-40, 0, 0), (0, 40, 40)));
    assert_eq!(corners(&r[1]), ((0, 0, 0), (40, 40, 40)));
}

#[test]
fn slabs_merge_only_at_full_level() {
    let slab = || textured("minecraft:oak_slab", "minecraft/oak_planks", &[("type", "bottom")]);
    let map = VoxelMap { width: 3, height: 1, length: 1, blocks: vec![slab(), slab(), slab()] };
    let r = optimize_mesh(&map, GreedyLevel::All);
    assert_eq!(r.len(), 1);
    assert_eq!(corners(&r[0]), ((-40, 0, 0), (80, 40, 20)));
    let r = optimize_mesh(&map, GreedyLevel::FullOnly);
    assert_eq!(r.len(), 3);
    assert_eq!(corners(&r[0]), ((-40, 0, 0), (0, 40, 20)));
    assert_eq!(corners(&r[1]), ((0, 0, 0), (40, 40, 20)));
    assert_eq!(corners(&r[2]), ((40, 0, 0), (80, 40, 20)));
}

#[test]
fn top_slabs_fill_the_upper_half() {
    let map = VoxelMap {
        width: 1,
        height: 1,
        length: 1,
        blocks: vec![textured("minecraft:oak_slab", "minecraft/oak_planks", &[("type", "top")])],
    };
    let r = optimize_mesh(&map, GreedyLevel::All);
    assert_eq!(r.len(), 1);
    assert_eq!(corners(&r[0]), ((0, 0, 20), (40, 40, 40)));
}

#[test]
fn stairs_make_two_boxes() {
    let map = VoxelMap {
        width: 1,
        height: 1,
        length: 1,
        blocks: vec![textured("minecraft:oak_stairs", "minecraft/oak_planks", &[("facing", "east"), ("half", "bottom")])],
    };
    let r = optimize_mesh(&map, GreedyLevel::All);
    assert_eq!(r.len(), 2);
    assert_eq!(corners(&r[0]), ((0, 0, 0), (40, 40, 20)));
    assert_eq!(corners(&r[1]), ((20, 0, 20), (40, 40, 40)));
}

#[test]
fn small_shapes_have_their_boxes() {
    let cells = vec![
        textured("minecraft:torch", "minecraft/torch", &[]),
        textured("minecraft:chest", "minecraft/chest", &[]),
        textured("minecraft:dirt_path", "minecraft/dirt_path", &[]),
        textured("minecraft:poppy", "minecraft/poppy", &[]),
    ];
    let map = VoxelMap { width: 4, height: 1, length: 1, blocks: cells };
    let r = optimize_mesh(&map, GreedyLevel::All);
    assert_eq!(r.len(), 4);
    // x runs from -80 (the grid is centred on its middle column)
    assert_eq!(corners(&r[0]), ((-80 + 17, 17, 0), (-80 + 22, 22, 30)));
    assert_eq!(corners(&r[1]), ((-40 + 2, 2, 2), (0 - 2, 40 - 2, 40 - 2)));
    assert_eq!(corners(&r[2]), ((0, 0, 0), (40, 40, 37)));
    assert_eq!(corners(&r[3]), ((40, 0, 0), (80, 40, 20)));
    assert_eq!(r[3].kind, BrushKind::Plant45);
}

#[test]
fn thin_panels_merge_along_their_plane() {
    let pane = || textured("minecraft:glass_pane", "minecraft/glass", &[("north", "true")]);
    let map = VoxelMap { width: 1, height: 2, length: 2, blocks: vec![pane(), pane(), pane(), pane()] };
    let r = optimize_mesh(&map, GreedyLevel::All);
    assert_eq!(r.len(), 1);
    assert_eq!(corners(&r[0]), ((16, -40, 0), (24, 40, 80)));
}

#[test]
fn empty_cells_give_nothing() {
    let map = VoxelMap { width: 2, height: 2, length: 2, blocks: vec![None; 8] };
    assert!(optimize_mesh(&map, GreedyLevel::All).is_empty());
    assert!(optimize_mesh(&map, GreedyLevel::NoMerge).is_empty());
}

#[test]
fn meshing_needs_a_consistent_grid() {
    let ok = VoxelMap { width: 2, height: 1, length: 1, blocks: vec![None, None] };
    assert!(can_optimize(&ok));
    let short = VoxelMap { width: 2, height: 1, length: 1, blocks: vec![None] };
    assert!(!can_optimize(&short));
    let wide = VoxelMap { width: 60_000_000, height: 0, length: 1, blocks: vec![] };
    assert!(can_optimize(&wide));
    let too_wide = VoxelMap { width: 110_000_000, height: 0, length: 1, blocks: vec![] };
    assert!(!can_optimize(&too_wide));
    let too_tall = VoxelMap { width: 1, height: 60_000_000, length: 0, blocks: vec![] };
    assert!(!can_optimize(&too_tall));
}

#[test]
fn upside_down_stairs_mirror_upright_ones() {
    for facing in ["north", "south", "east", "west"] {
        let up = VoxelMap {
            width: 1,
            height: 1,
            length: 1,
            blocks: vec![textured("minecraft:oak_stairs", "t", &[("facing", facing), ("half", "bottom")])],
        };
        let down = VoxelMap {
            width: 1,
            height: 1,
            length: 1,
            blocks: vec![textured("minecraft:oak_stairs", "t", &[("facing", facing), ("half", "top")])],
        };
        let a = optimize_mesh(&up, GreedyLevel::All);
        let b = optimize_mesh(&down, GreedyLevel::All);
        assert_eq!(a.len(), 2);
        assert_eq!(b.len(), 2);
        for (x, y) in a.iter().zip(b.iter()) {
            assert_eq!((x.min.0, x.min.1, 40 - x.max.2), y.min);
            assert_eq!((x.max.0, x.max.1, 40 - x.min.2), y.max);
        }
    }
}

#[test]
fn merging_more_never_gives_more_brushes() {
    let slab = || textured("minecraft:oak_slab", "minecraft/oak_planks", &[("type", "bottom")]);
    let mut blocks = Vec::new();
    for i in 0..18 {
        blocks.push(if i % 3 == 0 { slab() } else { stone() });
    }
    let map = VoxelMap { width: 3, height: 2, length: 3, blocks };
    let all = optimize_mesh(&map, GreedyLevel::All).len();
    let full = optimize_mesh(&map, GreedyLevel::FullOnly).len();
    let none = optimize_mesh(&map, GreedyLevel::NoMerge).len();
    assert!(all <= full && full <= none, "{} {} {}", all, full, none);
    assert_eq!(none, 18);
    assert!(full < none);
    assert!(all < full);
}

#[test]
fn block_corners_are_a_translation() {
    assert_eq!(to_quake(1, 2, 3, 1, 1), (40, 80, 120));
    assert_eq!(to_quake(5, 5, 0, 10, 10), (0, 0, 0));
    assert_eq!(to_quake(0, 0, 0, 3, 3), (-40, -40, 0));
    assert_eq!(to_quake(2, 1, 4, 3, 3), (40, 0, 160));
}

#[test]
fn a_top_slab_in_its_cell() {
    let r = single_block_brush(1, 2, 3, BlockShape::SlabTop, "t".to_string(), 1, 1);
    assert_eq!(r.len(), 1);
    assert_eq!(corners(&r[0]), ((40, 120, 100), (80, 160, 120)));
    assert_eq!(r[0].texture, "t");
    assert_eq!(r[0].kind, BrushKind::Box);
}

#[test]
fn wide_upside_down_stairs_mirror_upright_ones() {
    let (a, b) = ((0, -40, 40), (80, 80, 80));
    let pairs = [
        (BlockShape::StairNorthBottom, BlockShape::StairNorthTop),
        (BlockShape::StairSouthBottom, BlockShape::StairSouthTop),
        (BlockShape::StairEastBottom, BlockShape::StairEastTop),
        (BlockShape::StairWestBottom, BlockShape::StairWestTop),
    ];
    for (up, down) in pairs {
        let u = stair_brushes(a, b, up, "t".to_string());
        let d = stair_brushes(a, b, down, "t".to_string());
        assert_eq!(u.len(), 2);
        assert_eq!(d.len(), 2);
        for (x, y) in u.iter().zip(d.iter()) {
            assert_eq!((x.min.0, x.min.1, a.2 + b.2 - x.max.2), y.min);
            assert_eq!((x.max.0, x.max.1, a.2 + b.2 - x.min.2), y.max);
        }
    }
    let n = stair_brushes(a, b, BlockShape::StairNorthBottom, "t".to_string());
    assert_eq!(corners(&n[0]), ((0, -40, 40), (80, 80, 60)));
    assert_eq!(corners(&n[1]), ((0, -40, 60), (80, -20, 80)));
}
