use dptrenchcraft::model::{Block, VoxelMap};
use dptrenchcraft::optimizer::{optimize_mesh, Brush, GreedyLevel};

fn textured(name: &str, texture: &str, props: &[(&str, &str)]) -> Option<Block> {
    let properties = props.iter().map(|(k, v)| (k.to_string(), v.to_string())).collect();
    Some(Block { name: name.to_string(), texture: texture.to_string(), properties })
}

fn cell_box(w: i32, l: i32, x: i32, y: i32, z: i32) -> ((i32, i32, i32), (i32, i32, i32)) {
    let q = |bx: i32, bz: i32, by: i32| ((bx - w / 2) * 40, (bz - l / 2) * 40, by * 40);
    (q(x, z, y), q(x + 1, z + 1, y + 1))
}

fn overlaps(b: &Brush, lo: (i32, i32, i32), hi: (i32, i32, i32)) -> bool {
    b.min.0 < hi.0 && lo.0 < b.max.0 && b.min.1 < hi.1 && lo.1 < b.max.1 && b.min.2 < hi.2 && lo.2 < b.max.2
}

fn mixed_map() -> VoxelMap {
    let (w, h, l) = (3, 2, 3);
    let mut blocks = Vec::new();
    for y in 0..h {
        for z in 0..l {
            for x in 0..w {
                let cell = match (x + 2 * z + 3 * y) % 6 {
                    0 => textured("minecraft:stone", "minecraft/stone", &[]),
                    1 => textured("minecraft:oak_slab", "minecraft/oak_planks", &[("type", "bottom")]),
                    2 => textured("minecraft:oak_stairs", "minecraft/oak_planks", &[("facing", "west")]),
                    3 => None,
                    4 => textured("minecraft:glass_pane", "minecraft/glass", &[("east", "true")]),
                    _ => textured("minecraft:stone", "minecraft/stone", &[]),
                };
                blocks.push(cell);
            }
        }
    }
    VoxelMap { width: w, height: h, length: l, blocks }
}

#[test]
fn every_block_is_drawn_and_every_brush_is_backed() {
    let map = mixed_map();
    let (w, h, l) = (map.width, map.height, map.length);
    for level in [GreedyLevel::NoMerge, GreedyLevel::FullOnly, GreedyLevel::All] {
        let brushes = optimize_mesh(&map, level);
        for y in 0..h {
            for z in 0..l {
                for x in 0..w {
                    let i = ((y * l + z) * w + x) as usize;
                    if let Some(b) = &map.blocks[i] {
                        let (lo, hi) = cell_box(w, l, x, y, z);
                        assert!(
                            brushes.iter().any(|br| br.texture == b.texture && overlaps(br, lo, hi)),
                            "block at {:?} not drawn at {:?}",
                            (x, y, z),
                            level
                        );
                    }
                }
            }
        }
        for br in &brushes {
            let mut found = false;
            for y in 0..h {
                for z in 0..l {
                    for x in 0..w {
                        let i = ((y * l + z) * w + x) as usize;
                        if let Some(b) = &map.blocks[i] {
                            let (lo, hi) = cell_box(w, l, x, y, z);
                            found |= b.texture == br.texture && overlaps(br, lo, hi);
                        }
                    }
                }
            }
            assert!(found, "stray brush {:?} at {:?}", br, level);
        }
    }
}

#[test]
fn meshes_stay_inside_the_grid_and_can_be_exported() {
    let map = mixed_map();
    let (w, h, l) = (map.width, map.height, map.length);
    let (lo, hi) = (((0 - w / 2) * 40, (0 - l / 2) * 40, 0), ((w - w / 2) * 40, (l - l / 2) * 40, h * 40));
    for level in [GreedyLevel::NoMerge, GreedyLevel::FullOnly, GreedyLevel::All] {
        let brushes = optimize_mesh(&map, level);
        for b in &brushes {
            assert!(lo.0 <= b.min.0 && b.min.0 <= b.max.0 && b.max.0 <= hi.0, "{:?}", b);
            assert!(lo.1 <= b.min.1 && b.min.1 <= b.max.1 && b.max.1 <= hi.1, "{:?}", b);
            assert!(lo.2 <= b.min.2 && b.min.2 <= b.max.2 && b.max.2 <= hi.2, "{:?}", b);
        }
        assert!(dptrenchcraft::exporter::can_export(&brushes));
    }
}
