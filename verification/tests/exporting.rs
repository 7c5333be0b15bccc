use dptrenchcraft::exporter::{can_export, make_hull_brushes, render_map, texture_list_parts, texture_list_path};
use dptrenchcraft::optimizer::{Brush, BrushKind};

fn brush(min: (i32, i32, i32), max: (i32, i32, i32), texture: &str, kind: BrushKind) -> Brush {
    Brush { min, max, texture: texture.to_string(), kind }
}

fn plane(a: (i32, i32, i32), b: (i32, i32, i32), c: (i32, i32, i32), tex: &str, axes: &str) -> String {
    format!(
        "( {} {} {} ) ( {} {} {} ) ( {} {} {} ) {} {} 0 0.625 0.625\n",
        a.0, a.1, a.2, b.0, b.1, b.2, c.0, c.1, c.2, tex, axes
    )
}

const XY: &str = "[ 1 0 0 0 ] [ 0 -1 0 0 ]";
const YZ: &str = "[ 0 1 0 0 ] [ 0 0 -1 0 ]";
const XZ: &str = "[ 1 0 0 0 ] [ 0 0 -1 0 ]";

fn box_text(lo: (i32, i32, i32), hi: (i32, i32, i32), top: &str, bottom: &str, side: &str) -> String {
    let (x1, y1, z1) = lo;
    let (x2, y2, z2) = hi;
    let mut s = String::from("// Brush\n{\n");
    s += &plane((x2, y2, z2), (x2, y1, z2), (x1, y1, z2), top, XY);
    s += &plane((x2, y1, z1), (x2, y2, z1), (x1, y2, z1), bottom, XY);
    s += &plane((x2, y2, z2), (x2, y2, z1), (x2, y1, z1), side, YZ);
    s += &plane((x1, y1, z2), (x1, y1, z1), (x1, y2, z1), side, YZ);
    s += &plane((x2, y2, z2), (x1, y2, z2), (x1, y2, z1), side, XZ);
    s += &plane((x1, y1, z2), (x2, y1, z2), (x2, y1, z1), side, XZ);
    s += "}\n";
    s
}

const HEADER: &str = "// Game: Digital Paint: Paintball 2\n// Format: Quake2 (Valve)\n// entity 0\n{\n\"classname\" \"worldspawn\"\n\"mapversion\" \"220\"\n";

#[test]
fn one_stone_block_map() {
    let bs = vec![brush((-40, 0, 0), (40, 40, 40), "minecraft/stone", BrushKind::Box)];
    assert!(can_export(&bs));
    let doc = render_map(&bs);
    let mut expected = String::from(HEADER);
    expected += &box_text((-40, 0, 0), (40, 40, 40), "minecraft/stone", "nodraw", "minecraft/stone");
    expected += &box_text((-40, 0, -32), (40, 40, 0), "nodraw", "sky1", "sky1");
    expected += &box_text((-40, 0, 40), (40, 40, 72), "sky1", "sky1", "sky1");
    expected += &box_text((-72, 0, 0), (-40, 40, 40), "sky1", "nodraw", "sky1");
    expected += &box_text((40, 0, 0), (72, 40, 40), "sky1", "nodraw", "sky1");
    expected += &box_text((-40, -32, 0), (40, 0, 40), "sky1", "nodraw", "sky1");
    expected += &box_text((-40, 40, 0), (40, 72, 40), "sky1", "nodraw", "sky1");
    expected += "}\n";
    assert_eq!(doc.text, expected);
    assert_eq!(doc.textures, vec!["minecraft/stone", "nodraw", "sky1"]);
    assert_eq!((doc.structural, doc.detail, doc.hull), (1, 0, 6));
}

#[test]
fn detail_brushes_go_to_their_own_entity() {
    let bs = vec![
        brush((0, 0, 40), (40, 40, 80), "minecraft/oak_planks", BrushKind::Box),
        brush((0, 0, 0), (40, 40, 40), "minecraft/grass_block", BrushKind::Box),
    ];
    let doc = render_map(&bs);
    let world = box_text((0, 0, 0), (40, 40, 40), "minecraft/grass_block_top", "nodraw", "minecraft/grass_block_side");
    let detail = box_text((0, 0, 40), (40, 40, 80), "minecraft/oak_planks", "minecraft/oak_planks", "minecraft/oak_planks");
    assert!(doc.text.starts_with(&(String::from(HEADER) + &world)));
    assert!(doc.text.ends_with(&(String::from("}\n// entity 1\n{\n\"classname\" \"func_detail\"\n") + &detail + "}\n")));
    assert_eq!((doc.structural, doc.detail, doc.hull), (1, 1, 6));
    assert_eq!(
        doc.textures,
        vec!["minecraft/grass_block_side", "minecraft/grass_block_top", "minecraft/oak_planks", "nodraw", "sky1"]
    );
}

#[test]
fn chests_and_paths_get_their_faces() {
    let bs = vec![
        brush((0, 0, 0), (40, 40, 40), "minecraft/stone", BrushKind::Box),
        brush((0, 0, 40), (40, 40, 77), "minecraft/dirt_path", BrushKind::Box),
        brush((40, 0, 40), (80, 40, 80), "minecraft/chest", BrushKind::Box),
    ];
    let doc = render_map(&bs);
    let path = box_text((0, 0, 40), (40, 40, 77), "minecraft/dirt_path_top", "minecraft/dirt", "minecraft/dirt_path_side");
    let chest = box_text((40, 0, 40), (80, 40, 80), "minecraft/chest_top", "minecraft/chest_top", "minecraft/chest_side");
    assert!(doc.text.contains(&path));
    assert!(doc.text.contains(&chest));
    assert_eq!(
        doc.textures,
        vec![
            "minecraft/chest_side", "minecraft/chest_top", "minecraft/dirt", "minecraft/dirt_path_side",
            "minecraft/dirt_path_top", "minecraft/stone", "nodraw", "sky1",
        ]
    );
}

#[test]
fn plants_are_two_crossed_prisms() {
    let bs = vec![brush((-40, 0, 0), (0, 40, 20), "minecraft/poppy", BrushKind::Plant45)];
    let doc = render_map(&bs);
    // centre (-20, 20), 20 units high
    let t = |x: i32, y: i32| (x, y, 20);
    let b = |x: i32, y: i32| (x, y, 0);
    let mut p = String::from("// Brush\n{\n");
    p += &plane(t(-31, 7), t(-33, 9), t(-9, 33), "minecraft/poppy", XY);
    p += &plane(b(-31, 7), b(-9, 33), b(-33, 9), "minecraft/poppy", XY);
    p += &plane(t(-33, 9), t(-31, 7), b(-31, 7), "minecraft/poppy", YZ);
    p += &plane(t(-9, 33), t(-33, 9), b(-33, 9), "minecraft/poppy", YZ);
    p += &plane(t(-7, 31), t(-9, 33), b(-9, 33), "minecraft/poppy", YZ);
    p += &plane(t(-31, 7), t(-7, 31), b(-7, 31), "minecraft/poppy", YZ);
    p += "}\n";
    assert!(doc.text.contains(&p));
    assert_eq!(doc.detail, 1);
    assert_eq!(doc.textures, vec!["minecraft/poppy", "nodraw", "sky1"]);
}

#[test]
fn plant_centres_round_towards_zero() {
    let bs = vec![brush((-41, -3, 0), (0, 0, 20), "p", BrushKind::Plant45)];
    let doc = render_map(&bs);
    // (-41 + 0) / 2 = -20 and (-3 + 0) / 2 = -1 in integer division
    assert!(doc.text.contains("( -31 -14 20 ) ( -33 -12 20 ) ( -9 12 20 ) p "));
}

#[test]
fn no_brushes_give_an_empty_world() {
    let doc = render_map(&[]);
    assert_eq!(doc.text, String::from(HEADER) + "}\n");
    assert!(doc.textures.is_empty());
    assert_eq!((doc.structural, doc.detail, doc.hull), (0, 0, 0));
}

#[test]
fn hull_surrounds_every_brush() {
    let bs = vec![
        brush((-40, 0, 0), (0, 40, 40), "a", BrushKind::Box),
        brush((40, -80, 40), (120, 0, 160), "b", BrushKind::Box),
    ];
    let hull = make_hull_brushes(&bs);
    assert_eq!(hull.len(), 6);
    let lo = (-40, -80, 0);
    let hi = (120, 40, 160);
    assert_eq!((hull[0].min, hull[0].max), ((lo.0, lo.1, lo.2 - 32), (hi.0, hi.1, lo.2)));
    assert_eq!((hull[1].min, hull[1].max), ((lo.0, lo.1, hi.2), (hi.0, hi.1, hi.2 + 32)));
    assert_eq!((hull[2].min, hull[2].max), ((lo.0 - 32, lo.1, lo.2), (lo.0, hi.1, hi.2)));
    assert_eq!((hull[3].min, hull[3].max), ((hi.0, lo.1, lo.2), (hi.0 + 32, hi.1, hi.2)));
    assert_eq!((hull[4].min, hull[4].max), ((lo.0, lo.1 - 32, lo.2), (hi.0, lo.1, hi.2)));
    assert_eq!((hull[5].min, hull[5].max), ((lo.0, hi.1, lo.2), (hi.0, hi.1 + 32, hi.2)));
    for h in &hull {
        assert_eq!(h.texture, "sky1");
        assert_eq!(h.kind, BrushKind::Box);
    }
    for b in &bs {
        assert!(lo.0 <= b.min.0 && lo.1 <= b.min.1 && lo.2 <= b.min.2);
        assert!(b.max.0 <= hi.0 && b.max.1 <= hi.1 && b.max.2 <= hi.2);
    }
    assert!(make_hull_brushes(&[]).is_empty());
}

#[test]
fn every_brush_lands_in_one_entity() {
    let bs = vec![
        brush((0, 0, 0), (40, 40, 40), "minecraft/stone", BrushKind::Box),
        brush((0, 0, 40), (40, 40, 80), "minecraft/glass", BrushKind::Box),
        brush((40, 0, 0), (80, 40, 40), "minecraft/bricks", BrushKind::Box),
        brush((80, 0, 0), (120, 40, 20), "minecraft/poppy", BrushKind::Plant45),
    ];
    let doc = render_map(&bs);
    assert_eq!(doc.structural + doc.detail, bs.len());
    assert_eq!((doc.structural, doc.detail), (2, 2));
    assert_eq!(doc.text.matches("// Brush\n").count(), 4 + 1 + 6);
}

#[test]
fn negative_numbers_and_extremes_are_written_in_full() {
    let bs = vec![brush((-2147483000, -7, -100), (0, 9, -60), "minecraft/stone", BrushKind::Box)];
    let doc = render_map(&bs);
    assert!(doc.text.contains("( 0 9 -60 ) ( 0 -7 -60 ) ( -2147483000 -7 -60 ) minecraft/stone "));
}

#[test]
fn brushes_that_would_overflow_cannot_be_exported() {
    assert!(!can_export(&[brush((0, 0, 0), (40, 40, i32::MAX - 10), "x", BrushKind::Box)]));
    assert!(!can_export(&[brush((i32::MAX - 40, 0, 0), (i32::MAX - 40, 40, 20), "p", BrushKind::Plant45)]));
    assert!(can_export(&[brush((i32::MAX - 40, 0, 0), (i32::MAX - 40, 40, 20), "p", BrushKind::Box)]));
    assert!(can_export(&[]));
}

#[test]
fn texture_list_sits_next_to_the_map() {
    assert_eq!(texture_list_path("maps/level.map"), "maps/level_textures.txt");
    assert_eq!(texture_list_path("level.map"), "level_textures.txt");
    assert_eq!(texture_list_path("/tmp/a.b.map"), "/tmp/a.b_textures.txt");
    assert_eq!(texture_list_path("/"), "./map_textures.txt");
}

#[test]
fn texture_list_parts_fall_back() {
    assert_eq!(texture_list_parts(None, None), (".".to_string(), "map_textures.txt".to_string()));
    assert_eq!(
        texture_list_parts(Some("out".to_string()), Some("x".to_string())),
        ("out".to_string(), "x_textures.txt".to_string())
    );
}

#[test]
fn hull_ignores_order_repeats_and_inner_brushes() {
    let a = || brush((-40, 0, 0), (0, 40, 40), "a", BrushKind::Box);
    let b = || brush((40, -80, 40), (120, 0, 160), "b", BrushKind::Box);
    let inner = || brush((0, 0, 40), (40, 40, 80), "c", BrushKind::Box);
    let corners = |v: &[Brush]| make_hull_brushes(v).iter().map(|h| (h.min, h.max)).collect::<Vec<_>>();
    let first = corners(&[a(), b()]);
    assert_eq!(corners(&[b(), a()]), first);
    assert_eq!(corners(&[b(), a(), b()]), first);
    assert_eq!(corners(&[a(), inner(), b()]), first);
}
