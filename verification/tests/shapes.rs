use dptrenchcraft::block_shapes::{get_shape, BlockShape};
use dptrenchcraft::blockstate::block_from_state;
use dptrenchcraft::model::Block;

fn block(name: &str, props: &[(&str, &str)]) -> Block {
    let properties = props.iter().map(|(k, v)| (k.to_string(), v.to_string())).collect();
    Block::new(name, properties)
}

#[test]
fn stairs_follow_half_and_facing() {
    let b = block("minecraft:oak_stairs", &[("facing", "east"), ("half", "top")]);
    assert_eq!(get_shape(&b), BlockShape::StairEastTop);
    let b = block("minecraft:stone_brick_stairs", &[("facing", "south"), ("half", "bottom")]);
    assert_eq!(get_shape(&b), BlockShape::StairSouthBottom);
    let b = block("minecraft:oak_stairs", &[("facing", "west")]);
    assert_eq!(get_shape(&b), BlockShape::StairWestBottom);
}

#[test]
fn stairs_without_properties_face_north_bottom() {
    assert_eq!(get_shape(&block("minecraft:oak_stairs", &[])), BlockShape::StairNorthBottom);
    let odd = block("minecraft:oak_stairs", &[("facing", "up"), ("half", "top")]);
    assert_eq!(get_shape(&odd), BlockShape::StairNorthBottom);
}

#[test]
fn slabs_follow_type() {
    assert_eq!(get_shape(&block("minecraft:oak_slab", &[("type", "top")])), BlockShape::SlabTop);
    assert_eq!(get_shape(&block("minecraft:oak_slab", &[("type", "bottom")])), BlockShape::SlabBottom);
    assert_eq!(get_shape(&block("minecraft:oak_slab", &[("type", "double")])), BlockShape::Full);
    assert_eq!(get_shape(&block("minecraft:oak_slab", &[])), BlockShape::SlabBottom);
    assert_eq!(get_shape(&block("minecraft:oak_slab", &[("type", "weird")])), BlockShape::SlabBottom);
}

#[test]
fn last_property_occurrence_counts() {
    let b = block("minecraft:oak_slab", &[("type", "bottom"), ("type", "top")]);
    assert_eq!(get_shape(&b), BlockShape::SlabTop);
    assert_eq!(b.property("type").map(|s| s.as_str()), Some("top"));
    assert_eq!(b.property("facing"), None);
}

#[test]
fn thin_blocks_follow_connections() {
    let ns = block("minecraft:glass_pane", &[("north", "true"), ("east", "false")]);
    assert_eq!(get_shape(&ns), BlockShape::ThinPanelNS);
    let ew = block("minecraft:oak_fence", &[("west", "true")]);
    assert_eq!(get_shape(&ew), BlockShape::ThinPanelEW);
    let both = block("minecraft:iron_bars", &[("north", "true"), ("east", "true")]);
    assert_eq!(get_shape(&both), BlockShape::ThinCross);
    let none = block("minecraft:glass_pane", &[("north", "none"), ("south", "false")]);
    assert_eq!(get_shape(&none), BlockShape::ThinCross);
    let portal = block("minecraft:nether_portal", &[("south", "low")]);
    assert_eq!(get_shape(&portal), BlockShape::ThinPanelNS);
}

#[test]
fn special_blocks_have_their_shapes() {
    assert_eq!(get_shape(&block("minecraft:dirt_path", &[])), BlockShape::Path);
    assert_eq!(get_shape(&block("minecraft:trapped_chest", &[])), BlockShape::Chest);
    assert_eq!(get_shape(&block("minecraft:waxed_oxidized_copper_chest", &[])), BlockShape::Chest);
    assert_eq!(get_shape(&block("minecraft:poppy", &[])), BlockShape::PlantCross);
    assert_eq!(get_shape(&block("minecraft:potted_mushroom_thing", &[])), BlockShape::PlantCross);
    assert_eq!(get_shape(&block("minecraft:wall_torch", &[])), BlockShape::Torch);
    assert_eq!(get_shape(&block("minecraft:red_bed", &[])), BlockShape::Bed);
    assert_eq!(get_shape(&block("minecraft:stone", &[])), BlockShape::Full);
    assert_eq!(get_shape(&block("minecraft:dirt", &[])), BlockShape::Full);
}

#[test]
fn plants_are_checked_before_torches() {
    assert_eq!(get_shape(&block("minecraft:torchflower", &[])), BlockShape::PlantCross);
}

#[test]
fn block_state_with_properties() {
    let b = block_from_state("minecraft:oak_stairs[facing=east,half=top]");
    assert_eq!(b.name, "minecraft:oak_stairs");
    assert_eq!(b.texture, "minecraft:oak_stairs");
    assert_eq!(
        b.properties,
        vec![("facing".to_string(), "east".to_string()), ("half".to_string(), "top".to_string())]
    );
    assert_eq!(get_shape(&b), BlockShape::StairEastTop);
}

#[test]
fn block_state_without_brackets_is_plain() {
    let b = block_from_state("minecraft:stone");
    assert_eq!(b.name, "minecraft:stone");
    assert_eq!(b.texture, "minecraft:stone");
    assert!(b.properties.is_empty());
}

#[test]
fn block_state_edge_cases() {
    let b = block_from_state("minecraft:a[b=c][d=e]");
    assert_eq!(b.name, "minecraft:a");
    assert_eq!(b.properties, vec![("b".to_string(), "c".to_string())]);
    let b = block_from_state("x[=1,k,v=a=b,w=]]]");
    assert_eq!(b.name, "x");
    assert_eq!(
        b.properties,
        vec![("v".to_string(), "a=b".to_string()), ("w".to_string(), "".to_string())]
    );
    let b = block_from_state("y[]");
    assert_eq!(b.name, "y");
    assert!(b.properties.is_empty());
}
