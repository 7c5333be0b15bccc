use dptrenchcraft::model::VoxelMap;
use dptrenchcraft::parser::{
    parse_nbt, DimField, LitematicRegion, LitematicSchematic, NbtTag, ParseError,
};

fn compound(entries: Vec<(&str, NbtTag)>) -> NbtTag {
    NbtTag::Compound(entries.into_iter().map(|(k, v)| (k.to_string(), v)).collect())
}

fn schematic(w: NbtTag, h: NbtTag, l: NbtTag, palette: NbtTag, data: Vec<u8>) -> NbtTag {
    compound(vec![
        ("Width", w),
        ("Height", h),
        ("Length", l),
        ("Palette", palette),
        ("BlockData", NbtTag::ByteArray(data)),
    ])
}

fn stone_palette() -> NbtTag {
    compound(vec![("minecraft:stone", NbtTag::Int(0))])
}

fn parse(t: &NbtTag) -> Result<VoxelMap, ParseError> {
    parse_nbt(t)
}

#[test]
fn reads_a_flat_schematic() {
    let palette = compound(vec![
        ("minecraft:stone", NbtTag::Int(0)),
        ("minecraft:oak_stairs[facing=east,half=top]", NbtTag::Int(1)),
    ]);
    let t = schematic(NbtTag::Short(2), NbtTag::Short(1), NbtTag::Short(1), palette, vec![0, 1]);
    let m = parse(&t).unwrap();
    assert_eq!((m.width, m.height, m.length), (2, 1, 1));
    assert_eq!(m.blocks.len(), 2);
    let a = m.blocks[0].as_ref().unwrap();
    assert_eq!(a.name, "minecraft:stone");
    assert_eq!(a.texture, "minecraft:stone");
    assert!(a.properties.is_empty());
    let b = m.blocks[1].as_ref().unwrap();
    assert_eq!(b.name, "minecraft:oak_stairs");
    assert_eq!(
        b.properties,
        vec![("facing".to_string(), "east".to_string()), ("half".to_string(), "top".to_string())]
    );
}

#[test]
fn reads_a_nested_schematic_with_blocks_compound() {
    let blocks = compound(vec![
        ("Palette", compound(vec![("minecraft:dirt", NbtTag::Int(5))])),
        ("BlockData", NbtTag::ByteArray(vec![9])),
        ("Data", NbtTag::ByteArray(vec![5])),
    ]);
    let inner = compound(vec![
        ("Width", NbtTag::Int(1)),
        ("Height", NbtTag::Byte(1)),
        ("Length", NbtTag::Short(1)),
        ("Blocks", blocks),
    ]);
    let t = compound(vec![("Schematic", inner)]);
    let m = parse(&t).unwrap();
    assert_eq!(m.blocks[0].as_ref().unwrap().name, "minecraft:dirt");
}

#[test]
fn top_level_block_data_comes_before_data() {
    let t = compound(vec![
        ("Width", NbtTag::Int(1)),
        ("Height", NbtTag::Int(1)),
        ("Length", NbtTag::Int(1)),
        ("Palette", compound(vec![("a", NbtTag::Int(1)), ("b", NbtTag::Int(2))])),
        ("Data", NbtTag::ByteArray(vec![1])),
        ("BlockData", NbtTag::ByteArray(vec![2])),
    ]);
    assert_eq!(parse(&t).unwrap().blocks[0].as_ref().unwrap().name, "b");
}

#[test]
fn ids_are_varints() {
    let palette = compound(vec![("a", NbtTag::Int(300)), ("b", NbtTag::Short(0))]);
    let t = schematic(NbtTag::Int(2), NbtTag::Int(1), NbtTag::Int(1), palette, vec![0xAC, 0x02, 0x00]);
    let m = parse(&t).unwrap();
    assert_eq!(m.blocks[0].as_ref().unwrap().name, "a");
    assert_eq!(m.blocks[1].as_ref().unwrap().name, "b");
}

#[test]
fn later_palette_entries_win() {
    let palette = compound(vec![("first", NbtTag::Int(0)), ("second", NbtTag::Int(0))]);
    let t = schematic(NbtTag::Int(1), NbtTag::Int(1), NbtTag::Int(1), palette, vec![0]);
    assert_eq!(parse(&t).unwrap().blocks[0].as_ref().unwrap().name, "second");
}

#[test]
fn parsed_map_has_one_cell_per_position() {
    let t = schematic(NbtTag::Int(3), NbtTag::Int(2), NbtTag::Int(2), stone_palette(), vec![0; 12]);
    let m = parse(&t).unwrap();
    assert_eq!(m.blocks.len(), (m.width * m.height * m.length) as usize);
    assert!(m.is_well_formed());
}

#[test]
fn top_level_must_be_a_compound() {
    assert!(matches!(parse(&NbtTag::Other), Err(ParseError::NotCompound)));
    assert!(matches!(parse(&NbtTag::Int(3)), Err(ParseError::NotCompound)));
}

#[test]
fn dimension_errors() {
    let t = compound(vec![("Height", NbtTag::Int(1)), ("Length", NbtTag::Int(1))]);
    assert!(matches!(parse(&t), Err(ParseError::MissingField(DimField::Width))));
    let t = compound(vec![("Width", NbtTag::ByteArray(vec![1])), ("Height", NbtTag::Int(1))]);
    assert!(matches!(parse(&t), Err(ParseError::FieldType(DimField::Width))));
    let t = compound(vec![("Width", NbtTag::Int(1)), ("Height", NbtTag::Int(1))]);
    assert!(matches!(parse(&t), Err(ParseError::MissingField(DimField::Length))));
    let t = schematic(NbtTag::Int(2), NbtTag::Int(0), NbtTag::Int(1), stone_palette(), vec![]);
    assert!(matches!(parse(&t), Err(ParseError::InvalidDimensions(2, 0, 1))));
    let t = schematic(NbtTag::Byte(-1), NbtTag::Int(1), NbtTag::Int(1), stone_palette(), vec![]);
    assert!(matches!(parse(&t), Err(ParseError::InvalidDimensions(-1, 1, 1))));
}

#[test]
fn palette_errors() {
    let no_palette = compound(vec![
        ("Width", NbtTag::Int(1)),
        ("Height", NbtTag::Int(1)),
        ("Length", NbtTag::Int(1)),
        ("BlockData", NbtTag::ByteArray(vec![0])),
    ]);
    assert!(matches!(parse(&no_palette), Err(ParseError::MissingPalette)));
    let t = schematic(NbtTag::Int(1), NbtTag::Int(1), NbtTag::Int(1), NbtTag::Int(0), vec![0]);
    assert!(matches!(parse(&t), Err(ParseError::PaletteType)));
    let t = schematic(NbtTag::Int(1), NbtTag::Int(1), NbtTag::Int(1), compound(vec![]), vec![0]);
    assert!(matches!(parse(&t), Err(ParseError::EmptyPalette)));
    let bad = compound(vec![("minecraft:stone", NbtTag::Int(0)), ("minecraft:glass", NbtTag::Other)]);
    let t = schematic(NbtTag::Int(1), NbtTag::Int(1), NbtTag::Int(1), bad, vec![0]);
    match parse(&t) {
        Err(ParseError::PaletteEntryType(name)) => assert_eq!(name, "minecraft:glass"),
        _ => panic!("expected a palette entry error"),
    }
}

#[test]
fn block_data_errors() {
    let no_data = compound(vec![
        ("Width", NbtTag::Int(1)),
        ("Height", NbtTag::Int(1)),
        ("Length", NbtTag::Int(1)),
        ("Palette", stone_palette()),
    ]);
    assert!(matches!(parse(&no_data), Err(ParseError::MissingBlockData)));
    let wrong = compound(vec![
        ("Width", NbtTag::Int(1)),
        ("Height", NbtTag::Int(1)),
        ("Length", NbtTag::Int(1)),
        ("Palette", stone_palette()),
        ("BlockData", NbtTag::Int(0)),
    ]);
    assert!(matches!(parse(&wrong), Err(ParseError::BlockDataType)));
}

#[test]
fn data_that_ends_early() {
    let t = schematic(NbtTag::Int(2), NbtTag::Int(1), NbtTag::Int(1), stone_palette(), vec![0]);
    assert!(matches!(parse(&t), Err(ParseError::DataEndedEarly { block: 1, total: 2 })));
    let t = schematic(NbtTag::Int(1), NbtTag::Int(1), NbtTag::Int(1), stone_palette(), vec![0x80]);
    assert!(matches!(parse(&t), Err(ParseError::VarIntTruncated(0))));
    let t = schematic(NbtTag::Int(1), NbtTag::Int(1), NbtTag::Int(1), stone_palette(), vec![0x80, 0x80, 0x80, 0x80]);
    assert!(matches!(parse(&t), Err(ParseError::VarIntTruncated(0))));
}

#[test]
fn varints_longer_than_five_bytes_are_refused() {
    let t = schematic(NbtTag::Int(1), NbtTag::Int(1), NbtTag::Int(1), stone_palette(), vec![0x80, 0x80, 0x80, 0x80, 0x80]);
    assert!(matches!(parse(&t), Err(ParseError::VarIntTooLarge(0))));
    let t = schematic(NbtTag::Int(2), NbtTag::Int(1), NbtTag::Int(1), stone_palette(), vec![0x00, 0x80, 0x80, 0x80, 0x80, 0x01]);
    assert!(matches!(parse(&t), Err(ParseError::UnknownPaletteId { id: 0x1000_0000, block: 1 })));
}

#[test]
fn unknown_ids_are_refused() {
    let t = schematic(NbtTag::Int(1), NbtTag::Int(1), NbtTag::Int(1), stone_palette(), vec![7]);
    assert!(matches!(parse(&t), Err(ParseError::UnknownPaletteId { id: 7, block: 0 })));
}

fn region(size: (i32, i32, i32), names: &[&str]) -> LitematicRegion {
    LitematicRegion { size, block_names: names.iter().map(|n| n.to_string()).collect() }
}

#[test]
fn litematic_without_regions() {
    let s = LitematicSchematic { regions: vec![] };
    assert!(matches!(VoxelMap::from_litematic(&s), Err(ParseError::NoRegions)));
}

#[test]
fn litematic_with_a_flat_region() {
    let s = LitematicSchematic { regions: vec![region((2, 0, 1), &[])] };
    assert!(matches!(VoxelMap::from_litematic(&s), Err(ParseError::InvalidRegionSize(2, 0, 1))));
}

#[test]
fn litematic_first_region_is_read() {
    let s = LitematicSchematic {
        regions: vec![
            region((2, 1, 1), &["minecraft:stone", "minecraft:air"]),
            region((1, 1, 1), &["minecraft:dirt"]),
        ],
    };
    let m = VoxelMap::from_litematic(&s).unwrap();
    assert_eq!((m.width, m.height, m.length), (2, 1, 1));
    let a = m.blocks[0].as_ref().unwrap();
    assert_eq!((a.name.as_str(), a.texture.as_str()), ("minecraft:stone", "minecraft:stone"));
    assert!(a.properties.is_empty());
    assert_eq!(m.blocks[1].as_ref().unwrap().name, "minecraft:air");
}

#[test]
fn litematic_negative_sizes_count_by_their_extent() {
    let s = LitematicSchematic { regions: vec![region((-1, 2, -1), &["a", "b"])] };
    let m = VoxelMap::from_litematic(&s).unwrap();
    assert_eq!((m.width, m.height, m.length), (1, 2, 1));
    assert_eq!(m.blocks.len(), 2);
}
