use farm_actor::level::changed_maps;
use farm_actor::level::grid_kind;
use farm_actor::level::plan_layer;
use farm_actor::level::plan_tile;
use farm_actor::level::retain_only;
use farm_actor::level::tile_image_offsets;
use farm_actor::level::tile_type_from_name;
use farm_actor::level::GridKind;
use farm_actor::level::LayerTile;
use farm_actor::level::MapEvent;
use farm_actor::level::MapId;
use farm_actor::level::MapOrientation;
use farm_actor::level::PlanError;
use farm_actor::level::PlanInput;
use farm_actor::level::TextureSource;
use farm_actor::level::TileLayerData;
use farm_actor::level::TilePlan;
use farm_actor::level::TileType;
use farm_actor::level::TypeProperty;
use farm_actor::tilemap::Cell;
use std::collections::HashMap;

fn tile(tileset_index: usize, id: u32, type_property: TypeProperty<'static>) -> Option<LayerTile<'static>> {
    Some(LayerTile { tileset_index, id, flip_h: false, flip_v: false, flip_d: false, type_property })
}

fn plan(x: u32, y: u32, id: u32, texture_index: u32, tile_type: Option<TileType>) -> TilePlan {
    TilePlan { cell: Cell { x, y }, id, texture_index, flip_x: false, flip_y: false, flip_d: false, tile_type }
}

fn id(bits: u128) -> MapId {
    MapId { fixed: false, bits }
}

/// Three columns, two rows. Top row: grass, nothing, rock. Bottom row: a tile of
/// another tileset, water, a tile without a type.
fn small_layer() -> TileLayerData<'static> {
    TileLayerData {
        width: 3,
        height: 2,
        tiles: vec![
            tile(0, 5, TypeProperty::Text("Grass")),
            None,
            tile(0, 7, TypeProperty::Text("Rock")),
            tile(1, 2, TypeProperty::Text("Dirt")),
            tile(0, 6, TypeProperty::Text("Water")),
            tile(0, 9, TypeProperty::Missing),
        ],
    }
}

fn input(layer: TileLayerData<'static>, source: TextureSource) -> PlanInput<'static> {
    PlanInput { map_width: layer.width, map_height: layer.height, layer, tileset_index: 0, source }
}

#[test]
fn tile_type_names() {
    assert_eq!(tile_type_from_name("Grass"), TileType::Grass);
    assert_eq!(tile_type_from_name("Dirt"), TileType::Dirt);
    assert_eq!(tile_type_from_name("Water"), TileType::Water);
    assert_eq!(tile_type_from_name("Sand"), TileType::Sand);
    assert_eq!(tile_type_from_name("Rock"), TileType::Rock);
    assert_eq!(tile_type_from_name("Lava"), TileType::Grass);
    assert_eq!(tile_type_from_name("rock"), TileType::Grass);
    assert_eq!(tile_type_from_name(""), TileType::Grass);
}

#[test]
fn grid_kind_of_each_orientation() {
    assert_eq!(grid_kind(MapOrientation::Orthogonal), GridKind::Square);
    assert_eq!(grid_kind(MapOrientation::Hexagonal), GridKind::HexagonRow);
    assert_eq!(grid_kind(MapOrientation::Isometric), GridKind::IsometricDiamond);
    assert_eq!(grid_kind(MapOrientation::Staggered), GridKind::IsometricStaggered);
}

#[test]
fn layer_rows_are_read_from_the_top() {
    let layer = small_layer();
    assert_eq!(layer.get_tile(0, 0).map(|t| t.id), Some(5));
    assert_eq!(layer.get_tile(2, 0).map(|t| t.id), Some(7));
    assert_eq!(layer.get_tile(1, 1).map(|t| t.id), Some(6));
    assert!(layer.get_tile(1, 0).is_none());
    assert!(layer.get_tile(3, 0).is_none());
    assert!(layer.get_tile(0, 2).is_none());
    assert!(layer.get_tile(u32::MAX, 0).is_none());
}

#[test]
fn a_layer_with_fewer_tiles_than_cells_is_read_safely() {
    let layer = TileLayerData { width: 4, height: 4, tiles: vec![tile(0, 1, TypeProperty::Missing)] };
    assert_eq!(layer.get_tile(0, 0).map(|t| t.id), Some(1));
    assert!(layer.get_tile(1, 0).is_none());
    assert!(layer.get_tile(3, 3).is_none());
}

#[test]
fn plan_flips_rows_and_goes_column_by_column() {
    let planned = plan_layer(&input(small_layer(), TextureSource::Single), &HashMap::new());
    assert_eq!(
        planned,
        Ok(vec![
            plan(0, 1, 5, 5, Some(TileType::Grass)),
            plan(1, 0, 6, 6, Some(TileType::Water)),
            plan(2, 0, 9, 9, None),
            plan(2, 1, 7, 7, Some(TileType::Rock)),
        ])
    );
}

#[test]
fn plan_keeps_only_the_wanted_tileset() {
    let mut wanted = input(small_layer(), TextureSource::Single);
    wanted.tileset_index = 1;
    assert_eq!(plan_layer(&wanted, &HashMap::new()), Ok(vec![plan(0, 0, 2, 2, Some(TileType::Dirt))]));
    wanted.tileset_index = 2;
    assert_eq!(plan_layer(&wanted, &HashMap::new()), Ok(Vec::new()));
}

#[test]
fn plan_carries_the_flips() {
    let layer = TileLayerData {
        width: 1,
        height: 1,
        tiles: vec![Some(LayerTile {
            tileset_index: 0,
            id: 3,
            flip_h: true,
            flip_v: false,
            flip_d: true,
            type_property: TypeProperty::Text("Sand"),
        })],
    };
    assert_eq!(
        plan_layer(&input(layer, TextureSource::Single), &HashMap::new()),
        Ok(vec![TilePlan {
            cell: Cell { x: 0, y: 0 },
            id: 3,
            texture_index: 3,
            flip_x: true,
            flip_y: false,
            flip_d: true,
            tile_type: Some(TileType::Sand),
        }])
    );
}

#[test]
fn image_collections_use_the_place_of_the_image() {
    let offsets = tile_image_offsets(&vec![9, 7, 6, 5]);
    let planned = plan_layer(&input(small_layer(), TextureSource::Vector), &offsets);
    assert_eq!(
        planned,
        Ok(vec![
            plan(0, 1, 5, 3, Some(TileType::Grass)),
            plan(1, 0, 6, 2, Some(TileType::Water)),
            plan(2, 0, 9, 0, None),
            plan(2, 1, 7, 1, Some(TileType::Rock)),
        ])
    );
}

#[test]
fn a_tile_without_a_loaded_image_fails_the_layer() {
    let offsets = tile_image_offsets(&vec![5, 6, 9]);
    let wanted = input(small_layer(), TextureSource::Vector);
    assert_eq!(plan_layer(&wanted, &offsets), Err(PlanError::MissingImageOffset { id: 7 }));
    assert_eq!(plan_tile(&wanted, &offsets, 2, 1), Err(PlanError::MissingImageOffset { id: 7 }));
    assert_eq!(plan_tile(&wanted, &offsets, 1, 1), Ok(None));
}

#[test]
fn a_type_that_is_no_string_fails_the_layer() {
    let layer = TileLayerData {
        width: 2,
        height: 1,
        tiles: vec![tile(0, 1, TypeProperty::Text("Dirt")), tile(0, 4, TypeProperty::Other)],
    };
    assert_eq!(
        plan_layer(&input(layer, TextureSource::Single), &HashMap::new()),
        Err(PlanError::TypeNotText { id: 4 })
    );
}

#[test]
fn the_first_failure_in_column_order_is_reported() {
    let layer = TileLayerData {
        width: 2,
        height: 2,
        tiles: vec![
            tile(0, 1, TypeProperty::Other),
            tile(0, 2, TypeProperty::Other),
            tile(0, 3, TypeProperty::Other),
            tile(0, 4, TypeProperty::Missing),
        ],
    };
    assert_eq!(
        plan_layer(&input(layer, TextureSource::Single), &HashMap::new()),
        Err(PlanError::TypeNotText { id: 3 })
    );
}

#[test]
fn a_missing_image_is_reported_before_a_bad_type() {
    let layer = TileLayerData { width: 1, height: 1, tiles: vec![tile(0, 8, TypeProperty::Other)] };
    assert_eq!(
        plan_layer(&input(layer, TextureSource::Vector), &HashMap::new()),
        Err(PlanError::MissingImageOffset { id: 8 })
    );
}

#[test]
fn a_map_larger_than_the_layer_plans_only_what_the_layer_holds() {
    let mut wanted = input(small_layer(), TextureSource::Single);
    wanted.map_width = 4;
    wanted.map_height = 3;
    // Row 0 of the layer is now shown in the renderer's row 2.
    assert_eq!(
        plan_layer(&wanted, &HashMap::new()),
        Ok(vec![
            plan(0, 2, 5, 5, Some(TileType::Grass)),
            plan(1, 1, 6, 6, Some(TileType::Water)),
            plan(2, 1, 9, 9, None),
            plan(2, 2, 7, 7, Some(TileType::Rock)),
        ])
    );
}

#[test]
fn an_empty_map_plans_nothing() {
    let mut wanted = input(small_layer(), TextureSource::Single);
    wanted.map_height = 0;
    assert_eq!(plan_layer(&wanted, &HashMap::new()), Ok(Vec::new()));
    wanted.map_height = 2;
    wanted.map_width = 0;
    assert_eq!(plan_layer(&wanted, &HashMap::new()), Ok(Vec::new()));
}

#[test]
fn image_offsets_number_the_images_in_loading_order() {
    let offsets = tile_image_offsets(&vec![40, 10, 30]);
    assert_eq!(offsets.len(), 3);
    assert_eq!(offsets.get(&40), Some(&0));
    assert_eq!(offsets.get(&10), Some(&1));
    assert_eq!(offsets.get(&30), Some(&2));
    assert_eq!(offsets.get(&20), None);
    let repeated = tile_image_offsets(&vec![1, 2, 1]);
    assert_eq!(repeated.get(&1), Some(&2));
    assert_eq!(repeated.get(&2), Some(&1));
    assert!(tile_image_offsets(&Vec::new()).is_empty());
}

#[test]
fn added_and_modified_maps_are_built_then_new_ones() {
    let events = vec![MapEvent::Added(id(1)), MapEvent::Other, MapEvent::Modified(id(2)), MapEvent::Modified(id(1))];
    assert_eq!(changed_maps(&events, &vec![id(9), id(1)]), vec![id(1), id(2), id(1), id(9), id(1)]);
    assert_eq!(changed_maps(&Vec::new(), &Vec::new()), Vec::new());
}

#[test]
fn a_removal_leaves_only_the_entries_of_the_removed_map() {
    let events = vec![
        MapEvent::Added(id(1)),
        MapEvent::Modified(id(2)),
        MapEvent::Modified(id(1)),
        MapEvent::Removed(id(1)),
        MapEvent::Added(id(3)),
    ];
    assert_eq!(changed_maps(&events, &Vec::new()), vec![id(1), id(1), id(3)]);
    let gone = vec![MapEvent::Added(id(1)), MapEvent::Removed(id(2))];
    assert_eq!(changed_maps(&gone, &vec![id(4)]), vec![id(4)]);
}

#[test]
fn retain_only_tells_fixed_names_from_others() {
    let fixed = MapId { fixed: true, bits: 1 };
    assert_eq!(retain_only(&vec![id(1), fixed, id(2), fixed], fixed), vec![fixed, fixed]);
    assert_eq!(retain_only(&vec![id(1), fixed], id(1)), vec![id(1)]);
}
