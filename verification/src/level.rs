//! Turning a parsed tile map into the tiles to create: which cells of a layer
//! get a tile for a given tileset, with what texture, flips and tile type.

use crate::tilemap::Cell;
use std::collections::HashMap;
use vstd::arithmetic::div_mod::lemma_fundamental_div_mod_converse;
use vstd::arithmetic::div_mod::lemma_mod_bound;
use vstd::arithmetic::div_mod::lemma_multiply_divide_lt;
use vstd::prelude::*;

verus! {

/// The kind of ground a tile stands for.
#[derive(Debug, Clone, Copy, PartialEq, Eq, Structural)]
pub enum TileType {
    Grass,
    Dirt,
    Water,
    Sand,
    Rock,
}

/// How the map file lays out its grid.
#[derive(Debug, Clone, Copy, PartialEq, Eq, Structural)]
pub enum MapOrientation {
    Orthogonal,
    Isometric,
    Staggered,
    Hexagonal,
}

/// The grid that the renderer is asked for.
#[derive(Debug, Clone, Copy, PartialEq, Eq, Structural)]
pub enum GridKind {
    Square,
    HexagonRow,
    IsometricDiamond,
    IsometricStaggered,
}

/// What a tile's `type` property holds in the map file.
#[derive(Debug, Clone, Copy)]
pub enum TypeProperty<'a> {
    /// The tile has no such property.
    Missing,
    /// The property is a string.
    Text(&'a str),
    /// The property is something other than a string.
    Other,
}

/// A tile as a layer of the map file places it.
#[derive(Debug, Clone, Copy)]
pub struct LayerTile<'a> {
    /// The tileset that the tile belongs to, by its place in the map.
    pub tileset_index: usize,
    /// The tile's number within its tileset.
    pub id: u32,
    pub flip_h: bool,
    pub flip_v: bool,
    pub flip_d: bool,
    /// The `type` property of the tile's definition in its tileset.
    pub type_property: TypeProperty<'a>,
}

/// A finite tile layer of the map file: `tiles` holds the rows one after the
/// other, the top row first.
#[derive(Debug)]
pub struct TileLayerData<'a> {
    pub width: u32,
    pub height: u32,
    pub tiles: Vec<Option<LayerTile<'a>>>,
}

/// Where the images of a tileset come from.
#[derive(Debug, Clone, Copy, PartialEq, Eq, Structural)]
pub enum TextureSource {
    /// One image holds every tile: a tile's texture index is its number.
    Single,
    /// Every tile has an image of its own: a tile's texture index is the
    /// place of its image among the images loaded for the tileset.
    Vector,
}

/// A tile to create.
#[derive(Debug, Clone, Copy, PartialEq, Eq, Structural)]
pub struct TilePlan {
    /// The cell in the renderer's grid, counted from the bottom left.
    pub cell: Cell,
    /// The tile's number within its tileset.
    pub id: u32,
    pub texture_index: u32,
    pub flip_x: bool,
    pub flip_y: bool,
    pub flip_d: bool,
    /// The tile's kind, where its definition names one.
    pub tile_type: Option<TileType>,
}

/// Why a layer cannot be turned into tiles.
#[derive(Debug, Clone, Copy, PartialEq, Eq, Structural)]
pub enum PlanError {
    /// No image was loaded for the tile with this number.
    MissingImageOffset { id: u32 },
    /// The `type` property of the tile with this number is not a string.
    TypeNotText { id: u32 },
}

/// The kind of ground that a name stands for. A name that is none of the five
/// kinds stands for grass.
pub open spec fn tile_type_named(name: Seq<char>) -> TileType {
    if name == "Grass"@ {
        TileType::Grass
    } else if name == "Dirt"@ {
        TileType::Dirt
    } else if name == "Water"@ {
        TileType::Water
    } else if name == "Sand"@ {
        TileType::Sand
    } else if name == "Rock"@ {
        TileType::Rock
    } else {
        TileType::Grass
    }
}

/// The tile kind that a `type` property gives: none where it is missing, the
/// named kind where it is a string, and nothing at all where it is neither.
pub open spec fn tile_type_of(property: TypeProperty, id: u32) -> Result<
    Option<TileType>,
    PlanError,
> {
    match property {
        TypeProperty::Missing => Ok(None),
        TypeProperty::Text(name) => Ok(Some(tile_type_named(name@))),
        TypeProperty::Other => Err(PlanError::TypeNotText { id }),
    }
}

/// The texture index of a tile: its number in a single image, its image's
/// place among loaded images otherwise.
pub open spec fn texture_index_of(source: TextureSource, offsets: Map<u32, u32>, id: u32) -> Result<
    u32,
    PlanError,
> {
    match source {
        TextureSource::Single => Ok(id),
        TextureSource::Vector => if offsets.contains_key(id) {
            Ok(offsets[id])
        } else {
            Err(PlanError::MissingImageOffset { id })
        },
    }
}

impl<'a> TileLayerData<'a> {
    /// The tile that the layer places at column `x` of row `y`, rows counted
    /// from the top. There is none outside the layer, and none is ever read at a
    /// column or row that does not fit in 31 bits.
    pub open spec fn tile(&self, x: u32, y: u32) -> Option<LayerTile<'a>> {
        if x < self.width && y < self.height && x <= i32::MAX && y <= i32::MAX && x + y
            * self.width < self.tiles@.len() {
            self.tiles@[x + y * self.width]
        } else {
            None
        }
    }

    /// The tile that the layer places at column `x` of row `y`, rows counted
    /// from the top.
    pub fn get_tile(&self, x: u32, y: u32) -> (tile: Option<LayerTile<'a>>)
        ensures
            tile == self.tile(x, y),
    {
        if x < self.width && y < self.height && x <= 0x7fff_ffff && y <= 0x7fff_ffff {
            assert(y * self.width <= 0x7fff_ffff * 0xffff_ffff) by (nonlinear_arith)
                requires
                    y <= 0x7fff_ffff,
                    self.width <= 0xffff_ffff,
            ;
            let index: u64 = x as u64 + y as u64 * self.width as u64;
            if index < self.tiles.len() as u64 {
                return self.tiles[index as usize];
            }
        }
        None
    }
}

/// What one layer is planned for: the layer, the map's size in tiles, the
/// tileset whose tiles are wanted, and where that tileset's images come from.
pub struct PlanInput<'a> {
    pub layer: TileLayerData<'a>,
    pub map_width: u32,
    pub map_height: u32,
    pub tileset_index: usize,
    pub source: TextureSource,
}

/// The tile to create in the renderer's cell `(x, y)`, if any. The renderer
/// counts rows from the bottom and the map file from the top, so the cell
/// shows the layer's row `map_height - 1 - y`. A cell gets a tile only where
/// the layer places one that belongs to the wanted tileset; a cell above the
/// map's top row gets none.
pub open spec fn plan_cell(input: PlanInput, offsets: Map<u32, u32>, x: u32, y: u32) -> Result<
    Option<TilePlan>,
    PlanError,
> {
    let row = (input.map_height - 1 - y) as u32;
    match if y < input.map_height {
        input.layer.tile(x, row)
    } else {
        None
    } {
        None => Ok(None),
        Some(tile) => if tile.tileset_index != input.tileset_index {
            Ok(None)
        } else {
            match texture_index_of(input.source, offsets, tile.id) {
                Err(e) => Err(e),
                Ok(texture_index) => match tile_type_of(tile.type_property, tile.id) {
                    Err(e) => Err(e),
                    Ok(tile_type) => Ok(
                        Some(
                            TilePlan {
                                cell: Cell { x, y },
                                id: tile.id,
                                texture_index,
                                flip_x: tile.flip_h,
                                flip_y: tile.flip_v,
                                flip_d: tile.flip_d,
                                tile_type,
                            },
                        ),
                    ),
                },
            }
        },
    }
}

/// The tiles to create for the first `n` cells of the map, taken column by
/// column from the left and, within a column, from the bottom up; or the
/// first reason met why the layer cannot be turned into tiles.
pub open spec fn plan_cells(input: PlanInput, offsets: Map<u32, u32>, n: nat) -> Result<
    Seq<TilePlan>,
    PlanError,
>
    decreases n,
{
    if n == 0 {
        Ok(Seq::empty())
    } else {
        match plan_cells(input, offsets, (n - 1) as nat) {
            Err(e) => Err(e),
            Ok(plans) => match plan_cell(
                input,
                offsets,
                ((n - 1) / (input.map_height as int)) as u32,
                ((n - 1) % (input.map_height as int)) as u32,
            ) {
                Err(e) => Err(e),
                Ok(None) => Ok(plans),
                Ok(Some(plan)) => Ok(plans.push(plan)),
            },
        }
    }
}

/// Whether a cell lies inside the map.
pub open spec fn inside_map(input: PlanInput, cell: Cell) -> bool {
    cell.x < input.map_width && cell.y < input.map_height
}

/// The tiles to create for a whole layer.
pub open spec fn planned_layer(input: PlanInput, offsets: Map<u32, u32>) -> Result<
    Seq<TilePlan>,
    PlanError,
> {
    plan_cells(input, offsets, (input.map_width * input.map_height) as nat)
}

/// `str`'s own `==`: whether two strings hold the same characters.
pub assume_specification[ <str as PartialEq>::eq ](a: &str, b: &str) -> (same: bool)
    ensures
        same == (a@ == b@),
;

/// The grid to ask the renderer for.
pub fn grid_kind(orientation: MapOrientation) -> (kind: GridKind)
    ensures
        kind == match orientation {
            MapOrientation::Hexagonal => GridKind::HexagonRow,
            MapOrientation::Isometric => GridKind::IsometricDiamond,
            MapOrientation::Staggered => GridKind::IsometricStaggered,
            MapOrientation::Orthogonal => GridKind::Square,
        },
{
    match orientation {
        MapOrientation::Hexagonal => GridKind::HexagonRow,
        MapOrientation::Isometric => GridKind::IsometricDiamond,
        MapOrientation::Staggered => GridKind::IsometricStaggered,
        MapOrientation::Orthogonal => GridKind::Square,
    }
}

/// The kind of ground that a name stands for.
pub fn tile_type_from_name(name: &str) -> (kind: TileType)
    ensures
        kind == tile_type_named(name@),
{
    if name.eq("Grass") {
        TileType::Grass
    } else if name.eq("Dirt") {
        TileType::Dirt
    } else if name.eq("Water") {
        TileType::Water
    } else if name.eq("Sand") {
        TileType::Sand
    } else if name.eq("Rock") {
        TileType::Rock
    } else {
        TileType::Grass
    }
}

/// Plans the tile of one cell of the renderer's grid.
pub fn plan_tile(input: &PlanInput, offsets: &HashMap<u32, u32>, x: u32, y: u32) -> (planned: Result<
    Option<TilePlan>,
    PlanError,
>)
    ensures
        planned == plan_cell(*input, offsets@, x, y),
{
    if y >= input.map_height {
        return Ok(None);
    }
    let row = input.map_height - 1 - y;
    let tile = match input.layer.get_tile(x, row) {
        Some(tile) => tile,
        None => {
            return Ok(None);
        },
    };
    if tile.tileset_index != input.tileset_index {
        return Ok(None);
    }
    let texture_index = match input.source {
        TextureSource::Single => tile.id,
        TextureSource::Vector => match offsets.get(&tile.id) {
            Some(offset) => *offset,
            None => {
                return Err(PlanError::MissingImageOffset { id: tile.id });
            },
        },
    };
    let tile_type = match tile.type_property {
        TypeProperty::Missing => None,
        TypeProperty::Text(name) => Some(tile_type_from_name(name)),
        TypeProperty::Other => {
            return Err(PlanError::TypeNotText { id: tile.id });
        },
    };
    Ok(
        Some(
            TilePlan {
                cell: Cell { x, y },
                id: tile.id,
                texture_index,
                flip_x: tile.flip_h,
                flip_y: tile.flip_v,
                flip_d: tile.flip_d,
                tile_type,
            },
        ),
    )
}

/// Plans the tiles of a whole layer for one tileset: every cell of the map
/// where the layer places a tile of that tileset gets a tile, column by
/// column. The first tile without a loaded image, or with a `type` property
/// that is not a string, fails the whole layer.
pub fn plan_layer(input: &PlanInput, offsets: &HashMap<u32, u32>) -> (planned: Result<
    Vec<TilePlan>,
    PlanError,
>)
    ensures
        match planned {
            Ok(plans) => planned_layer(*input, offsets@) == Ok::<Seq<TilePlan>, PlanError>(plans@),
            Err(e) => planned_layer(*input, offsets@) == Err::<Seq<TilePlan>, PlanError>(e),
        },
        planned is Ok ==> forall|i: int|
            0 <= i < planned->Ok_0@.len() ==> inside_map(
                *input,
                (#[trigger] planned->Ok_0@[i]).cell,
            ),
{
    proof {
        lemma_planned_cells_inside(
            *input,
            offsets@,
            (input.map_width * input.map_height) as nat,
        );
    }
    let mut plans: Vec<TilePlan> = Vec::new();
    let width = input.map_width;
    let height = input.map_height;
    let mut x: u32 = 0;
    while x < width
        invariant
            x <= width,
            width == input.map_width,
            height == input.map_height,
            plan_cells(*input, offsets@, (x * height) as nat) == Ok::<Seq<TilePlan>, PlanError>(
                plans@,
            ),
        decreases width - x,
    {
        let mut y: u32 = 0;
        while y < height
            invariant
                x < width,
                y <= height,
                width == input.map_width,
                height == input.map_height,
                plan_cells(*input, offsets@, (x * height + y) as nat) == Ok::<
                    Seq<TilePlan>,
                    PlanError,
                >(plans@),
            decreases height - y,
        {
            proof {
                lemma_fundamental_div_mod_converse(
                    x * height + y,
                    height as int,
                    x as int,
                    y as int,
                );
                assert((x * height + y + 1 - 1) as nat == x * height + y);
            }
            match plan_tile(input, offsets, x, y) {
                Ok(Some(plan)) => {
                    plans.push(plan);
                },
                Ok(None) => {},
                Err(e) => {
                    proof {
                        assert(x * height + y + 1 <= width * height) by (nonlinear_arith)
                            requires
                                x < width,
                                y < height,
                        ;
                        lemma_plan_error_stays(
                            *input,
                            offsets@,
                            (x * height + y + 1) as nat,
                            (width * height) as nat,
                        );
                    }
                    return Err(e);
                },
            }
            y += 1;
        }
        proof {
            assert(x * height + height == (x + 1) * height) by (nonlinear_arith);
        }
        x += 1;
    }
    Ok(plans)
}

/// Gives each tile image its place among the images loaded for a tileset:
/// `ids` names, in loading order, the tiles that have an image of their own.
/// A tile that is named more than once keeps its last place.
pub fn tile_image_offsets(ids: &Vec<u32>) -> (offsets: HashMap<u32, u32>)
    requires
        ids@.len() <= u32::MAX,
    ensures
        offsets@ == image_places(ids@),
        forall|id: u32| offsets@.contains_key(id) <==> ids@.contains(id),
        forall|id: u32| #[trigger]
            offsets@.contains_key(id) ==> offsets@[id] < ids@.len() && ids@[offsets@[id] as int]
                == id,
{
    let mut offsets: HashMap<u32, u32> = HashMap::new();
    let mut i: usize = 0;
    while i < ids.len()
        invariant
            i <= ids@.len() <= u32::MAX,
            offsets@ == image_places(ids@.take(i as int)),
        decreases ids.len() - i,
    {
        proof {
            assert(ids@.take(i + 1).drop_last() == ids@.take(i as int));
        }
        offsets.insert(ids[i], i as u32);
        i += 1;
    }
    proof {
        assert(ids@.take(ids@.len() as int) == ids@);
        lemma_image_places(ids@);
    }
    offsets
}

/// The place of each tile's image among the images loaded in the order of
/// `ids`; a tile that is named more than once keeps its last place.
pub open spec fn image_places(ids: Seq<u32>) -> Map<u32, u32>
    decreases ids.len(),
{
    if ids.len() == 0 {
        Map::empty()
    } else {
        image_places(ids.drop_last()).insert(ids.last(), (ids.len() - 1) as u32)
    }
}

/// The places hold exactly the named tiles, and each place names its tile.
pub proof fn lemma_image_places(ids: Seq<u32>)
    requires
        ids.len() <= u32::MAX,
    ensures
        forall|id: u32| image_places(ids).contains_key(id) <==> ids.contains(id),
        forall|id: u32| #[trigger]
            image_places(ids).contains_key(id) ==> image_places(ids)[id] < ids.len()
                && ids[image_places(ids)[id] as int] == id,
    decreases ids.len(),
{
    if ids.len() > 0 {
        let head = ids.drop_last();
        lemma_image_places(head);
        assert forall|id: u32| image_places(ids).contains_key(id) <==> ids.contains(id) by {
            if ids.contains(id) {
                let k = choose|k: int| 0 <= k < ids.len() && ids[k] == id;
                if k < ids.len() - 1 {
                    assert(head[k] == id);
                }
            }
            if head.contains(id) {
                let k = choose|k: int| 0 <= k < head.len() && head[k] == id;
                assert(ids[k] == id);
            }
            assert(ids[ids.len() - 1] == ids.last());
        }
        assert forall|id: u32| #[trigger]
            image_places(ids).contains_key(id) implies image_places(ids)[id] < ids.len()
            && ids[image_places(ids)[id] as int] == id by {
            if id != ids.last() {
                assert(image_places(head).contains_key(id));
                assert(head[image_places(head)[id] as int] == ids[image_places(head)[id] as int]);
            }
        }
    }
}

/// The name of a map among the loaded assets.
#[derive(Debug, Clone, Copy, PartialEq, Eq, Structural)]
pub struct MapId {
    /// Whether the name is a fixed one rather than one handed out at run time.
    pub fixed: bool,
    pub bits: u128,
}

/// What the asset store reports about a map.
#[derive(Debug, Clone, Copy, PartialEq, Eq, Structural)]
pub enum MapEvent {
    Added(MapId),
    Modified(MapId),
    Removed(MapId),
    /// Anything else; it does not bear on which maps to build.
    Other,
}

/// Only the entries of `maps` that are `id`.
pub open spec fn only(maps: Seq<MapId>, id: MapId) -> Seq<MapId> {
    maps.filter(|m: MapId| m == id)
}

/// The maps to build after a run of events: an added or modified map joins
/// the list, and the removal of a map leaves in the list only the entries
/// that name that very map.
pub open spec fn changed_after(events: Seq<MapEvent>) -> Seq<MapId>
    decreases events.len(),
{
    if events.len() == 0 {
        Seq::empty()
    } else {
        let before = changed_after(events.drop_last());
        match events.last() {
            MapEvent::Added(id) => before.push(id),
            MapEvent::Modified(id) => before.push(id),
            MapEvent::Removed(id) => only(before, id),
            MapEvent::Other => before,
        }
    }
}

/// Keeps of `maps` only the entries that are `id`.
pub fn retain_only(maps: &Vec<MapId>, id: MapId) -> (kept: Vec<MapId>)
    ensures
        kept@ == only(maps@, id),
{
    let mut kept: Vec<MapId> = Vec::new();
    let mut i: usize = 0;
    while i < maps.len()
        invariant
            i <= maps@.len(),
            kept@ == only(maps@.take(i as int), id),
        decreases maps.len() - i,
    {
        proof {
            assert(maps@.take(i + 1).drop_last() == maps@.take(i as int));
            reveal(Seq::filter);
        }
        if maps[i] == id {
            kept.push(maps[i]);
        }
        i += 1;
    }
    proof {
        assert(maps@.take(maps@.len() as int) == maps@);
    }
    kept
}

/// The maps to build on this tick: those that this tick's asset events leave
/// changed, followed by the maps whose entities are new.
pub fn changed_maps(events: &Vec<MapEvent>, new_maps: &Vec<MapId>) -> (changed: Vec<MapId>)
    ensures
        changed@ == changed_after(events@) + new_maps@,
{
    let mut changed: Vec<MapId> = Vec::new();
    let mut i: usize = 0;
    while i < events.len()
        invariant
            i <= events@.len(),
            changed@ == changed_after(events@.take(i as int)),
        decreases events.len() - i,
    {
        proof {
            assert(events@.take(i + 1).drop_last() == events@.take(i as int));
        }
        match events[i] {
            MapEvent::Added(id) => {
                changed.push(id);
            },
            MapEvent::Modified(id) => {
                changed.push(id);
            },
            MapEvent::Removed(id) => {
                changed = retain_only(&changed, id);
            },
            MapEvent::Other => {},
        }
        i += 1;
    }
    proof {
        assert(events@.take(events@.len() as int) == events@);
    }
    let mut j: usize = 0;
    while j < new_maps.len()
        invariant
            j <= new_maps@.len(),
            changed@ == changed_after(events@) + new_maps@.take(j as int),
        decreases new_maps.len() - j,
    {
        changed.push(new_maps[j]);
        proof {
            assert(new_maps@.take(j + 1) == new_maps@.take(j as int).push(new_maps@[j as int]));
        }
        j += 1;
    }
    proof {
        assert(new_maps@.take(new_maps@.len() as int) == new_maps@);
    }
    changed
}

/// Every planned tile lies inside the map, so each has a slot in a tile
/// storage made for the map.
pub proof fn lemma_planned_cells_inside(input: PlanInput, offsets: Map<u32, u32>, n: nat)
    requires
        n <= input.map_width * input.map_height,
    ensures
        plan_cells(input, offsets, n) is Ok ==> forall|i: int|
            0 <= i < plan_cells(input, offsets, n)->Ok_0.len() ==> inside_map(
                input,
                (#[trigger] plan_cells(input, offsets, n)->Ok_0[i]).cell,
            ),
    decreases n,
{
    if n > 0 {
        let height = input.map_height as int;
        assert(height > 0) by (nonlinear_arith)
            requires
                0 < n <= input.map_width * height,
                0 <= height,
                0 <= input.map_width,
        ;
        lemma_planned_cells_inside(input, offsets, (n - 1) as nat);
        assert(n - 1 < height * input.map_width) by (nonlinear_arith)
            requires
                n <= input.map_width * height,
        ;
        lemma_multiply_divide_lt(n - 1, height, input.map_width as int);
        lemma_mod_bound(n - 1, height);
    }
}

/// Once a cell fails the plan, the plan of every longer run of cells fails
/// for the same reason.
pub proof fn lemma_plan_error_stays(input: PlanInput, offsets: Map<u32, u32>, n: nat, m: nat)
    requires
        n <= m,
        plan_cells(input, offsets, n) is Err,
    ensures
        plan_cells(input, offsets, m) == plan_cells(input, offsets, n),
    decreases m,
{
    if n < m {
        lemma_plan_error_stays(input, offsets, n, (m - 1) as nat);
    }
}

} // verus!
