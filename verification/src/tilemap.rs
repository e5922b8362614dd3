//! Looking up tiles in the tile storage of a map layer.

use bevy::ecs::entity::Entity;
use bevy_ecs_tilemap::tiles::TileStorage;
use vstd::prelude::*;

verus! {

/// The tilemap crate's `TileStorage`, carried as a value whose inside is not
/// looked into.
#[verifier::external_type_specification]
#[verifier::external_body]
pub struct ExTileStorage(TileStorage);

/// The slots of a tile storage, row by row from the bottom row, each with the
/// identifier bits of the tile entity stored there, if there is one.
pub uninterp spec fn tile_storage_slots(storage: TileStorage) -> Seq<Option<u64>>;

/// The width and the height in tiles that a tile storage records for its map.
pub uninterp spec fn tile_storage_extent(storage: TileStorage) -> (u32, u32);

/// A cell of a map layer: column and row, counted from the bottom left.
#[derive(Debug, Clone, Copy, PartialEq, Eq, Structural)]
pub struct Cell {
    pub x: u32,
    pub y: u32,
}

/// A pointer button.
#[derive(Debug, Clone, Copy, PartialEq, Eq, Structural)]
pub enum PointerButton {
    Left,
    Right,
    Middle,
    Other,
}

/// A pointer button changed: which one, and whether it went down.
#[derive(Debug, Clone, Copy, PartialEq, Eq, Structural)]
pub struct PointerEvent {
    pub button: PointerButton,
    pub pressed: bool,
}

/// The slot of a cell in a storage that is `width` tiles wide.
pub open spec fn slot_index(width: u32, cell: Cell) -> int {
    cell.y * width + cell.x
}

/// The tile entity that a storage holds at a cell: the entity in the cell's
/// slot, and none where the cell lies outside the recorded extent or where
/// the storage has no such slot (none lies past what the machine can index).
pub open spec fn tile_in(slots: Seq<Option<u64>>, extent: (u32, u32), cell: Cell) -> Option<u64> {
    if cell.x < extent.0 && cell.y < extent.1 && slot_index(extent.0, cell) < slots.len()
        && slot_index(extent.0, cell) <= usize::MAX {
        slots[slot_index(extent.0, cell)]
    } else {
        None
    }
}

/// The tile entity that a storage holds at a cell, if any.
pub open spec fn stored_tile(storage: TileStorage, cell: Cell) -> Option<u64> {
    tile_in(tile_storage_slots(storage), tile_storage_extent(storage), cell)
}

/// Whether one of the events is the left button going down.
pub open spec fn has_left_press(events: Seq<PointerEvent>) -> bool {
    exists|i: int|
        0 <= i < events.len() && (#[trigger] events[i]).button == PointerButton::Left
            && events[i].pressed
}

/// The public field `size` of a `TileStorage`: the width and height in tiles
/// that the storage records.
#[verifier::external_body]
fn storage_extent(storage: &TileStorage) -> (extent: (u32, u32))
    ensures
        extent == tile_storage_extent(*storage),
{
    (storage.size.x, storage.size.y)
}

/// `TileStorage::iter` followed by the iterator's `nth`: the slot at `index`
/// in storage order, with the entity there turned into its bits by
/// `Entity::to_bits`; none where the slot is empty or `index` is past the
/// last slot.
#[verifier::external_body]
fn storage_slot(storage: &TileStorage, index: usize) -> (slot: Option<u64>)
    ensures
        slot == if index < tile_storage_slots(*storage).len() {
            tile_storage_slots(*storage)[index as int]
        } else {
            None
        },
{
    storage.iter().nth(index).copied().flatten().map(Entity::to_bits)
}

/// The tile entity stored at a cell, as its identifier bits. A cell outside
/// the map holds no tile.
pub fn tile_at(storage: &TileStorage, cell: Cell) -> (tile: Option<u64>)
    ensures
        tile == stored_tile(*storage, cell),
{
    let (width, height) = storage_extent(storage);
    if cell.x >= width || cell.y >= height {
        return None;
    }
    assert(cell.y * width <= 0xffff_ffff * 0xffff_ffff) by (nonlinear_arith)
        requires
            cell.y <= 0xffff_ffff,
            width <= 0xffff_ffff,
    ;
    let index: u64 = cell.y as u64 * width as u64 + cell.x as u64;
    if index > usize::MAX as u64 {
        return None;
    }
    storage_slot(storage, index as usize)
}

/// The tile entity under a map position that the engine has already turned
/// into a cell, or found to lie outside the map.
pub fn tile_under(storage: &TileStorage, cell: Option<Cell>) -> (tile: Option<u64>)
    ensures
        tile == match cell {
            Some(c) => stored_tile(*storage, c),
            None => None,
        },
{
    match cell {
        Some(c) => tile_at(storage, c),
        None => None,
    }
}

/// Whether the left button went down among this tick's pointer events.
pub fn left_button_pressed(events: &Vec<PointerEvent>) -> (clicked: bool)
    ensures
        clicked == has_left_press(events@),
{
    let mut i: usize = 0;
    while i < events.len()
        invariant
            i <= events.len(),
            forall|j: int|
                0 <= j < i ==> !((#[trigger] events@[j]).button == PointerButton::Left
                    && events@[j].pressed),
        decreases events.len() - i,
    {
        if events[i].button == PointerButton::Left && events[i].pressed {
            return true;
        }
        i += 1;
    }
    false
}

} // verus!
