//! The tile collision rule: a move is committed only if the actor wants to
//! move and no map layer holds an obstacle where the move would end.

use crate::input::MovementIntent;
use crate::tilemap::stored_tile;
use crate::tilemap::tile_under;
use crate::tilemap::Cell;
use bevy_ecs_tilemap::tiles::TileStorage;
use std::collections::HashSet;
use vstd::prelude::*;

verus! {

/// Where a prospective move ends on one map layer: the layer's tile storage
/// and the cell that the end position falls in, if it falls inside the map.
pub struct TileProbe<'a> {
    pub storage: &'a TileStorage,
    pub cell: Option<Cell>,
}

/// Whether the probed cell of a layer holds an obstacle: the cell is inside
/// the map, a tile is stored there, and that tile is one of the obstacles.
pub open spec fn probe_blocked(probe: TileProbe, obstacles: Set<u64>) -> bool {
    match probe.cell {
        Some(cell) => match stored_tile(*probe.storage, cell) {
            Some(tile) => obstacles.contains(tile),
            None => false,
        },
        None => false,
    }
}

/// Whether any layer holds an obstacle where the move would end.
pub open spec fn path_blocked(probes: Seq<TileProbe>, obstacles: Set<u64>) -> bool {
    exists|i: int| 0 <= i < probes.len() && probe_blocked(#[trigger] probes[i], obstacles)
}

/// The move that is committed: `delta` itself if the actor wants to move and
/// the path is free, and no move at all otherwise. A blocked move is dropped
/// whole; the actor does not slide along the obstacle.
pub open spec fn committed_delta<D>(
    delta: D,
    intent: MovementIntent,
    probes: Seq<TileProbe>,
    obstacles: Set<u64>,
) -> Option<D> {
    if !intent.is_zero() && !path_blocked(probes, obstacles) {
        Some(delta)
    } else {
        None
    }
}

/// Whether the probed cell of one layer holds an obstacle.
pub fn is_blocked(probe: &TileProbe, obstacles: &HashSet<u64>) -> (blocked: bool)
    ensures
        blocked == probe_blocked(*probe, obstacles@),
{
    match tile_under(probe.storage, probe.cell) {
        Some(tile) => obstacles.contains(&tile),
        None => false,
    }
}

/// Decides a prospective move of `delta`. `probes` holds, for each map layer,
/// the cell in which the move would end; `obstacles` holds the identifier bits
/// of the tile entities that carry the obstacle marker. The result is the
/// move to commit: `delta` unchanged, or nothing where the actor does not
/// want to move or an obstacle is in the way. A position outside a layer's
/// map, or a cell without a tile, never blocks.
pub fn resolve_movement<D>(
    delta: D,
    intent: &MovementIntent,
    probes: &Vec<TileProbe>,
    obstacles: &HashSet<u64>,
) -> (committed: Option<D>)
    ensures
        committed == committed_delta(delta, *intent, probes@, obstacles@),
        intent.is_zero() ==> committed is None,
{
    let mut i: usize = 0;
    while i < probes.len()
        invariant
            i <= probes.len(),
            forall|j: int| 0 <= j < i ==> !probe_blocked(#[trigger] probes@[j], obstacles@),
        decreases probes.len() - i,
    {
        if is_blocked(&probes[i], obstacles) {
            return None;
        }
        i += 1;
    }
    if intent.get_is_zero() {
        None
    } else {
        Some(delta)
    }
}

/// An obstacle where the move would end blocks it whole, whatever the intent:
/// if some layer stores an obstacle tile at its probed cell, nothing is
/// committed.
pub proof fn lemma_obstacle_ahead_blocks<D>(
    delta: D,
    intent: MovementIntent,
    probes: Seq<TileProbe>,
    obstacles: Set<u64>,
    layer: int,
    cell: Cell,
    tile: u64,
)
    requires
        0 <= layer < probes.len(),
        probes[layer].cell == Some(cell),
        stored_tile(*probes[layer].storage, cell) == Some(tile),
        obstacles.contains(tile),
    ensures
        committed_delta(delta, intent, probes, obstacles) is None,
{
    assert(probe_blocked(probes[layer], obstacles));
}

/// A move that ends on no obstacle is committed in full: if the actor wants
/// to move and no layer stores an obstacle tile at its probed cell, the whole
/// of `delta` is committed, wherever obstacles lie elsewhere on the map.
pub proof fn lemma_free_path_commits<D>(
    delta: D,
    intent: MovementIntent,
    probes: Seq<TileProbe>,
    obstacles: Set<u64>,
)
    requires
        !intent.is_zero(),
        forall|i: int|
            0 <= i < probes.len() ==> match (#[trigger] probes[i]).cell {
                Some(cell) => match stored_tile(*probes[i].storage, cell) {
                    Some(tile) => !obstacles.contains(tile),
                    None => true,
                },
                None => true,
            },
    ensures
        committed_delta(delta, intent, probes, obstacles) == Some(delta),
{
}

/// An actor that does not want to move never moves, whatever the move on
/// offer and whatever the map holds.
pub proof fn lemma_zero_intent_stays<D>(
    delta: D,
    intent: MovementIntent,
    probes: Seq<TileProbe>,
    obstacles: Set<u64>,
)
    requires
        intent.is_zero(),
    ensures
        committed_delta(delta, intent, probes, obstacles) is None,
{
}

} // verus!
