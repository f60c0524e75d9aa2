//! Looking up the one inventory that belongs to the player or to the selected
//! island, among the inventories that an entity query found.

use vstd::prelude::*;

verus! {

/// Returns the player's inventory, given the inventories of all entities that are
/// the player: there must be exactly one.
pub fn get_player_inventory<T>(found: Vec<T>) -> (inventory: T)
    requires
        found@.len() == 1,
    ensures
        inventory == found@[0],
{
    let mut found = found;
    found.remove(0)
}

/// Returns the selected island's inventory, given the inventories of all entities
/// that are the selected island: there must be exactly one.
pub fn get_island_inventory<T>(found: Vec<T>) -> (inventory: T)
    requires
        found@.len() == 1,
    ensures
        inventory == found@[0],
{
    let mut found = found;
    found.remove(0)
}

} // verus!
