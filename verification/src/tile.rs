//! What the agent can know about one grid cell and about its surroundings.

use vstd::prelude::*;

verus! {

/// The terrain of a cell.
#[derive(Clone, Copy, Debug, PartialEq, Eq, Structural)]
pub enum TileType {
    DeepWater,
    ShallowWater,
    Sand,
    Grass,
    Street,
    Hill,
    Mountain,
    Snow,
    Lava,
    Teleport(bool),
    Wall,
}

/// What lies on a cell, or is carried in the backpack. A plain number is an
/// amount; a pair is the range of amounts that a container takes.
#[derive(Clone, Copy, Debug, PartialEq, Eq, Structural)]
pub enum Content {
    Rock(usize),
    Tree(usize),
    Garbage(usize),
    Fire,
    Coin(usize),
    Bin(usize, usize),
    Crate(usize, usize),
    Bank(usize, usize),
    Water(usize),
    Market(usize),
    Fish(usize),
    Building,
    Bush(usize),
    JollyBlock(usize),
    Scarecrow,
    Nothing,
}

/// One discovered grid cell.
#[derive(Clone, Copy, Debug, PartialEq, Eq, Structural)]
pub struct Tile {
    pub tile_type: TileType,
    pub content: Content,
    pub elevation: usize,
}

/// Whether two cells, discovered or not, hold the same value.
pub fn same_cell(a: &Option<Tile>, b: &Option<Tile>) -> (same: bool)
    ensures
        same == (*a == *b),
{
    match (a, b) {
        (None, None) => true,
        (Some(s), Some(t)) => *s == *t,
        _ => false,
    }
}

} // verus!
