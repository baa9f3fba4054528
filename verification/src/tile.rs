//! A single cell of the mine shaft: its kind plus visibility and
//! breakability state, and the weighted rule that turns a random roll into a
//! freshly generated tile.

use vstd::prelude::*;

verus! {

/// The closed set of tile kinds. A tile's kind never changes in place;
/// mining clears `visible` instead.
#[derive(Copy, Clone, PartialEq, Eq, Structural, Debug)]
pub enum TileKind {
    Empty,
    Dirt,
    Bedrock,
    Chest,
    IronOre,
    GoldOre,
    DiamondOre,
    CoalOre,
}

/// One cell. `visible == false` means the tile has been removed: it renders
/// nothing and blocks nothing. `breakable == false` marks the border and the
/// starting hallway, which mining may never remove.
#[derive(Copy, Clone, PartialEq, Eq, Structural, Debug)]
pub struct Tile {
    pub kind: TileKind,
    pub visible: bool,
    pub breakable: bool,
}

/// The exact weighted table over a draw from 0 to 99 inclusive: 0-69 dirt,
/// 70-83 coal, 84-94 iron, 95-98 gold, 99 diamond. A draw of 100 or more
/// cannot come from the generator and falls back to bedrock defensively.
pub open spec fn kind_of_roll(roll: u8) -> TileKind {
    if roll <= 69 {
        TileKind::Dirt
    } else if roll <= 83 {
        TileKind::CoalOre
    } else if roll <= 94 {
        TileKind::IronOre
    } else if roll <= 98 {
        TileKind::GoldOre
    } else if roll == 99 {
        TileKind::DiamondOre
    } else {
        TileKind::Bedrock
    }
}

/// An unbreakable bedrock cell, used for the cap row and the side borders.
pub open spec fn bedrock_tile() -> Tile {
    Tile { kind: TileKind::Bedrock, visible: true, breakable: false }
}

/// A cell of the starting hallway: guaranteed empty and never breakable, so
/// the entry row stays safe whatever the random source produced.
pub open spec fn hallway_tile() -> Tile {
    Tile { kind: TileKind::Empty, visible: true, breakable: false }
}

/// What an interior cell of the randomized rows looks like for a given roll:
/// kind from the weighted table, visible, and breakable.
pub open spec fn rolled_tile(roll: u8) -> Tile {
    Tile { kind: kind_of_roll(roll), visible: true, breakable: true }
}

impl Tile {
    /// Build the interior tile that a random roll stands for.
    pub fn from_roll(roll: u8) -> (tile: Tile)
        ensures
            tile == rolled_tile(roll),
    {
        let kind = if roll <= 69 {
            TileKind::Dirt
        } else if roll <= 83 {
            TileKind::CoalOre
        } else if roll <= 94 {
            TileKind::IronOre
        } else if roll <= 98 {
            TileKind::GoldOre
        } else if roll == 99 {
            TileKind::DiamondOre
        } else {
            TileKind::Bedrock
        };
        Tile { kind, visible: true, breakable: true }
    }

    /// An unbreakable bedrock cell.
    pub fn bedrock() -> (tile: Tile)
        ensures
            tile == bedrock_tile(),
    {
        Tile { kind: TileKind::Bedrock, visible: true, breakable: false }
    }

    /// A starting-hallway cell.
    pub fn hallway() -> (tile: Tile)
        ensures
            tile == hallway_tile(),
    {
        Tile { kind: TileKind::Empty, visible: true, breakable: false }
    }
}

} // verus!
