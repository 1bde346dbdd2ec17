use vstd::prelude::*;
use crate::key::Pubkey;

verus! {

/// What occupies a tile.
#[derive(Clone, Copy, Debug, PartialEq, Eq, Structural)]
pub enum BuildingType {
    Tree,
    Empty,
    Sawmill,
    Mine,
}

/// Stored codes of the building types.
pub const BUILDING_TYPE_TREE: u8 = 0;

pub const BUILDING_TYPE_EMPTY: u8 = 1;

pub const BUILDING_TYPE_SAWMILL: u8 = 2;

pub const BUILDING_TYPE_MINE: u8 = 3;

impl BuildingType {
    /// The code under which this building type is stored.
    pub open spec fn spec_code(&self) -> u8 {
        match self {
            BuildingType::Tree => BUILDING_TYPE_TREE,
            BuildingType::Empty => BUILDING_TYPE_EMPTY,
            BuildingType::Sawmill => BUILDING_TYPE_SAWMILL,
            BuildingType::Mine => BUILDING_TYPE_MINE,
        }
    }

    pub fn code(&self) -> (r: u8)
        ensures
            r == self.spec_code(),
    {
        match self {
            BuildingType::Tree => BUILDING_TYPE_TREE,
            BuildingType::Empty => BUILDING_TYPE_EMPTY,
            BuildingType::Sawmill => BUILDING_TYPE_SAWMILL,
            BuildingType::Mine => BUILDING_TYPE_MINE,
        }
    }

    /// The building type stored under `code`, if any: exactly the codes
    /// below four name one, and each type is found again from its own code.
    pub fn from_code(code: u8) -> (r: Option<BuildingType>)
        ensures
            r is Some <==> code < 4,
            r matches Some(b) ==> b.spec_code() == code,
    {
        if code == BUILDING_TYPE_TREE {
            Some(BuildingType::Tree)
        } else if code == BUILDING_TYPE_EMPTY {
            Some(BuildingType::Empty)
        } else if code == BUILDING_TYPE_SAWMILL {
            Some(BuildingType::Sawmill)
        } else if code == BUILDING_TYPE_MINE {
            Some(BuildingType::Mine)
        } else {
            None
        }
    }
}

/// One cell of the board.
#[derive(Clone, Copy, Debug)]
pub struct TileData {
    pub building_type: BuildingType,
    /// Meaningful only for a sawmill or a mine.
    pub building_level: u8,
    pub building_owner: Pubkey,
    pub building_start_time: i64,
    pub building_start_upgrade_time: i64,
    pub building_start_collect_time: i64,
}

/// A cell of the board, under its short name.
pub type Tile = TileData;

impl TileData {
    /// A fresh tile: a tree, level zero, no owner, all times zero.
    pub fn new() -> (r: TileData)
        ensures
            r.building_type == BuildingType::Tree,
            r.building_level == 0,
            r.building_owner@ == Seq::new(32, |i: int| 0u8),
            r.building_start_time == 0,
            r.building_start_upgrade_time == 0,
            r.building_start_collect_time == 0,
    {
        TileData {
            building_type: BuildingType::Tree,
            building_level: 0,
            building_owner: Pubkey::zero(),
            building_start_time: 0,
            building_start_upgrade_time: 0,
            building_start_collect_time: 0,
        }
    }

    /// Whether the tile holds a building that produces and can be upgraded.
    pub open spec fn is_producer(&self) -> bool {
        self.building_type == BuildingType::Sawmill || self.building_type == BuildingType::Mine
    }
}

} // verus!
