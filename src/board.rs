use vstd::prelude::*;
use crate::error::GameErrorCode;
use crate::history::{ActionType, GameAction, GameActionHistory, HISTORY_SIZE};
use crate::key::Pubkey;
use crate::tile::{BuildingType, TileData};

verus! {

pub const BOARD_SIZE_X: usize = 10;

pub const BOARD_SIZE_Y: usize = 10;

/// Resources gained by one chop or one collection.
pub const RESOURCE_YIELD: u64 = 5;

/// Seconds a building needs between two collections.
pub const COLLECT_COOLDOWN: i64 = 60;

/// The shared board: tiles stored row by row (`x` major), and the global
/// resource counters.
pub struct BoardAccount {
    pub data: Vec<TileData>,
    /// Id given to the next recorded action.
    pub action_id: u64,
    pub wood: u64,
    pub stone: u64,
    pub damm_level: u64,
}

/// Whether `(x, y)` is on the board.
pub open spec fn in_bounds(x: u8, y: u8) -> bool {
    x < BOARD_SIZE_X && y < BOARD_SIZE_Y
}

/// Position of tile `(x, y)` in the board's storage.
pub open spec fn tile_index(x: u8, y: u8) -> int {
    x * BOARD_SIZE_Y + y
}

/// The action id after `id`: one more, or zero past the largest value.
pub open spec fn next_action_id(id: u64) -> u64 {
    if id == u64::MAX {
        0
    } else {
        (id + 1) as u64
    }
}

/// A resource counter after a gain of `RESOURCE_YIELD`, held at the largest value.
pub open spec fn gained(amount: u64) -> u64 {
    if amount + RESOURCE_YIELD > u64::MAX {
        u64::MAX
    } else {
        (amount + RESOURCE_YIELD) as u64
    }
}

/// A successful action of kind `kind` at `(x, y)`: the tile became `tile`,
/// the counters became `wood` and `stone`, the action id moved on, and the
/// action was recorded with the id it had before.
pub open spec fn applied(
    b0: BoardAccount,
    b1: BoardAccount,
    h0: GameActionHistory,
    h1: GameActionHistory,
    kind: ActionType,
    x: u8,
    y: u8,
    tile: TileData,
    wood: u64,
    stone: u64,
    player: Pubkey,
    avatar: Pubkey,
) -> bool {
    &&& b1.data@ == b0.data@.update(tile_index(x, y), tile)
    &&& b1.wood == wood
    &&& b1.stone == stone
    &&& b1.damm_level == b0.damm_level
    &&& b1.action_id == next_action_id(b0.action_id)
    &&& h1.log@ == h0.log@.push(
        GameAction { action_id: b0.action_id, action_type: kind, x, y, tile, player, avatar },
    )
    &&& h1.game_actions@ == h0.game_actions@.update(
        h0.action_index as int,
        GameAction { action_id: b0.action_id, action_type: kind, x, y, tile, player, avatar },
    )
}

/// Outcome of chopping at `(x, y)`: the tile must be on the board and hold a tree.
pub open spec fn chop_check(b: BoardAccount, x: u8, y: u8) -> Result<(), GameErrorCode> {
    if !in_bounds(x, y) {
        Err(GameErrorCode::InvalidCoordinate)
    } else if b.tile(x, y).building_type != BuildingType::Tree {
        Err(GameErrorCode::TileHasNoTree)
    } else {
        Ok(())
    }
}

/// Outcome of building at `(x, y)`: the tile must be on the board and empty.
pub open spec fn build_check(b: BoardAccount, x: u8, y: u8) -> Result<(), GameErrorCode> {
    if !in_bounds(x, y) {
        Err(GameErrorCode::InvalidCoordinate)
    } else if b.tile(x, y).building_type != BuildingType::Empty {
        Err(GameErrorCode::TileAlreadyOccupied)
    } else {
        Ok(())
    }
}

/// Outcome of upgrading at `(x, y)`: the tile must be on the board and hold a
/// sawmill or a mine below the largest level.
pub open spec fn upgrade_check(b: BoardAccount, x: u8, y: u8) -> Result<(), GameErrorCode> {
    if !in_bounds(x, y) {
        Err(GameErrorCode::InvalidCoordinate)
    } else if !b.tile(x, y).is_producer() || b.tile(x, y).building_level == u8::MAX {
        Err(GameErrorCode::TileCantBeUpgraded)
    } else {
        Ok(())
    }
}

/// Outcome of collecting at `(x, y)` at time `now`: the tile must be on the
/// board and hold a sawmill or a mine whose last collection is at least
/// `COLLECT_COOLDOWN` seconds old.
pub open spec fn collect_check(b: BoardAccount, x: u8, y: u8, now: i64) -> Result<
    (),
    GameErrorCode,
> {
    if !in_bounds(x, y) {
        Err(GameErrorCode::InvalidCoordinate)
    } else if !b.tile(x, y).is_producer() {
        Err(GameErrorCode::TileAlreadyOccupied)
    } else if now - b.tile(x, y).building_start_collect_time < COLLECT_COOLDOWN {
        Err(GameErrorCode::TileCantBeCollected)
    } else {
        Ok(())
    }
}

/// A chop at `(x, y)`: the tree became an empty tile and wood grew.
pub open spec fn chopped(
    b0: BoardAccount,
    b1: BoardAccount,
    h0: GameActionHistory,
    h1: GameActionHistory,
    x: u8,
    y: u8,
    player: Pubkey,
    avatar: Pubkey,
) -> bool {
    applied(
        b0,
        b1,
        h0,
        h1,
        ActionType::Chop,
        x,
        y,
        TileData { building_type: BuildingType::Empty, ..b0.tile(x, y) },
        gained(b0.wood),
        b0.stone,
        player,
        avatar,
    )
}

/// A build at `(x, y)`: the tile holds `building_type`, with its collection
/// clock started at `now`.
pub open spec fn built(
    b0: BoardAccount,
    b1: BoardAccount,
    h0: GameActionHistory,
    h1: GameActionHistory,
    x: u8,
    y: u8,
    building_type: BuildingType,
    now: i64,
    player: Pubkey,
    avatar: Pubkey,
) -> bool {
    applied(
        b0,
        b1,
        h0,
        h1,
        ActionType::Build,
        x,
        y,
        TileData { building_type, building_start_collect_time: now, ..b0.tile(x, y) },
        b0.wood,
        b0.stone,
        player,
        avatar,
    )
}

/// An upgrade at `(x, y)`: the building's level went up by one.
pub open spec fn upgraded(
    b0: BoardAccount,
    b1: BoardAccount,
    h0: GameActionHistory,
    h1: GameActionHistory,
    x: u8,
    y: u8,
    player: Pubkey,
    avatar: Pubkey,
) -> bool {
    applied(
        b0,
        b1,
        h0,
        h1,
        ActionType::Upgrade,
        x,
        y,
        TileData { building_level: (b0.tile(x, y).building_level + 1) as u8, ..b0.tile(x, y) },
        b0.wood,
        b0.stone,
        player,
        avatar,
    )
}

/// A collection at `(x, y)` at time `now`: the clock restarted at `now`, and
/// wood grew for a sawmill, stone for a mine.
pub open spec fn collected(
    b0: BoardAccount,
    b1: BoardAccount,
    h0: GameActionHistory,
    h1: GameActionHistory,
    x: u8,
    y: u8,
    now: i64,
    player: Pubkey,
    avatar: Pubkey,
) -> bool {
    let sawmill = b0.tile(x, y).building_type == BuildingType::Sawmill;
    applied(
        b0,
        b1,
        h0,
        h1,
        ActionType::Collect,
        x,
        y,
        TileData { building_start_collect_time: now, ..b0.tile(x, y) },
        if sawmill {
            gained(b0.wood)
        } else {
            b0.wood
        },
        if sawmill {
            b0.stone
        } else {
            gained(b0.stone)
        },
        player,
        avatar,
    )
}

/// A tile as the board starts: a tree at level zero, with the all-zero
/// owner and all times zero.
pub open spec fn fresh_tile(t: TileData) -> bool {
    &&& t.building_type == BuildingType::Tree
    &&& t.building_level == 0
    &&& t.building_owner@ == Seq::new(32, |i: int| 0u8)
    &&& t.building_start_time == 0
    &&& t.building_start_upgrade_time == 0
    &&& t.building_start_collect_time == 0
}

impl BoardAccount {
    pub open spec fn wf(&self) -> bool {
        self.data@.len() == BOARD_SIZE_X * BOARD_SIZE_Y
    }

    /// The tile at `(x, y)`.
    pub open spec fn tile(&self, x: u8, y: u8) -> TileData {
        self.data@[tile_index(x, y)]
    }

    /// A fresh board: every tile a tree, every counter zero.
    pub fn new() -> (r: BoardAccount)
        ensures
            r.wf(),
            forall|i: int| 0 <= i < r.data@.len() ==> #[trigger] fresh_tile(r.data@[i]),
            r.action_id == 0,
            r.wood == 0,
            r.stone == 0,
            r.damm_level == 0,
    {
        let mut data: Vec<TileData> = Vec::new();
        let mut i: usize = 0;
        while i < BOARD_SIZE_X * BOARD_SIZE_Y
            invariant
                i <= BOARD_SIZE_X * BOARD_SIZE_Y,
                data@.len() == i,
                forall|j: int| 0 <= j < i ==> #[trigger] fresh_tile(data@[j]),
            decreases BOARD_SIZE_X * BOARD_SIZE_Y - i,
        {
            data.push(TileData::new());
            i = i + 1;
        }
        BoardAccount { data, action_id: 0, wood: 0, stone: 0, damm_level: 0 }
    }

    /// The tile at `(x, y)`, if it is on the board.
    pub fn get_tile(&self, x: u8, y: u8) -> (r: Option<TileData>)
        requires
            self.wf(),
        ensures
            r == (if in_bounds(x, y) {
                Some(self.tile(x, y))
            } else {
                None
            }),
    {
        if (x as usize) < BOARD_SIZE_X && (y as usize) < BOARD_SIZE_Y {
            Some(self.data[x as usize * BOARD_SIZE_Y + y as usize])
        } else {
            None
        }
    }

    /// Moves the action id on (back to zero past the largest value) and
    /// records `game_action`.
    pub fn add_new_game_action(
        &mut self,
        game_actions: &mut GameActionHistory,
        game_action: GameAction,
    )
        requires
            old(game_actions).wf(),
        ensures
            final(self).action_id == next_action_id(old(self).action_id),
            final(self).data == old(self).data,
            final(self).wood == old(self).wood,
            final(self).stone == old(self).stone,
            final(self).damm_level == old(self).damm_level,
            final(game_actions).wf(),
            final(game_actions).log@ == old(game_actions).log@.push(game_action),
            final(game_actions).game_actions@ == old(game_actions).game_actions@.update(
                old(game_actions).action_index as int,
                game_action,
            ),
            final(game_actions).action_index == (old(game_actions).action_index + 1) % (
            HISTORY_SIZE as int),
    {
        match self.action_id.checked_add(1) {
            Some(val) => {
                self.action_id = val;
            },
            None => {
                self.action_id = 0;
            },
        }
        game_actions.record(game_action);
    }

    /// Cuts the tree at `(x, y)`: the tile becomes empty and wood grows by
    /// `RESOURCE_YIELD`.
    pub fn chop_tree(
        &mut self,
        x: u8,
        y: u8,
        player: Pubkey,
        avatar: Pubkey,
        game_actions: &mut GameActionHistory,
    ) -> (r: Result<(), GameErrorCode>)
        requires
            old(self).wf(),
            old(game_actions).wf(),
        ensures
            final(self).wf(),
            final(game_actions).wf(),
            r == chop_check(*old(self), x, y),
            r is Err ==> *final(self) == *old(self) && *final(game_actions) == *old(game_actions),
            r is Ok ==> chopped(
                *old(self),
                *final(self),
                *old(game_actions),
                *final(game_actions),
                x,
                y,
                player,
                avatar,
            ),
    {
        if x as usize >= BOARD_SIZE_X || y as usize >= BOARD_SIZE_Y {
            return Err(GameErrorCode::InvalidCoordinate);
        }
        let idx = x as usize * BOARD_SIZE_Y + y as usize;
        if self.data[idx].building_type != BuildingType::Tree {
            return Err(GameErrorCode::TileHasNoTree);
        }
        self.data[idx].building_type = BuildingType::Empty;
        self.wood = self.wood.saturating_add(RESOURCE_YIELD);
        let new_game_action = GameAction {
            action_id: self.action_id,
            action_type: ActionType::Chop,
            x,
            y,
            player,
            avatar,
            tile: self.data[idx],
        };
        self.add_new_game_action(game_actions, new_game_action);
        Ok(())
    }

    /// Puts `building_type` on the empty tile at `(x, y)` and starts its
    /// collection clock at `now`. No cost is charged.
    pub fn build(
        &mut self,
        x: u8,
        y: u8,
        building_type: BuildingType,
        now: i64,
        player: Pubkey,
        avatar: Pubkey,
        game_actions: &mut GameActionHistory,
    ) -> (r: Result<(), GameErrorCode>)
        requires
            old(self).wf(),
            old(game_actions).wf(),
        ensures
            final(self).wf(),
            final(game_actions).wf(),
            r == build_check(*old(self), x, y),
            r is Err ==> *final(self) == *old(self) && *final(game_actions) == *old(game_actions),
            r is Ok ==> built(
                *old(self),
                *final(self),
                *old(game_actions),
                *final(game_actions),
                x,
                y,
                building_type,
                now,
                player,
                avatar,
            ),
    {
        if x as usize >= BOARD_SIZE_X || y as usize >= BOARD_SIZE_Y {
            return Err(GameErrorCode::InvalidCoordinate);
        }
        let idx = x as usize * BOARD_SIZE_Y + y as usize;
        if self.data[idx].building_type != BuildingType::Empty {
            return Err(GameErrorCode::TileAlreadyOccupied);
        }
        let mut tile = self.data[idx];
        tile.building_type = building_type;
        tile.building_start_collect_time = now;
        self.data[idx] = tile;
        let new_game_action = GameAction {
            action_id: self.action_id,
            action_type: ActionType::Build,
            x,
            y,
            player,
            avatar,
            tile: self.data[idx],
        };
        self.add_new_game_action(game_actions, new_game_action);
        Ok(())
    }

    /// Raises the level of the sawmill or mine at `(x, y)` by one. No cost is
    /// charged; a building at the largest level cannot be upgraded.
    pub fn upgrade(
        &mut self,
        x: u8,
        y: u8,
        player: Pubkey,
        avatar: Pubkey,
        game_actions: &mut GameActionHistory,
    ) -> (r: Result<(), GameErrorCode>)
        requires
            old(self).wf(),
            old(game_actions).wf(),
        ensures
            final(self).wf(),
            final(game_actions).wf(),
            r == upgrade_check(*old(self), x, y),
            r is Err ==> *final(self) == *old(self) && *final(game_actions) == *old(game_actions),
            r is Ok ==> upgraded(
                *old(self),
                *final(self),
                *old(game_actions),
                *final(game_actions),
                x,
                y,
                player,
                avatar,
            ),
    {
        if x as usize >= BOARD_SIZE_X || y as usize >= BOARD_SIZE_Y {
            return Err(GameErrorCode::InvalidCoordinate);
        }
        let idx = x as usize * BOARD_SIZE_Y + y as usize;
        if self.data[idx].building_type != BuildingType::Sawmill
            && self.data[idx].building_type != BuildingType::Mine {
            return Err(GameErrorCode::TileCantBeUpgraded);
        }
        if self.data[idx].building_level == u8::MAX {
            return Err(GameErrorCode::TileCantBeUpgraded);
        }
        self.data[idx].building_level = self.data[idx].building_level + 1;
        let new_game_action = GameAction {
            action_id: self.action_id,
            action_type: ActionType::Upgrade,
            x,
            y,
            player,
            avatar,
            tile: self.data[idx],
        };
        self.add_new_game_action(game_actions, new_game_action);
        Ok(())
    }

    /// Collects from the sawmill (wood) or mine (stone) at `(x, y)` once
    /// `COLLECT_COOLDOWN` seconds have passed since its last collection, and
    /// restarts its clock at `now`.
    pub fn collect(
        &mut self,
        x: u8,
        y: u8,
        now: i64,
        player: Pubkey,
        avatar: Pubkey,
        game_actions: &mut GameActionHistory,
    ) -> (r: Result<(), GameErrorCode>)
        requires
            old(self).wf(),
            old(game_actions).wf(),
        ensures
            final(self).wf(),
            final(game_actions).wf(),
            r == collect_check(*old(self), x, y, now),
            r is Err ==> *final(self) == *old(self) && *final(game_actions) == *old(game_actions),
            r is Ok ==> collected(
                *old(self),
                *final(self),
                *old(game_actions),
                *final(game_actions),
                x,
                y,
                now,
                player,
                avatar,
            ),
    {
        if x as usize >= BOARD_SIZE_X || y as usize >= BOARD_SIZE_Y {
            return Err(GameErrorCode::InvalidCoordinate);
        }
        let idx = x as usize * BOARD_SIZE_Y + y as usize;
        let kind = self.data[idx].building_type;
        if kind != BuildingType::Sawmill && kind != BuildingType::Mine {
            return Err(GameErrorCode::TileAlreadyOccupied);
        }
        let since: i128 = now as i128 - self.data[idx].building_start_collect_time as i128;
        if since < COLLECT_COOLDOWN as i128 {
            return Err(GameErrorCode::TileCantBeCollected);
        }
        self.data[idx].building_start_collect_time = now;
        if kind == BuildingType::Sawmill {
            self.wood = self.wood.saturating_add(RESOURCE_YIELD);
        } else {
            self.stone = self.stone.saturating_add(RESOURCE_YIELD);
        }
        let new_game_action = GameAction {
            action_id: self.action_id,
            action_type: ActionType::Collect,
            x,
            y,
            player,
            avatar,
            tile: self.data[idx],
        };
        self.add_new_game_action(game_actions, new_game_action);
        Ok(())
    }
}

} // verus!
