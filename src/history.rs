use vstd::prelude::*;
use crate::key::Pubkey;
use crate::tile::{BuildingType, TileData};

verus! {

/// Number of actions the history keeps.
pub const HISTORY_SIZE: u64 = 30;

/// Kind of a recorded action.
#[derive(Clone, Copy, Debug, PartialEq, Eq, Structural)]
pub enum ActionType {
    Chop,
    Build,
    Upgrade,
    Collect,
}

/// Stored codes of the action types.
pub const ACTION_TYPE_CHOP: u8 = 0;

pub const ACTION_TYPE_BUILD: u8 = 1;

pub const ACTION_TYPE_UPGRADE: u8 = 2;

pub const ACTION_TYPE_COLLECT: u8 = 3;

impl ActionType {
    /// The code under which this action type is stored.
    pub open spec fn spec_code(&self) -> u8 {
        match self {
            ActionType::Chop => ACTION_TYPE_CHOP,
            ActionType::Build => ACTION_TYPE_BUILD,
            ActionType::Upgrade => ACTION_TYPE_UPGRADE,
            ActionType::Collect => ACTION_TYPE_COLLECT,
        }
    }

    pub fn code(&self) -> (r: u8)
        ensures
            r == self.spec_code(),
    {
        match self {
            ActionType::Chop => ACTION_TYPE_CHOP,
            ActionType::Build => ACTION_TYPE_BUILD,
            ActionType::Upgrade => ACTION_TYPE_UPGRADE,
            ActionType::Collect => ACTION_TYPE_COLLECT,
        }
    }

    /// The action type stored under `code`, if any: exactly the codes below
    /// four name one, and each type is found again from its own code.
    pub fn from_code(code: u8) -> (r: Option<ActionType>)
        ensures
            r is Some <==> code < 4,
            r matches Some(a) ==> a.spec_code() == code,
    {
        if code == ACTION_TYPE_CHOP {
            Some(ActionType::Chop)
        } else if code == ACTION_TYPE_BUILD {
            Some(ActionType::Build)
        } else if code == ACTION_TYPE_UPGRADE {
            Some(ActionType::Upgrade)
        } else if code == ACTION_TYPE_COLLECT {
            Some(ActionType::Collect)
        } else {
            None
        }
    }
}

/// One successful action, with the tile as it stood right after it.
#[derive(Clone, Copy, Debug)]
pub struct GameAction {
    pub action_id: u64,
    pub action_type: ActionType,
    pub x: u8,
    pub y: u8,
    pub tile: TileData,
    pub player: Pubkey,
    pub avatar: Pubkey,
}

impl GameAction {
    /// A zeroed action on a fresh tile, used to fill unwritten slots.
    pub fn blank() -> (r: GameAction)
        ensures
            r.action_id == 0,
            r.action_type == ActionType::Chop,
            r.x == 0,
            r.y == 0,
            r.tile.building_type == BuildingType::Tree,
    {
        GameAction {
            action_id: 0,
            action_type: ActionType::Chop,
            x: 0,
            y: 0,
            tile: TileData::new(),
            player: Pubkey::zero(),
            avatar: Pubkey::zero(),
        }
    }
}

/// Ring buffer of the last `HISTORY_SIZE` actions. `log` is every action
/// recorded since creation, oldest first; the slots keep the latest of them.
pub struct GameActionHistory {
    /// Slot that the next action overwrites.
    pub action_index: u64,
    pub game_actions: Vec<GameAction>,
    pub log: Ghost<Seq<GameAction>>,
}

/// Two different positions less than a full turn apart fall in different slots.
proof fn lemma_distinct_slots(i: int, k: int)
    requires
        0 <= i < k,
        k - i < 30,
    ensures
        i % 30 != k % 30,
{
    vstd::arithmetic::div_mod::lemma_fundamental_div_mod(i, 30);
    vstd::arithmetic::div_mod::lemma_fundamental_div_mod(k, 30);
    let qi = i / 30;
    let qk = k / 30;
    assert(i % 30 != k % 30) by (nonlinear_arith)
        requires
            i == 30 * qi + i % 30,
            k == 30 * qk + k % 30,
            0 <= i < k,
            k - i < 30,
    ;
}

impl GameActionHistory {
    /// Number of actions recorded so far.
    pub open spec fn count(&self) -> nat {
        self.log@.len()
    }

    /// The ring holds each of the last `HISTORY_SIZE` recorded actions in the
    /// slot given by its position modulo the size, and `action_index` follows
    /// the count.
    pub open spec fn wf(&self) -> bool {
        &&& self.game_actions@.len() == HISTORY_SIZE
        &&& self.action_index == self.count() % (HISTORY_SIZE as nat)
        &&& forall|i: int|
            0 <= i < self.count() && self.count() - HISTORY_SIZE <= i ==> self.game_actions@[i
                % (HISTORY_SIZE as int)] == #[trigger] self.log@[i]
    }

    /// The slots read from the oldest to the newest.
    pub open spec fn ordered(&self) -> Seq<GameAction> {
        Seq::new(
            HISTORY_SIZE as nat,
            |t: int| self.game_actions@[(self.action_index + t) % (HISTORY_SIZE as int)],
        )
    }

    /// An empty history whose slots hold blank actions.
    pub fn new() -> (r: GameActionHistory)
        ensures
            r.wf(),
            r.count() == 0,
            r.action_index == 0,
    {
        let filler = GameAction::blank();
        let mut slots: Vec<GameAction> = Vec::new();
        let mut i: u64 = 0;
        while i < HISTORY_SIZE
            invariant
                i <= HISTORY_SIZE,
                slots@ == Seq::new(i as nat, |j: int| filler),
            decreases HISTORY_SIZE - i,
        {
            slots.push(filler);
            i = i + 1;
            assert(slots@ =~= Seq::new(i as nat, |j: int| filler));
        }
        GameActionHistory { action_index: 0, game_actions: slots, log: Ghost(Seq::empty()) }
    }

    /// A history read back from storage: `action_index` is the slot the next
    /// action overwrites and `slots` the stored ring. Refused unless there
    /// are `HISTORY_SIZE` slots and the index points at one of them. Every
    /// slot counts as recorded, the one at `action_index` being the oldest.
    pub fn restore(action_index: u64, slots: Vec<GameAction>) -> (r: Option<GameActionHistory>)
        ensures
            r is Some <==> slots@.len() == HISTORY_SIZE && action_index < HISTORY_SIZE,
            r matches Some(h) ==> h.wf() && h.action_index == action_index && h.game_actions@
                == slots@ && h.ordered() == Seq::new(
                HISTORY_SIZE as nat,
                |t: int| slots@[(action_index + t) % (HISTORY_SIZE as int)],
            ),
    {
        if slots.len() != HISTORY_SIZE as usize || action_index >= HISTORY_SIZE {
            return None;
        }
        let ghost k = HISTORY_SIZE + action_index;
        let ghost log = Seq::new(k as nat, |j: int| slots@[j % (HISTORY_SIZE as int)]);
        proof {
            vstd::arithmetic::div_mod::lemma_mod_add_multiples_vanish(action_index as int, 30);
            vstd::arithmetic::div_mod::lemma_small_mod(action_index as nat, 30);
        }
        Some(GameActionHistory { action_index, game_actions: slots, log: Ghost(log) })
    }

    /// Writes `action` into the current slot and moves to the next one,
    /// overwriting the oldest action once the ring is full.
    pub fn record(&mut self, action: GameAction)
        requires
            old(self).wf(),
        ensures
            final(self).wf(),
            final(self).log@ == old(self).log@.push(action),
            final(self).game_actions@ == old(self).game_actions@.update(
                old(self).action_index as int,
                action,
            ),
    {
        let ghost k = self.count() as int;
        let idx = self.action_index as usize;
        self.game_actions[idx] = action;
        self.action_index = (self.action_index + 1) % HISTORY_SIZE;
        self.log = Ghost(self.log@.push(action));
        proof {
            vstd::arithmetic::div_mod::lemma_add_mod_noop(k, 1, 30);
            assert forall|i: int|
                0 <= i < self.count() && self.count() - HISTORY_SIZE <= i implies self.game_actions@[i
                % (HISTORY_SIZE as int)] == #[trigger] self.log@[i] by {
                if i < k {
                    lemma_distinct_slots(i, k);
                }
            }
        }
    }

    /// The kept actions from the oldest to the newest: the slots read from
    /// the one the next action overwrites.
    pub fn recent_actions(&self) -> (r: Vec<GameAction>)
        requires
            self.wf(),
        ensures
            r@ == self.ordered(),
    {
        let mut r: Vec<GameAction> = Vec::new();
        let mut t: u64 = 0;
        while t < HISTORY_SIZE
            invariant
                self.wf(),
                t <= HISTORY_SIZE,
                r@ == self.ordered().subrange(0, t as int),
            decreases HISTORY_SIZE - t,
        {
            let slot = ((self.action_index + t) % HISTORY_SIZE) as usize;
            r.push(self.game_actions[slot]);
            t = t + 1;
            assert(r@ =~= self.ordered().subrange(0, t as int));
        }
        r
    }
}

/// After `k` recorded actions the next slot is `k` modulo the size, the
/// `j`-th latest of the last `min(k, HISTORY_SIZE)` actions sits in slot
/// `(k - 1 - j)` modulo the size, and they read back in the order they were
/// recorded, at the end of the oldest-to-newest view.
pub proof fn lemma_history_ring(h: GameActionHistory)
    requires
        h.wf(),
    ensures
        h.action_index == h.count() % (HISTORY_SIZE as nat),
        forall|j: int|
            0 <= j < HISTORY_SIZE && j < h.count() ==> h.game_actions@[(h.count() - 1 - j) % (
            HISTORY_SIZE as int)] == #[trigger] h.log@[h.count() - 1 - j],
        forall|t: int|
            0 <= t < HISTORY_SIZE && HISTORY_SIZE - h.count() <= t ==> #[trigger] h.ordered()[t]
                == h.log@[h.count() - HISTORY_SIZE + t],
{
    let k = h.count() as int;
    assert forall|t: int|
        0 <= t < HISTORY_SIZE && HISTORY_SIZE - h.count() <= t implies #[trigger] h.ordered()[t]
            == h.log@[h.count() - HISTORY_SIZE + t] by {
        let i = k - 30 + t;
        vstd::arithmetic::div_mod::lemma_add_mod_noop(k, t, 30);
        vstd::arithmetic::div_mod::lemma_mod_add_multiples_vanish(i, 30);
        vstd::arithmetic::div_mod::lemma_small_mod(t as nat, 30);
        assert(h.log@[i] == h.game_actions@[i % 30]);
    }
}

} // verus!
