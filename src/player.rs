use vstd::prelude::*;
use crate::key::Pubkey;

verus! {

/// Seconds needed to regenerate one unit of energy.
pub const TIME_TO_REFILL_ENERGY: i64 = 60;

/// Energy a player can hold at most.
pub const MAX_ENERGY: u64 = 10;

/// The record kept for each player.
#[derive(Clone, Debug)]
pub struct PlayerData {
    pub authority: Pubkey,
    pub avatar: Pubkey,
    pub name: String,
    pub level: u8,
    pub xp: u64,
    pub energy: u64,
    /// Timestamp from which energy not yet credited is counted.
    pub last_login: i64,
}

impl PlayerData {
    /// Energy stays within its bound.
    pub open spec fn wf(&self) -> bool {
        self.energy <= MAX_ENERGY
    }
}

/// Energy units earned over `elapsed` seconds by a player holding `energy`:
/// one per full interval elapsed, none for a negative time, and never more
/// than reaches the cap.
pub open spec fn regen_gain(energy: int, elapsed: int) -> int {
    let by_time = if elapsed >= TIME_TO_REFILL_ENERGY {
        elapsed / (TIME_TO_REFILL_ENERGY as int)
    } else {
        0
    };
    if by_time < MAX_ENERGY - energy {
        by_time
    } else {
        MAX_ENERGY - energy
    }
}

/// The player after energy regeneration at time `now`: energy grows by the
/// gain; at the cap the clock restarts at `now`, below it the credited
/// intervals are moved out of the pending time and the remainder is kept.
pub open spec fn regenerated(p: PlayerData, now: i64) -> PlayerData {
    let gain = regen_gain(p.energy as int, now - p.last_login);
    let energy = p.energy + gain;
    PlayerData {
        energy: energy as u64,
        last_login: if energy >= MAX_ENERGY {
            now
        } else {
            (p.last_login + TIME_TO_REFILL_ENERGY * gain) as i64
        },
        ..p
    }
}

/// Regeneration never lowers energy and never passes the cap.
pub proof fn lemma_regen_bounded(p: PlayerData, now: i64)
    requires
        p.wf(),
    ensures
        regenerated(p, now).wf(),
        regenerated(p, now).energy >= p.energy,
        regenerated(p, now).energy == MAX_ENERGY ==> regenerated(p, now).last_login == now,
{
}

/// Regenerating a second time at the same `now` changes nothing.
pub proof fn lemma_regen_idempotent(p: PlayerData, now: i64)
    requires
        p.wf(),
    ensures
        regenerated(regenerated(p, now), now) == regenerated(p, now),
{
    let q = regenerated(p, now);
    let el = now - p.last_login;
    let g = regen_gain(p.energy as int, el);
    if q.energy < MAX_ENERGY {
        if el >= 60 {
            assert(g == el / 60);
            assert(0 <= el - 60 * g < 60) by (nonlinear_arith)
                requires
                    g == el / 60,
                    el >= 60,
            ;
        } else {
            assert(g == 0);
        }
        assert(q.last_login == p.last_login + 60 * g);
        assert(regen_gain(q.energy as int, now - q.last_login) == 0);
    } else {
        assert(regen_gain(q.energy as int, now - q.last_login) == 0);
    }
}

} // verus!
