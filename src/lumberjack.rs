use vstd::prelude::*;
use crate::board::{
    build_check, built, chop_check, chopped, collect_check, collected, upgrade_check, upgraded,
    BoardAccount,
};
use crate::error::GameErrorCode;
use crate::history::GameActionHistory;
use crate::key::Pubkey;
use crate::player::{regenerated, PlayerData, MAX_ENERGY, TIME_TO_REFILL_ENERGY};
use crate::tile::BuildingType;

verus! {

/// What a player action works on: the shared board and its history, the
/// acting player's record, and who signed the request.
pub struct BoardAction {
    /// `Some(valid)` when the signer presented a delegated session token,
    /// with the platform's verdict on it; `None` when it signed as itself.
    pub session_token: Option<bool>,
    pub board: BoardAccount,
    pub game_actions: GameActionHistory,
    pub player: PlayerData,
    pub signer: Pubkey,
}

/// What creating a player works on: the new record and who signed.
pub struct InitPlayer {
    pub player: PlayerData,
    pub signer: Pubkey,
}

impl BoardAction {
    pub open spec fn wf(&self) -> bool {
        &&& self.board.wf()
        &&& self.game_actions.wf()
        &&& self.player.wf()
    }

    /// A valid session token, or else the signer being the player's authority.
    pub open spec fn authorized(&self) -> bool {
        match self.session_token {
            Some(valid) => valid,
            None => self.player.authority@ == self.signer@,
        }
    }
}

/// Outcome of a player action at time `now` whose board transition would
/// end in `on_board`: the caller must be authorized, and the player must
/// hold energy once it has regenerated.
pub open spec fn action_check(
    ctx: BoardAction,
    now: i64,
    on_board: Result<(), GameErrorCode>,
) -> Result<(), GameErrorCode> {
    if !ctx.authorized() {
        Err(GameErrorCode::WrongAuthority)
    } else if regenerated(ctx.player, now).energy == 0 {
        Err(GameErrorCode::NotEnoughEnergy)
    } else {
        on_board
    }
}

/// The player after a successful action at `now`: regenerated, then one
/// unit of energy spent.
pub open spec fn charged(p: PlayerData, now: i64) -> PlayerData {
    PlayerData {
        energy: (regenerated(p, now).energy - 1) as u64,
        ..regenerated(p, now)
    }
}

/// Sets up a new player: full energy, its clock at `now`, owned by the signer.
pub fn init_player(ctx: &mut InitPlayer, now: i64)
    ensures
        final(ctx).player == (PlayerData {
            energy: MAX_ENERGY,
            last_login: now,
            authority: old(ctx).signer,
            ..old(ctx).player
        }),
        final(ctx).signer == old(ctx).signer,
        final(ctx).player.wf(),
{
    ctx.player.energy = MAX_ENERGY;
    ctx.player.last_login = now;
    ctx.player.authority = ctx.signer;
}

/// Credits the energy earned since the player's clock: one unit per full
/// interval elapsed, while energy is below the cap. At the cap the clock
/// moves to `now`; below it, only by the credited intervals, so a partial
/// interval carries over.
pub fn update_energy(ctx: &mut BoardAction, now: i64)
    requires
        old(ctx).player.wf(),
    ensures
        final(ctx).player == regenerated(old(ctx).player, now),
        final(ctx).player.wf(),
        final(ctx).player.energy >= old(ctx).player.energy,
        final(ctx).player.energy == MAX_ENERGY ==> final(ctx).player.last_login == now,
        final(ctx).board == old(ctx).board,
        final(ctx).game_actions == old(ctx).game_actions,
        final(ctx).signer == old(ctx).signer,
        final(ctx).session_token == old(ctx).session_token,
{
    let ghost e0 = ctx.player.energy as int;
    let ghost el0 = now - ctx.player.last_login;
    let mut time_passed: i128 = now as i128 - ctx.player.last_login as i128;
    let mut time_spent: i64 = 0;
    let mut energy: u64 = ctx.player.energy;
    while time_passed >= TIME_TO_REFILL_ENERGY as i128 && energy < MAX_ENERGY
        invariant
            0 <= e0 <= energy <= MAX_ENERGY,
            time_passed == el0 - 60 * (energy - e0),
            time_spent == 60 * (energy - e0),
            energy > e0 ==> el0 >= 60 * (energy - e0),
        decreases MAX_ENERGY - energy,
    {
        energy = energy + 1;
        time_passed = time_passed - TIME_TO_REFILL_ENERGY as i128;
        time_spent = time_spent + TIME_TO_REFILL_ENERGY;
    }
    let ghost i = energy - e0;
    proof {
        if energy < MAX_ENERGY {
            if el0 >= 60 {
                assert(el0 / 60 == i) by (nonlinear_arith)
                    requires
                        el0 - 60 * i < 60,
                        i == 0 || el0 >= 60 * i,
                        el0 >= 60,
                        i >= 0,
                ;
            }
        } else if i > 0 {
            assert(el0 / 60 >= i) by (nonlinear_arith)
                requires
                    el0 >= 60 * i,
                    i > 0,
            ;
        }
    }
    ctx.player.energy = energy;
    if energy >= MAX_ENERGY {
        ctx.player.last_login = now;
    } else {
        ctx.player.last_login = ctx.player.last_login + time_spent;
    }
}

/// Whether the signer may act for the player.
fn is_authorized(ctx: &BoardAction) -> (r: bool)
    ensures
        r == ctx.authorized(),
{
    match ctx.session_token {
        Some(valid) => valid,
        None => ctx.player.authority.same_as(&ctx.signer),
    }
}

/// The steps every action shares before the board: authorization,
/// regeneration, and the energy gate. On a rejection nothing has changed.
fn begin_action(ctx: &mut BoardAction, now: i64) -> (r: Result<(), GameErrorCode>)
    requires
        old(ctx).wf(),
    ensures
        r == action_check(*old(ctx), now, Ok(())),
        r is Err ==> *final(ctx) == *old(ctx),
        r is Ok ==> final(ctx).player == regenerated(old(ctx).player, now) && final(ctx).wf(),
        final(ctx).board == old(ctx).board,
        final(ctx).game_actions == old(ctx).game_actions,
        final(ctx).signer == old(ctx).signer,
        final(ctx).session_token == old(ctx).session_token,
{
    if !is_authorized(ctx) {
        return Err(GameErrorCode::WrongAuthority);
    }
    let energy0 = ctx.player.energy;
    let login0 = ctx.player.last_login;
    update_energy(ctx, now);
    if ctx.player.energy == 0 {
        ctx.player.energy = energy0;
        ctx.player.last_login = login0;
        return Err(GameErrorCode::NotEnoughEnergy);
    }
    Ok(())
}

/// Chops the tree at `(x, y)` for the player, who spends one unit of energy.
pub fn chop_tree(ctx: &mut BoardAction, x: u8, y: u8, now: i64) -> (r: Result<(), GameErrorCode>)
    requires
        old(ctx).wf(),
    ensures
        final(ctx).wf(),
        r == action_check(*old(ctx), now, chop_check(old(ctx).board, x, y)),
        r is Err ==> *final(ctx) == *old(ctx),
        r is Ok ==> final(ctx).player == charged(old(ctx).player, now) && chopped(
            old(ctx).board,
            final(ctx).board,
            old(ctx).game_actions,
            final(ctx).game_actions,
            x,
            y,
            old(ctx).player.authority,
            old(ctx).player.avatar,
        ),
        final(ctx).signer == old(ctx).signer,
        final(ctx).session_token == old(ctx).session_token,
{
    let energy0 = ctx.player.energy;
    let login0 = ctx.player.last_login;
    begin_action(ctx, now)?;
    let player = ctx.player.authority;
    let avatar = ctx.player.avatar;
    match ctx.board.chop_tree(x, y, player, avatar, &mut ctx.game_actions) {
        Err(e) => {
            ctx.player.energy = energy0;
            ctx.player.last_login = login0;
            Err(e)
        },
        Ok(()) => {
            ctx.player.energy = ctx.player.energy - 1;
            Ok(())
        },
    }
}

/// Builds `building_type` on the empty tile at `(x, y)` for the player, who
/// spends one unit of energy.
pub fn build(ctx: &mut BoardAction, x: u8, y: u8, building_type: BuildingType, now: i64) -> (r:
    Result<(), GameErrorCode>)
    requires
        old(ctx).wf(),
    ensures
        final(ctx).wf(),
        r == action_check(*old(ctx), now, build_check(old(ctx).board, x, y)),
        r is Err ==> *final(ctx) == *old(ctx),
        r is Ok ==> final(ctx).player == charged(old(ctx).player, now) && built(
            old(ctx).board,
            final(ctx).board,
            old(ctx).game_actions,
            final(ctx).game_actions,
            x,
            y,
            building_type,
            now,
            old(ctx).player.authority,
            old(ctx).player.avatar,
        ),
        final(ctx).signer == old(ctx).signer,
        final(ctx).session_token == old(ctx).session_token,
{
    let energy0 = ctx.player.energy;
    let login0 = ctx.player.last_login;
    begin_action(ctx, now)?;
    let player = ctx.player.authority;
    let avatar = ctx.player.avatar;
    match ctx.board.build(x, y, building_type, now, player, avatar, &mut ctx.game_actions) {
        Err(e) => {
            ctx.player.energy = energy0;
            ctx.player.last_login = login0;
            Err(e)
        },
        Ok(()) => {
            ctx.player.energy = ctx.player.energy - 1;
            Ok(())
        },
    }
}

/// Upgrades the sawmill or mine at `(x, y)` for the player, who spends one
/// unit of energy.
pub fn upgrade(ctx: &mut BoardAction, x: u8, y: u8, now: i64) -> (r: Result<(), GameErrorCode>)
    requires
        old(ctx).wf(),
    ensures
        final(ctx).wf(),
        r == action_check(*old(ctx), now, upgrade_check(old(ctx).board, x, y)),
        r is Err ==> *final(ctx) == *old(ctx),
        r is Ok ==> final(ctx).player == charged(old(ctx).player, now) && upgraded(
            old(ctx).board,
            final(ctx).board,
            old(ctx).game_actions,
            final(ctx).game_actions,
            x,
            y,
            old(ctx).player.authority,
            old(ctx).player.avatar,
        ),
        final(ctx).signer == old(ctx).signer,
        final(ctx).session_token == old(ctx).session_token,
{
    let energy0 = ctx.player.energy;
    let login0 = ctx.player.last_login;
    begin_action(ctx, now)?;
    let player = ctx.player.authority;
    let avatar = ctx.player.avatar;
    match ctx.board.upgrade(x, y, player, avatar, &mut ctx.game_actions) {
        Err(e) => {
            ctx.player.energy = energy0;
            ctx.player.last_login = login0;
            Err(e)
        },
        Ok(()) => {
            ctx.player.energy = ctx.player.energy - 1;
            Ok(())
        },
    }
}

/// Collects from the sawmill or mine at `(x, y)` for the player, who spends
/// one unit of energy.
pub fn collect(ctx: &mut BoardAction, x: u8, y: u8, now: i64) -> (r: Result<(), GameErrorCode>)
    requires
        old(ctx).wf(),
    ensures
        final(ctx).wf(),
        r == action_check(*old(ctx), now, collect_check(old(ctx).board, x, y, now)),
        r is Err ==> *final(ctx) == *old(ctx),
        r is Ok ==> final(ctx).player == charged(old(ctx).player, now) && collected(
            old(ctx).board,
            final(ctx).board,
            old(ctx).game_actions,
            final(ctx).game_actions,
            x,
            y,
            now,
            old(ctx).player.authority,
            old(ctx).player.avatar,
        ),
        final(ctx).signer == old(ctx).signer,
        final(ctx).session_token == old(ctx).session_token,
{
    let energy0 = ctx.player.energy;
    let login0 = ctx.player.last_login;
    begin_action(ctx, now)?;
    let player = ctx.player.authority;
    let avatar = ctx.player.avatar;
    match ctx.board.collect(x, y, now, player, avatar, &mut ctx.game_actions) {
        Err(e) => {
            ctx.player.energy = energy0;
            ctx.player.last_login = login0;
            Err(e)
        },
        Ok(()) => {
            ctx.player.energy = ctx.player.energy - 1;
            Ok(())
        },
    }
}

/// Regenerates the player's energy and touches nothing else.
pub fn update(ctx: &mut BoardAction, now: i64) -> (r: Result<(), GameErrorCode>)
    requires
        old(ctx).wf(),
    ensures
        r == Ok::<(), GameErrorCode>(()),
        final(ctx).wf(),
        final(ctx).player == regenerated(old(ctx).player, now),
        final(ctx).board == old(ctx).board,
        final(ctx).game_actions == old(ctx).game_actions,
        final(ctx).signer == old(ctx).signer,
        final(ctx).session_token == old(ctx).session_token,
{
    update_energy(ctx, now);
    Ok(())
}

} // verus!
