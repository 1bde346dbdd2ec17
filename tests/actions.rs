use lumberjack::lumberjack::{build, chop_tree, collect, init_player, update, upgrade};
use lumberjack::{
    update_energy, ActionType, BoardAccount, BoardAction, BuildingType, GameActionHistory,
    GameErrorCode, InitPlayer, PlayerData, Pubkey, MAX_ENERGY,
};

const NOW: i64 = 1_700_000_000;

fn key(b: u8) -> Pubkey {
    Pubkey::new([b; 32])
}

fn player(energy: u64, last_login: i64) -> PlayerData {
    PlayerData {
        authority: key(1),
        avatar: key(2),
        name: String::from("jack"),
        level: 0,
        xp: 0,
        energy,
        last_login,
    }
}

fn ctx_with(energy: u64, last_login: i64) -> BoardAction {
    BoardAction {
        session_token: None,
        board: BoardAccount::new(),
        game_actions: GameActionHistory::new(),
        player: player(energy, last_login),
        signer: key(1),
    }
}

fn tile_type(ctx: &BoardAction, x: u8, y: u8) -> BuildingType {
    ctx.board.get_tile(x, y).unwrap().building_type
}

#[test]
fn fresh_player_chops_a_tree() {
    let mut ctx = ctx_with(10, NOW);
    assert_eq!(chop_tree(&mut ctx, 0, 0, NOW), Ok(()));
    assert_eq!(tile_type(&ctx, 0, 0), BuildingType::Empty);
    assert_eq!(ctx.board.wood, 5);
    assert_eq!(ctx.player.energy, 9);
}

#[test]
fn chopping_an_empty_tile_fails_and_changes_nothing() {
    let mut ctx = ctx_with(10, NOW);
    chop_tree(&mut ctx, 0, 0, NOW).unwrap();
    assert_eq!(chop_tree(&mut ctx, 0, 0, NOW), Err(GameErrorCode::TileHasNoTree));
    assert_eq!(ctx.board.wood, 5);
    assert_eq!(ctx.player.energy, 9);
    assert_eq!(ctx.board.action_id, 1);
    assert_eq!(ctx.game_actions.action_index, 1);
}

#[test]
fn build_sawmill_on_empty_tile() {
    let mut ctx = ctx_with(10, NOW);
    chop_tree(&mut ctx, 0, 0, NOW).unwrap();
    assert_eq!(build(&mut ctx, 0, 0, BuildingType::Sawmill, NOW + 3), Ok(()));
    let t = ctx.board.get_tile(0, 0).unwrap();
    assert_eq!(t.building_type, BuildingType::Sawmill);
    assert_eq!(t.building_start_collect_time, NOW + 3);
    assert_eq!(ctx.player.energy, 8);
}

#[test]
fn collect_waits_for_the_cooldown() {
    let mut ctx = ctx_with(10, NOW);
    chop_tree(&mut ctx, 0, 0, NOW).unwrap();
    build(&mut ctx, 0, 0, BuildingType::Sawmill, NOW).unwrap();
    assert_eq!(collect(&mut ctx, 0, 0, NOW + 10), Err(GameErrorCode::TileCantBeCollected));
    assert_eq!(ctx.board.wood, 5);
    assert_eq!(collect(&mut ctx, 0, 0, NOW + 61), Ok(()));
    assert_eq!(ctx.board.wood, 10);
    let t = ctx.board.get_tile(0, 0).unwrap();
    assert_eq!(t.building_start_collect_time, NOW + 61);
}

#[test]
fn collect_exactly_at_the_cooldown() {
    let mut ctx = ctx_with(10, NOW);
    chop_tree(&mut ctx, 3, 4, NOW).unwrap();
    build(&mut ctx, 3, 4, BuildingType::Mine, NOW).unwrap();
    assert_eq!(collect(&mut ctx, 3, 4, NOW + 59), Err(GameErrorCode::TileCantBeCollected));
    assert_eq!(collect(&mut ctx, 3, 4, NOW + 60), Ok(()));
    assert_eq!(ctx.board.stone, 5);
    assert_eq!(ctx.board.wood, 5);
}

#[test]
fn ten_elapsed_intervals_from_empty() {
    let mut ctx = ctx_with(0, NOW - 600);
    update_energy(&mut ctx, NOW);
    assert_eq!(ctx.player.energy, 10);
    assert_eq!(ctx.player.last_login, NOW);
}

#[test]
fn exact_intervals_are_all_credited() {
    let mut ctx = ctx_with(0, NOW - 120);
    update_energy(&mut ctx, NOW);
    assert_eq!(ctx.player.energy, 2);
    assert_eq!(ctx.player.last_login, NOW);
    let mut ctx = ctx_with(3, NOW - 60);
    update_energy(&mut ctx, NOW);
    assert_eq!(ctx.player.energy, 4);
    assert_eq!(ctx.player.last_login, NOW);
    let mut ctx = ctx_with(3, NOW - 59);
    update_energy(&mut ctx, NOW);
    assert_eq!(ctx.player.energy, 3);
    assert_eq!(ctx.player.last_login, NOW - 59);
}

#[test]
fn remainder_stays_under_one_interval() {
    let mut ctx = ctx_with(1, NOW - 179);
    update_energy(&mut ctx, NOW);
    assert_eq!(ctx.player.energy, 3);
    assert_eq!(ctx.player.last_login, NOW - 59);
}

#[test]
fn regeneration_reaching_the_cap_restarts_the_clock() {
    let mut ctx = ctx_with(0, NOW - 601);
    update_energy(&mut ctx, NOW);
    assert_eq!(ctx.player.energy, MAX_ENERGY);
    assert_eq!(ctx.player.last_login, NOW);
}

#[test]
fn regeneration_keeps_the_remainder() {
    let mut ctx = ctx_with(5, NOW - 125);
    update_energy(&mut ctx, NOW);
    assert_eq!(ctx.player.energy, 7);
    assert_eq!(ctx.player.last_login, NOW - 5);
}

#[test]
fn regeneration_twice_at_same_time_changes_nothing() {
    let mut ctx = ctx_with(3, NOW - 1000);
    update_energy(&mut ctx, NOW);
    let (e, l) = (ctx.player.energy, ctx.player.last_login);
    assert_eq!((e, l), (10, NOW));
    update_energy(&mut ctx, NOW);
    assert_eq!((ctx.player.energy, ctx.player.last_login), (e, l));

    let mut ctx = ctx_with(2, NOW - 250);
    update_energy(&mut ctx, NOW);
    assert_eq!((ctx.player.energy, ctx.player.last_login), (6, NOW - 10));
    update_energy(&mut ctx, NOW);
    assert_eq!((ctx.player.energy, ctx.player.last_login), (6, NOW - 10));
}

#[test]
fn regeneration_never_lowers_energy() {
    let mut ctx = ctx_with(4, NOW - 30);
    update_energy(&mut ctx, NOW);
    assert_eq!(ctx.player.energy, 4);
    assert_eq!(ctx.player.last_login, NOW - 30);
    let mut ctx = ctx_with(4, NOW + 500);
    update_energy(&mut ctx, NOW);
    assert_eq!(ctx.player.energy, 4);
    assert_eq!(ctx.player.last_login, NOW + 500);
}

#[test]
fn full_energy_moves_clock_to_now() {
    let mut ctx = ctx_with(10, NOW - 5000);
    update_energy(&mut ctx, NOW);
    assert_eq!(ctx.player.energy, 10);
    assert_eq!(ctx.player.last_login, NOW);
}

#[test]
fn regeneration_handles_extreme_times() {
    let mut ctx = ctx_with(0, i64::MIN);
    update_energy(&mut ctx, i64::MAX);
    assert_eq!(ctx.player.energy, 10);
    assert_eq!(ctx.player.last_login, i64::MAX);
}

#[test]
fn no_energy_rejects_without_touching_anything() {
    let mut ctx = ctx_with(0, NOW - 30);
    assert_eq!(chop_tree(&mut ctx, 0, 0, NOW), Err(GameErrorCode::NotEnoughEnergy));
    assert_eq!(tile_type(&ctx, 0, 0), BuildingType::Tree);
    assert_eq!(ctx.player.energy, 0);
    assert_eq!(ctx.player.last_login, NOW - 30);
    assert_eq!(ctx.board.wood, 0);
}

#[test]
fn failed_action_rolls_back_regeneration() {
    let mut ctx = ctx_with(5, NOW - 125);
    assert_eq!(upgrade(&mut ctx, 0, 0, NOW), Err(GameErrorCode::TileCantBeUpgraded));
    assert_eq!(ctx.player.energy, 5);
    assert_eq!(ctx.player.last_login, NOW - 125);
    assert_eq!(ctx.board.action_id, 0);
    assert_eq!(ctx.game_actions.action_index, 0);
}

#[test]
fn wrong_signer_is_rejected() {
    let mut ctx = ctx_with(10, NOW);
    ctx.signer = key(9);
    assert_eq!(chop_tree(&mut ctx, 0, 0, NOW), Err(GameErrorCode::WrongAuthority));
    assert_eq!(tile_type(&ctx, 0, 0), BuildingType::Tree);
    assert_eq!(ctx.player.energy, 10);
}

#[test]
fn valid_session_token_acts_for_the_player() {
    let mut ctx = ctx_with(10, NOW);
    ctx.signer = key(9);
    ctx.session_token = Some(true);
    assert_eq!(chop_tree(&mut ctx, 1, 1, NOW), Ok(()));
    assert_eq!(ctx.player.energy, 9);
}

#[test]
fn rejected_session_token_is_wrong_authority() {
    let mut ctx = ctx_with(10, NOW);
    ctx.session_token = Some(false);
    assert_eq!(chop_tree(&mut ctx, 1, 1, NOW), Err(GameErrorCode::WrongAuthority));
}

#[test]
fn out_of_board_coordinates_are_rejected() {
    let mut ctx = ctx_with(10, NOW);
    assert_eq!(chop_tree(&mut ctx, 10, 0, NOW), Err(GameErrorCode::InvalidCoordinate));
    assert_eq!(chop_tree(&mut ctx, 0, 10, NOW), Err(GameErrorCode::InvalidCoordinate));
    assert_eq!(collect(&mut ctx, 255, 255, NOW), Err(GameErrorCode::InvalidCoordinate));
    assert_eq!(ctx.player.energy, 10);
    assert_eq!(chop_tree(&mut ctx, 9, 9, NOW), Ok(()));
}

#[test]
fn build_on_a_tree_is_occupied() {
    let mut ctx = ctx_with(10, NOW);
    assert_eq!(
        build(&mut ctx, 2, 2, BuildingType::Mine, NOW),
        Err(GameErrorCode::TileAlreadyOccupied)
    );
}

#[test]
fn collect_without_a_building_is_occupied() {
    let mut ctx = ctx_with(10, NOW);
    assert_eq!(collect(&mut ctx, 2, 2, NOW), Err(GameErrorCode::TileAlreadyOccupied));
    chop_tree(&mut ctx, 2, 2, NOW).unwrap();
    assert_eq!(collect(&mut ctx, 2, 2, NOW), Err(GameErrorCode::TileAlreadyOccupied));
}

#[test]
fn upgrade_raises_the_level() {
    let mut ctx = ctx_with(10, NOW);
    chop_tree(&mut ctx, 5, 6, NOW).unwrap();
    assert_eq!(upgrade(&mut ctx, 5, 6, NOW), Err(GameErrorCode::TileCantBeUpgraded));
    build(&mut ctx, 5, 6, BuildingType::Mine, NOW).unwrap();
    assert_eq!(upgrade(&mut ctx, 5, 6, NOW), Ok(()));
    assert_eq!(upgrade(&mut ctx, 5, 6, NOW), Ok(()));
    assert_eq!(ctx.board.get_tile(5, 6).unwrap().building_level, 2);
    assert_eq!(ctx.player.energy, 6);
}

#[test]
fn upgrade_stops_at_the_largest_level() {
    let mut ctx = ctx_with(10, NOW);
    chop_tree(&mut ctx, 0, 1, NOW).unwrap();
    build(&mut ctx, 0, 1, BuildingType::Sawmill, NOW).unwrap();
    ctx.board.data[1].building_level = 254;
    assert_eq!(upgrade(&mut ctx, 0, 1, NOW), Ok(()));
    assert_eq!(ctx.board.get_tile(0, 1).unwrap().building_level, 255);
    assert_eq!(upgrade(&mut ctx, 0, 1, NOW), Err(GameErrorCode::TileCantBeUpgraded));
}

#[test]
fn wood_stops_at_the_largest_value() {
    let mut ctx = ctx_with(10, NOW);
    ctx.board.wood = u64::MAX - 2;
    assert_eq!(chop_tree(&mut ctx, 0, 0, NOW), Ok(()));
    assert_eq!(ctx.board.wood, u64::MAX);
}

#[test]
fn action_id_wraps_to_zero() {
    let mut ctx = ctx_with(10, NOW);
    ctx.board.action_id = u64::MAX;
    chop_tree(&mut ctx, 0, 0, NOW).unwrap();
    assert_eq!(ctx.board.action_id, 0);
    let recent = ctx.game_actions.recent_actions();
    assert_eq!(recent[29].action_id, u64::MAX);
}

#[test]
fn update_only_regenerates() {
    let mut ctx = ctx_with(5, NOW - 125);
    ctx.signer = key(9);
    assert_eq!(update(&mut ctx, NOW), Ok(()));
    assert_eq!(ctx.player.energy, 7);
    assert_eq!(ctx.player.last_login, NOW - 5);
    assert_eq!(ctx.board.action_id, 0);
}

#[test]
fn init_player_fills_the_record() {
    let mut ctx = InitPlayer { player: player(0, 0), signer: key(7) };
    init_player(&mut ctx, NOW);
    assert_eq!(ctx.player.energy, MAX_ENERGY);
    assert_eq!(ctx.player.last_login, NOW);
    assert_eq!(ctx.player.authority.bytes, [7u8; 32]);
    assert_eq!(ctx.player.name, "jack");
}

#[test]
fn history_records_each_success_with_the_tile_after() {
    let mut ctx = ctx_with(10, NOW);
    chop_tree(&mut ctx, 4, 7, NOW).unwrap();
    build(&mut ctx, 4, 7, BuildingType::Sawmill, NOW + 1).unwrap();
    let recent = ctx.game_actions.recent_actions();
    assert_eq!(recent.len(), 30);
    let a = recent[28];
    assert_eq!((a.action_id, a.action_type, a.x, a.y), (0, ActionType::Chop, 4, 7));
    assert_eq!(a.tile.building_type, BuildingType::Empty);
    assert_eq!(a.player.bytes, [1u8; 32]);
    assert_eq!(a.avatar.bytes, [2u8; 32]);
    let b = recent[29];
    assert_eq!((b.action_id, b.action_type), (1, ActionType::Build));
    assert_eq!(b.tile.building_type, BuildingType::Sawmill);
    assert_eq!(b.tile.building_start_collect_time, NOW + 1);
    assert_eq!(ctx.game_actions.action_index, 2);
}

#[test]
fn history_ring_keeps_the_last_thirty_in_order() {
    let mut ctx = ctx_with(10, NOW);
    let mut done: u64 = 0;
    for x in 0..10u8 {
        for y in 0..4u8 {
            ctx.player.energy = 10;
            chop_tree(&mut ctx, x, y, NOW).unwrap();
            done += 1;
            assert_eq!(ctx.game_actions.action_index, done % 30);
        }
    }
    assert_eq!(done, 40);
    let recent = ctx.game_actions.recent_actions();
    for (t, a) in recent.iter().enumerate() {
        let id = 10 + t as u64;
        assert_eq!(a.action_id, id);
        assert_eq!((a.x as u64, a.y as u64), (id / 4, id % 4));
    }
}

#[test]
fn keys_compare_by_bytes() {
    assert!(key(3).same_as(&key(3)));
    let mut b = [3u8; 32];
    b[31] = 4;
    assert!(!key(3).same_as(&Pubkey::new(b)));
    assert_eq!(Pubkey::zero().bytes, [0u8; 32]);
}

#[test]
fn building_and_action_codes_round_trip() {
    for code in 0..4u8 {
        assert_eq!(BuildingType::from_code(code).unwrap().code(), code);
        assert_eq!(ActionType::from_code(code).unwrap().code(), code);
    }
    assert_eq!(BuildingType::from_code(2), Some(BuildingType::Sawmill));
    assert_eq!(ActionType::from_code(3), Some(ActionType::Collect));
    assert_eq!(BuildingType::from_code(4), None);
    assert_eq!(ActionType::from_code(255), None);
}

#[test]
fn restored_history_keeps_recording() {
    let mut ctx = ctx_with(10, NOW);
    chop_tree(&mut ctx, 0, 0, NOW).unwrap();
    let slots = ctx.game_actions.game_actions.clone();
    let mut h = GameActionHistory::restore(ctx.game_actions.action_index, slots).unwrap();
    assert_eq!(h.action_index, 1);
    assert_eq!(h.recent_actions()[29].action_type, ActionType::Chop);
    let mut extra = h.recent_actions()[29];
    extra.action_id = 77;
    h.record(extra);
    assert_eq!(h.action_index, 2);
    assert_eq!(h.recent_actions()[29].action_id, 77);
    assert!(GameActionHistory::restore(30, h.game_actions.clone()).is_none());
    assert!(GameActionHistory::restore(0, Vec::new()).is_none());
}

#[test]
fn add_new_game_action_fills_the_next_slot() {
    let mut board = BoardAccount::new();
    let mut history = GameActionHistory::new();
    board.action_id = 41;
    let mut a = GameActionHistory::new().recent_actions()[0];
    a.action_id = 41;
    a.action_type = ActionType::Upgrade;
    board.add_new_game_action(&mut history, a);
    assert_eq!(board.action_id, 42);
    assert_eq!(history.action_index, 1);
    assert_eq!(history.game_actions[0].action_type, ActionType::Upgrade);
    assert_eq!(history.game_actions[1].action_type, ActionType::Chop);
    assert_eq!(board.wood, 0);
}

#[test]
fn fresh_board_tiles_are_zeroed_trees() {
    let board = BoardAccount::new();
    for x in 0..10u8 {
        for y in 0..10u8 {
            let t = board.get_tile(x, y).unwrap();
            assert_eq!(t.building_type, BuildingType::Tree);
            assert_eq!(t.building_level, 0);
            assert_eq!(t.building_owner.bytes, [0u8; 32]);
            assert_eq!(t.building_start_time, 0);
            assert_eq!(t.building_start_upgrade_time, 0);
            assert_eq!(t.building_start_collect_time, 0);
        }
    }
    assert_eq!(board.get_tile(10, 0).is_none(), true);
}
