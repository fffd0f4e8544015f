use solsurvive::game::{initialize_game, Game, GameError};
use solsurvive::player::move_player;
use solsurvive::round::{advance_round, claim_prize};
use solsurvive::turn::process_ai_turn;

fn fresh() -> Game {
    initialize_game([7u8; 32])
}

#[test]
fn fresh_move_then_ai_turn_has_no_collision() {
    for ts in 0u64..16 {
        let mut g = fresh();
        assert_eq!(move_player(&mut g, 6, 5), Ok(()));
        assert_eq!((g.player_x, g.player_y), (6, 5));
        assert_eq!(g.total_moves, 1);
        assert_eq!(process_ai_turn(&mut g, ts), Ok(()));
        assert!(g.player_alive);
        assert_eq!(g.combo_count, 1);
        assert_eq!(g.combo_multiplier, 1);
        assert_eq!(g.ai_killed, 0);
    }
}

#[test]
fn shield_absorbs_collision_and_kills_opponent() {
    let mut g = fresh();
    g.player_shield = true;
    g.ai_alive = [false; 9];
    g.ai_alive[0] = true;
    g.ai_x[0] = 5;
    g.ai_y[0] = 4;
    assert_eq!(process_ai_turn(&mut g, 0), Ok(()));
    assert_eq!((g.ai_x[0], g.ai_y[0]), (5, 5));
    assert!(!g.player_shield);
    assert!(!g.ai_alive[0]);
    assert!(g.player_alive);
    assert_eq!(g.ai_killed, 1);
    assert_eq!(g.combo_count, 1);
}

#[test]
fn ten_round_advances_end_the_game() {
    let mut g = fresh();
    for k in 0..10u8 {
        assert_eq!(g.round, 1 + k);
        assert_eq!(advance_round(&mut g, 0), Ok(()));
        assert!(g.player_alive);
    }
    assert_eq!(g.round, 11);
    assert!(g.game_over);
    assert_eq!(g.safe_zone_radius, 1);
    assert_eq!(advance_round(&mut g, 0), Err(GameError::GameIsOver));
    assert_eq!(g.round, 11);
}

#[test]
fn claim_doubles_prize_with_combo() {
    let mut g = fresh();
    g.game_over = true;
    g.prize_pool = 50_000_000;
    g.combo_count = 5;
    g.combo_multiplier = 2;
    assert_eq!(claim_prize(&g, 1_000_000_000, 1_000_000), Ok(100_000_000));
}

#[test]
fn claim_is_capped_by_escrow_above_reserve() {
    let mut g = fresh();
    g.game_over = true;
    g.prize_pool = 50_000_000;
    g.combo_count = 5;
    g.combo_multiplier = 2;
    assert_eq!(claim_prize(&g, 60_000_000, 2_000_000), Ok(58_000_000));
    assert_eq!(claim_prize(&g, 2_000_000, 2_000_000), Ok(0));
}

#[test]
fn claim_rejections() {
    let mut g = fresh();
    assert_eq!(claim_prize(&g, 1_000_000_000, 0), Err(GameError::GameNotOver));
    g.game_over = true;
    g.player_alive = false;
    assert_eq!(claim_prize(&g, 1_000_000_000, 0), Err(GameError::PlayerDead));
}

#[test]
fn claim_with_largest_pool_does_not_overflow() {
    let mut g = fresh();
    g.game_over = true;
    g.prize_pool = u64::MAX;
    g.combo_count = 15;
    g.combo_multiplier = 3;
    assert_eq!(claim_prize(&g, u64::MAX, 1), Ok(u64::MAX - 1));
}
