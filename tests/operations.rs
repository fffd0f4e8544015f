use solsurvive::game::{check_record, initialize_game, reset_game, Game, GameError, Personality};
use solsurvive::geometry::{distance, step};
use solsurvive::opponents::choose_target;
use solsurvive::player::move_player;
use solsurvive::round::advance_round;
use solsurvive::turn::process_ai_turn;

fn fresh() -> Game {
    initialize_game([1u8; 32])
}

#[test]
fn start_state_is_canonical() {
    let g = fresh();
    assert_eq!(g.player, [1u8; 32]);
    assert_eq!((g.player_x, g.player_y), (5, 5));
    assert_eq!(g.ai_x, [1, 9, 1, 9, 5, 1, 9, 5, 5]);
    assert_eq!(g.ai_y, [1, 1, 9, 9, 1, 5, 5, 9, 3]);
    assert_eq!(g.ai_alive, [true; 9]);
    assert_eq!(g.ai_personality[3], Personality::Chaos);
    assert_eq!(g.ai_personality[7], Personality::Aggressive);
    assert_eq!(g.round, 1);
    assert_eq!(g.safe_zone_radius, 5);
    assert_eq!(g.prize_pool, 50_000_000);
    assert_eq!((g.powerup_x, g.powerup_y, g.powerup_type), (255, 255, 0));
    assert!(!g.powerup_active && !g.game_over && g.player_alive);
    assert_eq!(g.combo_multiplier, 1);
}

#[test]
fn reset_restores_start_state() {
    let mut g = fresh();
    g.game_over = true;
    g.round = 11;
    g.ai_alive = [false; 9];
    g.prize_pool = 3;
    g.combo_count = 20;
    g.combo_multiplier = 3;
    reset_game(&mut g);
    assert_eq!(g.player, [1u8; 32]);
    assert_eq!(g, initialize_game([1u8; 32]));
}

#[test]
fn move_rejections_leave_game_unchanged() {
    let mut g = fresh();
    let before = g;
    assert_eq!(move_player(&mut g, 10, 5), Err(GameError::OutOfBounds));
    assert_eq!(move_player(&mut g, 5, 5), Err(GameError::InvalidMove));
    assert_eq!(move_player(&mut g, 6, 6), Err(GameError::InvalidMove));
    assert_eq!(move_player(&mut g, 7, 5), Err(GameError::InvalidMove));
    assert_eq!(g, before);
    g.player_alive = false;
    assert_eq!(move_player(&mut g, 6, 5), Err(GameError::PlayerDead));
    g.game_over = true;
    assert_eq!(move_player(&mut g, 6, 5), Err(GameError::GameIsOver));
}

#[test]
fn speed_power_up_extends_range() {
    let mut g = fresh();
    g.round = 2;
    g.powerup_active = true;
    g.powerup_x = 6;
    g.powerup_y = 5;
    g.powerup_type = 1;
    assert_eq!(move_player(&mut g, 6, 5), Ok(()));
    assert_eq!(g.player_speed_boost, 3);
    assert!(!g.powerup_active);
    assert_eq!(g.powerups_collected, 1);
    assert_eq!(move_player(&mut g, 8, 6), Ok(()));
    assert_eq!(g.player_speed_boost, 2);
    assert_eq!(move_player(&mut g, 4, 6), Err(GameError::InvalidMove));
    assert_eq!(move_player(&mut g, 6, 5), Ok(()));
    assert_eq!(g.total_moves, 3);
}

#[test]
fn shield_power_up_sets_shield() {
    let mut g = fresh();
    g.round = 2;
    g.powerup_active = true;
    g.powerup_x = 5;
    g.powerup_y = 6;
    g.powerup_type = 2;
    assert_eq!(move_player(&mut g, 5, 6), Ok(()));
    assert!(g.player_shield);
}

#[test]
fn bomb_kills_opponents_within_two() {
    let mut g = fresh();
    g.round = 2;
    g.powerup_active = true;
    g.powerup_x = 6;
    g.powerup_y = 5;
    g.powerup_type = 3;
    g.ai_x[0] = 7;
    g.ai_y[0] = 6;
    assert_eq!(move_player(&mut g, 6, 5), Ok(()));
    assert!(!g.ai_alive[0]);
    assert_eq!(g.ai_alive.iter().filter(|a| **a).count(), 8);
    assert_eq!(g.ai_killed, 1);
}

#[test]
fn freeze_power_up_stops_opponents() {
    let mut g = fresh();
    g.round = 2;
    g.powerup_active = true;
    g.powerup_x = 4;
    g.powerup_y = 5;
    g.powerup_type = 4;
    assert_eq!(move_player(&mut g, 4, 5), Ok(()));
    assert_eq!(g.player_freeze_rounds, 2);
    let before = g;
    assert_eq!(process_ai_turn(&mut g, 9), Ok(()));
    assert_eq!(g, before);
    assert_eq!(advance_round(&mut g, 9), Ok(()));
    assert_eq!(g.player_freeze_rounds, 1);
}

#[test]
fn bonus_power_up_grows_prize_pool() {
    let mut g = fresh();
    g.round = 2;
    g.powerup_active = true;
    g.powerup_x = 5;
    g.powerup_y = 4;
    g.powerup_type = 5;
    assert_eq!(move_player(&mut g, 5, 4), Ok(()));
    assert_eq!(g.prize_pool, 60_000_000);
}

#[test]
fn unknown_power_up_is_collected_without_effect() {
    let mut g = fresh();
    g.round = 2;
    g.powerup_active = true;
    g.powerup_x = 5;
    g.powerup_y = 4;
    g.powerup_type = 0;
    let mut expected = g;
    assert_eq!(move_player(&mut g, 5, 4), Ok(()));
    expected.player_y = 4;
    expected.total_moves = 1;
    expected.powerup_active = false;
    expected.powerups_collected = 1;
    assert_eq!(g, expected);
}

#[test]
fn unshielded_collision_kills_player_and_resets_combo() {
    let mut g = fresh();
    g.combo_count = 7;
    g.combo_multiplier = 2;
    g.ai_alive = [false; 9];
    g.ai_alive[0] = true;
    g.ai_x[0] = 5;
    g.ai_y[0] = 4;
    assert_eq!(process_ai_turn(&mut g, 0), Ok(()));
    assert!(!g.player_alive);
    assert_eq!(g.combo_count, 0);
    assert_eq!(g.combo_multiplier, 1);
    assert!(!g.game_over);
    assert_eq!(advance_round(&mut g, 0), Ok(()));
    assert!(g.game_over);
}

#[test]
fn shield_stops_only_the_first_collider() {
    let mut g = fresh();
    g.player_shield = true;
    g.ai_alive = [false; 9];
    g.ai_alive[0] = true;
    g.ai_x[0] = 5;
    g.ai_y[0] = 4;
    g.ai_alive[4] = true;
    g.ai_x[4] = 4;
    g.ai_y[4] = 5;
    assert_eq!(process_ai_turn(&mut g, 0), Ok(()));
    assert!(!g.ai_alive[0]);
    assert!(g.ai_alive[4]);
    assert_eq!((g.ai_x[4], g.ai_y[4]), (5, 5));
    assert!(!g.player_shield);
    assert!(!g.player_alive);
    assert_eq!(g.ai_killed, 1);
}

#[test]
fn combo_tiers() {
    let mut g = fresh();
    g.ai_alive = [false; 9];
    for k in 1..=16u8 {
        assert_eq!(process_ai_turn(&mut g, 0), Ok(()));
        assert_eq!(g.combo_count, k);
        let expected = if k >= 15 { 3 } else if k >= 5 { 2 } else { 1 };
        assert_eq!(g.combo_multiplier, expected);
    }
}

#[test]
fn ai_turn_rejected_after_game_over() {
    let mut g = fresh();
    g.game_over = true;
    let before = g;
    assert_eq!(process_ai_turn(&mut g, 0), Err(GameError::GameIsOver));
    assert_eq!(g, before);
}

#[test]
fn zone_eliminates_outside_and_shrinks() {
    let mut g = fresh();
    assert_eq!(advance_round(&mut g, 123), Ok(()));
    // corners lie 8 from the centre, the other seeds within 4
    assert_eq!(g.ai_alive, [false, false, false, false, true, true, true, true, true]);
    assert_eq!(g.ai_killed, 4);
    assert_eq!(g.round, 2);
    assert_eq!(g.safe_zone_radius, 4);
    assert!(g.powerup_active);
    assert_eq!((g.powerup_x, g.powerup_y, g.powerup_type), (4, 5, 4));
    assert_eq!(advance_round(&mut g, 0), Ok(()));
    assert_eq!(g.round, 3);
    assert_eq!(g.safe_zone_radius, 4);
    assert_eq!(g.ai_killed, 4);
}

#[test]
fn player_outside_zone_is_eliminated() {
    let mut g = fresh();
    g.player_x = 0;
    g.player_y = 0;
    assert_eq!(advance_round(&mut g, 0), Ok(()));
    assert!(!g.player_alive);
    assert!(g.game_over);
    assert_eq!(move_player(&mut g, 1, 0), Err(GameError::GameIsOver));
}

#[test]
fn active_power_up_is_not_respawned() {
    let mut g = fresh();
    g.powerup_active = true;
    g.powerup_x = 2;
    g.powerup_y = 3;
    g.powerup_type = 2;
    assert_eq!(advance_round(&mut g, 123), Ok(()));
    assert_eq!((g.powerup_x, g.powerup_y, g.powerup_type), (2, 3, 2));
}

#[test]
fn personality_targets() {
    let g = fresh();
    assert_eq!(choose_target(&g, 0, 0), (5, 5));
    assert_eq!(choose_target(&g, 1, 0), (5, 5));
    assert_eq!(choose_target(&g, 2, 0), (0, 9));
    assert_eq!(choose_target(&g, 5, 0), (1, 5));
    assert_eq!(choose_target(&g, 3, 7), (8, 9));
    assert_eq!(choose_target(&g, 3, 5), (9, 8));
    assert_eq!(choose_target(&g, 3, 3), (9, 9));
    assert_eq!(choose_target(&g, 3, u64::MAX), (8, 9));
}

#[test]
fn aggressive_leads_the_player_when_close() {
    let mut g = fresh();
    g.ai_x[0] = 3;
    g.ai_y[0] = 4;
    assert_eq!(choose_target(&g, 0, 0), (6, 6));
}

#[test]
fn chaos_lunges_when_adjacent() {
    let mut g = fresh();
    g.ai_x[8] = 5;
    g.ai_y[8] = 4;
    // entropy (0 + 8) mod 8 = 0 is below 4
    assert_eq!(choose_target(&g, 8, 0), (5, 5));
    // entropy (4 + 8) mod 8 = 4 picks the up-left diagonal
    assert_eq!(choose_target(&g, 8, 4), (4, 3));
}

#[test]
fn grid_helpers() {
    assert_eq!(distance(0, 0, 9, 9), 18);
    assert_eq!(distance(6, 2, 3, 4), 5);
    assert_eq!(step(3, 3, 5, 1), (4, 3));
    assert_eq!(step(5, 3, 5, 1), (5, 2));
    assert_eq!(step(5, 5, 5, 5), (5, 5));
}

#[test]
fn error_messages() {
    assert_eq!(GameError::GameIsOver.message(), "Game is over");
    assert_eq!(GameError::InvalidMove.message(), "Invalid move distance");
}

#[test]
fn record_check_detects_broken_records() {
    let g = fresh();
    assert!(check_record(&g));
    let mut bad = g;
    bad.ai_x[4] = 10;
    assert!(!check_record(&bad));
    let mut bad = g;
    bad.combo_count = 5;
    assert!(!check_record(&bad));
    let mut bad = g;
    bad.ai_killed = 1;
    assert!(!check_record(&bad));
    let mut ok = g;
    ok.ai_alive[0] = false;
    ok.ai_killed = 1;
    assert!(check_record(&ok));
}
