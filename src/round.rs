//! Round advance (zone eliminations, shrink, freeze countdown, power-up
//! spawn, game over) and the prize claim.
use vstd::prelude::*;
use crate::game::{alive_count, Game, GameError, MAX_ROUNDS};
use crate::geometry::{distance, manhattan, CENTER};
use crate::player::{cull_opponents, culled};

verus! {

/// A cell outside the safe zone of the given radius.
pub open spec fn outside_zone(x: int, y: int, radius: int) -> bool {
    manhattan(x, y, CENTER as int, CENTER as int) > radius
}

/// Power-up cell and type drawn from clock reading `ts`.
pub open spec fn spawn_x(ts: u64) -> int {
    ts % 8 + 1
}

pub open spec fn spawn_y(ts: u64) -> int {
    (ts / 10) % 8 + 1
}

pub open spec fn spawn_type(ts: u64) -> int {
    ts % 5 + 1
}

/// Radius of the safe zone once the round counter has reached `round`.
pub open spec fn shrunk_radius(radius: int, round: int) -> int {
    if round % 2 == 0 && radius > 1 {
        radius - 1
    } else {
        radius
    }
}

/// `b` is `a` after one round advance with clock reading `ts`.
pub open spec fn round_advanced(a: Game, b: Game, ts: u64) -> bool {
    let round = a.round + 1;
    let spawn = round % 2 == 0 && !a.powerup_active;
    &&& b.player_alive == (a.player_alive && !outside_zone(
        a.player_x as int,
        a.player_y as int,
        a.safe_zone_radius as int,
    ))
    &&& forall|i: int|
        0 <= i < 9 ==> #[trigger] b.ai_alive[i] == (a.ai_alive[i] && !culled(
            a,
            i,
            CENTER as int,
            CENTER as int,
            a.safe_zone_radius as int,
            false,
        ))
    &&& b.ai_killed == a.ai_killed + alive_count(a) - alive_count(b)
    &&& b.round == round
    &&& b.safe_zone_radius == shrunk_radius(a.safe_zone_radius as int, round)
    &&& b.player_freeze_rounds == if a.player_freeze_rounds > 0 {
        a.player_freeze_rounds - 1
    } else {
        0
    }
    &&& spawn ==> b.powerup_x == spawn_x(ts) && b.powerup_y == spawn_y(ts) && b.powerup_type
        == spawn_type(ts) && b.powerup_active
    &&& !spawn ==> b.powerup_x == a.powerup_x && b.powerup_y == a.powerup_y && b.powerup_type
        == a.powerup_type && b.powerup_active == a.powerup_active
    &&& b.game_over == (round > MAX_ROUNDS || !b.player_alive)
    &&& b == (Game {
        player_alive: b.player_alive,
        ai_alive: b.ai_alive,
        ai_killed: b.ai_killed,
        round: b.round,
        safe_zone_radius: b.safe_zone_radius,
        player_freeze_rounds: b.player_freeze_rounds,
        powerup_x: b.powerup_x,
        powerup_y: b.powerup_y,
        powerup_type: b.powerup_type,
        powerup_active: b.powerup_active,
        game_over: b.game_over,
        ..a
    })
}

/// Ends the current round with clock reading `ts`: whoever stands outside the
/// current safe zone is eliminated, the round counter moves on, the zone
/// shrinks on even rounds, the freeze counts down, a power-up may spawn, and
/// the game ends after the last round or with the player's death.
pub fn advance_round(game: &mut Game, ts: u64) -> (r: Result<(), GameError>)
    requires
        old(game).wf(),
    ensures
        final(game).wf(),
        r is Err <==> old(game).game_over,
        r is Err ==> r == Err::<(), GameError>(GameError::GameIsOver) && *final(game) == *old(
            game,
        ),
        r is Ok ==> round_advanced(*old(game), *final(game), ts),
        r is Ok ==> final(game).round == old(game).round + 1,
        r is Ok ==> (final(game).game_over <==> (final(game).round > MAX_ROUNDS
            || !final(game).player_alive)),
        1 <= final(game).safe_zone_radius <= old(game).safe_zone_radius,
{
    if game.game_over {
        return Err(GameError::GameIsOver);
    }
    let player_dist = distance(game.player_x, game.player_y, CENTER, CENTER);
    if player_dist > game.safe_zone_radius {
        game.player_alive = false;
    }
    cull_opponents(game, CENTER, CENTER, game.safe_zone_radius, false);
    game.round = game.round + 1;
    if game.round % 2 == 0 && game.safe_zone_radius > 1 {
        game.safe_zone_radius = game.safe_zone_radius - 1;
    }
    if game.player_freeze_rounds > 0 {
        game.player_freeze_rounds = game.player_freeze_rounds - 1;
    }
    if game.round % 2 == 0 && !game.powerup_active {
        game.powerup_x = (ts % 8 + 1) as u8;
        game.powerup_y = ((ts / 10) % 8 + 1) as u8;
        game.powerup_type = (ts % 5 + 1) as u8;
        game.powerup_active = true;
    }
    if game.round > MAX_ROUNDS || !game.player_alive {
        game.game_over = true;
    }
    Ok(())
}

/// What a surviving player is paid: the prize pool times the combo
/// multiplier, capped by what escrow holds above its reserved minimum.
pub open spec fn payout(g: Game, escrow_balance: int, reserved_minimum: int) -> int {
    let available = escrow_balance - reserved_minimum;
    let earned = g.prize_pool * g.combo_multiplier;
    if available <= earned {
        available
    } else {
        earned
    }
}

/// The amount a finished game pays its surviving player out of escrow; the
/// host performs the transfer. The game itself is not changed.
pub fn claim_prize(game: &Game, escrow_balance: u64, reserved_minimum: u64) -> (r: Result<
    u64,
    GameError,
>)
    requires
        game.game_over && game.player_alive ==> reserved_minimum <= escrow_balance,
    ensures
        !game.game_over ==> r == Err::<u64, GameError>(GameError::GameNotOver),
        game.game_over && !game.player_alive ==> r == Err::<u64, GameError>(
            GameError::PlayerDead,
        ),
        game.game_over && game.player_alive ==> r == Ok::<u64, GameError>(
            payout(*game, escrow_balance as int, reserved_minimum as int) as u64,
        ),
{
    if !game.game_over {
        return Err(GameError::GameNotOver);
    }
    if !game.player_alive {
        return Err(GameError::PlayerDead);
    }
    let available = escrow_balance - reserved_minimum;
    let pool = game.prize_pool as u128;
    let mult = game.combo_multiplier as u128;
    assert(pool * mult <= u64::MAX * u8::MAX) by (nonlinear_arith)
        requires
            pool <= u64::MAX,
            mult <= u8::MAX,
    ;
    let earned: u128 = pool * mult;
    if available as u128 <= earned {
        Ok(available)
    } else {
        Ok(earned as u64)
    }
}

} // verus!
