//! The player's move, power-up collection and its effects.
use vstd::prelude::*;
use crate::game::{
    alive_count, lemma_count_true_clear, Game, GameError, BOMB_RADIUS, BONUS_PRIZE,
    FREEZE_ROUNDS, NUM_OPPONENTS, POWERUP_BOMB, POWERUP_BONUS, POWERUP_FREEZE, POWERUP_SHIELD,
    POWERUP_SPEED, SPEED_BOOST_ROUNDS,
};
use crate::geometry::{distance, in_bounds, manhattan};

verus! {

/// Opponent `i` is alive and its distance to `(cx, cy)` is within `radius`
/// exactly when `inside` holds; such opponents are the ones culled.
pub open spec fn culled(g: Game, i: int, cx: int, cy: int, radius: int, inside: bool) -> bool {
    g.ai_alive[i] && ((manhattan(g.ai_x[i] as int, g.ai_y[i] as int, cx, cy) <= radius)
        == inside)
}

/// Kills every opponent that `culled` selects and credits the kills; nothing
/// else changes.
pub fn cull_opponents(game: &mut Game, cx: u8, cy: u8, radius: u8, inside: bool)
    requires
        old(game).on_board(),
        old(game).ai_killed + alive_count(*old(game)) <= NUM_OPPONENTS,
        cx <= 9 && cy <= 9,
    ensures
        forall|i: int|
            0 <= i < 9 ==> #[trigger] final(game).ai_alive[i] == (old(game).ai_alive[i]
                && !culled(*old(game), i, cx as int, cy as int, radius as int, inside)),
        final(game).ai_killed + alive_count(*final(game)) == old(game).ai_killed + alive_count(
            *old(game),
        ),
        *final(game) == (Game {
            ai_alive: final(game).ai_alive,
            ai_killed: final(game).ai_killed,
            ..*old(game)
        }),
{
    let ghost g0 = *game;
    let mut i: usize = 0;
    while i < NUM_OPPONENTS
        invariant
            0 <= i <= 9,
            g0.on_board(),
            cx <= 9 && cy <= 9,
            g0.ai_killed + alive_count(g0) <= NUM_OPPONENTS,
            forall|j: int|
                0 <= j < i ==> #[trigger] game.ai_alive[j] == (g0.ai_alive[j] && !culled(
                    g0,
                    j,
                    cx as int,
                    cy as int,
                    radius as int,
                    inside,
                )),
            forall|j: int| i <= j < 9 ==> #[trigger] game.ai_alive[j] == g0.ai_alive[j],
            game.ai_killed + alive_count(*game) == g0.ai_killed + alive_count(g0),
            *game == (Game { ai_alive: game.ai_alive, ai_killed: game.ai_killed, ..g0 }),
        decreases 9 - i,
    {
        if game.ai_alive[i] {
            let d = distance(game.ai_x[i], game.ai_y[i], cx, cy);
            if (d <= radius) == inside {
                proof {
                    lemma_count_true_clear(game.ai_alive@, i as int);
                }
                game.ai_alive[i] = false;
                game.ai_killed = game.ai_killed + 1;
            }
        }
        i = i + 1;
    }
}

/// Cells the player may cover in one move.
pub open spec fn move_range(g: Game) -> int {
    if g.player_speed_boost > 0 {
        3
    } else {
        1
    }
}

/// Why a move to `(x, y)` is rejected, if it is.
pub open spec fn move_error(g: Game, x: int, y: int) -> Option<GameError> {
    let d = manhattan(g.player_x as int, g.player_y as int, x, y);
    if g.game_over {
        Some(GameError::GameIsOver)
    } else if !g.player_alive {
        Some(GameError::PlayerDead)
    } else if !in_bounds(x, y) {
        Some(GameError::OutOfBounds)
    } else if d == 0 || d > move_range(g) {
        Some(GameError::InvalidMove)
    } else {
        None
    }
}

/// Landing on `(x, y)` picks up the active power-up.
pub open spec fn collects(g: Game, x: int, y: int) -> bool {
    g.powerup_active && g.powerup_x == x && g.powerup_y == y
}

/// `b` is `a` after the player's accepted move to `(x, y)`.
pub open spec fn moved(a: Game, b: Game, x: int, y: int) -> bool {
    let c = collects(a, x, y);
    let t = a.powerup_type;
    &&& b.player_x == x && b.player_y == y
    &&& b.total_moves == a.total_moves + 1
    &&& b.powerup_active == (a.powerup_active && !c)
    &&& b.powerups_collected == a.powerups_collected + if c { 1int } else { 0int }
    &&& b.player_speed_boost == if c && t == POWERUP_SPEED {
        SPEED_BOOST_ROUNDS as int
    } else if a.player_speed_boost > 0 {
        a.player_speed_boost - 1
    } else {
        0
    }
    &&& b.player_shield == (a.player_shield || (c && t == POWERUP_SHIELD))
    &&& forall|i: int|
        0 <= i < 9 ==> #[trigger] b.ai_alive[i] == (a.ai_alive[i] && !(c && t == POWERUP_BOMB
            && culled(a, i, x, y, BOMB_RADIUS as int, true)))
    &&& b.ai_killed == a.ai_killed + alive_count(a) - alive_count(b)
    &&& b.player_freeze_rounds == if c && t == POWERUP_FREEZE {
        FREEZE_ROUNDS
    } else {
        a.player_freeze_rounds
    }
    &&& b.prize_pool == a.prize_pool + if c && t == POWERUP_BONUS {
        BONUS_PRIZE as int
    } else {
        0int
    }
    &&& b == (Game {
        player_x: b.player_x,
        player_y: b.player_y,
        total_moves: b.total_moves,
        powerup_active: b.powerup_active,
        powerups_collected: b.powerups_collected,
        player_speed_boost: b.player_speed_boost,
        player_shield: b.player_shield,
        ai_alive: b.ai_alive,
        ai_killed: b.ai_killed,
        player_freeze_rounds: b.player_freeze_rounds,
        prize_pool: b.prize_pool,
        ..a
    })
}

/// Moves the player to `(new_x, new_y)`, spends a speed charge if one is held,
/// and collects a power-up lying there. A rejected move changes nothing.
pub fn move_player(game: &mut Game, new_x: u8, new_y: u8) -> (r: Result<(), GameError>)
    requires
        old(game).wf(),
        old(game).total_moves < u16::MAX,
    ensures
        final(game).wf(),
        r is Err <==> move_error(*old(game), new_x as int, new_y as int) is Some,
        r matches Err(e) ==> Some(e) == move_error(*old(game), new_x as int, new_y as int)
            && *final(game) == *old(game),
        r is Ok ==> moved(*old(game), *final(game), new_x as int, new_y as int),
        r is Ok ==> in_bounds(new_x as int, new_y as int) && 1 <= manhattan(
            old(game).player_x as int,
            old(game).player_y as int,
            new_x as int,
            new_y as int,
        ) <= move_range(*old(game)),
{
    if game.game_over {
        return Err(GameError::GameIsOver);
    }
    if !game.player_alive {
        return Err(GameError::PlayerDead);
    }
    if !(new_x < 10 && new_y < 10) {
        return Err(GameError::OutOfBounds);
    }
    let max_distance: u8 = if game.player_speed_boost > 0 {
        3
    } else {
        1
    };
    let d = distance(game.player_x, game.player_y, new_x, new_y);
    if !(d <= max_distance && d > 0) {
        return Err(GameError::InvalidMove);
    }
    game.player_x = new_x;
    game.player_y = new_y;
    game.total_moves = game.total_moves + 1;
    if game.player_speed_boost > 0 {
        game.player_speed_boost = game.player_speed_boost - 1;
    }
    if game.powerup_active && game.powerup_x == new_x && game.powerup_y == new_y {
        game.powerup_active = false;
        game.powerups_collected = game.powerups_collected + 1;
        let t = game.powerup_type;
        if t == POWERUP_SPEED {
            game.player_speed_boost = SPEED_BOOST_ROUNDS;
        } else if t == POWERUP_SHIELD {
            game.player_shield = true;
        } else if t == POWERUP_BOMB {
            cull_opponents(game, new_x, new_y, BOMB_RADIUS, true);
        } else if t == POWERUP_FREEZE {
            game.player_freeze_rounds = FREEZE_ROUNDS;
        } else if t == POWERUP_BONUS {
            game.prize_pool = game.prize_pool + BONUS_PRIZE;
        }
    }
    Ok(())
}

} // verus!
