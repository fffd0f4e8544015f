//! The opponents' turn: every alive opponent steps toward its target, then
//! collisions with the player are resolved and the combo is scored.
use vstd::prelude::*;
use crate::game::{alive_count, combo_tier, lemma_count_true_clear, Game, GameError, NUM_OPPONENTS};
use crate::geometry::{step, step_toward};
use crate::opponents::{choose_target, target_of};

verus! {

/// Where opponent `i` stands after its step this turn.
pub open spec fn moved_to(g: Game, i: int, ts: u64) -> (int, int) {
    let t = target_of(g, i, ts);
    step_toward(g.ai_x[i] as int, g.ai_y[i] as int, t.0, t.1)
}

/// Opponent `i` is alive and lands on the player's cell.
pub open spec fn collides(g: Game, i: int, ts: u64) -> bool {
    g.ai_alive[i] && moved_to(g, i, ts) == (g.player_x as int, g.player_y as int)
}

/// How many of the opponents with index below `n` land on the player.
pub open spec fn colliders_before(g: Game, ts: u64, n: int) -> nat
    decreases n,
{
    if n <= 0 {
        0
    } else {
        colliders_before(g, ts, n - 1) + if collides(g, n - 1, ts) {
            1nat
        } else {
            0nat
        }
    }
}

/// Opponent `i` is the first to land on a shielded player: the shield is
/// spent on it and it dies.
pub open spec fn shield_blocks(g: Game, i: int, ts: u64) -> bool {
    g.player_shield && collides(g, i, ts) && colliders_before(g, ts, i) == 0
}

/// Some opponent lands on the player with no shield left to stop it.
pub open spec fn player_hit(g: Game, ts: u64) -> bool {
    colliders_before(g, ts, 9) > if g.player_shield {
        1nat
    } else {
        0nat
    }
}

/// `b` is `a` after the opponents have moved with clock reading `ts`.
pub open spec fn turn_taken(a: Game, b: Game, ts: u64) -> bool {
    let hit = player_hit(a, ts);
    let n = colliders_before(a, ts, 9);
    &&& forall|i: int|
        0 <= i < 9 && a.ai_alive[i] ==> (#[trigger] b.ai_x[i] as int, b.ai_y[i] as int)
            == moved_to(a, i, ts)
    &&& forall|i: int|
        0 <= i < 9 && !a.ai_alive[i] ==> #[trigger] b.ai_x[i] == a.ai_x[i] && b.ai_y[i]
            == a.ai_y[i]
    &&& forall|i: int|
        0 <= i < 9 ==> #[trigger] b.ai_alive[i] == (a.ai_alive[i] && !shield_blocks(a, i, ts))
    &&& b.player_shield == (a.player_shield && n == 0)
    &&& b.ai_killed == a.ai_killed + if a.player_shield && n > 0 {
        1int
    } else {
        0int
    }
    &&& b.player_alive == (a.player_alive && !hit)
    &&& b.combo_count == if hit {
        0
    } else {
        a.combo_count + 1
    }
    &&& b.combo_multiplier == combo_tier(b.combo_count as int)
    &&& b == (Game {
        ai_x: b.ai_x,
        ai_y: b.ai_y,
        ai_alive: b.ai_alive,
        player_shield: b.player_shield,
        ai_killed: b.ai_killed,
        player_alive: b.player_alive,
        combo_count: b.combo_count,
        combo_multiplier: b.combo_multiplier,
        ..a
    })
}

/// Multiplier for a streak of `count` safe turns.
fn tier_of(count: u8) -> (r: u8)
    ensures
        r == combo_tier(count as int),
{
    if count >= 15 {
        3
    } else if count >= 5 {
        2
    } else {
        1
    }
}

/// Runs the opponents' turn with clock reading `ts`. While the opponents are
/// frozen nothing moves and nothing changes.
pub fn process_ai_turn(game: &mut Game, ts: u64) -> (r: Result<(), GameError>)
    requires
        old(game).wf(),
        old(game).combo_count < u8::MAX,
    ensures
        final(game).wf(),
        r is Err <==> old(game).game_over,
        r is Err ==> r == Err::<(), GameError>(GameError::GameIsOver) && *final(game) == *old(
            game,
        ),
        r is Ok && old(game).player_freeze_rounds > 0 ==> *final(game) == *old(game),
        r is Ok && old(game).player_freeze_rounds == 0 ==> turn_taken(
            *old(game),
            *final(game),
            ts,
        ),
        final(game).combo_multiplier < old(game).combo_multiplier ==> r is Ok && player_hit(
            *old(game),
            ts,
        ) && final(game).combo_multiplier == 1,
{
    if game.game_over {
        return Err(GameError::GameIsOver);
    }
    if game.player_freeze_rounds > 0 {
        return Ok(());
    }
    let ghost g0 = *game;
    let mut collision_detected = false;
    let mut i: usize = 0;
    while i < NUM_OPPONENTS
        invariant
            0 <= i <= 9,
            g0.wf(),
            forall|j: int|
                0 <= j < i && g0.ai_alive[j] ==> (#[trigger] game.ai_x[j] as int, game.ai_y[j] as int)
                    == moved_to(g0, j, ts),
            forall|j: int|
                0 <= j < 9 && (i <= j || !g0.ai_alive[j]) ==> #[trigger] game.ai_x[j]
                    == g0.ai_x[j],
            forall|j: int|
                0 <= j < 9 && (i <= j || !g0.ai_alive[j]) ==> #[trigger] game.ai_y[j]
                    == g0.ai_y[j],
            forall|j: int| 0 <= j < 9 ==> #[trigger] game.ai_x[j] <= 9,
            forall|j: int| 0 <= j < 9 ==> #[trigger] game.ai_y[j] <= 9,
            forall|j: int|
                0 <= j < i ==> #[trigger] game.ai_alive[j] == (g0.ai_alive[j] && !shield_blocks(
                    g0,
                    j,
                    ts,
                )),
            forall|j: int| i <= j < 9 ==> #[trigger] game.ai_alive[j] == g0.ai_alive[j],
            game.player_shield == (g0.player_shield && colliders_before(g0, ts, i as int) == 0),
            game.ai_killed == g0.ai_killed + if g0.player_shield && colliders_before(
                g0,
                ts,
                i as int,
            ) > 0 {
                1int
            } else {
                0int
            },
            game.ai_killed + alive_count(*game) == g0.ai_killed + alive_count(g0),
            collision_detected == (colliders_before(g0, ts, i as int) > if g0.player_shield {
                1nat
            } else {
                0nat
            }),
            *game == (Game {
                ai_x: game.ai_x,
                ai_y: game.ai_y,
                ai_alive: game.ai_alive,
                player_shield: game.player_shield,
                ai_killed: game.ai_killed,
                ..g0
            }),
        decreases 9 - i,
    {
        if game.ai_alive[i] {
            let target = choose_target(game, i, ts);
            assert(target_of(*game, i as int, ts) == target_of(g0, i as int, ts));
            let (nx, ny) = step(game.ai_x[i], game.ai_y[i], target.0, target.1);
            game.ai_x[i] = nx;
            game.ai_y[i] = ny;
            if nx == game.player_x && ny == game.player_y {
                if game.player_shield {
                    proof {
                        lemma_count_true_clear(game.ai_alive@, i as int);
                    }
                    game.player_shield = false;
                    game.ai_alive[i] = false;
                    game.ai_killed = game.ai_killed + 1;
                } else {
                    collision_detected = true;
                }
            }
        }
        i = i + 1;
    }
    assert(collision_detected == player_hit(g0, ts));
    if collision_detected {
        game.player_alive = false;
        game.combo_count = 0;
        game.combo_multiplier = 1;
    } else {
        game.combo_count = game.combo_count + 1;
        game.combo_multiplier = tier_of(game.combo_count);
    }
    assert(!collision_detected ==> combo_tier(g0.combo_count as int) <= combo_tier(
        game.combo_count as int,
    ));
    Ok(())
}

} // verus!
