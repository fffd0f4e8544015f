//! Opponent behaviour: each personality's choice of a movement target.
use vstd::prelude::*;
use crate::game::{Game, Personality};
use crate::geometry::{clamp_coord, distance, manhattan, sign, CENTER};

verus! {

/// Distance beyond which an aggressive opponent heads straight for the player.
pub const CHASE_DISTANCE: u8 = 3;

/// Distance under which a defensive opponent flees.
pub const FLEE_DISTANCE: u8 = 3;

/// Distance under which a chaotic opponent may lunge at the player.
pub const LUNGE_DISTANCE: u8 = 2;

/// The entropy a chaotic opponent draws from the clock.
pub open spec fn chaos_entropy(ts: u64, i: int) -> int {
    (ts + i) % 8
}

/// Target of a chaotic opponent at `(ax, ay)` with entropy `e`.
pub open spec fn chaos_target(ax: int, ay: int, px: int, py: int, e: int) -> (int, int) {
    if manhattan(ax, ay, px, py) < LUNGE_DISTANCE && e < 4 {
        (px, py)
    } else if e == 0 {
        (ax, clamp_coord(ay - 1))
    } else if e == 1 {
        (ax, clamp_coord(ay + 1))
    } else if e == 2 {
        (clamp_coord(ax - 1), ay)
    } else if e == 3 {
        (clamp_coord(ax + 1), ay)
    } else if e == 4 {
        (clamp_coord(ax - 1), clamp_coord(ay - 1))
    } else if e == 5 {
        (clamp_coord(ax + 1), clamp_coord(ay + 1))
    } else {
        (ax, ay)
    }
}

/// The cell opponent `i` heads for this turn, given clock reading `ts`.
pub open spec fn target_of(g: Game, i: int, ts: u64) -> (int, int) {
    let ax = g.ai_x[i] as int;
    let ay = g.ai_y[i] as int;
    let px = g.player_x as int;
    let py = g.player_y as int;
    match g.ai_personality[i] {
        Personality::Aggressive => if manhattan(ax, ay, px, py) > CHASE_DISTANCE {
            (px, py)
        } else {
            (clamp_coord(px + sign(px - ax)), clamp_coord(py + sign(py - ay)))
        },
        Personality::Defensive => if manhattan(ax, ay, CENTER as int, CENTER as int)
            > g.safe_zone_radius - 1 {
            (CENTER as int, CENTER as int)
        } else if manhattan(ax, ay, px, py) < FLEE_DISTANCE {
            (clamp_coord(ax + sign(ax - px)), clamp_coord(ay + sign(ay - py)))
        } else {
            (ax, ay)
        },
        Personality::Coward => (
            clamp_coord(ax + 2 * sign(ax - px)),
            clamp_coord(ay + 2 * sign(ay - py)),
        ),
        Personality::Chaos => chaos_target(ax, ay, px, py, chaos_entropy(ts, i)),
    }
}

/// `base` moved `times` cells in the direction from `from` to `to`, clamped
/// onto the board.
fn shift_clamped(base: u8, from: u8, to: u8, times: u8) -> (r: u8)
    requires
        base <= 9 && from <= 9 && to <= 9 && times <= 2,
    ensures
        r == clamp_coord(base + times * sign(to - from)),
{
    let v: i16 = if to > from {
        base as i16 + times as i16
    } else if to < from {
        base as i16 - times as i16
    } else {
        base as i16
    };
    if v < 0 {
        0
    } else if v > 9 {
        9
    } else {
        v as u8
    }
}

/// Target of a chaotic opponent; computes `(ts + i) mod 8` without overflow.
fn chaos_choice(ax: u8, ay: u8, px: u8, py: u8, ts: u64, i: usize) -> (r: (u8, u8))
    requires
        ax <= 9 && ay <= 9 && px <= 9 && py <= 9 && i < 9,
    ensures
        (r.0 as int, r.1 as int) == chaos_target(
            ax as int,
            ay as int,
            px as int,
            py as int,
            chaos_entropy(ts, i as int),
        ),
{
    let e: u64 = (ts % 8 + i as u64) % 8;
    assert(e == chaos_entropy(ts, i as int)) by (nonlinear_arith)
        requires
            e == (ts % 8 + i) % 8,
    ;
    let d = distance(ax, ay, px, py);
    if d < LUNGE_DISTANCE && e < 4 {
        (px, py)
    } else if e == 0 {
        (ax, shift_clamped(ay, 1, 0, 1))
    } else if e == 1 {
        (ax, shift_clamped(ay, 0, 1, 1))
    } else if e == 2 {
        (shift_clamped(ax, 1, 0, 1), ay)
    } else if e == 3 {
        (shift_clamped(ax, 0, 1, 1), ay)
    } else if e == 4 {
        (shift_clamped(ax, 1, 0, 1), shift_clamped(ay, 1, 0, 1))
    } else if e == 5 {
        (shift_clamped(ax, 0, 1, 1), shift_clamped(ay, 0, 1, 1))
    } else {
        (ax, ay)
    }
}

/// The cell opponent `i` heads for this turn.
pub fn choose_target(g: &Game, i: usize, ts: u64) -> (r: (u8, u8))
    requires
        g.on_board(),
        i < 9,
    ensures
        (r.0 as int, r.1 as int) == target_of(*g, i as int, ts),
        r.0 <= 9 && r.1 <= 9,
{
    let ax = g.ai_x[i];
    let ay = g.ai_y[i];
    let px = g.player_x;
    let py = g.player_y;
    let d = distance(ax, ay, px, py);
    match g.ai_personality[i] {
        Personality::Aggressive => {
            if d > CHASE_DISTANCE {
                (px, py)
            } else {
                (shift_clamped(px, ax, px, 1), shift_clamped(py, ay, py, 1))
            }
        },
        Personality::Defensive => {
            if distance(ax, ay, CENTER, CENTER) > g.safe_zone_radius - 1 {
                (CENTER, CENTER)
            } else if d < FLEE_DISTANCE {
                (shift_clamped(ax, px, ax, 1), shift_clamped(ay, py, ay, 1))
            } else {
                (ax, ay)
            }
        },
        Personality::Coward => (shift_clamped(ax, px, ax, 2), shift_clamped(ay, py, ay, 2)),
        Personality::Chaos => chaos_choice(ax, ay, px, py, ts, i),
    }
}

} // verus!
