//! Properties that hold across operations.
use vstd::prelude::*;
use crate::game::{combo_tier, Game};
use crate::player::moved;
use crate::round::round_advanced;
use crate::turn::{player_hit, turn_taken};

verus! {

/// The combo multiplier of a well-formed game is one of the tiers 1, 2 and 3.
pub proof fn lemma_multiplier_tiers(g: Game)
    requires
        g.wf(),
    ensures
        1 <= g.combo_multiplier <= 3,
{
}

/// The multiplier grows with the streak: a longer streak never earns less.
pub proof fn lemma_combo_tier_monotone(a: int, b: int)
    requires
        a <= b,
    ensures
        combo_tier(a) <= combo_tier(b),
{
}

/// An opponents' turn lowers the combo multiplier only when an unshielded
/// collision is recorded against the player, and then back to the first tier.
pub proof fn lemma_multiplier_drops_only_on_hit(a: Game, b: Game, ts: u64)
    requires
        a.wf(),
        turn_taken(a, b, ts),
        b.combo_multiplier < a.combo_multiplier,
    ensures
        player_hit(a, ts),
        b.combo_count == 0,
        b.combo_multiplier == 1,
{
    if !player_hit(a, ts) {
        lemma_combo_tier_monotone(a.combo_count as int, b.combo_count as int);
    }
}

/// A player move leaves the combo and its multiplier as they were.
pub proof fn lemma_move_keeps_combo(a: Game, b: Game, x: int, y: int)
    requires
        moved(a, b, x, y),
    ensures
        b.combo_multiplier == a.combo_multiplier && b.combo_count == a.combo_count,
{
}

/// A round advance leaves the combo and its multiplier as they were.
pub proof fn lemma_advance_keeps_combo(a: Game, b: Game, ts: u64)
    requires
        round_advanced(a, b, ts),
    ensures
        b.combo_multiplier == a.combo_multiplier && b.combo_count == a.combo_count,
{
}

/// Over any run of round advances the safe zone never grows and never drops
/// below radius 1, while the round counter climbs by one per advance.
pub proof fn lemma_rounds_shrink_zone(games: Seq<Game>, stamps: Seq<u64>, k: int)
    requires
        stamps.len() + 1 == games.len(),
        games[0].wf(),
        forall|j: int|
            0 <= j < stamps.len() ==> round_advanced(games[j], games[j + 1], #[trigger] stamps[j]),
        0 <= k < games.len(),
    ensures
        1 <= games[k].safe_zone_radius <= games[0].safe_zone_radius,
        k > 0 ==> games[k].safe_zone_radius <= games[k - 1].safe_zone_radius,
        games[k].round == games[0].round + k,
    decreases k,
{
    if k > 0 {
        lemma_rounds_shrink_zone(games, stamps, k - 1);
        assert(round_advanced(games[k - 1], games[k - 1 + 1], stamps[k - 1]));
    }
}

} // verus!
