//! The persistent game record, its invariant, and the canonical start state.
use vstd::prelude::*;

verus! {

/// Number of scripted opponents; an index into the opponent arrays is a
/// permanent identity.
pub const NUM_OPPONENTS: usize = 9;

/// Entry fee deposited at initialisation and at every reset; it becomes the
/// starting prize pool.
pub const ENTRY_FEE: u64 = 50_000_000;

/// Amount a bonus power-up adds to the prize pool.
pub const BONUS_PRIZE: u64 = 10_000_000;

/// The last round that is played; the game is over once the round exceeds it.
pub const MAX_ROUNDS: u8 = 10;

/// Safe-zone radius at the start of a game.
pub const INITIAL_RADIUS: u8 = 5;

/// Power-up coordinate meaning "never spawned".
pub const NO_POWERUP_POS: u8 = 255;

pub const POWERUP_NONE: u8 = 0;
pub const POWERUP_SPEED: u8 = 1;
pub const POWERUP_SHIELD: u8 = 2;
pub const POWERUP_BOMB: u8 = 3;
pub const POWERUP_FREEZE: u8 = 4;
pub const POWERUP_BONUS: u8 = 5;

/// Moves that a speed power-up grants the extended range for.
pub const SPEED_BOOST_ROUNDS: u8 = 3;

/// Rounds that a freeze power-up keeps opponents still.
pub const FREEZE_ROUNDS: u8 = 2;

/// Manhattan radius of a bomb's blast around the landing cell.
pub const BOMB_RADIUS: u8 = 2;

/// Fixed behaviour policy of one opponent.
#[derive(Clone, Copy, Debug, PartialEq, Eq, Structural)]
pub enum Personality {
    Aggressive,
    Defensive,
    Coward,
    Chaos,
}

/// Rejections; an operation that returns one leaves the game untouched.
#[derive(Clone, Copy, Debug, PartialEq, Eq, Structural)]
pub enum GameError {
    GameIsOver,
    GameNotOver,
    PlayerDead,
    OutOfBounds,
    InvalidMove,
}

impl GameError {
    /// Human-readable text of the rejection.
    pub fn message(&self) -> (r: &'static str)
        ensures
            *self == GameError::GameIsOver ==> r@ == "Game is over"@,
            *self == GameError::GameNotOver ==> r@ == "Game is not over yet"@,
            *self == GameError::PlayerDead ==> r@ == "Player is dead"@,
            *self == GameError::OutOfBounds ==> r@ == "Position out of bounds"@,
            *self == GameError::InvalidMove ==> r@ == "Invalid move distance"@,
    {
        match self {
            GameError::GameIsOver => "Game is over",
            GameError::GameNotOver => "Game is not over yet",
            GameError::PlayerDead => "Player is dead",
            GameError::OutOfBounds => "Position out of bounds",
            GameError::InvalidMove => "Invalid move distance",
        }
    }
}

/// One player's game.
#[derive(Clone, Copy, Debug, PartialEq, Eq)]
pub struct Game {
    /// Identity of the controlling player.
    pub player: [u8; 32],
    pub player_x: u8,
    pub player_y: u8,
    pub player_alive: bool,
    pub ai_x: [u8; 9],
    pub ai_y: [u8; 9],
    pub ai_alive: [bool; 9],
    pub ai_personality: [Personality; 9],
    pub round: u8,
    pub safe_zone_radius: u8,
    pub prize_pool: u64,
    pub game_over: bool,
    pub powerup_x: u8,
    pub powerup_y: u8,
    pub powerup_type: u8,
    pub powerup_active: bool,
    pub player_shield: bool,
    pub player_speed_boost: u8,
    pub player_freeze_rounds: u8,
    pub combo_count: u8,
    pub combo_multiplier: u8,
    pub total_moves: u16,
    pub ai_killed: u8,
    pub powerups_collected: u8,
}

/// Number of `true` entries.
pub open spec fn count_true(s: Seq<bool>) -> nat
    decreases s.len(),
{
    if s.len() == 0 {
        0
    } else {
        count_true(s.drop_last()) + if s.last() { 1nat } else { 0nat }
    }
}

/// There are never more `true` entries than entries.
pub proof fn lemma_count_true_bound(s: Seq<bool>)
    ensures
        count_true(s) <= s.len(),
    decreases s.len(),
{
    if s.len() > 0 {
        lemma_count_true_bound(s.drop_last());
    }
}

/// Setting entry `i` to `false` lowers the count by one if it was `true`.
pub proof fn lemma_count_true_clear(s: Seq<bool>, i: int)
    requires
        0 <= i < s.len(),
    ensures
        count_true(s.update(i, false)) == count_true(s) - (if s[i] { 1int } else { 0int }),
    decreases s.len(),
{
    let t = s.update(i, false);
    if i == s.len() - 1 {
        assert(t.drop_last() =~= s.drop_last());
    } else {
        lemma_count_true_clear(s.drop_last(), i);
        assert(t.drop_last() =~= s.drop_last().update(i, false));
    }
}

/// Opponents still alive.
pub open spec fn alive_count(g: Game) -> nat {
    count_true(g.ai_alive@)
}

/// Prize multiplier earned by a streak of `count` safe turns.
pub open spec fn combo_tier(count: int) -> int {
    if count >= 15 {
        3
    } else if count >= 5 {
        2
    } else {
        1
    }
}

impl Game {
    /// The player and every opponent stand on the board, and the safe zone is
    /// at least one cell wide.
    pub open spec fn on_board(&self) -> bool {
        &&& self.player_x <= 9 && self.player_y <= 9
        &&& forall|i: int| 0 <= i < 9 ==> self.ai_x[i] <= 9 && self.ai_y[i] <= 9
        &&& 1 <= self.safe_zone_radius <= INITIAL_RADIUS
    }

    /// The record's invariant: every entity on the board, the counters within
    /// the ranges the rules keep them in.
    pub open spec fn wf(&self) -> bool {
        &&& self.on_board()
        &&& 1 <= self.round <= MAX_ROUNDS + 1
        &&& !self.game_over ==> self.round <= MAX_ROUNDS
        &&& self.combo_multiplier == combo_tier(self.combo_count as int)
        &&& self.ai_killed + alive_count(*self) <= NUM_OPPONENTS
        &&& self.powerups_collected + (if self.powerup_active { 1int } else { 0int })
            <= self.round / 2
        &&& self.prize_pool <= ENTRY_FEE + BONUS_PRIZE * self.powerups_collected
    }
}

/// Whether a record satisfies the invariant that the operations rely on.
pub fn check_record(g: &Game) -> (r: bool)
    ensures
        r == g.wf(),
{
    if !(g.player_x <= 9 && g.player_y <= 9 && 1 <= g.safe_zone_radius && g.safe_zone_radius
        <= INITIAL_RADIUS) {
        return false;
    }
    let mut alive: u8 = 0;
    let mut i: usize = 0;
    while i < NUM_OPPONENTS
        invariant
            0 <= i <= 9,
            alive == count_true(g.ai_alive@.take(i as int)),
            alive <= i,
            forall|j: int| 0 <= j < i ==> g.ai_x[j] <= 9 && g.ai_y[j] <= 9,
        decreases 9 - i,
    {
        if !(g.ai_x[i] <= 9 && g.ai_y[i] <= 9) {
            return false;
        }
        assert(g.ai_alive@.take(i + 1).drop_last() =~= g.ai_alive@.take(i as int));
        if g.ai_alive[i] {
            alive = alive + 1;
        }
        i = i + 1;
    }
    assert(g.ai_alive@.take(9) =~= g.ai_alive@);
    let tier: u8 = if g.combo_count >= 15 {
        3
    } else if g.combo_count >= 5 {
        2
    } else {
        1
    };
    let active: u16 = if g.powerup_active {
        1
    } else {
        0
    };
    1 <= g.round && g.round <= MAX_ROUNDS + 1 && (g.game_over || g.round <= MAX_ROUNDS)
        && g.combo_multiplier == tier && g.ai_killed as u16 + alive as u16 <= 9
        && g.powerups_collected as u16 + active <= (g.round / 2) as u16 && g.prize_pool as u128
        <= ENTRY_FEE as u128 + BONUS_PRIZE as u128 * g.powerups_collected as u128
}

/// The canonical start of a game owned by `player`.
pub open spec fn is_start_state(g: Game, player: [u8; 32]) -> bool {
    &&& g.player == player
    &&& g.player_x == 5 && g.player_y == 5 && g.player_alive
    &&& g.ai_x@ == seq![1u8, 9, 1, 9, 5, 1, 9, 5, 5]
    &&& g.ai_y@ == seq![1u8, 1, 9, 9, 1, 5, 5, 9, 3]
    &&& g.ai_alive@ == seq![true; 9]
    &&& g.ai_personality@ == seq![
        Personality::Aggressive,
        Personality::Defensive,
        Personality::Coward,
        Personality::Chaos,
        Personality::Aggressive,
        Personality::Defensive,
        Personality::Coward,
        Personality::Aggressive,
        Personality::Chaos,
    ]
    &&& g.round == 1 && g.safe_zone_radius == INITIAL_RADIUS
    &&& g.prize_pool == ENTRY_FEE && !g.game_over
    &&& g.powerup_x == NO_POWERUP_POS && g.powerup_y == NO_POWERUP_POS
    &&& g.powerup_type == POWERUP_NONE && !g.powerup_active
    &&& !g.player_shield && g.player_speed_boost == 0 && g.player_freeze_rounds == 0
    &&& g.combo_count == 0 && g.combo_multiplier == 1
    &&& g.total_moves == 0 && g.ai_killed == 0 && g.powerups_collected == 0
}

/// Builds the canonical start state for `player`; the entry fee it counts as
/// the prize pool is moved into escrow by the host.
pub fn initialize_game(player: [u8; 32]) -> (g: Game)
    ensures
        is_start_state(g, player),
        g.wf(),
{
    let g = Game {
        player,
        player_x: 5,
        player_y: 5,
        player_alive: true,
        ai_x: [1, 9, 1, 9, 5, 1, 9, 5, 5],
        ai_y: [1, 1, 9, 9, 1, 5, 5, 9, 3],
        ai_alive: [true; 9],
        ai_personality: [
            Personality::Aggressive,
            Personality::Defensive,
            Personality::Coward,
            Personality::Chaos,
            Personality::Aggressive,
            Personality::Defensive,
            Personality::Coward,
            Personality::Aggressive,
            Personality::Chaos,
        ],
        round: 1,
        safe_zone_radius: INITIAL_RADIUS,
        prize_pool: ENTRY_FEE,
        game_over: false,
        powerup_x: NO_POWERUP_POS,
        powerup_y: NO_POWERUP_POS,
        powerup_type: POWERUP_NONE,
        powerup_active: false,
        player_shield: false,
        player_speed_boost: 0,
        player_freeze_rounds: 0,
        combo_count: 0,
        combo_multiplier: 1,
        total_moves: 0,
        ai_killed: 0,
        powerups_collected: 0,
    };
    assert(g.ai_x@ =~= seq![1u8, 9, 1, 9, 5, 1, 9, 5, 5]);
    assert(g.ai_y@ =~= seq![1u8, 1, 9, 9, 1, 5, 5, 9, 3]);
    assert(g.ai_alive@ =~= seq![true; 9]);
    proof {
        lemma_count_true_bound(g.ai_alive@);
    }
    g
}

/// Overwrites the game in place with the canonical start state; allowed in
/// any state, and the only way out of a finished game. The owner is kept.
pub fn reset_game(game: &mut Game)
    ensures
        is_start_state(*final(game), old(game).player),
        final(game).player == old(game).player,
        final(game).wf(),
{
    *game = initialize_game(game.player);
}

} // verus!
