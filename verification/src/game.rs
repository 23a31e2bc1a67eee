//! The data model of the game and the mathematical description of every
//! transition. The executable engine proves its behaviour against the spec
//! functions defined here.

use vstd::prelude::*;

verus! {

/// The two parties of a game: the human user and the automated opponent.
#[derive(Clone, Copy, Debug, PartialEq, Eq)]
pub enum Player {
    User,
    Program,
}

/// How the opponent selects its moves.
#[derive(Clone, Copy, Debug, PartialEq, Eq)]
pub enum DifficultyLevel {
    Easy,
    Hard,
}

/// The configuration handed in when a game session is created.
#[derive(Clone, Copy, Debug, PartialEq, Eq)]
pub struct PebblesInit {
    pub difficulty: DifficultyLevel,
    pub pebbles_count: u32,
    pub max_pebbles_per_turn: u32,
}

/// An action delivered to a running session.
#[derive(Clone, Copy, Debug, PartialEq, Eq)]
pub enum PebblesAction {
    Turn(u32),
    GiveUp,
    Restart { difficulty: DifficultyLevel, pebbles_count: u32, max_pebbles_per_turn: u32 },
}

/// The reply produced by handling an action.
#[derive(Clone, Copy, Debug, PartialEq, Eq)]
pub enum PebblesEvent {
    CounterTurn(u32),
    Won(Player),
}

/// Why a request was rejected. A rejected request never changes the state.
#[derive(Clone, Copy, Debug, PartialEq, Eq)]
pub enum GameError {
    /// Configuration: the initial pile size is zero.
    ZeroPebblesCount,
    /// Configuration: the per-turn maximum is zero.
    ZeroMaxPebblesPerTurn,
    /// Configuration: the per-turn maximum is not below the pile size.
    MaxPebblesPerTurnTooLarge,
    /// Protocol: a turn was played on a finished game.
    GameAlreadyFinished,
    /// Protocol: the turn quantity is zero or above the per-turn maximum.
    InvalidTurnAmount,
    /// Protocol: the turn quantity exceeds the pebbles remaining.
    NotEnoughPebbles,
    /// Protocol: an action or query arrived before any game was created.
    Uninitialized,
}

/// The full state of one game session.
#[derive(Clone, Copy, Debug, PartialEq, Eq)]
pub struct GameState {
    pub pebbles_count: u32,
    pub max_pebbles_per_turn: u32,
    pub pebbles_remaining: u32,
    pub difficulty: DifficultyLevel,
    pub first_player: Player,
    pub winner: Option<Player>,
}

/// A configuration is playable when the pile is not empty and each turn can
/// remove at least one pebble but never the whole pile at once.
pub open spec fn valid_config(pebbles_count: int, max_per_turn: int) -> bool {
    0 < pebbles_count && 0 < max_per_turn && max_per_turn < pebbles_count
}

/// The invariant of a live game state: a playable configuration, a pile that
/// never exceeds its initial size, a non-empty pile while the game is in
/// progress, and an empty pile whenever the user has won (the user only wins
/// by removing the last pebble).
pub open spec fn well_formed(s: GameState) -> bool {
    &&& valid_config(s.pebbles_count as int, s.max_pebbles_per_turn as int)
    &&& s.pebbles_remaining <= s.pebbles_count
    &&& (s.winner is None ==> 0 < s.pebbles_remaining)
    &&& (s.winner == Some(Player::User) ==> s.pebbles_remaining == 0)
}

/// Who moves first, decided by one raw random draw: an even draw lets the
/// user open, an odd one lets the opponent open.
pub open spec fn first_player_of(raw: int) -> Player {
    if raw % 2 == 0 {
        Player::User
    } else {
        Player::Program
    }
}

/// The state of a game just created from a playable configuration, before any
/// move has been made.
pub open spec fn fresh_state(
    difficulty: DifficultyLevel,
    pebbles_count: u32,
    max_per_turn: u32,
    first: Player,
) -> GameState {
    GameState {
        pebbles_count: pebbles_count,
        max_pebbles_per_turn: max_per_turn,
        pebbles_remaining: pebbles_count,
        difficulty: difficulty,
        first_player: first,
        winner: None,
    }
}

/// A uniform quantity in `[1, max_per_turn]` reduced from one raw draw.
pub open spec fn random_quantity(raw: int, max_per_turn: int) -> int
    recommends
        0 < max_per_turn,
{
    raw % max_per_turn + 1
}

/// The remainder of the pile modulo `max_per_turn + 1`: the quantity optimal
/// play removes, and zero exactly on the losing positions of the mover.
pub open spec fn optimal_remainder(pebbles: int, max_per_turn: int) -> int
    recommends
        0 < max_per_turn,
{
    pebbles % (max_per_turn + 1)
}

/// The quantity the hard opponent picks from a non-empty pile: the optimal
/// remainder when it is nonzero, otherwise (a losing position, where every
/// move is equally bad) a random quantity.
pub open spec fn hard_quantity(pebbles: int, max_per_turn: int, raw: int) -> int
    recommends
        0 < max_per_turn,
{
    if optimal_remainder(pebbles, max_per_turn) == 0 {
        random_quantity(raw, max_per_turn)
    } else {
        optimal_remainder(pebbles, max_per_turn)
    }
}

/// The quantity the opponent removes from a non-empty pile in state `s`,
/// clamped to the pebbles actually remaining.
pub open spec fn chosen_quantity(s: GameState, raw: int) -> int
    recommends
        0 < s.max_pebbles_per_turn,
{
    let q = match s.difficulty {
        DifficultyLevel::Easy => random_quantity(raw, s.max_pebbles_per_turn as int),
        DifficultyLevel::Hard => hard_quantity(
            s.pebbles_remaining as int,
            s.max_pebbles_per_turn as int,
            raw,
        ),
    };
    if q <= s.pebbles_remaining {
        q
    } else {
        s.pebbles_remaining as int
    }
}

/// The state after the opponent has moved on a non-empty pile: the chosen
/// quantity leaves the pile, and the opponent wins if it emptied the pile.
pub open spec fn after_program_move(s: GameState, raw: int) -> GameState
    recommends
        0 < s.max_pebbles_per_turn,
        0 < s.pebbles_remaining,
{
    let remaining = s.pebbles_remaining - chosen_quantity(s, raw);
    GameState {
        pebbles_count: s.pebbles_count,
        max_pebbles_per_turn: s.max_pebbles_per_turn,
        pebbles_remaining: remaining as u32,
        difficulty: s.difficulty,
        first_player: s.first_player,
        winner: if remaining == 0 {
            Some(Player::Program)
        } else {
            s.winner
        },
    }
}

/// The event the opponent's move on a non-empty pile reports: its win when it
/// emptied the pile, otherwise the quantity it removed.
pub open spec fn program_move_event(s: GameState, raw: int) -> PebblesEvent
    recommends
        0 < s.max_pebbles_per_turn,
        0 < s.pebbles_remaining,
{
    if s.pebbles_remaining - chosen_quantity(s, raw) == 0 {
        PebblesEvent::Won(Player::Program)
    } else {
        PebblesEvent::CounterTurn(chosen_quantity(s, raw) as u32)
    }
}

/// Creating a game: the configuration is validated (each failure with its own
/// error, checked in this order), the pile is filled, the first player is
/// drawn from `raw_first`, and an opponent that opens moves at once using
/// `raw_move`. A user that opens gets no opening event.
pub open spec fn init_outcome(
    config: PebblesInit,
    raw_first: int,
    raw_move: int,
) -> Result<(GameState, Option<PebblesEvent>), GameError> {
    if config.pebbles_count == 0 {
        Err(GameError::ZeroPebblesCount)
    } else if config.max_pebbles_per_turn == 0 {
        Err(GameError::ZeroMaxPebblesPerTurn)
    } else if config.max_pebbles_per_turn >= config.pebbles_count {
        Err(GameError::MaxPebblesPerTurnTooLarge)
    } else {
        let first = first_player_of(raw_first);
        let fresh = fresh_state(
            config.difficulty,
            config.pebbles_count,
            config.max_pebbles_per_turn,
            first,
        );
        if first is Program {
            Ok((after_program_move(fresh, raw_move), Some(program_move_event(fresh, raw_move))))
        } else {
            Ok((fresh, None))
        }
    }
}

/// A user turn: rejected on a finished game, for a quantity outside
/// `[1, max_pebbles_per_turn]`, or for more pebbles than remain. Otherwise
/// the quantity leaves the pile; the user wins if it emptied the pile, and
/// the opponent answers with its own move if not.
pub open spec fn turn_outcome(
    g: GameState,
    pebbles: u32,
    raw_move: int,
) -> Result<(GameState, PebblesEvent), GameError>
    recommends
        well_formed(g),
{
    if g.winner is Some {
        Err(GameError::GameAlreadyFinished)
    } else if pebbles == 0 || pebbles > g.max_pebbles_per_turn {
        Err(GameError::InvalidTurnAmount)
    } else if pebbles > g.pebbles_remaining {
        Err(GameError::NotEnoughPebbles)
    } else {
        let g1 = GameState {
            pebbles_count: g.pebbles_count,
            max_pebbles_per_turn: g.max_pebbles_per_turn,
            pebbles_remaining: (g.pebbles_remaining - pebbles) as u32,
            difficulty: g.difficulty,
            first_player: g.first_player,
            winner: g.winner,
        };
        if g1.pebbles_remaining == 0 {
            Ok(
                (
                    GameState {
                        pebbles_count: g1.pebbles_count,
                        max_pebbles_per_turn: g1.max_pebbles_per_turn,
                        pebbles_remaining: g1.pebbles_remaining,
                        difficulty: g1.difficulty,
                        first_player: g1.first_player,
                        winner: Some(Player::User),
                    },
                    PebblesEvent::Won(Player::User),
                ),
            )
        } else {
            Ok((after_program_move(g1, raw_move), program_move_event(g1, raw_move)))
        }
    }
}

/// Giving up is accepted in any state and hands the win to the opponent.
pub open spec fn give_up_outcome(g: GameState) -> (GameState, PebblesEvent) {
    (
        GameState {
            pebbles_count: g.pebbles_count,
            max_pebbles_per_turn: g.max_pebbles_per_turn,
            pebbles_remaining: g.pebbles_remaining,
            difficulty: g.difficulty,
            first_player: g.first_player,
            winner: Some(Player::Program),
        },
        PebblesEvent::Won(Player::Program),
    )
}

/// Restarting is accepted in any state: the old game is discarded entirely
/// and a new one is created as on initialization, except that a user who
/// opens is told so by a zero-quantity counter-turn.
pub open spec fn restart_outcome(
    g: GameState,
    difficulty: DifficultyLevel,
    pebbles_count: u32,
    max_per_turn: u32,
    raw_first: int,
    raw_move: int,
) -> Result<(GameState, PebblesEvent), GameError> {
    let config = PebblesInit {
        difficulty: difficulty,
        pebbles_count: pebbles_count,
        max_pebbles_per_turn: max_per_turn,
    };
    match init_outcome(config, raw_first, raw_move) {
        Ok((g2, ev)) => match ev {
            Some(e) => Ok((g2, e)),
            None => Ok((g2, PebblesEvent::CounterTurn(0))),
        },
        Err(e) => Err(e),
    }
}

/// The whole state machine on a live game: what each action does to the state
/// and which reply it produces. An error leaves the state untouched.
pub open spec fn handle_outcome(
    g: GameState,
    action: PebblesAction,
    raw_first: int,
    raw_move: int,
) -> Result<(GameState, PebblesEvent), GameError>
    recommends
        well_formed(g),
{
    match action {
        PebblesAction::Turn(pebbles) => turn_outcome(g, pebbles, raw_move),
        PebblesAction::GiveUp => Ok(give_up_outcome(g)),
        PebblesAction::Restart { difficulty, pebbles_count, max_pebbles_per_turn } => {
            restart_outcome(g, difficulty, pebbles_count, max_pebbles_per_turn, raw_first, raw_move)
        },
    }
}

/// The opponent's move on a non-empty in-progress pile removes between one
/// pebble and the whole pile, and leaves a well-formed state.
pub proof fn lemma_program_move_wf(s: GameState, raw: int)
    requires
        well_formed(s),
        s.winner is None,
    ensures
        1 <= chosen_quantity(s, raw) <= s.pebbles_remaining,
        chosen_quantity(s, raw) <= s.max_pebbles_per_turn,
        well_formed(after_program_move(s, raw)),
        after_program_move(s, raw).winner is None || after_program_move(s, raw).winner == Some(
            Player::Program,
        ),
{
    let max = s.max_pebbles_per_turn as int;
    assert(0 <= raw % max < max) by {
        vstd::arithmetic::div_mod::lemma_mod_division_less_than_divisor(raw, max);
    }
    assert(0 <= s.pebbles_remaining as int % (max + 1) < max + 1) by {
        vstd::arithmetic::div_mod::lemma_mod_division_less_than_divisor(
            s.pebbles_remaining as int,
            max + 1,
        );
    }
}

} // verus!
