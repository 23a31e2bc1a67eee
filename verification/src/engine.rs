//! The executable core: the bounded random draw, the opponent's move
//! selection (easy and hard), and game creation. Each function is proved
//! against the model in `game`.

use crate::game::after_program_move;
use crate::game::first_player_of;
use crate::game::hard_quantity;
use crate::game::init_outcome;
use crate::game::lemma_program_move_wf;
use crate::game::program_move_event;
use crate::game::valid_config;
use crate::game::well_formed;
use crate::game::DifficultyLevel;
use crate::game::GameError;
use crate::game::GameState;
use crate::game::PebblesEvent;
use crate::game::PebblesInit;
use crate::game::Player;
use vstd::prelude::*;

verus! {

/// One uniform draw in `[0, bound)`, reduced from a raw 32-bit random value
/// by taking it modulo the bound.
pub fn draw_bounded(raw: u32, bound: u32) -> (r: u32)
    requires
        0 < bound,
    ensures
        r == raw as int % bound as int,
        r < bound,
{
    raw % bound
}

/// The hard opponent's choice on a pile of `pebbles`: `None` on an empty
/// pile; the remainder of the pile modulo `max_per_turn + 1` when that is
/// nonzero (the winning move); otherwise a random quantity in
/// `[1, max_per_turn]` reduced from `raw_random`, since from such a position
/// every move concedes optimal counterplay.
pub fn calculate_winning_move(pebbles: u32, max_per_turn: u32, raw_random: u32) -> (r: Option<
    u32,
>)
    requires
        0 < max_per_turn,
        max_per_turn < u32::MAX,
    ensures
        r is Some <==> 0 < pebbles,
        r matches Some(q) ==> 1 <= q <= max_per_turn && q as int == hard_quantity(
            pebbles as int,
            max_per_turn as int,
            raw_random as int,
        ),
{
    if pebbles == 0 {
        return None;
    }
    let remainder = pebbles % (max_per_turn + 1);
    if remainder == 0 {
        Some(draw_bounded(raw_random, max_per_turn) + 1)
    } else {
        Some(remainder)
    }
}

/// The opponent's whole move. On an empty pile (a defensive guard; callers
/// invoke it only on non-empty piles) nothing changes and the user's win is
/// reported. Otherwise the quantity picked for the difficulty, clamped to the
/// pile, leaves the pile; the opponent wins if the pile is now empty, and
/// otherwise reports its quantity as a counter-turn.
pub fn make_program_move(state: &mut GameState, raw_random: u32) -> (event: PebblesEvent)
    requires
        valid_config(old(state).pebbles_count as int, old(state).max_pebbles_per_turn as int),
    ensures
        old(state).pebbles_remaining == 0 ==> *final(state) == *old(state) && event
            == PebblesEvent::Won(Player::User),
        0 < old(state).pebbles_remaining ==> *final(state) == after_program_move(
            *old(state),
            raw_random as int,
        ) && event == program_move_event(*old(state), raw_random as int),
{
    if state.pebbles_remaining == 0 {
        return PebblesEvent::Won(Player::User);
    }
    let pebbles_to_remove = match state.difficulty {
        DifficultyLevel::Easy => draw_bounded(raw_random, state.max_pebbles_per_turn) + 1,
        DifficultyLevel::Hard => {
            match calculate_winning_move(
                state.pebbles_remaining,
                state.max_pebbles_per_turn,
                raw_random,
            ) {
                Some(q) => q,
                None => 1,  // unreachable: the pile is not empty here
            }
        },
    };
    let pebbles_to_remove = if pebbles_to_remove <= state.pebbles_remaining {
        pebbles_to_remove
    } else {
        state.pebbles_remaining
    };
    state.pebbles_remaining = state.pebbles_remaining - pebbles_to_remove;
    if state.pebbles_remaining == 0 {
        state.winner = Some(Player::Program);
        PebblesEvent::Won(Player::Program)
    } else {
        PebblesEvent::CounterTurn(pebbles_to_remove)
    }
}

/// Creating a game from a configuration and two raw random draws: one for
/// who opens, one for the opponent's opening move if the opponent opens.
/// Exactly the invalid configurations are rejected, each with its own error;
/// a created game is well formed, still unwon, carries the given
/// configuration, and has a full pile unless the opponent already moved.
pub fn new_game(config: PebblesInit, raw_first: u32, raw_move: u32) -> (r: Result<
    (GameState, Option<PebblesEvent>),
    GameError,
>)
    ensures
        r == init_outcome(config, raw_first as int, raw_move as int),
        r is Ok <==> valid_config(config.pebbles_count as int, config.max_pebbles_per_turn as int),
        r matches Ok((g, ev)) ==> {
            &&& well_formed(g)
            &&& g.winner is None
            &&& g.pebbles_count == config.pebbles_count
            &&& g.max_pebbles_per_turn == config.max_pebbles_per_turn
            &&& g.difficulty == config.difficulty
            &&& g.first_player == first_player_of(raw_first as int)
            &&& (g.first_player is User ==> g.pebbles_remaining == config.pebbles_count && ev
                is None)
            &&& (g.first_player is Program ==> ev is Some)
        },
{
    if config.pebbles_count == 0 {
        return Err(GameError::ZeroPebblesCount);
    }
    if config.max_pebbles_per_turn == 0 {
        return Err(GameError::ZeroMaxPebblesPerTurn);
    }
    if config.max_pebbles_per_turn >= config.pebbles_count {
        return Err(GameError::MaxPebblesPerTurnTooLarge);
    }
    let first_player = if draw_bounded(raw_first, 2) == 0 {
        Player::User
    } else {
        Player::Program
    };
    let mut state = GameState {
        pebbles_count: config.pebbles_count,
        max_pebbles_per_turn: config.max_pebbles_per_turn,
        pebbles_remaining: config.pebbles_count,
        difficulty: config.difficulty,
        first_player: first_player,
        winner: None,
    };
    match first_player {
        Player::Program => {
            proof {
                lemma_program_move_wf(state, raw_move as int);
            }
            let event = make_program_move(&mut state, raw_move);
            Ok((state, Some(event)))
        },
        Player::User => Ok((state, None)),
    }
}

} // verus!
