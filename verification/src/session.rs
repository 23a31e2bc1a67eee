//! One game session: an explicit owner of the optional game state. Every
//! event handler of the host hands its action and fresh random draws to the
//! session and forwards the reply.

use crate::engine::make_program_move;
use crate::engine::new_game;
use crate::game::first_player_of;
use crate::game::handle_outcome;
use crate::game::init_outcome;
use crate::game::lemma_program_move_wf;
use crate::game::valid_config;
use crate::game::well_formed;
use crate::game::GameError;
use crate::game::GameState;
use crate::game::PebblesAction;
use crate::game::PebblesEvent;
use crate::game::PebblesInit;
use crate::game::Player;
use vstd::prelude::*;

verus! {

/// A session holds at most one live game. Before the first successful
/// initialization there is none, and every other request is rejected with
/// `GameError::Uninitialized`.
pub struct Session {
    game: Option<GameState>,
}

impl View for Session {
    type V = Option<GameState>;

    closed spec fn view(&self) -> Option<GameState> {
        self.game
    }
}

impl Session {
    /// The session invariant: whatever game is live is well formed.
    pub open spec fn wf(self) -> bool {
        self@ matches Some(g) ==> well_formed(g)
    }

    /// A fresh session with no game yet.
    pub fn new() -> (s: Session)
        ensures
            s@ is None,
            s.wf(),
    {
        Session { game: None }
    }

    /// Creates the game from a configuration and two raw random draws (one
    /// for who opens, one for the opponent's opening move). Exactly the
    /// playable configurations are accepted; a rejection leaves the session
    /// as it was. When the user opens, the pile is still full and there is
    /// no opening reply; when the opponent opens, its move is the reply.
    pub fn init(&mut self, config: PebblesInit, raw_first: u32, raw_move: u32) -> (r: Result<
        Option<PebblesEvent>,
        GameError,
    >)
        requires
            old(self).wf(),
        ensures
            final(self).wf(),
            match init_outcome(config, raw_first as int, raw_move as int) {
                Ok((g, ev)) => final(self)@ == Some(g) && r == Ok::<_, GameError>(ev),
                Err(e) => final(self)@ == old(self)@ && r == Err::<Option<PebblesEvent>, _>(e),
            },
            r is Ok <==> valid_config(
                config.pebbles_count as int,
                config.max_pebbles_per_turn as int,
            ),
            valid_config(config.pebbles_count as int, config.max_pebbles_per_turn as int) ==> {
                &&& final(self)@ matches Some(g)
                &&& g.pebbles_count == config.pebbles_count
                &&& g.winner is None
                &&& g.first_player == first_player_of(raw_first as int)
                &&& (g.first_player is User ==> g.pebbles_remaining == config.pebbles_count)
                &&& (g.first_player is User ==> (r matches Ok(ev) && ev is None))
                &&& (g.first_player is Program ==> (r matches Ok(ev) && ev is Some))
            },
    {
        match new_game(config, raw_first, raw_move) {
            Ok((g, ev)) => {
                self.game = Some(g);
                Ok(ev)
            },
            Err(e) => Err(e),
        }
    }

    /// Handles one action against the live game with two fresh raw random
    /// draws (used only by a restart and by an opponent move). The reply and
    /// the new state are exactly those of `handle_outcome`; any rejection,
    /// including an action before a game exists, leaves the session as it
    /// was.
    pub fn handle(&mut self, action: PebblesAction, raw_first: u32, raw_move: u32) -> (r: Result<
        PebblesEvent,
        GameError,
    >)
        requires
            old(self).wf(),
        ensures
            final(self).wf(),
            old(self)@ is None ==> r == Err::<PebblesEvent, _>(GameError::Uninitialized)
                && final(self)@ == old(self)@,
            old(self)@ matches Some(g) ==> match handle_outcome(
                g,
                action,
                raw_first as int,
                raw_move as int,
            ) {
                Ok((g2, ev)) => final(self)@ == Some(g2) && r == Ok::<_, GameError>(ev),
                Err(e) => final(self)@ == old(self)@ && r == Err::<PebblesEvent, _>(e),
            },
            // Giving up always hands the win to the opponent, whatever the prior state.
            old(self)@ is Some && action is GiveUp ==> {
                &&& r == Ok::<_, GameError>(PebblesEvent::Won(Player::Program))
                &&& (final(self)@ matches Some(g2) && g2.winner == Some(Player::Program))
            },
            // A turn on a finished game is rejected and changes nothing.
            ({
                &&& old(self)@ matches Some(g)
                &&& g.winner is Some
                &&& action matches PebblesAction::Turn(_)
            }) ==> {
                &&& r == Err::<PebblesEvent, _>(GameError::GameAlreadyFinished)
                &&& final(self)@ == old(self)@
            },
            // A restart with a playable configuration replaces the whole
            // configuration and leaves the new game unwon; when the user
            // opens, the pile is full and the reply is a zero counter-turn.
            old(self)@ is Some ==> match action {
                PebblesAction::Restart { difficulty, pebbles_count, max_pebbles_per_turn } => (
                valid_config(pebbles_count as int, max_pebbles_per_turn as int) ==> {
                    &&& final(self)@ matches Some(g2)
                    &&& g2.pebbles_count == pebbles_count
                    &&& g2.max_pebbles_per_turn == max_pebbles_per_turn
                    &&& g2.difficulty == difficulty
                    &&& g2.winner is None
                    &&& g2.first_player == first_player_of(raw_first as int)
                    &&& (g2.first_player is User ==> g2.pebbles_remaining == pebbles_count)
                    &&& (g2.first_player is User ==> r == Ok::<_, GameError>(
                        PebblesEvent::CounterTurn(0),
                    ))
                }),
                _ => true,
            },
    {
        match self.game {
            None => Err(GameError::Uninitialized),
            Some(game) => match action {
                PebblesAction::Turn(pebbles) => {
                    if game.winner.is_some() {
                        return Err(GameError::GameAlreadyFinished);
                    }
                    if pebbles == 0 || pebbles > game.max_pebbles_per_turn {
                        return Err(GameError::InvalidTurnAmount);
                    }
                    if pebbles > game.pebbles_remaining {
                        return Err(GameError::NotEnoughPebbles);
                    }
                    let mut g = game;
                    g.pebbles_remaining = g.pebbles_remaining - pebbles;
                    if g.pebbles_remaining == 0 {
                        g.winner = Some(Player::User);
                        self.game = Some(g);
                        Ok(PebblesEvent::Won(Player::User))
                    } else {
                        proof {
                            lemma_program_move_wf(g, raw_move as int);
                        }
                        let event = make_program_move(&mut g, raw_move);
                        self.game = Some(g);
                        Ok(event)
                    }
                },
                PebblesAction::GiveUp => {
                    let mut g = game;
                    g.winner = Some(Player::Program);
                    self.game = Some(g);
                    Ok(PebblesEvent::Won(Player::Program))
                },
                PebblesAction::Restart { difficulty, pebbles_count, max_pebbles_per_turn } => {
                    let config = PebblesInit {
                        difficulty: difficulty,
                        pebbles_count: pebbles_count,
                        max_pebbles_per_turn: max_pebbles_per_turn,
                    };
                    match new_game(config, raw_first, raw_move) {
                        Ok((g2, ev)) => {
                            self.game = Some(g2);
                            match ev {
                                Some(e) => Ok(e),
                                None => Ok(PebblesEvent::CounterTurn(0)),
                            }
                        },
                        Err(e) => Err(e),
                    }
                },
            },
        }
    }

    /// A read-only snapshot of the live game, or `Uninitialized` before one
    /// exists.
    pub fn state(&self) -> (r: Result<GameState, GameError>)
        ensures
            self@ matches Some(g) ==> r == Ok::<_, GameError>(g),
            self@ is None ==> r == Err::<GameState, _>(GameError::Uninitialized),
    {
        match self.game {
            Some(g) => Ok(g),
            None => Err(GameError::Uninitialized),
        }
    }
}

} // verus!
