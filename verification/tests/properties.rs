use pebbles_game::engine::{calculate_winning_move, draw_bounded, make_program_move};
use pebbles_game::game::{
    DifficultyLevel, GameError, GameState, PebblesAction, PebblesEvent, PebblesInit, Player,
};
use pebbles_game::session::Session;

const USER_OPENS: u32 = 0;
const PROGRAM_OPENS: u32 = 1;

fn easy_config(pebbles_count: u32, max_pebbles_per_turn: u32) -> PebblesInit {
    PebblesInit {
        difficulty: DifficultyLevel::Easy,
        pebbles_count,
        max_pebbles_per_turn,
    }
}

#[test]
fn init_fills_pile_when_user_opens() {
    let mut session = Session::new();
    let reply = session.init(easy_config(10, 3), USER_OPENS, 5).expect("init failed");
    assert_eq!(reply, None);
    let state = session.state().expect("state failed");
    assert_eq!(state.pebbles_count, 10);
    assert_eq!(state.pebbles_remaining, 10);
    assert_eq!(state.first_player, Player::User);
    assert_eq!(state.winner, None);
}

#[test]
fn init_replies_when_opponent_opens() {
    let mut session = Session::new();
    // The opening draw 0 gives the easy opponent 0 % 3 + 1 == 1 pebble.
    let reply = session.init(easy_config(10, 3), PROGRAM_OPENS, 0).expect("init failed");
    assert_eq!(reply, Some(PebblesEvent::CounterTurn(1)));
    let state = session.state().expect("state failed");
    assert_eq!(state.pebbles_remaining, 9);
    assert_eq!(state.first_player, Player::Program);
    assert_eq!(state.winner, None);
}

#[test]
fn optimal_move_takes_the_remainder() {
    // 7 % (3 + 1) == 3, whatever the draw; 7 - 3 is a multiple of 4.
    assert_eq!(calculate_winning_move(7, 3, 123), Some(3));
    assert_eq!(calculate_winning_move(7, 3, 0), Some(3));
    assert_eq!((7 - 3) % (3 + 1), 0);
    // 9 % (4 + 1) == 4.
    assert_eq!(calculate_winning_move(9, 4, 55), Some(4));
}

#[test]
fn optimal_move_is_random_on_a_losing_position() {
    // 8 % (3 + 1) == 0: any move concedes, so the draw decides: 6 % 3 + 1 == 1.
    assert_eq!(calculate_winning_move(8, 3, 6), Some(1));
    // 7 % 3 + 1 == 2.
    assert_eq!(calculate_winning_move(8, 3, 7), Some(2));
}

#[test]
fn no_move_on_an_empty_pile() {
    assert_eq!(calculate_winning_move(0, 3, 5), None);
}

#[test]
fn hard_opponent_wins_from_a_losing_start() {
    // 8 is a multiple of 3 + 1, so the opening position loses for the user.
    let mut session = Session::new();
    let config = PebblesInit {
        difficulty: DifficultyLevel::Hard,
        pebbles_count: 8,
        max_pebbles_per_turn: 3,
    };
    session.init(config, USER_OPENS, 9).expect("init failed");
    // Round one: the user takes 2, the opponent answers with 6 % 4 == 2.
    let reply = session.handle(PebblesAction::Turn(2), USER_OPENS, 9);
    assert_eq!(reply, Ok(PebblesEvent::CounterTurn(2)));
    // Round two: the user takes 3, the opponent takes the last pebble.
    let reply = session.handle(PebblesAction::Turn(3), USER_OPENS, 9);
    assert_eq!(reply, Ok(PebblesEvent::Won(Player::Program)));
    let state = session.state().expect("state failed");
    assert_eq!(state.pebbles_remaining, 0);
    assert_eq!(state.winner, Some(Player::Program));
}

#[test]
fn give_up_hands_the_win_to_the_opponent_in_any_state() {
    let mut session = Session::new();
    session.init(easy_config(10, 3), USER_OPENS, 5).expect("init failed");
    let reply = session.handle(PebblesAction::GiveUp, USER_OPENS, 5);
    assert_eq!(reply, Ok(PebblesEvent::Won(Player::Program)));
    let state = session.state().expect("state failed");
    assert_eq!(state.winner, Some(Player::Program));
    // Giving up is accepted on a finished game too.
    let reply = session.handle(PebblesAction::GiveUp, USER_OPENS, 5);
    assert_eq!(reply, Ok(PebblesEvent::Won(Player::Program)));
}

#[test]
fn restart_replaces_the_whole_configuration() {
    let mut session = Session::new();
    let config = PebblesInit {
        difficulty: DifficultyLevel::Hard,
        pebbles_count: 4,
        max_pebbles_per_turn: 3,
    };
    session.init(config, USER_OPENS, 7).expect("init failed");
    session.handle(PebblesAction::Turn(1), USER_OPENS, 7).expect("turn failed");
    let state = session.state().expect("state failed");
    assert_eq!(state.winner, Some(Player::Program));

    let reply = session.handle(
        PebblesAction::Restart {
            difficulty: DifficultyLevel::Easy,
            pebbles_count: 6,
            max_pebbles_per_turn: 2,
        },
        USER_OPENS,
        7,
    );
    // The user opens again, signalled by a zero-quantity counter-turn.
    assert_eq!(reply, Ok(PebblesEvent::CounterTurn(0)));
    let state = session.state().expect("state failed");
    assert_eq!(state.pebbles_count, 6);
    assert_eq!(state.max_pebbles_per_turn, 2);
    assert_eq!(state.pebbles_remaining, 6);
    assert_eq!(state.difficulty, DifficultyLevel::Easy);
    assert_eq!(state.first_player, Player::User);
    assert_eq!(state.winner, None);
}

#[test]
fn turn_is_rejected_once_the_game_is_finished() {
    let mut session = Session::new();
    let config = PebblesInit {
        difficulty: DifficultyLevel::Hard,
        pebbles_count: 4,
        max_pebbles_per_turn: 3,
    };
    session.init(config, USER_OPENS, 7).expect("init failed");
    session.handle(PebblesAction::Turn(1), USER_OPENS, 7).expect("turn failed");
    let before = session.state().expect("state failed");
    let reply = session.handle(PebblesAction::Turn(1), USER_OPENS, 7);
    assert_eq!(reply, Err(GameError::GameAlreadyFinished));
    let after = session.state().expect("state failed");
    assert_eq!(before, after);
}

#[test]
fn turn_amount_outside_the_bounds_is_rejected() {
    let mut session = Session::new();
    session.init(easy_config(10, 3), USER_OPENS, 5).expect("init failed");
    assert_eq!(
        session.handle(PebblesAction::Turn(0), USER_OPENS, 5),
        Err(GameError::InvalidTurnAmount)
    );
    assert_eq!(
        session.handle(PebblesAction::Turn(4), USER_OPENS, 5),
        Err(GameError::InvalidTurnAmount)
    );
    let state = session.state().expect("state failed");
    assert_eq!(state.pebbles_remaining, 10);
}

#[test]
fn turn_exceeding_the_pile_is_rejected() {
    let mut session = Session::new();
    session.init(easy_config(3, 2), USER_OPENS, 0).expect("init failed");
    // The user takes 1 of 3, the easy opponent draws 0 % 2 + 1 == 1: one left.
    let reply = session.handle(PebblesAction::Turn(1), USER_OPENS, 0);
    assert_eq!(reply, Ok(PebblesEvent::CounterTurn(1)));
    // Taking 2 is within the per-turn bound but exceeds the pile.
    let reply = session.handle(PebblesAction::Turn(2), USER_OPENS, 0);
    assert_eq!(reply, Err(GameError::NotEnoughPebbles));
    let state = session.state().expect("state failed");
    assert_eq!(state.pebbles_remaining, 1);
}

#[test]
fn invalid_configurations_are_rejected() {
    let mut session = Session::new();
    assert_eq!(
        session.init(easy_config(0, 3), USER_OPENS, 5),
        Err(GameError::ZeroPebblesCount)
    );
    assert_eq!(
        session.init(easy_config(10, 0), USER_OPENS, 5),
        Err(GameError::ZeroMaxPebblesPerTurn)
    );
    assert_eq!(
        session.init(easy_config(10, 10), USER_OPENS, 5),
        Err(GameError::MaxPebblesPerTurnTooLarge)
    );
    // A rejected initialization leaves no game behind.
    assert_eq!(session.state(), Err(GameError::Uninitialized));
}

#[test]
fn invalid_restart_changes_nothing() {
    let mut session = Session::new();
    session.init(easy_config(10, 3), USER_OPENS, 5).expect("init failed");
    let before = session.state().expect("state failed");
    let reply = session.handle(
        PebblesAction::Restart {
            difficulty: DifficultyLevel::Hard,
            pebbles_count: 5,
            max_pebbles_per_turn: 5,
        },
        USER_OPENS,
        5,
    );
    assert_eq!(reply, Err(GameError::MaxPebblesPerTurnTooLarge));
    assert_eq!(session.state().expect("state failed"), before);
}

#[test]
fn requests_before_initialization_are_rejected() {
    let mut session = Session::new();
    assert_eq!(
        session.handle(PebblesAction::Turn(1), USER_OPENS, 5),
        Err(GameError::Uninitialized)
    );
    assert_eq!(session.state(), Err(GameError::Uninitialized));
}

#[test]
fn easy_move_follows_the_draw() {
    let mut state = GameState {
        pebbles_count: 10,
        max_pebbles_per_turn: 3,
        pebbles_remaining: 9,
        difficulty: DifficultyLevel::Easy,
        first_player: Player::User,
        winner: None,
    };
    // 5 % 3 + 1 == 3 pebbles leave the pile.
    let event = make_program_move(&mut state, 5);
    assert_eq!(event, PebblesEvent::CounterTurn(3));
    assert_eq!(state.pebbles_remaining, 6);
}

#[test]
fn program_move_is_clamped_to_the_pile() {
    let mut state = GameState {
        pebbles_count: 10,
        max_pebbles_per_turn: 3,
        pebbles_remaining: 2,
        difficulty: DifficultyLevel::Easy,
        first_player: Player::User,
        winner: None,
    };
    // The draw asks for 2 % 3 + 1 == 3 pebbles, but only 2 remain.
    let event = make_program_move(&mut state, 2);
    assert_eq!(event, PebblesEvent::Won(Player::Program));
    assert_eq!(state.pebbles_remaining, 0);
    assert_eq!(state.winner, Some(Player::Program));
}

#[test]
fn draw_bounded_reduces_modulo_the_bound() {
    assert_eq!(draw_bounded(7, 2), 1);
    assert_eq!(draw_bounded(9, 5), 4);
    assert_eq!(draw_bounded(4, 2), 0);
    assert_eq!(draw_bounded(u32::MAX, 2), 1);
}
