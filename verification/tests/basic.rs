use pebbles_game::game::{DifficultyLevel, PebblesAction, PebblesInit, Player};
use pebbles_game::session::Session;

// An even first draw lets the user open; the second draw feeds the
// opponent's move, which in hard mode is deterministic anyway.
const USER_OPENS: u32 = 0;
const ANY_DRAW: u32 = 7;

#[test]
fn winning() {
    let mut session = Session::new();
    let pebbles_init = PebblesInit {
        difficulty: DifficultyLevel::Hard,
        pebbles_count: 4,
        max_pebbles_per_turn: 3,
    };
    session
        .init(pebbles_init, USER_OPENS, ANY_DRAW)
        .expect("init failed");

    session
        .handle(PebblesAction::Turn(1), USER_OPENS, ANY_DRAW)
        .expect("turn failed");

    let state = session.state().expect("Failed to read state");
    assert_eq!(state.pebbles_remaining, 0);
    assert_eq!(state.winner, Some(Player::Program));
}

#[test]
fn test_give_up() {
    let mut session = Session::new();
    let pebbles_init = PebblesInit {
        difficulty: DifficultyLevel::Easy,
        pebbles_count: 10,
        max_pebbles_per_turn: 3,
    };
    session
        .init(pebbles_init, USER_OPENS, ANY_DRAW)
        .expect("init failed");

    session
        .handle(PebblesAction::GiveUp, USER_OPENS, ANY_DRAW)
        .expect("give up failed");

    let state = session.state().expect("Failed to read state");
    assert_eq!(state.winner, Some(Player::Program));
}

#[test]
fn restart() {
    let mut session = Session::new();
    let pebbles_init = PebblesInit {
        difficulty: DifficultyLevel::Hard,
        pebbles_count: 4,
        max_pebbles_per_turn: 3,
    };
    session
        .init(pebbles_init, USER_OPENS, ANY_DRAW)
        .expect("init failed");

    session
        .handle(PebblesAction::Turn(1), USER_OPENS, ANY_DRAW)
        .expect("turn failed");

    let state = session.state().expect("Failed to read state");
    assert_eq!(state.pebbles_remaining, 0);
    assert_eq!(state.winner, Some(Player::Program));

    session
        .handle(
            PebblesAction::Restart {
                difficulty: DifficultyLevel::Easy,
                pebbles_count: 6,
                max_pebbles_per_turn: 2,
            },
            USER_OPENS,
            ANY_DRAW,
        )
        .expect("restart failed");

    let state = session.state().expect("Failed to read state");
    assert_eq!(state.pebbles_count, 6);
    assert_eq!(state.max_pebbles_per_turn, 2);
    assert_eq!(state.pebbles_remaining, 6);
    assert_eq!(state.difficulty, DifficultyLevel::Easy);
}
