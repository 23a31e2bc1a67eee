//! Laws of the game that relate several operations: the optimality of the
//! hard opponent's strategy.

use crate::game::chosen_quantity;
use crate::game::hard_quantity;
use crate::game::optimal_remainder;
use crate::game::well_formed;
use crate::game::GameState;
use crate::game::Player;
use vstd::arithmetic::div_mod::lemma_fundamental_div_mod;
use vstd::arithmetic::div_mod::lemma_mod_division_less_than_divisor;
use vstd::prelude::*;

verus! {

/// From a pile that is not a multiple of `max_per_turn + 1`, the optimal
/// move is a legal quantity and removing it leaves a pile exactly divisible
/// by `max_per_turn + 1`.
pub proof fn lemma_optimal_move_restores_multiple(pebbles: int, max_per_turn: int)
    requires
        0 < max_per_turn,
        0 < pebbles,
        optimal_remainder(pebbles, max_per_turn) != 0,
    ensures
        1 <= optimal_remainder(pebbles, max_per_turn) <= max_per_turn,
        optimal_remainder(pebbles, max_per_turn) <= pebbles,
        (pebbles - optimal_remainder(pebbles, max_per_turn)) % (max_per_turn + 1) == 0,
{
    let m = max_per_turn + 1;
    lemma_mod_division_less_than_divisor(pebbles, m);
    lemma_fundamental_div_mod(pebbles, m);
    assert(pebbles - pebbles % m == m * (pebbles / m));
    assert((m * (pebbles / m)) % m == 0) by {
        vstd::arithmetic::div_mod::lemma_mod_multiples_basic(pebbles / m, m);
    }
    assert(pebbles % m <= pebbles) by {
        vstd::arithmetic::div_mod::lemma_mod_decreases(pebbles as nat, m as nat);
    }
}

/// In hard mode, from an in-progress pile that is not a multiple of
/// `max_pebbles_per_turn + 1`, the opponent's chosen quantity is exactly
/// that remainder — whatever the random draw — and its move leaves the pile
/// an exact multiple of `max_pebbles_per_turn + 1`.
pub proof fn lemma_hard_move_takes_remainder(s: GameState, raw: int)
    requires
        well_formed(s),
        s.winner is None,
        s.difficulty is Hard,
        optimal_remainder(s.pebbles_remaining as int, s.max_pebbles_per_turn as int) != 0,
    ensures
        chosen_quantity(s, raw) == optimal_remainder(
            s.pebbles_remaining as int,
            s.max_pebbles_per_turn as int,
        ),
        (s.pebbles_remaining - chosen_quantity(s, raw)) % (s.max_pebbles_per_turn + 1) == 0,
{
    lemma_optimal_move_restores_multiple(
        s.pebbles_remaining as int,
        s.max_pebbles_per_turn as int,
    );
}

/// The quantity the hard opponent removes in reply, written over the bare
/// numbers: the hard choice for the pile, clamped to the pile.
pub open spec fn program_reply(pebbles: int, max_per_turn: int, raw: int) -> int
    recommends
        0 < max_per_turn,
{
    let q = hard_quantity(pebbles, max_per_turn, raw);
    if q <= pebbles {
        q
    } else {
        pebbles
    }
}

/// On a hard-mode state, `program_reply` is exactly the engine's
/// `chosen_quantity`.
pub proof fn lemma_program_reply_matches_engine(s: GameState, raw: int)
    requires
        s.difficulty is Hard,
    ensures
        chosen_quantity(s, raw) == program_reply(
            s.pebbles_remaining as int,
            s.max_pebbles_per_turn as int,
            raw,
        ),
{
}

/// One run of a hard-mode game in which the user moves first: `turns[i]` is
/// the user's quantity in round `i`, and `raws[i]` the random draw handed to
/// the opponent's reply of that round. `None` means nobody has emptied the
/// pile within the rounds shown.
pub open spec fn hard_outcome(
    pebbles: int,
    max_per_turn: int,
    turns: Seq<u32>,
    raws: Seq<u32>,
) -> Option<Player>
    recommends
        0 < max_per_turn,
    decreases turns.len(),
{
    if turns.len() == 0 || raws.len() == 0 {
        None
    } else {
        let after_user = pebbles - turns[0];
        if after_user == 0 {
            Some(Player::User)
        } else {
            let after_program = after_user - program_reply(
                after_user,
                max_per_turn,
                raws[0] as int,
            );
            if after_program == 0 {
                Some(Player::Program)
            } else {
                hard_outcome(after_program, max_per_turn, turns.drop_first(), raws.drop_first())
            }
        }
    }
}

/// The hard opponent, playing second against a user who must move on a pile
/// that is a positive multiple of `max_per_turn + 1`, never loses, however
/// the user plays and whatever the random draws; and since every full round
/// removes exactly `max_per_turn + 1` pebbles, the opponent has won by the
/// time the user has made `pebbles / (max_per_turn + 1)` legal turns.
pub proof fn lemma_hard_opponent_always_wins(
    pebbles: int,
    max_per_turn: int,
    turns: Seq<u32>,
    raws: Seq<u32>,
)
    requires
        0 < max_per_turn,
        0 < pebbles,
        pebbles % (max_per_turn + 1) == 0,
        turns.len() <= raws.len(),
        forall|i: int| 0 <= i < turns.len() ==> 1 <= #[trigger] turns[i] <= max_per_turn,
    ensures
        hard_outcome(pebbles, max_per_turn, turns, raws) != Some(Player::User),
        (max_per_turn + 1) * turns.len() >= pebbles ==> hard_outcome(
            pebbles,
            max_per_turn,
            turns,
            raws,
        ) == Some(Player::Program),
    decreases turns.len(),
{
    let m = max_per_turn + 1;
    if turns.len() > 0 {
        let t = turns[0] as int;
        assert(1 <= t <= max_per_turn);
        lemma_fundamental_div_mod(pebbles, m);
        let d = pebbles / m;
        assert(d >= 1 && pebbles >= m) by (nonlinear_arith)
            requires
                pebbles == m * d,
                pebbles > 0,
                m > 1,
        ;
        let after_user = pebbles - t;
        assert(after_user == m * (d - 1) + (m - t)) by (nonlinear_arith)
            requires
                pebbles == m * d,
                after_user == pebbles - t,
        ;
        assert(after_user % m == m - t) by {
            vstd::arithmetic::div_mod::lemma_fundamental_div_mod_converse_mod(
                after_user,
                m,
                d - 1,
                m - t,
            );
        }
        let after_program = after_user - program_reply(after_user, max_per_turn, raws[0] as int);
        assert(after_program == pebbles - m);
        if after_program == 0 {
            assert(hard_outcome(pebbles, max_per_turn, turns, raws) == Some(Player::Program));
        } else {
            assert(after_program % m == 0) by {
                vstd::arithmetic::div_mod::lemma_fundamental_div_mod_converse_mod(
                    after_program,
                    m,
                    d - 1,
                    0,
                );
            }
            let turns2 = turns.drop_first();
            let raws2 = raws.drop_first();
            assert forall|i: int|
                0 <= i < turns2.len() implies 1 <= #[trigger] turns2[i] <= max_per_turn by {
                assert(turns2[i] == turns[i + 1]);
            }
            lemma_hard_opponent_always_wins(after_program, max_per_turn, turns2, raws2);
            let len: int = turns.len() as int;
            assert(m * (len - 1) == m * len - m) by (nonlinear_arith);
            assert(m * turns2.len() == m * len - m);
        }
    }
}

} // verus!
