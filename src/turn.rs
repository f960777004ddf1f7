//! Snake ("bounce-back") turn order.
//!
//! The pick index walks through the teams, and at either end it stays put
//! for one more turn while the direction flips, so the team at each end of
//! the order picks twice in a row.
use vstd::prelude::*;
use vstd::arithmetic::div_mod::{lemma_fundamental_div_mod, lemma_fundamental_div_mod_converse};

verus! {

/// The turn that follows `(index, direction)` among `count` teams.
pub open spec fn spec_next_turn(count: int, index: int, direction: int) -> (int, int) {
    let candidate = index + direction;
    if candidate >= count {
        (count - 1, -1)
    } else if candidate < 0 {
        (0, 1)
    } else {
        (candidate, direction)
    }
}

/// The turn reached after `k` steps from the opening turn `(0, +1)`.
pub open spec fn turn_after(count: int, k: nat) -> (int, int)
    decreases k,
{
    if k == 0 {
        (0, 1)
    } else {
        let prev = turn_after(count, (k - 1) as nat);
        spec_next_turn(count, prev.0, prev.1)
    }
}

/// The same turn in closed form: a round trip over the teams takes
/// `2 * count` steps, out with direction `+1`, back with direction `-1`.
pub open spec fn snake_position(count: int, k: nat) -> (int, int) {
    let m = k as int % (2 * count);
    if m < count {
        (m, 1)
    } else {
        (2 * count - 1 - m, -1)
    }
}

/// Computes the next `(index, direction)` of the snake order among
/// `teams_count` teams.
pub fn next_turn(teams_count: usize, current_index: usize, direction: i64) -> (r: (usize, i64))
    requires
        teams_count >= 1,
        current_index < teams_count,
        direction == 1 || direction == -1,
    ensures
        (r.0 as int, r.1 as int) == spec_next_turn(
            teams_count as int,
            current_index as int,
            direction as int,
        ),
        r.0 < teams_count,
        r.1 == 1 || r.1 == -1,
{
    if direction == 1 {
        if current_index + 1 >= teams_count {
            (teams_count - 1, -1)
        } else {
            (current_index + 1, 1)
        }
    } else if current_index == 0 {
        (0, 1)
    } else {
        (current_index - 1, -1)
    }
}

/// Starting from `(0, +1)`, the snake order among `count` teams visits the
/// indices `0, 1, ..., count - 1, count - 1, ..., 1, 0` and then repeats:
/// after `k` steps it stands where `snake_position` says.
pub proof fn lemma_snake_order(count: int, k: nat)
    requires
        count >= 1,
    ensures
        turn_after(count, k) == snake_position(count, k),
    decreases k,
{
    let d = 2 * count;
    if k > 0 {
        let j = (k - 1) as nat;
        lemma_snake_order(count, j);
        lemma_fundamental_div_mod(j as int, d);
        let q = j as int / d;
        let m = j as int % d;
        assert(0 <= m < d) by {
            vstd::arithmetic::div_mod::lemma_mod_pos_bound(j as int, d);
        }
        if m + 1 < d {
            assert(k as int == q * d + (m + 1)) by (nonlinear_arith)
                requires
                    j as int == d * q + m,
                    k as int == j + 1,
            ;
            lemma_fundamental_div_mod_converse(k as int, d, q, m + 1);
        } else {
            assert(k as int == (q + 1) * d + 0) by (nonlinear_arith)
                requires
                    j as int == d * q + m,
                    k as int == j + 1,
                    m + 1 == d,
            ;
            lemma_fundamental_div_mod_converse(k as int, d, q + 1, 0);
        }
    }
}

/// With four teams the order is exactly `0, 1, 2, 3, 3, 2, 1, 0` repeated.
pub proof fn lemma_four_team_order(k: nat)
    ensures
        turn_after(4, k).0 == seq![0int, 1, 2, 3, 3, 2, 1, 0][k as int % 8],
{
    lemma_snake_order(4, k);
    let m = k as int % 8;
    assert(0 <= m < 8) by {
        vstd::arithmetic::div_mod::lemma_mod_pos_bound(k as int, 8);
    }
    let s = seq![0int, 1, 2, 3, 3, 2, 1, 0];
    assert(s[m] == if m < 4 { m } else { 7 - m }) by {
        if m == 0 {} else if m == 1 {} else if m == 2 {} else if m == 3 {}
        else if m == 4 {} else if m == 5 {} else if m == 6 {} else {}
    }
}

/// A single team picks on every turn: its index is always 0, and the
/// direction flips at every step.
pub proof fn lemma_single_team(k: nat)
    ensures
        turn_after(1, k).0 == 0,
        turn_after(1, k + 1).1 == -turn_after(1, k).1,
{
    lemma_snake_order(1, k);
    lemma_snake_order(1, k + 1);
    vstd::arithmetic::div_mod::lemma_mod_pos_bound(k as int, 2);
    vstd::arithmetic::div_mod::lemma_mod_pos_bound(k as int + 1, 2);
    lemma_fundamental_div_mod(k as int, 2);
    let q = k as int / 2;
    let m = k as int % 2;
    if m == 0 {
        lemma_fundamental_div_mod_converse(k as int + 1, 2, q, 1);
    } else {
        lemma_fundamental_div_mod_converse(k as int + 1, 2, q + 1, 0);
    }
}

} // verus!
