//! Elo rating helper with the fixed K-factor 32.
//!
//! The logistic expectation of the higher-level formula,
//! `E = 1 / (1 + 10^((r_opp - r_own)/400))`, enters a delta only through the
//! rounded product `round(K * E)`. With `K == 32` that product is an integer
//! step function of the rating difference `g = r_own - r_opp`: it starts at 0,
//! ends at 32, and steps up by one exactly when `g` reaches the next entry of
//! a fixed threshold list (the smallest integer `g` with
//! `32 * E(g) > m + 1/2`, for `m = 0, ..., 31`). [`expected_score_x32`] writes
//! that step function out, which keeps the whole computation in integers.

use vstd::prelude::*;

verus! {

/// `round(32 * E(g))` where `E(g) = 1 / (1 + 10^(-g/400))` is the logistic
/// expectation for a player whose rating exceeds the opponent's by `g`.
/// The branch bounds are the integer points where the rounded product steps.
pub open spec fn expected_score_x32(g: int) -> int {
    if g < -719 { 0 }
    else if g < -523 { 1 }
    else if g < -428 { 2 }
    else if g < -364 { 3 }
    else if g < -314 { 4 }
    else if g < -273 { 5 }
    else if g < -237 { 6 }
    else if g < -205 { 7 }
    else if g < -176 { 8 }
    else if g < -149 { 9 }
    else if g < -124 { 10 }
    else if g < -100 { 11 }
    else if g < -77 { 12 }
    else if g < -54 { 13 }
    else if g < -32 { 14 }
    else if g < -10 { 15 }
    else if g < 11 { 16 }
    else if g < 33 { 17 }
    else if g < 55 { 18 }
    else if g < 78 { 19 }
    else if g < 101 { 20 }
    else if g < 125 { 21 }
    else if g < 150 { 22 }
    else if g < 177 { 23 }
    else if g < 206 { 24 }
    else if g < 238 { 25 }
    else if g < 274 { 26 }
    else if g < 315 { 27 }
    else if g < 365 { 28 }
    else if g < 429 { 29 }
    else if g < 524 { 30 }
    else if g < 720 { 31 }
    else { 32 }
}

/// Player 1's actual score, in half-points: draw 1, player 1 wins 2,
/// player 2 wins 0.
pub open spec fn score_half_points_p1(winner: u8) -> int {
    if winner == 0 { 1 } else if winner == 1 { 2 } else { 0 }
}

/// Player 1's rating delta: `round(K*(S - E))` equals
/// `16 * (2*S) - round(32 * E)` because `K*S` is an integer multiple of 16.
pub open spec fn p1_delta(r1: int, r2: int, winner: u8) -> int {
    16 * score_half_points_p1(winner) - expected_score_x32(r1 - r2)
}

/// Player 2's rating delta, from player 2's own perspective.
pub open spec fn p2_delta(r1: int, r2: int, winner: u8) -> int {
    16 * (2 - score_half_points_p1(winner)) - expected_score_x32(r2 - r1)
}

/// The two halves of the expectation table mirror each other:
/// `E(g) + E(-g) == 1`, so the rounded products sum to `K`.
pub proof fn lemma_expected_complement(g: int)
    ensures
        expected_score_x32(g) + expected_score_x32(-g) == 32,
{
}

/// Rating changes are zero-sum: for every pair of ratings and every outcome
/// (decisive or drawn), player 1's delta and player 2's delta cancel.
pub proof fn lemma_rating_zero_sum(r1: int, r2: int, winner: u8)
    requires
        winner <= 2,
    ensures
        p1_delta(r1, r2, winner) + p2_delta(r1, r2, winner) == 0,
{
    lemma_expected_complement(r1 - r2);
}

/// A draw between equally rated players moves nobody.
pub proof fn lemma_equal_ratings_draw(r: int)
    ensures
        p1_delta(r, r, 0) == 0,
        p2_delta(r, r, 0) == 0,
{
}

/// `expected_score_x32` evaluated on machine integers. The difference of two
/// `i32` ratings always fits in `i64`.
fn expected_score_x32_exec(g: i64) -> (e: i32)
    ensures
        e == expected_score_x32(g as int),
{
    if g < -719 { 0 }
    else if g < -523 { 1 }
    else if g < -428 { 2 }
    else if g < -364 { 3 }
    else if g < -314 { 4 }
    else if g < -273 { 5 }
    else if g < -237 { 6 }
    else if g < -205 { 7 }
    else if g < -176 { 8 }
    else if g < -149 { 9 }
    else if g < -124 { 10 }
    else if g < -100 { 11 }
    else if g < -77 { 12 }
    else if g < -54 { 13 }
    else if g < -32 { 14 }
    else if g < -10 { 15 }
    else if g < 11 { 16 }
    else if g < 33 { 17 }
    else if g < 55 { 18 }
    else if g < 78 { 19 }
    else if g < 101 { 20 }
    else if g < 125 { 21 }
    else if g < 150 { 22 }
    else if g < 177 { 23 }
    else if g < 206 { 24 }
    else if g < 238 { 25 }
    else if g < 274 { 26 }
    else if g < 315 { 27 }
    else if g < 365 { 28 }
    else if g < 429 { 29 }
    else if g < 524 { 30 }
    else if g < 720 { 31 }
    else { 32 }
}

/// Returns `(delta_p1, delta_p2)` given current ratings and the winner flag:
/// `winner` = 0 for a draw, 1 for player 1, 2 for player 2. The K-factor is
/// fixed at 32.
pub fn elo_delta(r1: i32, r2: i32, winner: u8, k: i32) -> (d: (i32, i32))
    requires
        winner <= 2,
        k == 32,
    ensures
        d.0 == p1_delta(r1 as int, r2 as int, winner),
        d.1 == p2_delta(r1 as int, r2 as int, winner),
        d.0 + d.1 == 0,
{
    let g1: i64 = r1 as i64 - r2 as i64;
    let e1 = expected_score_x32_exec(g1);
    let e2 = expected_score_x32_exec(-g1);
    let s1: i32 = if winner == 0 { 1 } else if winner == 1 { 2 } else { 0 };
    let d1 = 16 * s1 - e1;
    let d2 = 16 * (2 - s1) - e2;
    proof {
        lemma_expected_complement(g1 as int);
    }
    (d1, d2)
}

/// Applying a delta to a stored rating floors the result at zero: the ledger
/// never records a negative rating.
pub fn apply_delta(rating: i32, delta: i32) -> (new: i32)
    requires
        -32 <= delta <= 32,
        0 <= rating <= i32::MAX - 32,
    ensures
        new == if rating + delta >= 0 { rating + delta } else { 0 },
        new >= 0,
{
    if rating + delta >= 0 { rating + delta } else { 0 }
}

} // verus!
