//! Specification of guess scoring: hits, blows, and code validity.

use vstd::prelude::*;

verus! {

/// A well-formed code (secret or guess): exactly four digits, each in 1..=6,
/// pairwise distinct.
pub open spec fn valid_code(s: Seq<u8>) -> bool {
    &&& s.len() == 4
    &&& forall|i: int| 0 <= i < 4 ==> 1 <= #[trigger] s[i] <= 6
    &&& s.no_duplicates()
}

/// Number of positions `i < n` where the guess matches the secret exactly.
pub open spec fn count_hits(secret: Seq<u8>, guess: Seq<u8>, n: int) -> int
    decreases n,
{
    if n <= 0 {
        0
    } else {
        count_hits(secret, guess, n - 1) + if guess[n - 1] == secret[n - 1] {
            1int
        } else {
            0int
        }
    }
}

/// Number of positions `j < n` with `j != at` where the secret holds `x`.
pub open spec fn count_elsewhere(secret: Seq<u8>, x: u8, at: int, n: int) -> int
    decreases n,
{
    if n <= 0 {
        0
    } else {
        count_elsewhere(secret, x, at, n - 1) + if n - 1 != at && secret[n - 1] == x {
            1int
        } else {
            0int
        }
    }
}

/// Number of ordered pairs `(i, j)` with `i < n`, `j < 4`, `i != j` and
/// `guess[i] == secret[j]`: guessed digits present in the secret but out of
/// position.
pub open spec fn count_blows(secret: Seq<u8>, guess: Seq<u8>, n: int) -> int
    decreases n,
{
    if n <= 0 {
        0
    } else {
        count_blows(secret, guess, n - 1) + count_elsewhere(secret, guess[n - 1], n - 1, 4)
    }
}

/// In a duplicate-free secret, a digit occurs at most once away from any
/// fixed position, and never if the secret already holds it at that position.
proof fn lemma_elsewhere_bound(secret: Seq<u8>, x: u8, at: int)
    requires
        secret.len() == 4,
        secret.no_duplicates(),
        0 <= at < 4,
    ensures
        0 <= count_elsewhere(secret, x, at, 4) <= 1,
        x == secret[at] ==> count_elsewhere(secret, x, at, 4) == 0,
{
    reveal_with_fuel(count_elsewhere, 5);
}

/// Scores are always in range: at most four hits, at most four blows, and no
/// more than four hits and blows together, for any valid guess against any
/// valid secret.
pub proof fn lemma_score_bounds(secret: Seq<u8>, guess: Seq<u8>)
    requires
        valid_code(secret),
        valid_code(guess),
    ensures
        0 <= count_hits(secret, guess, 4) <= 4,
        0 <= count_blows(secret, guess, 4) <= 4,
        count_hits(secret, guess, 4) + count_blows(secret, guess, 4) <= 4,
{
    reveal_with_fuel(count_hits, 5);
    reveal_with_fuel(count_blows, 5);
    lemma_elsewhere_bound(secret, guess[0], 0);
    lemma_elsewhere_bound(secret, guess[1], 1);
    lemma_elsewhere_bound(secret, guess[2], 2);
    lemma_elsewhere_bound(secret, guess[3], 3);
}

/// Guessing the secret itself scores four hits and no blows.
pub proof fn lemma_guess_secret(secret: Seq<u8>)
    requires
        valid_code(secret),
    ensures
        count_hits(secret, secret, 4) == 4,
        count_blows(secret, secret, 4) == 0,
{
    reveal_with_fuel(count_hits, 5);
    reveal_with_fuel(count_blows, 5);
    lemma_elsewhere_bound(secret, secret[0], 0);
    lemma_elsewhere_bound(secret, secret[1], 1);
    lemma_elsewhere_bound(secret, secret[2], 2);
    lemma_elsewhere_bound(secret, secret[3], 3);
}

} // verus!
