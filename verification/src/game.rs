//! The game engine: secret, attempt counter, termination flag.

use rand::seq::SliceRandom;
use vstd::prelude::*;
use vstd::string::StrSliceExecFns;

use crate::score::count_blows;
use crate::score::count_elsewhere;
use crate::score::count_hits;
use crate::score::valid_code;

verus! {

/// The digit a character stands for: 1 through 6 for '1' through '6', and 0
/// for every other character.
pub open spec fn digit_of(c: char) -> u8 {
    if c == '1' {
        1
    } else if c == '2' {
        2
    } else if c == '3' {
        3
    } else if c == '4' {
        4
    } else if c == '5' {
        5
    } else if c == '6' {
        6
    } else {
        0
    }
}

/// A character the parser accepts: a decimal digit between 1 and 6.
pub open spec fn is_code_char(c: char) -> bool {
    digit_of(c) != 0
}

/// A raw input the parser accepts: exactly four characters, each a digit
/// between 1 and 6, no two alike.
pub open spec fn acceptable_input(s: Seq<char>) -> bool {
    &&& s.len() == 4
    &&& forall|i: int| 0 <= i < 4 ==> is_code_char(#[trigger] s[i])
    &&& forall|i: int, j: int| 0 <= i < j < 4 ==> s[i] != s[j]
}

/// The outcome of evaluating one guess.
pub struct GuessResult {
    /// Digits right in both value and position.
    pub hits: u8,
    /// Digits present in the secret but at another position.
    pub blows: u8,
    /// Whether the guess equals the secret (all four positions hit).
    pub is_correct: bool,
    /// Whether the game ended, by this guess or earlier.
    pub is_game_over: bool,
}

/// Ghost image of a [`Game`]: what its contracts speak about.
pub ghost struct GameView {
    /// The hidden code.
    pub answer: Seq<u8>,
    /// Guesses evaluated so far.
    pub attempts: u8,
    /// The attempt budget.
    pub max_attempts: u8,
    /// Whether the game has ended.
    pub is_game_over: bool,
}

/// State of one game: the hidden secret, how many guesses were used, the
/// fixed budget, and whether the game has ended.
pub struct Game {
    /// The hidden code: four pairwise-distinct digits in 1..=6.
    answer: Vec<u8>,
    /// Guesses evaluated so far.
    attempts: u8,
    /// The attempt budget; always 10.
    max_attempts: u8,
    /// Set once the secret is found or the budget is spent; never reset.
    is_game_over: bool,
}

impl View for Game {
    type V = GameView;

    closed spec fn view(&self) -> GameView {
        GameView {
            answer: self.answer@,
            attempts: self.attempts,
            max_attempts: self.max_attempts,
            is_game_over: self.is_game_over,
        }
    }
}

impl Game {
    /// Starts a fresh game: a newly drawn secret, no attempts spent, budget
    /// of ten, not over. The secret is the first four digits of a random
    /// permutation of 1..=6, so it is always a valid code.
    pub fn new() -> (g: Game)
        ensures
            g.wf(),
            g@.attempts == 0,
            g@.max_attempts == 10,
            !g@.is_game_over,
    {
        let mut numbers: Vec<u8> = vec![1, 2, 3, 4, 5, 6];
        let ghost base: Seq<u8> = numbers@;
        shuffle(&mut numbers);

        proof {
            broadcast use vstd::seq_lib::group_to_multiset_ensures;

            assert(base.no_duplicates());
            base.lemma_multiset_has_no_duplicates();
            numbers@.lemma_multiset_has_no_duplicates_conv();
            assert forall|i: int| 0 <= i < 6 implies 1 <= #[trigger] numbers@[i] <= 6 by {
                assert(numbers@.to_multiset().count(numbers@[i]) > 0);
                assert(base.contains(numbers@[i]));
            }
        }

        let mut answer: Vec<u8> = Vec::new();
        let mut i: usize = 0;
        while i < 4
            invariant
                i <= 4,
                numbers@.len() == 6,
                answer@ == numbers@.subrange(0, i as int),
            decreases 4 - i,
        {
            answer.push(numbers[i]);
            proof {
                assert(answer@ =~= numbers@.subrange(0, i + 1));
            }
            i = i + 1;
        }

        Game { answer, attempts: 0, max_attempts: 10, is_game_over: false }
    }

    /// Starts a game over a fixed, already-valid code: no attempts spent,
    /// budget of ten, not over. Meant for replaying known positions; the
    /// caller owes a valid code.
    pub fn with_answer(answer: Vec<u8>) -> (g: Game)
        requires
            valid_code(answer@),
        ensures
            g.wf(),
            g@.answer == answer@,
            g@.attempts == 0,
            g@.max_attempts == 10,
            !g@.is_game_over,
    {
        Game { answer, attempts: 0, max_attempts: 10, is_game_over: false }
    }

    /// Everything the engine maintains between calls: the secret is a valid
    /// code, the budget is 10, the counter never passes the budget, and a
    /// spent budget means the game is over.
    pub open spec fn wf(self) -> bool {
        &&& valid_code(self@.answer)
        &&& self@.max_attempts == 10
        &&& self@.attempts <= self@.max_attempts
        &&& self@.attempts == self@.max_attempts ==> self@.is_game_over
    }

    /// How many guesses have been evaluated so far.
    pub fn get_attempts(&self) -> (r: u8)
        ensures
            r == self@.attempts,
    {
        self.attempts
    }

    /// The attempt budget (always 10).
    pub fn get_max_attempts(&self) -> (r: u8)
        ensures
            r == self@.max_attempts,
    {
        self.max_attempts
    }

    /// Whether the game has ended.
    pub fn is_game_over(&self) -> (r: bool)
        ensures
            r == self@.is_game_over,
    {
        self.is_game_over
    }

    /// The hidden code, for revealing it when the player loses.
    pub fn get_answer(&self) -> (r: &Vec<u8>)
        ensures
            r@ == self@.answer,
    {
        &self.answer
    }

    /// Evaluates one guess: counts hits and blows against the secret, spends
    /// one attempt, and ends the game when the guess is correct or the budget
    /// is now spent. The game-over flag is one-way: once set it stays set.
    ///
    /// The attempt counter must still be below the budget; after a loss the
    /// engine is not to be called again (after a win, further calls are
    /// harmless and keep the game over).
    pub fn guess(&mut self, guess: &Vec<u8>) -> (r: GuessResult)
        requires
            old(self).wf(),
            old(self)@.attempts < old(self)@.max_attempts,
            guess@.len() == 4,
        ensures
            final(self).wf(),
            final(self)@.answer == old(self)@.answer,
            final(self)@.max_attempts == old(self)@.max_attempts,
            final(self)@.attempts == old(self)@.attempts + 1,
            r.hits == count_hits(old(self)@.answer, guess@, 4),
            r.blows == count_blows(old(self)@.answer, guess@, 4),
            r.is_correct == (r.hits == 4),
            final(self)@.is_game_over == (old(self)@.is_game_over || r.is_correct
                || final(self)@.attempts == final(self)@.max_attempts),
            r.is_game_over == final(self)@.is_game_over,
            old(self)@.is_game_over ==> final(self)@.is_game_over,
    {
        self.attempts = self.attempts + 1;

        let hits = score_hits(&self.answer, guess);
        let blows = score_blows(&self.answer, guess);

        let is_correct = hits == 4;
        let remaining_attempts = self.max_attempts - self.attempts;
        if is_correct || remaining_attempts == 0 {
            self.is_game_over = true;
        }

        GuessResult { hits, blows, is_correct, is_game_over: self.is_game_over }
    }

    /// Turns raw player input into a guess. Accepts exactly the strings of
    /// four pairwise-distinct digits between 1 and 6, and returns their
    /// values in input order; everything else is rejected with `None`. Pure:
    /// reads no game state.
    pub fn parse_input(input: &str) -> (r: Option<Vec<u8>>)
        ensures
            r is Some <==> acceptable_input(input@),
            (match r {
                Some(digits) => {
                    &&& digits@.len() == 4
                    &&& (forall|i: int| 0 <= i < 4 ==> digits@[i] == digit_of(input@[i]))
                    &&& valid_code(digits@)
                },
                None => true,
            }),
    {
        if input.unicode_len() != 4 {
            return None;
        }

        let mut result: Vec<u8> = Vec::new();
        let mut i: usize = 0;
        while i < 4
            invariant
                i <= 4,
                input@.len() == 4,
                result@.len() == i,
                forall|k: int| 0 <= k < i ==> is_code_char(#[trigger] input@[k]),
                forall|k: int| 0 <= k < i ==> #[trigger] result@[k] == digit_of(input@[k]),
            decreases 4 - i,
        {
            let c = input.get_char(i);
            let d: u8 = if c == '1' {
                1
            } else if c == '2' {
                2
            } else if c == '3' {
                3
            } else if c == '4' {
                4
            } else if c == '5' {
                5
            } else if c == '6' {
                6
            } else {
                0
            };
            if d == 0 {
                return None;
            }
            result.push(d);
            i = i + 1;
        }

        let mut i: usize = 0;
        while i < 4
            invariant
                i <= 4,
                input@.len() == 4,
                result@.len() == 4,
                forall|k: int| 0 <= k < 4 ==> is_code_char(#[trigger] input@[k]),
                forall|k: int| 0 <= k < 4 ==> #[trigger] result@[k] == digit_of(input@[k]),
                forall|p: int, q: int| 0 <= p < q < 4 && p < i ==> result@[p] != result@[q],
            decreases 4 - i,
        {
            let mut j: usize = i + 1;
            while j < 4
                invariant
                    i < 4,
                    i < j <= 4,
                    input@.len() == 4,
                    result@.len() == 4,
                    forall|k: int| 0 <= k < 4 ==> is_code_char(#[trigger] input@[k]),
                    forall|k: int| 0 <= k < 4 ==> #[trigger] result@[k] == digit_of(input@[k]),
                    forall|q: int| i < q < j ==> result@[i as int] != result@[q],
                decreases 4 - j,
            {
                if result[i] == result[j] {
                    return None;
                }
                j = j + 1;
            }
            i = i + 1;
        }

        proof {
            assert forall|p: int, q: int| 0 <= p < q < 4 implies input@[p] != input@[q] by {
                assert(result@[p] != result@[q]);
            }
        }

        Some(result)
    }
}

/// Relies on rand::seq::SliceRandom::shuffle, a Fisher–Yates shuffle that
/// permutes the slice in place, and on rand::thread_rng for the randomness.
/// Which permutation comes out is random; only that the digits are rearranged
/// is stated.
#[verifier::external_body]
fn shuffle(v: &mut Vec<u8>)
    ensures
        final(v)@.to_multiset() == old(v)@.to_multiset(),
        final(v)@.len() == old(v)@.len(),
{
    let mut rng = rand::thread_rng();
    v.shuffle(&mut rng);
}

/// Counts the positions where the guess matches the secret exactly.
fn score_hits(secret: &Vec<u8>, guess: &Vec<u8>) -> (r: u8)
    requires
        secret@.len() == 4,
        guess@.len() == 4,
    ensures
        r == count_hits(secret@, guess@, 4),
{
    let mut hits: u8 = 0;
    let mut i: usize = 0;
    while i < 4
        invariant
            i <= 4,
            secret@.len() == 4,
            guess@.len() == 4,
            hits <= i,
            hits == count_hits(secret@, guess@, i as int),
        decreases 4 - i,
    {
        if guess[i] == secret[i] {
            hits = hits + 1;
        }
        i = i + 1;
    }
    hits
}

/// Counts the ordered pairs of distinct positions where a guessed digit
/// appears in the secret.
fn score_blows(secret: &Vec<u8>, guess: &Vec<u8>) -> (r: u8)
    requires
        secret@.len() == 4,
        guess@.len() == 4,
    ensures
        r == count_blows(secret@, guess@, 4),
{
    let mut blows: u8 = 0;
    let mut i: usize = 0;
    while i < 4
        invariant
            i <= 4,
            secret@.len() == 4,
            guess@.len() == 4,
            blows <= 4 * i,
            blows == count_blows(secret@, guess@, i as int),
        decreases 4 - i,
    {
        let mut j: usize = 0;
        while j < 4
            invariant
                i < 4,
                j <= 4,
                secret@.len() == 4,
                guess@.len() == 4,
                blows <= 4 * i + j,
                blows == count_blows(secret@, guess@, i as int) + count_elsewhere(
                    secret@,
                    guess@[i as int],
                    i as int,
                    j as int,
                ),
            decreases 4 - j,
        {
            if i != j && guess[i] == secret[j] {
                blows = blows + 1;
            }
            j = j + 1;
        }
        i = i + 1;
    }
    blows
}

} // verus!
