//! The rules of the game as a mathematical state machine.
//!
//! Everything here is specification: the executable types elsewhere in the
//! crate are described by the functions of this module.

use vstd::prelude::*;
use vstd::set_lib::{lemma_int_range, lemma_len_subset, set_int_range};

verus! {

/// Smallest number a player may guess, and the smallest possible secret.
pub const MIN_NUMBER: u32 = 1;

/// Largest number a player may guess, and the largest possible secret.
pub const MAX_NUMBER: u32 = 100;

/// Whether `n` lies in the closed range of numbers the game is played on.
pub open spec fn in_range(n: int) -> bool {
    MIN_NUMBER <= n <= MAX_NUMBER
}

/// What became of one submitted guess.
///
/// The variants are listed in the order in which the conditions are tested:
/// the first one that applies decides.
#[derive(Clone, Copy, Debug, PartialEq, Eq, Structural)]
pub enum GuessOutcome {
    /// There is no game under the identifier that was asked for.
    NoGame,
    /// The game had already been won; the guess was ignored.
    AlreadyWon,
    /// The guess lies outside the range of the game; it was ignored.
    OutOfRange,
    /// The same number had been recorded before; the guess was ignored.
    Duplicate,
    /// The guess was recorded and equals the secret.
    Correct,
    /// The guess was recorded and is smaller than the secret.
    TooLow,
    /// The guess was recorded and is larger than the secret.
    TooHigh,
}

impl GuessOutcome {
    /// Whether a guess with this outcome counts as an attempt and enters the
    /// history.
    pub open spec fn is_recorded(self) -> bool {
        self is Correct || self is TooLow || self is TooHigh
    }

    /// Tells whether a guess with this outcome was recorded.
    pub fn recorded(&self) -> (r: bool)
        ensures
            r == self.is_recorded(),
    {
        match self {
            GuessOutcome::Correct | GuessOutcome::TooLow | GuessOutcome::TooHigh => true,
            _ => false,
        }
    }
}

/// The state of one game, as mathematics sees it.
pub struct GameModel {
    /// The hidden number the player is looking for.
    pub secret_number: int,
    /// How many guesses have been recorded.
    pub attempts: nat,
    /// Whether the secret has been guessed.
    pub game_won: bool,
    /// The recorded guesses, oldest first.
    pub previous_guesses: Seq<int>,
}

impl GameModel {
    /// The state of a game that has just been started with the given secret.
    pub open spec fn fresh(secret_number: int) -> GameModel {
        GameModel {
            secret_number,
            attempts: 0,
            game_won: false,
            previous_guesses: Seq::empty(),
        }
    }

    /// The invariant of a game: the secret and every recorded guess are in
    /// range, no guess is recorded twice, `attempts` counts the recorded
    /// guesses, and the secret is among them exactly when the game is won, in
    /// which case it is the last one.
    pub open spec fn wf(self) -> bool {
        &&& in_range(self.secret_number)
        &&& self.attempts == self.previous_guesses.len()
        &&& self.previous_guesses.no_duplicates()
        &&& forall|i: int|
            0 <= i < self.previous_guesses.len() ==> in_range(#[trigger] self.previous_guesses[i])
        &&& forall|i: int|
            0 <= i < self.previous_guesses.len() ==> (#[trigger] self.previous_guesses[i]
                == self.secret_number <==> self.game_won && i == self.previous_guesses.len() - 1)
        &&& self.game_won ==> self.previous_guesses.len() > 0
    }

    /// What a guess submitted in this state leads to.
    pub open spec fn outcome(self, guess: int) -> GuessOutcome {
        if self.game_won {
            GuessOutcome::AlreadyWon
        } else if !in_range(guess) {
            GuessOutcome::OutOfRange
        } else if self.previous_guesses.contains(guess) {
            GuessOutcome::Duplicate
        } else if guess == self.secret_number {
            GuessOutcome::Correct
        } else if guess < self.secret_number {
            GuessOutcome::TooLow
        } else {
            GuessOutcome::TooHigh
        }
    }

    /// The state after a guess has been submitted: a recorded guess is
    /// counted and appended to the history, and wins the game if it equals
    /// the secret; any other guess leaves the state as it is.
    pub open spec fn step(self, guess: int) -> GameModel {
        if self.outcome(guess).is_recorded() {
            GameModel {
                secret_number: self.secret_number,
                attempts: self.attempts + 1,
                game_won: guess == self.secret_number,
                previous_guesses: self.previous_guesses.push(guess),
            }
        } else {
            self
        }
    }

    /// The state after a whole sequence of guesses has been submitted, one
    /// after the other.
    pub open spec fn play(self, guesses: Seq<int>) -> GameModel
        decreases guesses.len(),
    {
        if guesses.len() == 0 {
            self
        } else {
            self.play(guesses.drop_last()).step(guesses.last())
        }
    }
}

/// A sequence of distinct integers that all lie in `lo..hi` has at most
/// `hi - lo` members.
pub proof fn lemma_distinct_bounded(s: Seq<int>, lo: int, hi: int)
    requires
        lo <= hi,
        s.no_duplicates(),
        forall|i: int| 0 <= i < s.len() ==> lo <= #[trigger] s[i] < hi,
    ensures
        s.len() <= hi - lo,
{
    s.unique_seq_to_set();
    lemma_int_range(lo, hi);
    assert(s.to_set().subset_of(set_int_range(lo, hi)));
    lemma_len_subset(s.to_set(), set_int_range(lo, hi));
}

impl GameModel {
    /// A game never holds more recorded guesses than there are numbers in
    /// range, and a game that is still open holds fewer: the secret is not
    /// among them.
    pub proof fn lemma_attempts_bounded(self)
        requires
            self.wf(),
        ensures
            self.attempts <= MAX_NUMBER - MIN_NUMBER + 1,
            !self.game_won ==> self.attempts < MAX_NUMBER - MIN_NUMBER + 1,
    {
        let lo = MIN_NUMBER as int;
        let hi = MAX_NUMBER as int + 1;
        if self.game_won {
            lemma_distinct_bounded(self.previous_guesses, lo, hi);
        } else {
            let with_secret = self.previous_guesses.push(self.secret_number);
            lemma_distinct_bounded(with_secret, lo, hi);
        }
    }

    /// Submitting a guess keeps the invariant of the game.
    pub proof fn lemma_step_wf(self, guess: int)
        requires
            self.wf(),
        ensures
            self.step(guess).wf(),
    {
        if self.outcome(guess).is_recorded() {
            let next = self.step(guess);
            assert forall|i: int| 0 <= i < next.previous_guesses.len() implies in_range(
                #[trigger] next.previous_guesses[i],
            ) by {
                if i < self.previous_guesses.len() {
                    assert(next.previous_guesses[i] == self.previous_guesses[i]);
                }
            }
            assert forall|i: int| 0 <= i < next.previous_guesses.len() implies (
            #[trigger] next.previous_guesses[i] == next.secret_number <==> next.game_won && i
                == next.previous_guesses.len() - 1) by {
                if i < self.previous_guesses.len() {
                    assert(next.previous_guesses[i] == self.previous_guesses[i]);
                }
            }
        }
    }

    /// Submitting any sequence of guesses keeps the invariant of the game.
    pub proof fn lemma_play_wf(self, guesses: Seq<int>)
        requires
            self.wf(),
        ensures
            self.play(guesses).wf(),
        decreases guesses.len(),
    {
        if guesses.len() > 0 {
            self.lemma_play_wf(guesses.drop_last());
            self.play(guesses.drop_last()).lemma_step_wf(guesses.last());
        }
    }
}

} // verus!
