//! The state of one game and the handling of a guess.

use crate::rules::{in_range, GameModel, GuessOutcome, MAX_NUMBER, MIN_NUMBER};
use vstd::prelude::*;

verus! {

/// What a list of guesses is as a sequence of integers.
pub open spec fn guesses_view(guesses: Seq<u32>) -> Seq<int> {
    guesses.map_values(|g: u32| g as int)
}

/// Tests whether a number lies in the range the game is played on.
pub fn is_in_range(n: u32) -> (r: bool)
    ensures
        r == in_range(n as int),
{
    MIN_NUMBER <= n && n <= MAX_NUMBER
}

/// Tests whether `guess` is among `guesses`.
pub fn was_guessed(guesses: &Vec<u32>, guess: u32) -> (found: bool)
    ensures
        found == guesses_view(guesses@).contains(guess as int),
{
    let mut i: usize = 0;
    while i < guesses.len()
        invariant
            i <= guesses.len(),
            forall|j: int| 0 <= j < i ==> guesses@[j] != guess,
        decreases guesses.len() - i,
    {
        if guesses[i] == guess {
            assert(guesses_view(guesses@)[i as int] == guess as int);
            return true;
        }
        i += 1;
    }
    false
}

/// One game: the secret, the number of recorded guesses, whether the secret
/// has been found, and the recorded guesses in the order they came.
#[derive(Debug)]
pub struct GameState {
    secret_number: u32,
    attempts: u32,
    game_won: bool,
    previous_guesses: Vec<u32>,
}

impl View for GameState {
    type V = GameModel;

    closed spec fn view(&self) -> GameModel {
        GameModel {
            secret_number: self.secret_number as int,
            attempts: self.attempts as nat,
            game_won: self.game_won,
            previous_guesses: guesses_view(self.previous_guesses@),
        }
    }
}

impl Clone for GameState {
    fn clone(&self) -> (copy: Self)
        ensures
            copy@ == self@,
    {
        GameState {
            secret_number: self.secret_number,
            attempts: self.attempts,
            game_won: self.game_won,
            previous_guesses: self.previous_guesses.clone(),
        }
    }
}

impl GameState {
    /// Whether this game satisfies the invariant of the rules.
    pub open spec fn wf(&self) -> bool {
        self@.wf()
    }

    /// Starts a game with the given secret: nothing guessed, not won.
    pub fn new(secret_number: u32) -> (game: GameState)
        requires
            in_range(secret_number as int),
        ensures
            game.wf(),
            game@ == GameModel::fresh(secret_number as int),
    {
        let game = GameState {
            secret_number,
            attempts: 0,
            game_won: false,
            previous_guesses: Vec::new(),
        };
        assert(game@.previous_guesses =~= Seq::empty());
        game
    }

    /// The hidden number of this game.
    pub fn secret_number(&self) -> (n: u32)
        ensures
            n == self@.secret_number,
    {
        self.secret_number
    }

    /// The number of guesses recorded so far.
    pub fn attempts(&self) -> (n: u32)
        ensures
            n == self@.attempts,
    {
        self.attempts
    }

    /// Whether the secret has been guessed.
    pub fn game_won(&self) -> (won: bool)
        ensures
            won == self@.game_won,
    {
        self.game_won
    }

    /// The recorded guesses, oldest first.
    pub fn previous_guesses(&self) -> (guesses: &Vec<u32>)
        ensures
            guesses_view(guesses@) == self@.previous_guesses,
    {
        &self.previous_guesses
    }

    /// Submits a guess.
    ///
    /// The result says which rule applied; the game afterwards is the game
    /// before with that guess played. In particular a game that was won, a
    /// guess out of range and a repeated guess leave the game untouched.
    pub fn guess(&mut self, guess: u32) -> (outcome: GuessOutcome)
        requires
            old(self).wf(),
        ensures
            final(self).wf(),
            outcome == old(self)@.outcome(guess as int),
            final(self)@ == old(self)@.step(guess as int),
            !outcome.is_recorded() ==> *final(self) == *old(self),
    {
        if self.game_won {
            return GuessOutcome::AlreadyWon;
        }
        if !is_in_range(guess) {
            return GuessOutcome::OutOfRange;
        }
        if was_guessed(&self.previous_guesses, guess) {
            return GuessOutcome::Duplicate;
        }
        proof {
            self@.lemma_attempts_bounded();
            self@.lemma_step_wf(guess as int);
        }
        self.attempts += 1;
        self.previous_guesses.push(guess);
        assert(guesses_view(self.previous_guesses@) =~= guesses_view(
            old(self).previous_guesses@,
        ).push(guess as int));
        if guess == self.secret_number {
            self.game_won = true;
            GuessOutcome::Correct
        } else if guess < self.secret_number {
            GuessOutcome::TooLow
        } else {
            GuessOutcome::TooHigh
        }
    }
}

} // verus!
