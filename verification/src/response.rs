//! The values that travel between a client and the handlers.

use crate::game::{guesses_view, GameState};
use crate::rules::{GameModel, GuessOutcome};
use crate::text::{
    guess_message, new_game_message, render_guess_message, render_new_game_message,
};
use vstd::prelude::*;

verus! {

/// A submitted guess.
#[derive(Clone, Copy, Debug)]
pub struct GuessRequest {
    pub guess: u32,
}

/// The reply to a submitted guess: a message for the player and the state of
/// the game once the guess has been handled.
#[derive(Debug)]
pub struct GuessResponse {
    pub message: String,
    pub attempts: u32,
    pub game_won: bool,
    pub previous_guesses: Vec<u32>,
}

/// What a `GuessResponse` says.
pub struct GuessReply {
    pub message: Seq<char>,
    pub attempts: nat,
    pub game_won: bool,
    pub previous_guesses: Seq<int>,
}

impl View for GuessResponse {
    type V = GuessReply;

    open spec fn view(&self) -> GuessReply {
        GuessReply {
            message: self.message@,
            attempts: self.attempts as nat,
            game_won: self.game_won,
            previous_guesses: guesses_view(self.previous_guesses@),
        }
    }
}

impl GuessReply {
    /// The reply to a guess that had the given outcome and left the game in
    /// the state `after`: the message for the outcome, and the counters and
    /// history of that state.
    pub open spec fn of_game(outcome: GuessOutcome, after: GameModel) -> GuessReply {
        GuessReply {
            message: guess_message(outcome, after.attempts),
            attempts: after.attempts,
            game_won: after.game_won,
            previous_guesses: after.previous_guesses,
        }
    }

    /// The reply to a guess for which there is no game: nothing attempted,
    /// nothing won, no history.
    pub open spec fn no_game() -> GuessReply {
        GuessReply {
            message: guess_message(GuessOutcome::NoGame, 0),
            attempts: 0,
            game_won: false,
            previous_guesses: Seq::empty(),
        }
    }
}

impl GuessResponse {
    /// Builds the reply to a guess that had the given outcome, from the game
    /// as it is once the guess has been handled.
    pub fn of_game(outcome: GuessOutcome, game: &GameState) -> (reply: GuessResponse)
        ensures
            reply@ == GuessReply::of_game(outcome, game@),
    {
        let attempts = game.attempts();
        GuessResponse {
            message: render_guess_message(outcome, attempts),
            attempts,
            game_won: game.game_won(),
            previous_guesses: game.previous_guesses().clone(),
        }
    }

    /// Builds the reply to a guess for which there is no game.
    pub fn no_game() -> (reply: GuessResponse)
        ensures
            reply@ == GuessReply::no_game(),
    {
        let reply = GuessResponse {
            message: render_guess_message(GuessOutcome::NoGame, 0),
            attempts: 0,
            game_won: false,
            previous_guesses: Vec::new(),
        };
        assert(guesses_view(reply.previous_guesses@) =~= Seq::empty());
        reply
    }
}

/// The reply to the start of a new game: a message for the player and the
/// identifier under which the game is kept.
#[derive(Debug)]
pub struct NewGameResponse {
    pub message: String,
    pub game_id: String,
}

/// What a `NewGameResponse` says.
pub struct NewGameReply {
    pub message: Seq<char>,
    pub game_id: Seq<char>,
}

impl View for NewGameResponse {
    type V = NewGameReply;

    open spec fn view(&self) -> NewGameReply {
        NewGameReply { message: self.message@, game_id: self.game_id@ }
    }
}

impl NewGameReply {
    /// The reply to the start of a game kept under `game_id`.
    pub open spec fn started(game_id: Seq<char>) -> NewGameReply {
        NewGameReply { message: new_game_message(), game_id }
    }
}

impl NewGameResponse {
    /// Builds the reply to the start of a game kept under `game_id`.
    pub fn started(game_id: &str) -> (reply: NewGameResponse)
        ensures
            reply@ == NewGameReply::started(game_id@),
    {
        NewGameResponse { message: render_new_game_message(), game_id: game_id.to_owned() }
    }
}

} // verus!
