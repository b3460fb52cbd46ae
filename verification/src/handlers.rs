//! The two request handlers of the service.
//!
//! Both work on the store they are handed and speak in plain values; taking
//! the store out of its lock and turning the reply into bytes is left to the
//! caller.

use crate::response::{GuessRequest, GuessResponse, NewGameReply, NewGameResponse};
use crate::rules::{in_range, GameModel};
use crate::store::{games_after_guess, reply_to_guess, GameStore};
use vstd::prelude::*;

verus! {

/// The identifier of the one game the service plays.
pub const PLAYER_ID: &'static str = "player1";

/// Starts a new game for the player, in place of the one in progress if
/// there is any, and says so.
///
/// The new game has nothing guessed and is not won, and its secret, whatever
/// was drawn, is in range. Games under other identifiers are not touched.
pub fn create_new_game(games: &mut GameStore) -> (reply: NewGameResponse)
    requires
        old(games).wf(),
    ensures
        final(games).wf(),
        final(games)@.contains_key(PLAYER_ID@),
        in_range(final(games)@[PLAYER_ID@].secret_number),
        final(games)@ == old(games)@.insert(
            PLAYER_ID@,
            GameModel::fresh(final(games)@[PLAYER_ID@].secret_number),
        ),
        reply@ == NewGameReply::started(PLAYER_ID@),
{
    games.create(PLAYER_ID);
    NewGameResponse::started(PLAYER_ID)
}

/// Handles a guess of the player.
///
/// The guess is played on the player's game and the reply tells the outcome
/// and the state of the game afterwards; if the player has no game, nothing
/// changes and the reply says so.
pub fn handle_guess(guess_req: GuessRequest, games: &mut GameStore) -> (reply: GuessResponse)
    requires
        old(games).wf(),
    ensures
        final(games).wf(),
        final(games)@ == games_after_guess(old(games)@, PLAYER_ID@, guess_req.guess as int),
        reply@ == reply_to_guess(old(games)@, PLAYER_ID@, guess_req.guess as int),
{
    games.guess(PLAYER_ID, guess_req.guess)
}

} // verus!
