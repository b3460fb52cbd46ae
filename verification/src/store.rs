//! The store that keeps the games, each under its identifier.

use crate::game::GameState;
use crate::random::random_in_range;
use crate::response::{GuessReply, GuessResponse};
use crate::rules::{in_range, GameModel, MAX_NUMBER, MIN_NUMBER};
use vstd::hash_map::StringHashMap;
use vstd::prelude::*;

verus! {

/// The games, each under its identifier, as a mathematical map.
pub type StoreModel = Map<Seq<char>, GameModel>;

/// The games after a guess has been submitted to the game kept under `id`:
/// that game has the guess played on it; without such a game nothing changes.
pub open spec fn games_after_guess(games: StoreModel, id: Seq<char>, guess: int) -> StoreModel {
    if games.contains_key(id) {
        games.insert(id, games[id].step(guess))
    } else {
        games
    }
}

/// The reply to a guess submitted to the game kept under `id`.
pub open spec fn reply_to_guess(games: StoreModel, id: Seq<char>, guess: int) -> GuessReply {
    if games.contains_key(id) {
        GuessReply::of_game(games[id].outcome(guess), games[id].step(guess))
    } else {
        GuessReply::no_game()
    }
}

/// The store of games.
pub struct GameStore {
    games: StringHashMap<GameState>,
}

impl View for GameStore {
    type V = StoreModel;

    closed spec fn view(&self) -> StoreModel {
        self.games@.map_values(|game: GameState| game@)
    }
}

impl GameStore {
    /// Whether every game in the store satisfies the invariant of the rules.
    pub open spec fn wf(&self) -> bool {
        forall|id: Seq<char>| self@.contains_key(id) ==> (#[trigger] self@[id]).wf()
    }

    /// An empty store.
    pub fn new() -> (store: GameStore)
        ensures
            store.wf(),
            store@ == StoreModel::empty(),
    {
        let store = GameStore { games: StringHashMap::new() };
        assert(store@ =~= StoreModel::empty());
        store
    }

    /// Starts a game with the given secret under `id`, in place of any game
    /// that was kept there.
    pub fn create_with_secret(&mut self, id: &str, secret_number: u32)
        requires
            old(self).wf(),
            in_range(secret_number as int),
        ensures
            final(self).wf(),
            final(self)@ == old(self)@.insert(id@, GameModel::fresh(secret_number as int)),
    {
        let game = GameState::new(secret_number);
        self.games.insert(id.to_owned(), game);
        assert(self@ =~= old(self)@.insert(id@, GameModel::fresh(secret_number as int)));
    }

    /// Starts a game with a secret drawn at random under `id`, in place of
    /// any game that was kept there.
    ///
    /// Whatever number is drawn, it is in range, and the store afterwards is
    /// the store before with a fresh game for that number under `id`.
    pub fn create(&mut self, id: &str)
        requires
            old(self).wf(),
        ensures
            final(self).wf(),
            final(self)@.contains_key(id@),
            in_range(final(self)@[id@].secret_number),
            final(self)@ == old(self)@.insert(
                id@,
                GameModel::fresh(final(self)@[id@].secret_number),
            ),
    {
        let secret_number = random_in_range(MIN_NUMBER, MAX_NUMBER);
        self.create_with_secret(id, secret_number);
    }

    /// Tells whether a game is kept under `id`.
    pub fn contains(&self, id: &str) -> (found: bool)
        ensures
            found == self@.contains_key(id@),
    {
        self.games.contains_key(id)
    }

    /// The game kept under `id`, if there is one. The store is not changed.
    pub fn get(&self, id: &str) -> (found: Option<&GameState>)
        ensures
            match found {
                Some(game) => self@.contains_key(id@) && game@ == self@[id@],
                None => !self@.contains_key(id@),
            },
            self.wf() && found is Some ==> found->0.wf(),
    {
        let found = self.games.get(id);
        assert(found matches Some(game) ==> game@ == self@[id@]);
        found
    }

    /// Applies `change` to the game kept under `id` and hands back what it
    /// returns beside the changed game; without such a game the store stays
    /// as it is and the result is `None`.
    ///
    /// `change` must accept every game that satisfies the invariant, and must
    /// hand back a game that satisfies it and has the same secret.
    pub fn mutate<R, F: FnOnce(GameState) -> (GameState, R)>(
        &mut self,
        id: &str,
        change: F,
    ) -> (result: Option<R>)
        requires
            old(self).wf(),
            forall|game: GameState| game.wf() ==> #[trigger] change.requires((game,)),
            forall|game: GameState, out: (GameState, R)|
                game.wf() && #[trigger] change.ensures((game,), out) ==> out.0.wf()
                    && out.0@.secret_number == game@.secret_number,
        ensures
            final(self).wf(),
            result is Some <==> old(self)@.contains_key(id@),
            result is None ==> final(self)@ == old(self)@,
            result matches Some(r) ==> (exists|before: GameState, after: GameState|
                before@ == old(self)@[id@] && #[trigger] change.ensures((before,), (after, r))
                    && final(self)@ == old(self)@.insert(id@, after@)),
            result is Some ==> final(self)@[id@].secret_number == old(self)@[id@].secret_number,
    {
        let before = match self.games.get(id) {
            Some(game) => game.clone(),
            None => {
                return None;
            },
        };
        assert(before@ == old(self)@[id@]);
        let ghost taken = before;
        let (after, r) = change(before);
        let ghost given = after;
        self.games.insert(id.to_owned(), after);
        assert(self@ =~= old(self)@.insert(id@, given@));
        let result = Some(r);
        assert(change.ensures((taken,), (given, result->0)));
        result
    }

    /// Submits a guess to the game kept under `id`.
    ///
    /// With a game under `id`, the guess is played on it and the reply tells
    /// the outcome and the state of the game afterwards; without one, the
    /// store stays as it is and the reply says that no game was found.
    pub fn guess(&mut self, id: &str, guess: u32) -> (reply: GuessResponse)
        requires
            old(self).wf(),
        ensures
            final(self).wf(),
            final(self)@ == games_after_guess(old(self)@, id@, guess as int),
            reply@ == reply_to_guess(old(self)@, id@, guess as int),
    {
        let play = |game: GameState| -> (out: (GameState, GuessResponse))
            requires
                game.wf(),
            ensures
                out.0.wf(),
                out.0@ == game@.step(guess as int),
                out.1@ == GuessReply::of_game(game@.outcome(guess as int), out.0@),
            {
                let mut game = game;
                let outcome = game.guess(guess);
                let reply = GuessResponse::of_game(outcome, &game);
                (game, reply)
            };
        match self.mutate(id, play) {
            Some(reply) => reply,
            None => GuessResponse::no_game(),
        }
    }
}

} // verus!
