//! What holds of every game, whatever is guessed.
//!
//! The laws speak of the mathematical game of `rules`; the executable game
//! and the store follow it step by step, as their contracts say.

use crate::rules::{in_range, GameModel, GuessOutcome};
use vstd::prelude::*;

verus! {

/// The guesses that can count in a game with the given secret: all of them up
/// to and including the first one that equals the secret, or all of them if
/// none does.
pub open spec fn decisive_prefix(secret_number: int, guesses: Seq<int>) -> Seq<int> {
    match guesses.index_of_first(secret_number) {
        Some(i) => guesses.take(i + 1),
        None => guesses,
    }
}

/// Whether the guess at position `i` is in range and was not submitted at any
/// earlier position.
pub open spec fn is_valid_novel(guesses: Seq<int>, i: int) -> bool {
    in_range(guesses[i]) && !guesses.take(i).contains(guesses[i])
}

/// How many of the guesses are in range and were not submitted before.
pub open spec fn count_valid_novel(guesses: Seq<int>) -> nat {
    valid_novel_positions(guesses).len()
}

/// The positions of the guesses that are in range and were not submitted
/// before.
pub open spec fn valid_novel_positions(guesses: Seq<int>) -> Set<int> {
    Set::new(|i: int| 0 <= i < guesses.len() && is_valid_novel(guesses, i))
}

/// The guesses that are in range and were not submitted before, in the order
/// in which they were submitted.
pub open spec fn valid_novel(guesses: Seq<int>) -> Seq<int>
    decreases guesses.len(),
{
    if guesses.len() == 0 {
        Seq::empty()
    } else if is_valid_novel(guesses, guesses.len() - 1) {
        valid_novel(guesses.drop_last()).push(guesses.last())
    } else {
        valid_novel(guesses.drop_last())
    }
}

/// `valid_novel` holds exactly the numbers in range that occur among the
/// guesses.
pub proof fn lemma_valid_novel_members(guesses: Seq<int>, n: int)
    ensures
        valid_novel(guesses).contains(n) <==> in_range(n) && guesses.contains(n),
    decreases guesses.len(),
{
    if guesses.len() > 0 {
        let earlier = guesses.drop_last();
        let last = guesses.last();
        lemma_valid_novel_members(earlier, n);
        lemma_valid_novel_members(earlier, last);
        assert(guesses.take(guesses.len() - 1) =~= earlier);
        assert(guesses =~= earlier.push(last));
        if guesses.contains(n) && n != last {
            let i = choose|i: int| 0 <= i < guesses.len() && guesses[i] == n;
            assert(earlier[i] == n);
        }
        if earlier.contains(n) {
            let i = choose|i: int| 0 <= i < earlier.len() && earlier[i] == n;
            assert(guesses[i] == n);
        }
        if is_valid_novel(guesses, guesses.len() - 1) {
            let kept = valid_novel(earlier);
            assert(kept.push(last).last() == last);
            if kept.contains(n) {
                let i = choose|i: int| 0 <= i < kept.len() && kept[i] == n;
                assert(kept.push(last)[i] == n);
            }
            if kept.push(last).contains(n) && n != last {
                let i = choose|i: int| 0 <= i < kept.push(last).len() && kept.push(last)[i] == n;
                assert(kept[i] == n);
            }
        } else if in_range(last) {
            assert(earlier.contains(last));
        }
    }
}

/// No number occurs twice in `valid_novel`.
pub proof fn lemma_valid_novel_distinct(guesses: Seq<int>)
    ensures
        valid_novel(guesses).no_duplicates(),
    decreases guesses.len(),
{
    if guesses.len() > 0 {
        let earlier = guesses.drop_last();
        lemma_valid_novel_distinct(earlier);
        lemma_valid_novel_members(earlier, guesses.last());
        assert(guesses.take(guesses.len() - 1) =~= earlier);
    }
}

/// `valid_novel` has one member for each position that `count_valid_novel`
/// counts.
pub proof fn lemma_valid_novel_len(guesses: Seq<int>)
    ensures
        valid_novel_positions(guesses).finite(),
        valid_novel(guesses).len() == count_valid_novel(guesses),
    decreases guesses.len(),
{
    if guesses.len() == 0 {
        assert(valid_novel_positions(guesses) =~= Set::empty());
    } else {
        let earlier = guesses.drop_last();
        let last = guesses.len() - 1;
        lemma_valid_novel_len(earlier);
        assert forall|i: int| 0 <= i < last implies is_valid_novel(earlier, i) == is_valid_novel(
            guesses,
            i,
        ) by {
            assert(earlier.take(i) =~= guesses.take(i));
        }
        if is_valid_novel(guesses, last) {
            assert(valid_novel_positions(guesses) =~= valid_novel_positions(earlier).insert(last));
        } else {
            assert(valid_novel_positions(guesses) =~= valid_novel_positions(earlier));
        }
    }
}

/// `valid_novel` is the guesses read off at the positions that
/// `is_valid_novel` accepts, all of them and in increasing order. The
/// positions are handed back.
pub proof fn lemma_valid_novel_in_order(guesses: Seq<int>) -> (positions: Seq<int>)
    ensures
        positions.len() == valid_novel(guesses).len(),
        forall|k: int|
            0 <= k < positions.len() ==> 0 <= #[trigger] positions[k] < guesses.len()
                && is_valid_novel(guesses, positions[k]) && valid_novel(guesses)[k]
                == guesses[positions[k]],
        forall|a: int, b: int|
            0 <= a < b < positions.len() ==> #[trigger] positions[a] < #[trigger] positions[b],
        forall|i: int|
            0 <= i < guesses.len() && is_valid_novel(guesses, i) ==> positions.contains(i),
    decreases guesses.len(),
{
    if guesses.len() == 0 {
        Seq::empty()
    } else {
        let earlier = guesses.drop_last();
        let last = guesses.len() - 1;
        let found = lemma_valid_novel_in_order(earlier);
        assert forall|i: int| 0 <= i < last implies is_valid_novel(earlier, i) == is_valid_novel(
            guesses,
            i,
        ) by {
            assert(earlier.take(i) =~= guesses.take(i));
        }
        let positions = if is_valid_novel(guesses, last) {
            found.push(last)
        } else {
            found
        };
        assert forall|i: int|
            0 <= i < guesses.len() && is_valid_novel(guesses, i) implies positions.contains(
            i,
        ) by {
            if i < last {
                let k = choose|k: int| 0 <= k < found.len() && found[k] == i;
                assert(positions[k] == i);
            } else {
                assert(positions[found.len() as int] == i);
            }
        }
        positions
    }
}

/// Playing one sequence of guesses and then another is playing the two in a
/// row.
pub proof fn law_play_in_parts(game: GameModel, first: Seq<int>, then: Seq<int>)
    ensures
        game.play(first + then) == game.play(first).play(then),
    decreases then.len(),
{
    if then.len() == 0 {
        assert(first + then =~= first);
    } else {
        law_play_in_parts(game, first, then.drop_last());
        assert((first + then).drop_last() =~= first + then.drop_last());
        assert((first + then).last() == then.last());
    }
}

/// The secret of a game never changes, whatever is guessed.
pub proof fn law_secret_is_fixed(game: GameModel, guesses: Seq<int>)
    ensures
        game.play(guesses).secret_number == game.secret_number,
    decreases guesses.len(),
{
    if guesses.len() > 0 {
        law_secret_is_fixed(game, guesses.drop_last());
    }
}

/// Every game reached from a fresh one satisfies the invariant of the rules:
/// in particular its history holds no number twice and `attempts` is its
/// length.
pub proof fn law_invariant_holds(secret_number: int, guesses: Seq<int>)
    requires
        in_range(secret_number),
    ensures
        GameModel::fresh(secret_number).play(guesses).wf(),
{
    GameModel::fresh(secret_number).lemma_play_wf(guesses);
}

/// A won game stays as it is: whatever is guessed afterwards, it remains won
/// and neither `attempts` nor the history changes.
pub proof fn law_won_is_final(game: GameModel, later: Seq<int>)
    requires
        game.game_won,
    ensures
        game.play(later) == game,
    decreases later.len(),
{
    if later.len() > 0 {
        law_won_is_final(game, later.drop_last());
    }
}

/// Guessing the secret wins the game, at the latest; and once the secret has
/// been guessed, every later guess leaves the game won and its `attempts` and
/// history unchanged.
pub proof fn law_secret_wins_for_good(game: GameModel, later: Seq<int>)
    requires
        game.wf(),
    ensures
        game.step(game.secret_number).game_won,
        game.step(game.secret_number).play(later) == game.step(game.secret_number),
{
    if !game.game_won {
        if game.previous_guesses.contains(game.secret_number) {
            let i = choose|i: int|
                0 <= i < game.previous_guesses.len() && game.previous_guesses[i]
                    == game.secret_number;
            assert(game.previous_guesses[i] == game.secret_number);
        }
        assert(game.outcome(game.secret_number) == GuessOutcome::Correct);
    }
    law_won_is_final(game.step(game.secret_number), later);
}

/// While the secret has not been submitted, or has only just been, the
/// history is the valid and novel guesses so far, and the game is won exactly
/// when the last guess was the secret.
proof fn lemma_history_before_the_end(secret_number: int, guesses: Seq<int>)
    requires
        in_range(secret_number),
        forall|i: int| 0 <= i < guesses.len() - 1 ==> guesses[i] != secret_number,
    ensures
        GameModel::fresh(secret_number).play(guesses).previous_guesses == valid_novel(guesses),
        GameModel::fresh(secret_number).play(guesses).game_won <==> guesses.len() > 0
            && guesses.last() == secret_number,
    decreases guesses.len(),
{
    let fresh = GameModel::fresh(secret_number);
    if guesses.len() > 0 {
        let earlier = guesses.drop_last();
        let last = guesses.last();
        let before = fresh.play(earlier);
        lemma_history_before_the_end(secret_number, earlier);
        law_secret_is_fixed(fresh, earlier);
        lemma_valid_novel_members(earlier, last);
        assert(guesses.take(guesses.len() - 1) =~= earlier);
        if earlier.len() > 0 {
            assert(earlier.last() == guesses[earlier.len() - 1]);
        }
        assert(!before.game_won);
    }
}

/// Guesses submitted after the first one that equals the secret change
/// nothing: the game is the one reached by the decisive prefix.
pub proof fn law_only_the_decisive_prefix_counts(secret_number: int, guesses: Seq<int>)
    requires
        in_range(secret_number),
    ensures
        GameModel::fresh(secret_number).play(guesses) == GameModel::fresh(secret_number).play(
            decisive_prefix(secret_number, guesses),
        ),
{
    let fresh = GameModel::fresh(secret_number);
    guesses.index_of_first_ensures(secret_number);
    if let Some(i) = guesses.index_of_first(secret_number) {
        let prefix = guesses.take(i + 1);
        let rest = guesses.skip(i + 1);
        assert(guesses =~= prefix + rest);
        law_play_in_parts(fresh, prefix, rest);
        lemma_history_before_the_end(secret_number, prefix);
        law_won_is_final(fresh.play(prefix), rest);
    }
}

/// The history of a game is exactly the guesses that were in range and not
/// submitted before, in the order of submission, among those up to and
/// including the first correct one; and it holds no number twice.
pub proof fn law_history_is_valid_novel_guesses(secret_number: int, guesses: Seq<int>)
    requires
        in_range(secret_number),
    ensures
        GameModel::fresh(secret_number).play(guesses).previous_guesses == valid_novel(
            decisive_prefix(secret_number, guesses),
        ),
        GameModel::fresh(secret_number).play(guesses).previous_guesses.no_duplicates(),
{
    let prefix = decisive_prefix(secret_number, guesses);
    guesses.index_of_first_ensures(secret_number);
    law_only_the_decisive_prefix_counts(secret_number, guesses);
    lemma_history_before_the_end(secret_number, prefix);
    lemma_valid_novel_distinct(prefix);
}

/// `attempts` is the number of guesses that were in range and not submitted
/// before, among those up to and including the first correct one.
pub proof fn law_attempts_count_valid_novel_guesses(secret_number: int, guesses: Seq<int>)
    requires
        in_range(secret_number),
    ensures
        GameModel::fresh(secret_number).play(guesses).attempts == count_valid_novel(
            decisive_prefix(secret_number, guesses),
        ),
{
    law_history_is_valid_novel_guesses(secret_number, guesses);
    law_invariant_holds(secret_number, guesses);
    lemma_valid_novel_len(decisive_prefix(secret_number, guesses));
}

} // verus!
