//! The wording of the replies.

use crate::rules::GuessOutcome;
use vstd::prelude::*;
use vstd::string::StringExecFns;

verus! {

/// The character that stands for a single decimal digit.
pub open spec fn digit_char(d: nat) -> char {
    if d == 0 {
        '0'
    } else if d == 1 {
        '1'
    } else if d == 2 {
        '2'
    } else if d == 3 {
        '3'
    } else if d == 4 {
        '4'
    } else if d == 5 {
        '5'
    } else if d == 6 {
        '6'
    } else if d == 7 {
        '7'
    } else if d == 8 {
        '8'
    } else {
        '9'
    }
}

/// A natural number written in base ten, without leading zeros.
pub open spec fn decimal(n: nat) -> Seq<char>
    decreases n,
{
    if n < 10 {
        seq![digit_char(n)]
    } else {
        decimal(n / 10).push(digit_char(n % 10))
    }
}

/// The text of the reply to a guess with the given outcome, where `attempts`
/// is the number of guesses recorded once the guess has been handled.
pub open spec fn guess_message(outcome: GuessOutcome, attempts: nat) -> Seq<char> {
    match outcome {
        GuessOutcome::NoGame => "No game found. Please start a new game."@,
        GuessOutcome::AlreadyWon => "Game already won! Start a new game."@,
        GuessOutcome::OutOfRange => "❌ Please enter a number between 1 and 100!"@,
        GuessOutcome::Duplicate => "🔄 You already guessed that number! Try a different one."@,
        GuessOutcome::Correct => "🎉 Congratulations! You guessed it in "@ + decimal(attempts)
            + " attempts!"@,
        GuessOutcome::TooLow => "📈 Too low! Try a higher number. (Attempt "@ + decimal(attempts)
            + ")"@,
        GuessOutcome::TooHigh => "📉 Too high! Try a lower number. (Attempt "@ + decimal(attempts)
            + ")"@,
    }
}

/// The text of the reply to the start of a new game.
pub open spec fn new_game_message() -> Seq<char> {
    "New game started! Guess a number between 1 and 100."@
}

/// The one-character string for a decimal digit.
fn digit_str(d: u32) -> (s: &'static str)
    requires
        d < 10,
    ensures
        s@ == seq![digit_char(d as nat)],
{
    proof {
        reveal_strlit("0");
        reveal_strlit("1");
        reveal_strlit("2");
        reveal_strlit("3");
        reveal_strlit("4");
        reveal_strlit("5");
        reveal_strlit("6");
        reveal_strlit("7");
        reveal_strlit("8");
        reveal_strlit("9");
    }
    let s = if d == 0 {
        "0"
    } else if d == 1 {
        "1"
    } else if d == 2 {
        "2"
    } else if d == 3 {
        "3"
    } else if d == 4 {
        "4"
    } else if d == 5 {
        "5"
    } else if d == 6 {
        "6"
    } else if d == 7 {
        "7"
    } else if d == 8 {
        "8"
    } else {
        "9"
    };
    assert(s@ =~= seq![digit_char(d as nat)]);
    s
}

/// Appends `n`, written in base ten, to `text`.
pub fn push_decimal(text: &mut String, n: u32)
    ensures
        final(text)@ == old(text)@ + decimal(n as nat),
    decreases n,
{
    if n >= 10 {
        push_decimal(text, n / 10);
    }
    text.append(digit_str(n % 10));
    assert(text@ =~= old(text)@ + decimal(n as nat));
}

/// Writes `n` in base ten.
pub fn decimal_string(n: u32) -> (text: String)
    ensures
        text@ == decimal(n as nat),
{
    let mut text = String::new();
    push_decimal(&mut text, n);
    assert(text@ =~= decimal(n as nat));
    text
}

/// Words the reply to a guess with the given outcome, where `attempts` is the
/// number of guesses recorded once the guess has been handled.
pub fn render_guess_message(outcome: GuessOutcome, attempts: u32) -> (text: String)
    ensures
        text@ == guess_message(outcome, attempts as nat),
{
    match outcome {
        GuessOutcome::NoGame => String::from_str("No game found. Please start a new game."),
        GuessOutcome::AlreadyWon => String::from_str("Game already won! Start a new game."),
        GuessOutcome::OutOfRange => String::from_str(
            "❌ Please enter a number between 1 and 100!",
        ),
        GuessOutcome::Duplicate => String::from_str(
            "🔄 You already guessed that number! Try a different one.",
        ),
        GuessOutcome::Correct => {
            let mut text = String::from_str("🎉 Congratulations! You guessed it in ");
            push_decimal(&mut text, attempts);
            text.append(" attempts!");
            text
        },
        GuessOutcome::TooLow => {
            let mut text = String::from_str("📈 Too low! Try a higher number. (Attempt ");
            push_decimal(&mut text, attempts);
            text.append(")");
            text
        },
        GuessOutcome::TooHigh => {
            let mut text = String::from_str("📉 Too high! Try a lower number. (Attempt ");
            push_decimal(&mut text, attempts);
            text.append(")");
            text
        },
    }
}

/// Words the reply to the start of a new game.
pub fn render_new_game_message() -> (text: String)
    ensures
        text@ == new_game_message(),
{
    String::from_str("New game started! Guess a number between 1 and 100.")
}

} // verus!
