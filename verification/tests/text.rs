use guessing_game::rules::GuessOutcome;
use guessing_game::text::{
    decimal_string, push_decimal, render_guess_message, render_new_game_message,
};

#[test]
fn decimal_of_single_digits() {
    for (n, text) in [(0, "0"), (1, "1"), (5, "5"), (9, "9")] {
        assert_eq!(decimal_string(n), text);
    }
}

#[test]
fn decimal_of_larger_numbers() {
    assert_eq!(decimal_string(10), "10");
    assert_eq!(decimal_string(42), "42");
    assert_eq!(decimal_string(100), "100");
    assert_eq!(decimal_string(1234567890), "1234567890");
    assert_eq!(decimal_string(u32::MAX), "4294967295");
}

#[test]
fn decimal_agrees_with_the_standard_formatting() {
    for n in 0..=2000 {
        assert_eq!(decimal_string(n), format!("{}", n));
    }
}

#[test]
fn push_decimal_appends() {
    let mut text = String::from("n = ");
    push_decimal(&mut text, 307);
    assert_eq!(text, "n = 307");
}

#[test]
fn fixed_messages() {
    assert_eq!(
        render_guess_message(GuessOutcome::NoGame, 0),
        "No game found. Please start a new game."
    );
    assert_eq!(
        render_guess_message(GuessOutcome::AlreadyWon, 3),
        "Game already won! Start a new game."
    );
    assert_eq!(
        render_guess_message(GuessOutcome::OutOfRange, 3),
        "❌ Please enter a number between 1 and 100!"
    );
    assert_eq!(
        render_guess_message(GuessOutcome::Duplicate, 3),
        "🔄 You already guessed that number! Try a different one."
    );
    assert_eq!(
        render_new_game_message(),
        "New game started! Guess a number between 1 and 100."
    );
}

#[test]
fn messages_with_the_attempt_count() {
    assert_eq!(
        render_guess_message(GuessOutcome::Correct, 3),
        "🎉 Congratulations! You guessed it in 3 attempts!"
    );
    assert_eq!(
        render_guess_message(GuessOutcome::Correct, 1),
        "🎉 Congratulations! You guessed it in 1 attempts!"
    );
    assert_eq!(
        render_guess_message(GuessOutcome::TooLow, 12),
        "📈 Too low! Try a higher number. (Attempt 12)"
    );
    assert_eq!(
        render_guess_message(GuessOutcome::TooHigh, 100),
        "📉 Too high! Try a lower number. (Attempt 100)"
    );
}
