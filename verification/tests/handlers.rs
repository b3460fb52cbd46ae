use guessing_game::handlers::{create_new_game, handle_guess, PLAYER_ID};
use guessing_game::response::GuessRequest;
use guessing_game::store::GameStore;

#[test]
fn player_identifier_is_fixed() {
    assert_eq!(PLAYER_ID, "player1");
}

#[test]
fn scenario_low_high_repeat_win_and_after() {
    let mut games = GameStore::new();
    games.create_with_secret(PLAYER_ID, 50);

    let reply = handle_guess(GuessRequest { guess: 25 }, &mut games);
    assert_eq!(reply.message, "📈 Too low! Try a higher number. (Attempt 1)");
    assert_eq!(reply.attempts, 1);
    assert!(!reply.game_won);
    assert_eq!(reply.previous_guesses, vec![25]);

    let reply = handle_guess(GuessRequest { guess: 75 }, &mut games);
    assert_eq!(reply.message, "📉 Too high! Try a lower number. (Attempt 2)");
    assert_eq!(reply.attempts, 2);
    assert!(!reply.game_won);
    assert_eq!(reply.previous_guesses, vec![25, 75]);

    let reply = handle_guess(GuessRequest { guess: 25 }, &mut games);
    assert_eq!(
        reply.message,
        "🔄 You already guessed that number! Try a different one."
    );
    assert_eq!(reply.attempts, 2);
    assert!(!reply.game_won);
    assert_eq!(reply.previous_guesses, vec![25, 75]);

    let reply = handle_guess(GuessRequest { guess: 50 }, &mut games);
    assert_eq!(
        reply.message,
        "🎉 Congratulations! You guessed it in 3 attempts!"
    );
    assert_eq!(reply.attempts, 3);
    assert!(reply.game_won);
    assert_eq!(reply.previous_guesses, vec![25, 75, 50]);

    let reply = handle_guess(GuessRequest { guess: 10 }, &mut games);
    assert_eq!(reply.message, "Game already won! Start a new game.");
    assert_eq!(reply.attempts, 3);
    assert!(reply.game_won);
    assert_eq!(reply.previous_guesses, vec![25, 75, 50]);
}

#[test]
fn scenario_out_of_range_on_a_fresh_game() {
    for guess in [0, 101] {
        let mut games = GameStore::new();
        games.create_with_secret(PLAYER_ID, 50);
        let reply = handle_guess(GuessRequest { guess }, &mut games);
        assert_eq!(reply.message, "❌ Please enter a number between 1 and 100!");
        assert_eq!(reply.attempts, 0);
        assert!(!reply.game_won);
        assert!(reply.previous_guesses.is_empty());
        let game = games.get(PLAYER_ID).unwrap();
        assert_eq!(game.attempts(), 0);
        assert!(game.previous_guesses().is_empty());
    }
}

#[test]
fn scenario_guess_without_a_game() {
    let mut games = GameStore::new();
    let reply = handle_guess(GuessRequest { guess: 50 }, &mut games);
    assert_eq!(reply.message, "No game found. Please start a new game.");
    assert_eq!(reply.attempts, 0);
    assert!(!reply.game_won);
    assert!(reply.previous_guesses.is_empty());
    assert!(!games.contains(PLAYER_ID));
}

#[test]
fn new_game_reply_names_the_player() {
    let mut games = GameStore::new();
    let reply = create_new_game(&mut games);
    assert_eq!(
        reply.message,
        "New game started! Guess a number between 1 and 100."
    );
    assert_eq!(reply.game_id, "player1");
    assert!(games.contains(PLAYER_ID));
}

#[test]
fn new_game_resets_the_game_in_progress() {
    let mut games = GameStore::new();
    games.create_with_secret(PLAYER_ID, 50);
    handle_guess(GuessRequest { guess: 25 }, &mut games);
    handle_guess(GuessRequest { guess: 50 }, &mut games);
    assert!(games.get(PLAYER_ID).unwrap().game_won());

    create_new_game(&mut games);
    let game = games.get(PLAYER_ID).unwrap();
    assert_eq!(game.attempts(), 0);
    assert!(!game.game_won());
    assert!(game.previous_guesses().is_empty());
    assert!(1 <= game.secret_number() && game.secret_number() <= 100);
}

#[test]
fn new_game_leaves_other_games_alone() {
    let mut games = GameStore::new();
    games.create_with_secret("someone else", 50);
    games.guess("someone else", 25);
    create_new_game(&mut games);
    let other = games.get("someone else").unwrap();
    assert_eq!(other.secret_number(), 50);
    assert_eq!(other.attempts(), 1);
}

#[test]
fn handlers_only_address_the_player() {
    let mut games = GameStore::new();
    games.create_with_secret("someone else", 50);
    let reply = handle_guess(GuessRequest { guess: 50 }, &mut games);
    assert_eq!(reply.message, "No game found. Please start a new game.");
    assert_eq!(games.get("someone else").unwrap().attempts(), 0);
}

#[test]
fn a_game_can_be_played_to_the_end_by_bisection() {
    for secret in 1..=100 {
        let mut games = GameStore::new();
        games.create_with_secret(PLAYER_ID, secret);
        let (mut low, mut high) = (1, 100);
        let mut asked = 0;
        loop {
            let guess = (low + high) / 2;
            let reply = handle_guess(GuessRequest { guess }, &mut games);
            asked += 1;
            assert_eq!(reply.attempts, asked);
            if reply.game_won {
                assert_eq!(guess, secret);
                break;
            }
            if guess < secret {
                low = guess + 1;
            } else {
                high = guess - 1;
            }
        }
        assert!(asked <= 7);
    }
}
