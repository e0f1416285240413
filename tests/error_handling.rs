use rust_book::error_handling::{last_char_of_first_line, Game, Guess, Verdict, HIGHEST, LOWEST};

#[test]
fn test_last_char_of_first_line() {
    assert_eq!(
        last_char_of_first_line("Hello, world\nHow are you today?"),
        Some('d')
    );

    assert_eq!(last_char_of_first_line(""), None);
    assert_eq!(last_char_of_first_line("\nhi"), None);
}

#[test]
fn last_char_skips_carriage_return_and_handles_one_line() {
    assert_eq!(last_char_of_first_line("ab\r\ncd"), Some('b'));
    assert_eq!(last_char_of_first_line("\r\ncd"), None);
    assert_eq!(last_char_of_first_line("xyz"), Some('z'));
    assert_eq!(last_char_of_first_line("ab\r"), Some('\r'));
    assert_eq!(last_char_of_first_line("añ\n"), Some('ñ'));
}

#[test]
fn guess_keeps_its_value() {
    assert_eq!(Guess::new(LOWEST).value(), 1);
    assert_eq!(Guess::new(HIGHEST).value(), 100);
    assert_eq!(Guess::new(42).value(), 42);
}

#[test]
fn game_judges_guesses() {
    let game = Game::with_secret(50);
    assert_eq!(game.judge(0), Verdict::OutOfRange);
    assert_eq!(game.judge(101), Verdict::OutOfRange);
    assert_eq!(game.judge(49), Verdict::TooSmall);
    assert_eq!(game.judge(51), Verdict::TooBig);
    assert_eq!(game.judge(50), Verdict::Win);
    assert_eq!(game.judge_guess(&Guess::new(1)), Verdict::TooSmall);
    assert_eq!(game.judge_guess(&Guess::new(100)), Verdict::TooBig);
}

#[test]
fn random_game_secret_is_in_range() {
    for _ in 0..200 {
        let game = Game::start();
        let mut wins = 0;
        for g in LOWEST..=HIGHEST {
            if game.judge(g) == Verdict::Win {
                wins += 1;
            }
        }
        assert_eq!(wins, 1);
    }
}

#[test]
fn random_game_secrets_vary() {
    let mut secrets = std::collections::BTreeSet::new();
    for _ in 0..100 {
        let game = Game::start();
        let secret = (LOWEST..=HIGHEST).find(|g| game.judge(*g) == Verdict::Win).unwrap();
        secrets.insert(secret);
    }
    assert!(secrets.len() > 1);
}
