use hit_and_blow::Game;

#[test]
fn test_parse_input_valid() {
    let input = "1234";
    let result = Game::parse_input(input);
    assert!(result.is_some());
    assert_eq!(result.unwrap(), vec![1, 2, 3, 4]);
}

#[test]
fn test_parse_input_invalid_length() {
    let input = "123";
    let result = Game::parse_input(input);
    assert!(result.is_none());
}

#[test]
fn test_parse_input_invalid_range() {
    let input = "1237";
    let result = Game::parse_input(input);
    assert!(result.is_none());
}

#[test]
fn test_parse_input_duplicate() {
    let input = "1231";
    let result = Game::parse_input(input);
    assert!(result.is_none());
}

#[test]
fn test_guess_all_hit() {
    let mut game = Game::new();
    let answer = game.get_answer().clone();
    let result = game.guess(&answer);
    assert_eq!(result.hits, 4);
    assert_eq!(result.blows, 0);
    assert!(result.is_correct);
}

#[test]
fn test_guess_some_hit_some_blow() {
    let mut game = Game::with_answer(vec![1, 2, 3, 4]);

    let guess = vec![1, 3, 2, 5];
    let result = game.guess(&guess);
    assert_eq!(result.hits, 1);
    assert_eq!(result.blows, 2);
    assert!(!result.is_correct);
}

#[test]
fn test_new_secret_is_valid_code() {
    let game = Game::new();
    let answer = game.get_answer();
    assert_eq!(answer.len(), 4);
    for &d in answer.iter() {
        assert!((1..=6).contains(&d));
    }
    for i in 0..4 {
        for j in (i + 1)..4 {
            assert_ne!(answer[i], answer[j]);
        }
    }
    assert_eq!(game.get_attempts(), 0);
    assert_eq!(game.get_max_attempts(), 10);
    assert!(!game.is_game_over());
}

#[test]
fn test_score_bounds() {
    let mut game = Game::with_answer(vec![1, 2, 3, 4]);
    let result = game.guess(&vec![5, 6, 1, 2]);
    assert_eq!(result.hits, 0);
    assert_eq!(result.blows, 2);
    assert!(result.hits <= 4);
    assert!(result.blows <= 4);
    assert!(result.hits + result.blows <= 4);
}

#[test]
fn test_guess_secret_itself() {
    let mut game = Game::with_answer(vec![6, 4, 2, 1]);
    let result = game.guess(&vec![6, 4, 2, 1]);
    assert_eq!(result.hits, 4);
    assert_eq!(result.blows, 0);
    assert!(result.is_correct);
    assert!(result.is_game_over);
    assert!(game.is_game_over());
}

#[test]
fn test_all_blows() {
    let mut game = Game::with_answer(vec![1, 2, 3, 4]);
    let result = game.guess(&vec![4, 3, 2, 1]);
    assert_eq!(result.hits, 0);
    assert_eq!(result.blows, 4);
    assert!(!result.is_correct);
}

#[test]
fn test_parse_empty() {
    assert!(Game::parse_input("").is_none());
}

#[test]
fn test_parse_too_long() {
    assert!(Game::parse_input("12345").is_none());
}

#[test]
fn test_parse_zero_digit() {
    assert!(Game::parse_input("0234").is_none());
}

#[test]
fn test_parse_non_digit() {
    assert!(Game::parse_input("abcd").is_none());
}

#[test]
fn test_failed_parse_leaves_attempts_untouched() {
    let mut game = Game::with_answer(vec![1, 2, 3, 4]);
    assert!(Game::parse_input("9999").is_none());
    assert_eq!(game.get_attempts(), 0);
    game.guess(&vec![1, 2, 3, 5]);
    assert_eq!(game.get_attempts(), 1);
}

#[test]
fn test_game_over_after_max_attempts() {
    let mut game = Game::with_answer(vec![1, 2, 3, 4]);
    for attempt in 1..=10 {
        assert!(!game.is_game_over());
        let result = game.guess(&vec![2, 1, 4, 3]);
        assert_eq!(result.hits, 0);
        assert_eq!(game.get_attempts(), attempt);
        assert_eq!(result.is_game_over, attempt == 10);
    }
    assert!(game.is_game_over());
    assert!(game.is_game_over());
}

#[test]
fn test_game_over_is_monotonic() {
    let mut game = Game::with_answer(vec![5, 3, 1, 6]);
    let win = game.guess(&vec![5, 3, 1, 6]);
    assert!(win.is_game_over);
    let after = game.guess(&vec![1, 2, 3, 4]);
    assert!(after.is_game_over);
    assert!(game.is_game_over());
    assert_eq!(game.get_attempts(), 2);
}
