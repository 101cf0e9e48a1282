use wordle_tui::game::{App, GameStatus, Input};
use wordle_tui::keyboard::KeyState;
use wordle_tui::letter::LetterState;
use LetterState::{CorrectIndex, InWord};
use wordle_tui::words::WordList;

fn list() -> WordList {
    WordList::new(
        vec!["CRATE".to_string(), "APPLE".to_string(), "BUMPY".to_string()],
        vec![
            "TRACE".to_string(),
            "ALLOW".to_string(),
            "LOWLY".to_string(),
            "GHOST".to_string(),
            "NIGHT".to_string(),
            "PLUMB".to_string(),
        ],
    )
}

fn game(target: &str) -> App {
    App::with_target(list(), target.to_string())
}

fn type_word(app: &mut App, w: &str) {
    for c in w.chars() {
        app.handle_input(Input::Char(c));
    }
}

fn submit(app: &mut App, w: &str) {
    type_word(app, w);
    app.handle_input(Input::Enter);
}

#[test]
fn fresh_game() {
    let app = game("CRATE");
    assert_eq!(app.status(), GameStatus::InProgress);
    assert!(app.past_guesses().is_empty());
    assert_eq!(app.current_guess(), "");
    assert_eq!(app.message(), "");
    assert_eq!(app.word(), "CRATE");
    assert!(!app.is_game_over());
    assert!(!app.should_exit());
    assert_eq!(app.keyboard().get('C'), KeyState::Unused);
}

#[test]
fn random_game_picks_from_target_pool() {
    for _ in 0..20 {
        let app = App::new(list());
        let w = app.word().clone();
        assert!(["CRATE", "APPLE", "BUMPY"].contains(&w.as_str()));
        assert_eq!(app.words().targets().len(), 3);
    }
}

#[test]
fn typing_uppercases_letters() {
    let mut app = game("CRATE");
    type_word(&mut app, "tr");
    assert_eq!(app.current_guess(), "TR");
}

#[test]
fn typing_beyond_five_is_ignored() {
    let mut app = game("CRATE");
    type_word(&mut app, "TRACES");
    assert_eq!(app.current_guess(), "TRACE");
    app.handle_input(Input::Char('X'));
    assert_eq!(app.current_guess(), "TRACE");
}

#[test]
fn non_letters_are_ignored() {
    let mut app = game("CRATE");
    type_word(&mut app, "1 T-é!");
    assert_eq!(app.current_guess(), "T");
}

#[test]
fn backspace_removes_last_letter() {
    let mut app = game("CRATE");
    type_word(&mut app, "TRA");
    app.handle_input(Input::Backspace);
    assert_eq!(app.current_guess(), "TR");
}

#[test]
fn backspace_on_empty_is_a_no_op() {
    let mut app = game("CRATE");
    app.handle_input(Input::Backspace);
    assert_eq!(app.current_guess(), "");
    app.handle_input(Input::Backspace);
    assert_eq!(app.current_guess(), "");
    assert!(app.past_guesses().is_empty());
    assert!(!app.is_game_over());
}

#[test]
fn submit_too_short() {
    let mut app = game("CRATE");
    submit(&mut app, "TRAC");
    assert!(app.past_guesses().is_empty());
    assert_eq!(app.message(), "Not enough letters");
    assert_eq!(app.current_guess(), "TRAC");
    assert_eq!(app.status(), GameStatus::InProgress);
}

#[test]
fn submit_not_a_word() {
    let mut app = game("CRATE");
    submit(&mut app, "ZZZZZ");
    assert!(app.past_guesses().is_empty());
    assert_eq!(app.message(), "Not in word list");
    assert_eq!(app.current_guess(), "ZZZZZ");
    assert_eq!(app.keyboard().get('Z'), KeyState::Unused);
}

#[test]
fn message_cleared_by_next_key() {
    let mut app = game("CRATE");
    submit(&mut app, "ZZZZZ");
    app.handle_input(Input::Backspace);
    assert_eq!(app.message(), "");
    assert_eq!(app.current_guess(), "ZZZZ");
}

#[test]
fn valid_guess_is_scored_and_recorded() {
    let mut app = game("CRATE");
    submit(&mut app, "trace");
    assert_eq!(app.past_guesses().len(), 1);
    let states: Vec<LetterState> = app.past_guesses()[0].letters.iter().map(|l| l.state).collect();
    assert_eq!(states, vec![InWord, CorrectIndex, CorrectIndex, InWord, CorrectIndex]);
    assert_eq!(app.current_guess(), "");
    assert_eq!(app.message(), "");
    assert_eq!(app.keyboard().get('R'), KeyState::CorrectIndex);
    assert_eq!(app.keyboard().get('T'), KeyState::InWord);
    assert_eq!(app.keyboard().get('Q'), KeyState::Unused);
    assert_eq!(app.status(), GameStatus::InProgress);
}

#[test]
fn exact_guess_wins() {
    let mut app = game("CRATE");
    submit(&mut app, "TRACE");
    submit(&mut app, "CRATE");
    assert_eq!(app.status(), GameStatus::Won);
    assert!(app.is_game_over());
    assert_eq!(app.message(), "You win!");
    assert_eq!(app.past_guesses().len(), 2);
}

#[test]
fn winning_on_the_last_guess_is_a_win() {
    let mut app = game("CRATE");
    for w in ["TRACE", "ALLOW", "LOWLY", "GHOST", "NIGHT"] {
        submit(&mut app, w);
    }
    submit(&mut app, "CRATE");
    assert_eq!(app.status(), GameStatus::Won);
    assert_eq!(app.message(), "You win!");
}

#[test]
fn six_wrong_guesses_lose() {
    let mut app = game("CRATE");
    for w in ["TRACE", "ALLOW", "LOWLY", "GHOST", "NIGHT"] {
        submit(&mut app, w);
        assert!(!app.is_game_over());
    }
    submit(&mut app, "PLUMB");
    assert_eq!(app.status(), GameStatus::Lost);
    assert!(app.is_game_over());
    assert_eq!(app.message(), "CRATE");
    assert_eq!(app.past_guesses().len(), 6);
}

#[test]
fn any_key_after_the_end_only_exits() {
    let mut app = game("CRATE");
    submit(&mut app, "CRATE");
    assert!(!app.should_exit());
    app.handle_input(Input::Char('A'));
    assert!(app.should_exit());
    assert_eq!(app.current_guess(), "");
    assert_eq!(app.message(), "You win!");
    assert_eq!(app.past_guesses().len(), 1);
}

#[test]
fn escape_exits() {
    let mut app = game("CRATE");
    type_word(&mut app, "TR");
    app.handle_input(Input::Esc);
    assert!(app.should_exit());
    assert_eq!(app.current_guess(), "TR");
    assert!(!app.is_game_over());
}

#[test]
fn other_keys_change_nothing() {
    let mut app = game("CRATE");
    type_word(&mut app, "TR");
    app.handle_input(Input::Other);
    assert_eq!(app.current_guess(), "TR");
    assert!(!app.should_exit());
}

#[test]
fn word_list_accepts_both_pools() {
    let words = list();
    assert!(words.is_acceptable_guess("CRATE"));
    assert!(words.is_acceptable_guess("PLUMB"));
    assert!(!words.is_acceptable_guess("crate"));
    assert!(!words.is_acceptable_guess("QQQQQ"));
    assert!(!words.is_acceptable_guess(""));
    assert_eq!(words.valid_guesses().len(), 6);
}

#[test]
fn pick_random_target_is_in_pool() {
    let words = list();
    for _ in 0..20 {
        let w = words.pick_random_target();
        assert!(words.targets().contains(&w));
    }
}
