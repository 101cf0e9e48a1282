use wordle_tui::guess::Guess;
use wordle_tui::keyboard::{KeyState, Keyboard};
use wordle_tui::letter::LetterState;

#[test]
fn new_keyboard_is_unused() {
    let k = Keyboard::new();
    for c in 'A'..='Z' {
        assert_eq!(k.get(c), KeyState::Unused);
    }
    assert_eq!(k.get('1'), KeyState::Unused);
}

#[test]
fn set_key_state_never_lowers() {
    let mut k = Keyboard::new();
    k.set_key_state('R', KeyState::InWord);
    assert_eq!(k.get('R'), KeyState::InWord);
    k.set_key_state('R', KeyState::NotInWord);
    assert_eq!(k.get('R'), KeyState::InWord);
    k.set_key_state('R', KeyState::CorrectIndex);
    assert_eq!(k.get('R'), KeyState::CorrectIndex);
    k.set_key_state('R', KeyState::InWord);
    assert_eq!(k.get('R'), KeyState::CorrectIndex);
    k.set_key_state('R', KeyState::Unused);
    assert_eq!(k.get('R'), KeyState::CorrectIndex);
    assert_eq!(k.get('Q'), KeyState::Unused);
    assert_eq!(k.get('S'), KeyState::Unused);
}

#[test]
fn set_key_state_ignores_non_keys() {
    let mut k = Keyboard::new();
    k.set_key_state('a', KeyState::CorrectIndex);
    k.set_key_state('#', KeyState::InWord);
    assert_eq!(k.get('a'), KeyState::Unused);
    assert_eq!(k.get('A'), KeyState::Unused);
    assert_eq!(k.get('#'), KeyState::Unused);
}

#[test]
fn record_guess_keeps_best_per_letter() {
    let mut k = Keyboard::new();
    k.record_guess(&Guess::score("ALLOW", "APPLE").unwrap());
    assert_eq!(k.get('A'), KeyState::CorrectIndex);
    assert_eq!(k.get('L'), KeyState::InWord);
    assert_eq!(k.get('O'), KeyState::NotInWord);
    assert_eq!(k.get('W'), KeyState::NotInWord);
    assert_eq!(k.get('P'), KeyState::Unused);
    k.record_guess(&Guess::score("APPLE", "APPLE").unwrap());
    assert_eq!(k.get('L'), KeyState::CorrectIndex);
    k.record_guess(&Guess::score("LOWLY", "APPLE").unwrap());
    assert_eq!(k.get('L'), KeyState::CorrectIndex);
    assert_eq!(k.get('Y'), KeyState::NotInWord);
}

#[test]
fn key_state_from_letter_state() {
    assert_eq!(KeyState::from_letter_state(LetterState::NotInWord), KeyState::NotInWord);
    assert_eq!(KeyState::from_letter_state(LetterState::InWord), KeyState::InWord);
    assert_eq!(KeyState::from_letter_state(LetterState::CorrectIndex), KeyState::CorrectIndex);
}

#[test]
fn default_keyboard_is_unused() {
    let k = Keyboard::default();
    for c in 'A'..='Z' {
        assert_eq!(k.get(c), KeyState::Unused);
    }
}
