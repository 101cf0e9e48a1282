use crate::guess::{all_correct, error_text, is_scoring, Guess, GuessError};
use crate::keyboard::{after_letters, KeyState, Keyboard};
use crate::letter::{is_ascii_letter, is_ascii_alphabetic, to_ascii_uppercase, upper, Letter};
use crate::words::{holds_word, WordList};
use crate::{GUESS_COUNT, WORD_LENGTH};
use vstd::prelude::*;
use vstd::string::StrSliceExecFns;
use vstd::string::StringExecFns;

verus! {

/// Relies on `String::push`: appends the character to the end of the string.
#[verifier::external_body]
fn push_char(s: &mut String, c: char)
    ensures
        final(s)@ == old(s)@.push(c),
{
    s.push(c);
}

/// Relies on `String::pop`: removes and returns the last character, or
/// returns `None` and leaves an empty string as it is.
#[verifier::external_body]
fn pop_char(s: &mut String) -> (r: Option<char>)
    ensures
        old(s)@.len() == 0 ==> r is None && final(s)@ == old(s)@,
        old(s)@.len() > 0 ==> r == Some(old(s)@.last()) && final(s)@ == old(s)@.drop_last(),
{
    s.pop()
}

/// A key press, as the game sees it.
#[derive(Copy, Clone, Debug, PartialEq, Eq, Structural)]
pub enum Input {
    /// A character key.
    Char(char),
    /// Submit the pending guess.
    Enter,
    /// Delete the last pending character.
    Backspace,
    /// Leave the game.
    Esc,
    /// Any other key.
    Other,
}

/// Where the game stands.
#[derive(Copy, Clone, Debug, PartialEq, Eq, Structural)]
pub enum GameStatus {
    InProgress,
    Won,
    Lost,
}

/// The characters of a scored guess.
pub open spec fn word_of(letters: Seq<Letter>) -> Seq<char> {
    letters.map_values(|l: Letter| l.charecter)
}

/// The message shown when the secret word is found.
pub open spec fn win_text() -> Seq<char> {
    "You win!"@
}

/// One game: the secret word, the guesses made so far, the letters typed for
/// the next guess, the keyboard summary and the message for the player.
pub struct App {
    message: String,
    past_guesses: Vec<Guess>,
    current_guess: String,
    keyboard: Keyboard,
    word: String,
    words: WordList,
    game_over: bool,
    exit: bool,
}

/// Typing `c` on a game in progress: the message is cleared, and an ASCII
/// letter is added, in upper case, while fewer than five letters are pending.
pub open spec fn typed(a: App, b: App, c: char) -> bool {
    &&& App::same_game(a, b)
    &&& b.exit_requested() == a.exit_requested()
    &&& b.message_text().len() == 0
    &&& b.pending() == if a.pending().len() < WORD_LENGTH && is_ascii_letter(c) {
        a.pending().push(upper(c))
    } else {
        a.pending()
    }
}

/// Backspace on a game in progress: the message is cleared and the last
/// pending letter, if any, is removed.
pub open spec fn erased(a: App, b: App) -> bool {
    &&& App::same_game(a, b)
    &&& b.exit_requested() == a.exit_requested()
    &&& b.message_text().len() == 0
    &&& b.pending() == if a.pending().len() > 0 {
        a.pending().drop_last()
    } else {
        a.pending()
    }
}

/// Submitting the pending letters of a game in progress. Too few letters, or
/// a word in neither pool, leave the game as it was with a message saying so.
/// Otherwise the scored guess is added to the history and to the keyboard,
/// the pending letters are cleared, and the game ends when the guess is right
/// (with a win message) or when the last guess is used (showing the secret).
pub open spec fn submitted(a: App, b: App) -> bool {
    let p = a.pending();
    &&& b.exit_requested() == a.exit_requested()
    &&& b.target() == a.target()
    &&& b.word_list() == a.word_list()
    &&& if p.len() < WORD_LENGTH {
        &&& App::same_game(a, b)
        &&& b.pending() == p
        &&& b.message_text() == error_text(GuessError::TooShort)
    } else if !a.word_list().accepts(p) {
        &&& App::same_game(a, b)
        &&& b.pending() == p
        &&& b.message_text() == error_text(GuessError::NotAWord)
    } else {
        let g = b.history().last();
        &&& b.history() == a.history().push(g)
        &&& is_scoring(g.letters@, p, a.target())
        &&& b.pending().len() == 0
        &&& forall|c: char|
            #[trigger] b.keys().state_of(c) == after_letters(a.keys().state_of(c), c, g.letters@)
        &&& b.is_over() == (all_correct(g.letters@) || b.history().len() == GUESS_COUNT)
        &&& b.message_text() == if all_correct(g.letters@) {
            win_text()
        } else if b.history().len() == GUESS_COUNT {
            a.target()
        } else {
            Seq::empty()
        }
    }
}

/// Leaving: only the exit request changes.
pub open spec fn quitted(a: App, b: App) -> bool {
    &&& App::same_game(a, b)
    &&& b.pending() == a.pending()
    &&& b.message_text() == a.message_text()
    &&& b.exit_requested()
}

/// The effect of one key press. Once the game is over, any key only asks to
/// leave.
pub open spec fn handled(a: App, b: App, input: Input) -> bool {
    if a.is_over() {
        quitted(a, b)
    } else {
        match input {
            Input::Char(c) => typed(a, b, c),
            Input::Enter => submitted(a, b),
            Input::Backspace => erased(a, b),
            Input::Esc => quitted(a, b),
            Input::Other => {
                &&& App::same_game(a, b)
                &&& b.pending() == a.pending()
                &&& b.message_text() == a.message_text()
                &&& b.exit_requested() == a.exit_requested()
            },
        }
    }
}

impl App {
    pub closed spec fn message_text(&self) -> Seq<char> {
        self.message@
    }

    pub closed spec fn history(&self) -> Seq<Guess> {
        self.past_guesses@
    }

    pub closed spec fn pending(&self) -> Seq<char> {
        self.current_guess@
    }

    pub closed spec fn keys(&self) -> Keyboard {
        self.keyboard
    }

    pub closed spec fn target(&self) -> Seq<char> {
        self.word@
    }

    pub closed spec fn word_list(&self) -> WordList {
        self.words
    }

    pub closed spec fn is_over(&self) -> bool {
        self.game_over
    }

    pub closed spec fn exit_requested(&self) -> bool {
        self.exit
    }

    /// The game is won once a guess has every letter in its right place.
    pub open spec fn won(&self) -> bool {
        self.is_over() && self.history().len() > 0 && all_correct(
            self.history().last().letters@,
        )
    }

    pub open spec fn status_of(&self) -> GameStatus {
        if !self.is_over() {
            GameStatus::InProgress
        } else if self.won() {
            GameStatus::Won
        } else {
            GameStatus::Lost
        }
    }

    pub closed spec fn well_formed(&self) -> bool {
        &&& self.word@.len() == WORD_LENGTH
        &&& holds_word(self.words.target_pool(), self.word@)
        &&& self.past_guesses@.len() <= GUESS_COUNT
        &&& !self.game_over ==> self.past_guesses@.len() < GUESS_COUNT
        &&& self.current_guess@.len() <= WORD_LENGTH
        &&& self.keyboard.well_formed()
        &&& forall|i: int|
            0 <= i < self.past_guesses@.len() ==> {
                &&& self.words.accepts(word_of(#[trigger] self.past_guesses@[i].letters@))
                &&& is_scoring(
                    self.past_guesses@[i].letters@,
                    word_of(self.past_guesses@[i].letters@),
                    self.word@,
                )
            }
    }

    /// The fields that a rejected or ignored action leaves as they were.
    pub open spec fn same_game(a: App, b: App) -> bool {
        &&& b.history() == a.history()
        &&& b.keys() == a.keys()
        &&& b.target() == a.target()
        &&& b.word_list() == a.word_list()
        &&& b.is_over() == a.is_over()
    }

    /// A fresh game with `word` as its secret.
    pub fn with_target(words: WordList, word: String) -> (r: App)
        requires
            word@.len() == WORD_LENGTH,
            holds_word(words.target_pool(), word@),
        ensures
            r.well_formed(),
            r.target() == word@,
            r.word_list() == words,
            r.history().len() == 0,
            r.pending().len() == 0,
            r.message_text().len() == 0,
            !r.is_over(),
            !r.exit_requested(),
            forall|c: char| #[trigger] r.keys().state_of(c) == KeyState::Unused,
    {
        App {
            message: String::new(),
            past_guesses: Vec::new(),
            current_guess: String::new(),
            keyboard: Keyboard::new(),
            word,
            words,
            game_over: false,
            exit: false,
        }
    }

    /// A fresh game whose secret is drawn at random from the target pool.
    pub fn new(words: WordList) -> (r: App)
        requires
            words.target_pool().len() > 0,
            forall|i: int|
                0 <= i < words.target_pool().len() ==> (#[trigger] words.target_pool()[i])@.len()
                    == WORD_LENGTH,
        ensures
            r.well_formed(),
            holds_word(words.target_pool(), r.target()),
            r.word_list() == words,
            r.history().len() == 0,
            r.pending().len() == 0,
            r.message_text().len() == 0,
            !r.is_over(),
            !r.exit_requested(),
            forall|c: char| #[trigger] r.keys().state_of(c) == KeyState::Unused,
    {
        let word = words.pick_random_target();
        let ghost i = words.target_pool().index_of(word);
        assert(words.target_pool()[i]@ == word@);
        App::with_target(words, word)
    }

    pub fn message(&self) -> (r: &String)
        ensures
            r@ == self.message_text(),
    {
        &self.message
    }

    pub fn past_guesses(&self) -> (r: &Vec<Guess>)
        ensures
            r@ == self.history(),
    {
        &self.past_guesses
    }

    pub fn current_guess(&self) -> (r: &String)
        ensures
            r@ == self.pending(),
    {
        &self.current_guess
    }

    pub fn keyboard(&self) -> (r: &Keyboard)
        ensures
            *r == self.keys(),
    {
        &self.keyboard
    }

    pub fn word(&self) -> (r: &String)
        ensures
            r@ == self.target(),
    {
        &self.word
    }

    pub fn words(&self) -> (r: &WordList)
        ensures
            *r == self.word_list(),
    {
        &self.words
    }

    pub fn is_game_over(&self) -> (r: bool)
        ensures
            r == self.is_over(),
    {
        self.game_over
    }

    pub fn should_exit(&self) -> (r: bool)
        ensures
            r == self.exit_requested(),
    {
        self.exit
    }

    /// Whether the game is in progress, won or lost.
    pub fn status(&self) -> (r: GameStatus)
        ensures
            r == self.status_of(),
    {
        if !self.game_over {
            GameStatus::InProgress
        } else if self.past_guesses.len() > 0 && self.past_guesses[self.past_guesses.len() - 1].is_solved() {
            GameStatus::Won
        } else {
            GameStatus::Lost
        }
    }

    /// Adds `c`, upper-cased, to the pending guess if it is an ASCII letter and
    /// fewer than five letters are pending; clears the message.
    pub fn append_character(&mut self, c: char)
        requires
            old(self).well_formed(),
            !old(self).is_over(),
        ensures
            final(self).well_formed(),
            typed(*old(self), *final(self), c),
    {
        self.message = String::new();
        if self.current_guess.unicode_len() < WORD_LENGTH && is_ascii_alphabetic(c) {
            push_char(&mut self.current_guess, to_ascii_uppercase(c));
        }
    }

    /// Removes the last pending letter, if any; clears the message.
    pub fn backspace(&mut self)
        requires
            old(self).well_formed(),
            !old(self).is_over(),
        ensures
            final(self).well_formed(),
            erased(*old(self), *final(self)),
    {
        self.message = String::new();
        pop_char(&mut self.current_guess);
    }

    /// Submits the pending letters as a guess.
    pub fn submit_guess(&mut self)
        requires
            old(self).well_formed(),
            !old(self).is_over(),
        ensures
            final(self).well_formed(),
            submitted(*old(self), *final(self)),
    {
        self.message = String::new();
        match Guess::new(self.current_guess.as_str(), self.word.as_str(), &self.words) {
            Ok(guess) => {
                let ghost p = self.current_guess@;
                assert(word_of(guess.letters@) =~= p);
                self.keyboard.record_guess(&guess);
                let solved = guess.is_solved();
                self.past_guesses.push(guess);
                self.current_guess = String::new();
                if solved {
                    self.message = String::from_str("You win!");
                    self.game_over = true;
                } else if self.past_guesses.len() == GUESS_COUNT {
                    self.message = self.word.clone();
                    self.game_over = true;
                }
                assert(self.past_guesses@.last() == guess);
            },
            Err(e) => {
                self.message = e.message();
            },
        }
    }

    /// Asks to leave the game.
    pub fn quit(&mut self)
        ensures
            quitted(*old(self), *final(self)),
            old(self).well_formed() ==> final(self).well_formed(),
    {
        self.exit = true;
    }

    /// Applies one key press.
    pub fn handle_input(&mut self, input: Input)
        requires
            old(self).well_formed(),
        ensures
            final(self).well_formed(),
            handled(*old(self), *final(self), input),
    {
        if self.game_over {
            self.quit();
            return ;
        }
        match input {
            Input::Char(c) => self.append_character(c),
            Input::Enter => self.submit_guess(),
            Input::Backspace => self.backspace(),
            Input::Esc => self.quit(),
            Input::Other => {},
        }
    }
}

/// Submitting the secret word wins the game, with the win message, however
/// many guesses were left.
pub proof fn lemma_exact_guess_wins(a: App, b: App)
    requires
        a.well_formed(),
        !a.is_over(),
        a.pending() == a.target(),
        submitted(a, b),
    ensures
        b.won(),
        b.status_of() == GameStatus::Won,
        b.message_text() == win_text(),
        b.history().len() == a.history().len() + 1,
{
    let t = a.target();
    let i = choose|i: int|
        0 <= i < a.word_list().target_pool().len() && #[trigger] a.word_list().target_pool()[i]@
            == t;
    assert(a.word_list().accepts(t));
    let g = b.history().last();
    crate::guess::lemma_exact_word_all_correct(g.letters@, t);
}

/// Submitting an accepted word other than the secret as the last of the six
/// guesses loses the game, and the message shows the secret word.
pub proof fn lemma_last_wrong_guess_loses(a: App, b: App)
    requires
        a.well_formed(),
        !a.is_over(),
        a.history().len() == GUESS_COUNT - 1,
        a.pending().len() == WORD_LENGTH,
        a.word_list().accepts(a.pending()),
        a.pending() != a.target(),
        submitted(a, b),
    ensures
        b.is_over(),
        !b.won(),
        b.status_of() == GameStatus::Lost,
        b.message_text() == a.target(),
        b.history().len() == GUESS_COUNT,
{
    let p = a.pending();
    let t = a.target();
    let g = b.history().last();
    if all_correct(g.letters@) {
        assert forall|i: int| 0 <= i < WORD_LENGTH implies p[i] == t[i] by {
            assert(g.letters@[i] == crate::guess::scored(p, t, i));
            assert(g.letters@[i].state == crate::letter::LetterState::CorrectIndex);
        }
        assert(p =~= t);
    }
}

/// Backspace with nothing pending changes nothing but the message, so doing
/// it again is the same as doing it once.
pub proof fn lemma_backspace_on_empty(a: App, b: App)
    requires
        a.pending().len() == 0,
        erased(a, b),
    ensures
        b.pending() == a.pending(),
        App::same_game(a, b),
{
}

/// Typing with five letters pending, or typing a character that is not an
/// ASCII letter, leaves the pending letters as they were.
pub proof fn lemma_typing_ignored(a: App, b: App, c: char)
    requires
        a.pending().len() == WORD_LENGTH || !is_ascii_letter(c),
        typed(a, b, c),
    ensures
        b.pending() == a.pending(),
        App::same_game(a, b),
{
}

} // verus!
