use crate::letter::{Letter, LetterState};
use crate::words::WordList;
use crate::WORD_LENGTH;
use vstd::prelude::*;
use vstd::string::StrSliceExecFns;
use vstd::string::StringExecFns;

verus! {

/// Why a submitted word was not scored.
#[derive(Copy, Clone, Debug, PartialEq, Eq, Structural)]
pub enum GuessError {
    /// Fewer than five letters were entered.
    TooShort,
    /// The word is in neither word pool.
    NotAWord,
    /// The guess or the secret word does not have exactly five letters.
    InvalidLength,
}

/// The message shown to the player for each error.
pub open spec fn error_text(e: GuessError) -> Seq<char> {
    match e {
        GuessError::TooShort => "Not enough letters"@,
        GuessError::NotAWord => "Not in word list"@,
        GuessError::InvalidLength => "Words have five letters"@,
    }
}

impl GuessError {
    pub fn message(&self) -> (r: String)
        ensures
            r@ == error_text(*self),
    {
        match self {
            GuessError::TooShort => String::from_str("Not enough letters"),
            GuessError::NotAWord => String::from_str("Not in word list"),
            GuessError::InvalidLength => String::from_str("Words have five letters"),
        }
    }
}

/// Classification of letter `i` of `guess` against `target`: right letter in
/// the right place, a letter found elsewhere in `target`, or neither. Repeated
/// letters are not counted against each other.
pub open spec fn classify(guess: Seq<char>, target: Seq<char>, i: int) -> LetterState {
    if guess[i] == target[i] {
        LetterState::CorrectIndex
    } else if target.contains(guess[i]) {
        LetterState::InWord
    } else {
        LetterState::NotInWord
    }
}

/// Letter `i` of `guess` with its classification against `target`.
pub open spec fn scored(guess: Seq<char>, target: Seq<char>, i: int) -> Letter {
    Letter { charecter: guess[i], state: classify(guess, target, i) }
}

/// `letters` is the scoring of `guess` against `target`, letter by letter.
pub open spec fn is_scoring(letters: Seq<Letter>, guess: Seq<char>, target: Seq<char>) -> bool {
    &&& letters.len() == WORD_LENGTH
    &&& forall|i: int| 0 <= i < WORD_LENGTH ==> #[trigger] letters[i] == scored(guess, target, i)
}

/// Every letter of a scored guess is in its right place.
pub open spec fn all_correct(letters: Seq<Letter>) -> bool {
    forall|i: int| 0 <= i < letters.len() ==> #[trigger] letters[i].state == LetterState::CorrectIndex
}

/// A scored guess of five letters.
pub struct Guess {
    pub letters: [Letter; WORD_LENGTH],
}

fn contains_char(word: &str, c: char) -> (r: bool)
    ensures
        r == word@.contains(c),
{
    let n = word.unicode_len();
    let mut i: usize = 0;
    while i < n
        invariant
            n == word@.len(),
            i <= n,
            forall|j: int| 0 <= j < i ==> word@[j] != c,
        decreases n - i,
    {
        if word.get_char(i) == c {
            return true;
        }
        i = i + 1;
    }
    false
}

fn score_letter(guess: &str, word: &str, i: usize) -> (r: Letter)
    requires
        i < guess@.len(),
        i < word@.len(),
    ensures
        r == scored(guess@, word@, i as int),
{
    let c = guess.get_char(i);
    if word.get_char(i) == c {
        Letter::new(c, LetterState::CorrectIndex)
    } else if contains_char(word, c) {
        Letter::new(c, LetterState::InWord)
    } else {
        Letter::new(c, LetterState::NotInWord)
    }
}

impl Guess {
    /// Scores `guess` against the secret `word`; both must have five letters.
    pub fn score(guess: &str, word: &str) -> (r: Result<Guess, GuessError>)
        ensures
            r is Err <==> guess@.len() != WORD_LENGTH || word@.len() != WORD_LENGTH,
            r matches Err(e) ==> e == GuessError::InvalidLength,
            r matches Ok(g) ==> is_scoring(g.letters@, guess@, word@),
    {
        if guess.unicode_len() != WORD_LENGTH || word.unicode_len() != WORD_LENGTH {
            return Err(GuessError::InvalidLength);
        }
        let letters = [
            score_letter(guess, word, 0),
            score_letter(guess, word, 1),
            score_letter(guess, word, 2),
            score_letter(guess, word, 3),
            score_letter(guess, word, 4),
        ];
        let r = Guess { letters };
        assert(is_scoring(r.letters@, guess@, word@));
        Ok(r)
    }

    /// Checks that `guess` is long enough and an accepted word, then scores it
    /// against the secret `word`.
    pub fn new(guess: &str, word: &str, words: &WordList) -> (r: Result<Guess, GuessError>)
        ensures
            r == Err::<Guess, GuessError>(GuessError::TooShort) <==> guess@.len() < WORD_LENGTH,
            r == Err::<Guess, GuessError>(GuessError::NotAWord) <==> guess@.len() >= WORD_LENGTH
                && !words.accepts(guess@),
            r == Err::<Guess, GuessError>(GuessError::InvalidLength) <==> guess@.len()
                >= WORD_LENGTH && words.accepts(guess@) && (guess@.len() != WORD_LENGTH
                || word@.len() != WORD_LENGTH),
            r matches Ok(g) ==> is_scoring(g.letters@, guess@, word@),
    {
        if guess.unicode_len() < WORD_LENGTH {
            return Err(GuessError::TooShort);
        }
        if !words.is_acceptable_guess(guess) {
            return Err(GuessError::NotAWord);
        }
        Guess::score(guess, word)
    }

    /// Every letter is in its right place.
    pub fn is_solved(&self) -> (r: bool)
        ensures
            r == all_correct(self.letters@),
    {
        let mut i: usize = 0;
        while i < WORD_LENGTH
            invariant
                i <= WORD_LENGTH,
                self.letters@.len() == WORD_LENGTH,
                forall|j: int| 0 <= j < i ==> #[trigger] self.letters@[j].state == LetterState::CorrectIndex,
            decreases WORD_LENGTH - i,
        {
            if self.letters[i].state != LetterState::CorrectIndex {
                return false;
            }
            i = i + 1;
        }
        true
    }
}

/// Scoring a word against itself marks every letter as in its right place.
pub proof fn lemma_exact_word_all_correct(letters: Seq<Letter>, w: Seq<char>)
    requires
        w.len() == WORD_LENGTH,
        is_scoring(letters, w, w),
    ensures
        all_correct(letters),
{
}

/// A guess that shares no character with the target has every letter marked
/// as not in the word.
pub proof fn lemma_disjoint_all_not_in_word(letters: Seq<Letter>, w: Seq<char>, t: Seq<char>)
    requires
        w.len() == WORD_LENGTH,
        t.len() == WORD_LENGTH,
        forall|i: int, j: int| 0 <= i < w.len() && 0 <= j < t.len() ==> w[i] != t[j],
        is_scoring(letters, w, t),
    ensures
        forall|i: int| 0 <= i < letters.len() ==> #[trigger] letters[i].state == LetterState::NotInWord,
{
    assert forall|i: int| 0 <= i < letters.len() implies #[trigger] letters[i].state == LetterState::NotInWord by {
        assert(letters[i] == scored(w, t, i));
        assert(!t.contains(w[i]));
    }
}

/// A letter is marked as in its right place exactly when it matches the
/// target at that position, and is never marked as absent when the target
/// holds it.
pub proof fn lemma_classification(letters: Seq<Letter>, w: Seq<char>, t: Seq<char>)
    requires
        w.len() == WORD_LENGTH,
        t.len() == WORD_LENGTH,
        is_scoring(letters, w, t),
    ensures
        forall|i: int|
            0 <= i < WORD_LENGTH ==> (#[trigger] letters[i].state == LetterState::CorrectIndex
                <==> w[i] == t[i]),
        forall|i: int|
            0 <= i < WORD_LENGTH && t.contains(w[i]) ==> #[trigger] letters[i].state
                != LetterState::NotInWord,
{
    assert forall|i: int| 0 <= i < WORD_LENGTH implies (#[trigger] letters[i].state
        == LetterState::CorrectIndex <==> w[i] == t[i]) by {
        assert(letters[i] == scored(w, t, i));
    }
    assert forall|i: int| 0 <= i < WORD_LENGTH && t.contains(w[i]) implies #[trigger] letters[i].state
        != LetterState::NotInWord by {
        assert(letters[i] == scored(w, t, i));
    }
}

} // verus!
