use crate::guess::Guess;
use crate::letter::{Letter, LetterState};
use crate::WORD_LENGTH;
use vstd::prelude::*;

verus! {

/// What the keyboard shows for one letter: the best classification seen so far.
#[derive(Copy, Clone, Debug, PartialEq, Eq, Structural)]
pub enum KeyState {
    Unused,
    NotInWord,
    InWord,
    CorrectIndex,
}

/// Precedence of a key state: `CorrectIndex > InWord > NotInWord > Unused`.
pub open spec fn rank(s: KeyState) -> nat {
    match s {
        KeyState::Unused => 0,
        KeyState::NotInWord => 1,
        KeyState::InWord => 2,
        KeyState::CorrectIndex => 3,
    }
}

/// The higher-precedence of two key states.
pub open spec fn better(a: KeyState, b: KeyState) -> KeyState {
    if rank(b) > rank(a) {
        b
    } else {
        a
    }
}

/// The key state that shows a letter classification.
pub open spec fn key_state_of(s: LetterState) -> KeyState {
    match s {
        LetterState::NotInWord => KeyState::NotInWord,
        LetterState::InWord => KeyState::InWord,
        LetterState::CorrectIndex => KeyState::CorrectIndex,
    }
}

/// `c` is one of the 26 keys, `A` to `Z`.
pub open spec fn is_key(c: char) -> bool {
    'A' <= c && c <= 'Z'
}

/// Position of key `c` in alphabetical order.
pub open spec fn key_slot(c: char) -> int {
    c as int - 'A' as int
}

/// What key `c` shows after starting from `s` and recording each of `letters`
/// in turn.
pub open spec fn after_letters(s: KeyState, c: char, letters: Seq<Letter>) -> KeyState
    decreases letters.len(),
{
    if letters.len() == 0 {
        s
    } else {
        let prev = after_letters(s, c, letters.drop_last());
        let l = letters.last();
        if l.charecter == c && is_key(c) {
            better(prev, key_state_of(l.state))
        } else {
            prev
        }
    }
}

/// Recording letters never lowers the precedence of what a key shows.
pub proof fn lemma_after_letters_monotonic(s: KeyState, c: char, letters: Seq<Letter>)
    ensures
        rank(after_letters(s, c, letters)) >= rank(s),
    decreases letters.len(),
{
    if letters.len() > 0 {
        lemma_after_letters_monotonic(s, c, letters.drop_last());
    }
}

impl KeyState {
    pub fn from_letter_state(s: LetterState) -> (r: KeyState)
        ensures
            r == key_state_of(s),
    {
        match s {
            LetterState::NotInWord => KeyState::NotInWord,
            LetterState::InWord => KeyState::InWord,
            LetterState::CorrectIndex => KeyState::CorrectIndex,
        }
    }

    fn rank(&self) -> (r: u8)
        ensures
            r as nat == rank(*self),
    {
        match self {
            KeyState::Unused => 0,
            KeyState::NotInWord => 1,
            KeyState::InWord => 2,
            KeyState::CorrectIndex => 3,
        }
    }
}

/// The state of each of the 26 letter keys, kept in alphabetical order.
pub struct Keyboard {
    states: Vec<KeyState>,
}

impl Keyboard {
    pub closed spec fn well_formed(&self) -> bool {
        self.states@.len() == 26
    }

    /// What the keyboard shows for character `c`; a character that is not a
    /// key reads as `Unused`.
    pub closed spec fn state_of(&self, c: char) -> KeyState {
        if is_key(c) {
            self.states@[key_slot(c)]
        } else {
            KeyState::Unused
        }
    }

    /// A keyboard on which every key is `Unused`.
    pub fn new() -> (r: Keyboard)
        ensures
            r.well_formed(),
            forall|c: char| #[trigger] r.state_of(c) == KeyState::Unused,
    {
        let mut states: Vec<KeyState> = Vec::new();
        let mut i: usize = 0;
        while i < 26
            invariant
                i <= 26,
                states@.len() == i,
                forall|j: int| 0 <= j < i ==> states@[j] == KeyState::Unused,
            decreases 26 - i,
        {
            states.push(KeyState::Unused);
            i = i + 1;
        }
        Keyboard { states }
    }

    /// Records that `charecter` was classified as `state`: the key keeps the
    /// higher-precedence of its current state and `state`. Other keys, and
    /// characters that are not keys, are unchanged.
    pub fn set_key_state(&mut self, charecter: char, state: KeyState)
        requires
            old(self).well_formed(),
        ensures
            final(self).well_formed(),
            forall|c: char|
                #[trigger] final(self).state_of(c) == if c == charecter && is_key(c) {
                    better(old(self).state_of(c), state)
                } else {
                    old(self).state_of(c)
                },
            forall|c: char| rank(#[trigger] final(self).state_of(c)) >= rank(old(self).state_of(c)),
    {
        if 'A' <= charecter && charecter <= 'Z' {
            let slot: usize = (charecter as u32 - 'A' as u32) as usize;
            assert(slot as int == key_slot(charecter));
            if state.rank() > self.states[slot].rank() {
                self.states.set(slot, state);
            }
        }
        assert forall|c: char| #[trigger] self.state_of(c) == if c == charecter && is_key(c) {
            better(old(self).state_of(c), state)
        } else {
            old(self).state_of(c)
        } by {
            if is_key(c) && c != charecter && is_key(charecter) {
                assert(c as int != charecter as int);
                assert(key_slot(c) != key_slot(charecter));
            }
        }
    }

    /// The state shown for `charecter`.
    pub fn get(&self, charecter: char) -> (r: KeyState)
        requires
            self.well_formed(),
        ensures
            r == self.state_of(charecter),
    {
        if 'A' <= charecter && charecter <= 'Z' {
            self.states[(charecter as u32 - 'A' as u32) as usize]
        } else {
            KeyState::Unused
        }
    }

    /// Records every letter of a scored guess, in order.
    pub fn record_guess(&mut self, guess: &Guess)
        requires
            old(self).well_formed(),
        ensures
            final(self).well_formed(),
            forall|c: char|
                #[trigger] final(self).state_of(c) == after_letters(
                    old(self).state_of(c),
                    c,
                    guess.letters@,
                ),
            forall|c: char| rank(#[trigger] final(self).state_of(c)) >= rank(old(self).state_of(c)),
    {
        let mut i: usize = 0;
        while i < WORD_LENGTH
            invariant
                i <= WORD_LENGTH,
                guess.letters@.len() == WORD_LENGTH,
                self.well_formed(),
                forall|c: char|
                    #[trigger] self.state_of(c) == after_letters(
                        old(self).state_of(c),
                        c,
                        guess.letters@.subrange(0, i as int),
                    ),
            decreases WORD_LENGTH - i,
        {
            let l = guess.letters[i];
            self.set_key_state(l.charecter, KeyState::from_letter_state(l.state));
            assert forall|c: char|
                #[trigger] self.state_of(c) == after_letters(
                    old(self).state_of(c),
                    c,
                    guess.letters@.subrange(0, i + 1),
                ) by {
                assert(guess.letters@.subrange(0, i + 1).drop_last() =~= guess.letters@.subrange(
                    0,
                    i as int,
                ));
            }
            i = i + 1;
        }
        assert(guess.letters@.subrange(0, WORD_LENGTH as int) =~= guess.letters@);
        assert forall|c: char| rank(#[trigger] self.state_of(c)) >= rank(old(self).state_of(c)) by {
            lemma_after_letters_monotonic(old(self).state_of(c), c, guess.letters@);
        }
    }
}

impl Default for Keyboard {
    fn default() -> (r: Keyboard)
        ensures
            r.well_formed(),
            forall|c: char| #[trigger] r.state_of(c) == KeyState::Unused,
    {
        Keyboard::new()
    }
}

} // verus!
