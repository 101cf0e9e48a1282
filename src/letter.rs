use vstd::prelude::*;

verus! {

/// Outcome of comparing one letter of a guess with the secret word.
#[derive(Copy, Clone, Debug, PartialEq, Eq, Structural)]
pub enum LetterState {
    NotInWord,
    InWord,
    CorrectIndex,
}

/// One scored letter of a guess.
#[derive(Copy, Clone, Debug, PartialEq, Eq, Structural)]
pub struct Letter {
    pub charecter: char,
    pub state: LetterState,
}

impl Letter {
    pub fn new(charecter: char, state: LetterState) -> (r: Letter)
        ensures
            r.charecter == charecter,
            r.state == state,
    {
        Letter { charecter, state }
    }
}

/// `c` is one of `A`..`Z` or `a`..`z`.
pub open spec fn is_ascii_letter(c: char) -> bool {
    ('A' <= c && c <= 'Z') || ('a' <= c && c <= 'z')
}

/// The upper-case form of an ASCII letter; any other character is kept.
pub open spec fn upper(c: char) -> char {
    if 'a' <= c && c <= 'z' {
        ((c as u32 - 32) as u8) as char
    } else {
        c
    }
}

pub fn is_ascii_alphabetic(c: char) -> (r: bool)
    ensures
        r == is_ascii_letter(c),
{
    ('A' <= c && c <= 'Z') || ('a' <= c && c <= 'z')
}

pub fn to_ascii_uppercase(c: char) -> (r: char)
    ensures
        r == upper(c),
        is_ascii_letter(c) ==> 'A' <= r && r <= 'Z',
{
    if 'a' <= c && c <= 'z' {
        let b: u8 = (c as u32 - 32) as u8;
        b as char
    } else {
        c
    }
}

} // verus!
