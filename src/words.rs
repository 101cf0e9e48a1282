use rand::seq::SliceRandom;
use vstd::prelude::*;

verus! {

/// Relies on rand's `SliceRandom::choose` with the thread-local generator:
/// `None` exactly when the list is empty, otherwise a copy of one of its words.
#[verifier::external_body]
fn choose_word(words: &Vec<String>) -> (r: Option<String>)
    ensures
        r is None <==> words@.len() == 0,
        r matches Some(w) ==> words@.contains(w),
{
    words.choose(&mut rand::thread_rng()).cloned()
}

/// `words` holds a word whose characters are `w`.
pub open spec fn holds_word(words: Seq<String>, w: Seq<char>) -> bool {
    exists|i: int| 0 <= i < words.len() && #[trigger] words[i]@ == w
}

/// The words of the game: a pool the secret word is drawn from, and a pool of
/// further words the player may guess.
pub struct WordList {
    targets: Vec<String>,
    valid_guesses: Vec<String>,
}

impl WordList {
    pub closed spec fn target_pool(&self) -> Seq<String> {
        self.targets@
    }

    pub closed spec fn guess_pool(&self) -> Seq<String> {
        self.valid_guesses@
    }

    /// `w` may be submitted as a guess: it is in either pool.
    pub open spec fn accepts(&self, w: Seq<char>) -> bool {
        holds_word(self.target_pool(), w) || holds_word(self.guess_pool(), w)
    }

    pub fn new(targets: Vec<String>, valid_guesses: Vec<String>) -> (r: WordList)
        ensures
            r.target_pool() == targets@,
            r.guess_pool() == valid_guesses@,
    {
        WordList { targets, valid_guesses }
    }

    pub fn targets(&self) -> (r: &Vec<String>)
        ensures
            r@ == self.target_pool(),
    {
        &self.targets
    }

    pub fn valid_guesses(&self) -> (r: &Vec<String>)
        ensures
            r@ == self.guess_pool(),
    {
        &self.valid_guesses
    }

    /// Whether `word` is in either pool.
    pub fn is_acceptable_guess(&self, word: &str) -> (r: bool)
        ensures
            r == self.accepts(word@),
    {
        let w: String = word.to_owned();
        contains_word(&self.targets, &w) || contains_word(&self.valid_guesses, &w)
    }

    /// A word of the target pool, drawn at random.
    pub fn pick_random_target(&self) -> (r: String)
        requires
            self.target_pool().len() > 0,
        ensures
            self.target_pool().contains(r),
    {
        match choose_word(&self.targets) {
            Some(w) => w,
            None => {
                proof {
                    assert(false);
                }
                String::new()
            },
        }
    }
}

fn contains_word(words: &Vec<String>, w: &String) -> (r: bool)
    ensures
        r == holds_word(words@, w@),
{
    let mut i: usize = 0;
    while i < words.len()
        invariant
            i <= words@.len(),
            forall|j: int| 0 <= j < i ==> #[trigger] words@[j]@ != w@,
        decreases words@.len() - i,
    {
        if words[i] == *w {
            return true;
        }
        i = i + 1;
    }
    false
}

} // verus!
