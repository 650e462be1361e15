//! The running total of credited characters, and the figures derived from it.

use vstd::prelude::*;

verus! {

/// Characters that count as one word.
pub const CHARS_PER_WORD: usize = 5;

/// The most characters a round may credit: with no more than this, words per
/// minute fit a machine word.
pub const CREDIT_LIMIT: usize = usize::MAX / 12;

/// Whole words in `matched` characters.
pub open spec fn word_count(matched: nat) -> nat {
    matched / (CHARS_PER_WORD as nat)
}

/// Words per minute after `elapsed` seconds: the word count times the whole
/// number of such spans in a minute, and zero before any time has passed.
pub open spec fn words_per_minute(matched: nat, elapsed: int) -> nat {
    if elapsed > 0 {
        (word_count(matched) * (60int / elapsed)) as nat
    } else {
        0
    }
}

/// The characters credited so far in a round.
#[derive(Clone, Copy, Debug)]
pub struct Score {
    matched_chars: usize,
}

impl View for Score {
    type V = nat;

    closed spec fn view(&self) -> nat {
        self.matched_chars as nat
    }
}

impl Score {
    /// Validity of the score: it stays within the limit.
    pub open spec fn wf(&self) -> bool {
        self@ <= CREDIT_LIMIT
    }

    /// Nothing credited.
    pub fn new() -> (s: Self)
        ensures
            s.wf(),
            s@ == 0,
    {
        Score { matched_chars: 0 }
    }

    /// The characters credited so far.
    pub fn matched_chars(&self) -> (m: usize)
        ensures
            m == self@,
    {
        self.matched_chars
    }

    /// Back to nothing credited.
    pub fn reset(&mut self)
        ensures
            final(self).wf(),
            final(self)@ == 0,
    {
        self.matched_chars = 0;
    }

    /// Credits a completed word of `len` characters: the word and the space
    /// that committed it.
    pub fn credit_word(&mut self, len: usize)
        requires
            old(self)@ + len + 1 <= CREDIT_LIMIT,
        ensures
            final(self).wf(),
            final(self)@ == old(self)@ + len + 1,
    {
        self.matched_chars = self.matched_chars + len + 1;
    }

    /// Credits `n` characters of a word left unfinished.
    pub fn credit_prefix(&mut self, n: usize)
        requires
            old(self)@ + n <= CREDIT_LIMIT,
        ensures
            final(self).wf(),
            final(self)@ == old(self)@ + n,
    {
        self.matched_chars = self.matched_chars + n;
    }

    /// Whole words credited so far.
    pub fn word_count(&self) -> (w: usize)
        ensures
            w == word_count(self@),
    {
        self.matched_chars / CHARS_PER_WORD
    }

    /// Words per minute after `elapsed_seconds` of the round.
    pub fn wpm(&self, elapsed_seconds: usize) -> (w: usize)
        requires
            self.wf(),
        ensures
            w == words_per_minute(self@, elapsed_seconds as int),
    {
        if elapsed_seconds > 0 {
            let words: usize = self.matched_chars / CHARS_PER_WORD;
            let rate: usize = 60 / elapsed_seconds;
            assert(words * rate <= words * 60) by (nonlinear_arith)
                requires
                    rate <= 60,
            ;
            words * rate
        } else {
            0
        }
    }
}

} // verus!
