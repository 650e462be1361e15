//! The words of a round, in the order in which they have to be typed.

use std::collections::VecDeque;
use rand::seq::SliceRandom;
use rand::thread_rng;
use vstd::prelude::*;
use vstd::seq_lib::{to_multiset_contains, to_multiset_len, to_multiset_remove};
use crate::score::CREDIT_LIMIT;

verus! {

/// Each word of `words` as its characters.
pub open spec fn words_view(words: Seq<Vec<char>>) -> Seq<Seq<char>> {
    words.map_values(|w: Vec<char>| w@)
}

/// The characters credited for completing every word of `words`: each word
/// and the space that commits it.
pub open spec fn full_credit(words: Seq<Seq<char>>) -> nat
    decreases words.len(),
{
    if words.len() == 0 {
        0
    } else {
        full_credit(words.drop_last()) + words.last().len() + 1
    }
}

/// The words of `words` with a single space between neighbours.
pub open spec fn joined(words: Seq<Seq<char>>) -> Seq<char>
    decreases words.len(),
{
    if words.len() == 0 {
        Seq::empty()
    } else if words.len() == 1 {
        words[0]
    } else {
        joined(words.drop_last()) + seq![' '] + words.last()
    }
}

/// Taking one word out lowers the credit by that word's share.
pub proof fn lemma_full_credit_remove(words: Seq<Seq<char>>, k: int)
    requires
        0 <= k < words.len(),
    ensures
        full_credit(words) == full_credit(words.remove(k)) + words[k].len() + 1,
    decreases words.len(),
{
    if k < words.len() - 1 {
        lemma_full_credit_remove(words.drop_last(), k);
        assert(words.remove(k).drop_last() =~= words.drop_last().remove(k));
    }
}

/// The credit of a list of words does not depend on their order.
pub proof fn lemma_full_credit_permutation(a: Seq<Seq<char>>, b: Seq<Seq<char>>)
    requires
        a.to_multiset() == b.to_multiset(),
    ensures
        a.len() == b.len(),
        full_credit(a) == full_credit(b),
    decreases a.len(),
{
    to_multiset_len(a);
    to_multiset_len(b);
    if a.len() > 0 {
        let x = a.last();
        to_multiset_contains(a, x);
        to_multiset_contains(b, x);
        let k = choose|k: int| 0 <= k < b.len() && b[k] == x;
        to_multiset_remove(a, a.len() - 1);
        to_multiset_remove(b, k);
        lemma_full_credit_remove(b, k);
        lemma_full_credit_permutation(a.drop_last(), b.remove(k));
    }
}

/// `rand::seq::SliceRandom::shuffle`, with the generator that
/// `rand::thread_rng` hands out: the words are put into a random order. Of the
/// order nothing is claimed; the words are the same as before, each as often.
#[verifier::external_body]
fn shuffle_words(words: &mut Vec<Vec<char>>)
    ensures
        words_view(final(words)@).to_multiset() == words_view(old(words)@).to_multiset(),
{
    words.shuffle(&mut thread_rng());
}

/// A copy of `words`.
pub fn copy_words(words: &Vec<Vec<char>>) -> (copy: Vec<Vec<char>>)
    ensures
        words_view(copy@) == words_view(words@),
{
    let mut copy: Vec<Vec<char>> = Vec::new();
    let mut i: usize = 0;
    while i < words.len()
        invariant
            i <= words.len(),
            copy@.len() == i,
            words_view(copy@) == words_view(words@.take(i as int)),
        decreases words.len() - i,
    {
        let word = words[i].clone();
        let ghost done = copy@;
        copy.push(word);
        assert forall|j: int| 0 <= j < i + 1 implies words_view(copy@)[j] == words_view(
            words@.take(i + 1),
        )[j] by {
            if j < i {
                assert(words_view(done)[j] == words_view(words@.take(i as int))[j]);
            }
        }
        i += 1;
    }
    copy
}

/// The words of `corpus` in a random order: the same words, each as often.
pub fn shuffled(corpus: &Vec<Vec<char>>) -> (words: Vec<Vec<char>>)
    ensures
        words_view(words@).to_multiset() == words_view(corpus@).to_multiset(),
        words@.len() == corpus@.len(),
        full_credit(words_view(words@)) == full_credit(words_view(corpus@)),
{
    let mut words = copy_words(corpus);
    shuffle_words(&mut words);
    proof {
        lemma_full_credit_permutation(words_view(words@), words_view(corpus@));
    }
    words
}

/// Whether a round over `words` stays within the credit limit.
pub fn fits_round(words: &Vec<Vec<char>>) -> (fits: bool)
    ensures
        fits == (full_credit(words_view(words@)) <= CREDIT_LIMIT),
{
    let mut total: usize = 0;
    let mut i: usize = 0;
    while i < words.len()
        invariant
            i <= words.len(),
            total == full_credit(words_view(words@.take(i as int))),
            total <= CREDIT_LIMIT,
        decreases words.len() - i,
    {
        let len = words[i].len();
        proof {
            let next = words_view(words@.take(i + 1));
            assert(next.drop_last() =~= words_view(words@.take(i as int)));
            if total + len + 1 > CREDIT_LIMIT {
                lemma_full_credit_prefix(words_view(words@), i + 1);
                assert(words_view(words@).take(i + 1) =~= next);
            }
        }
        if len >= CREDIT_LIMIT || total > CREDIT_LIMIT - len - 1 {
            return false;
        }
        total = total + len + 1;
        i += 1;
    }
    assert(words@.take(i as int) =~= words@);
    true
}

/// The credit of the first `n` words is no more than that of all.
pub proof fn lemma_full_credit_prefix(words: Seq<Seq<char>>, n: int)
    requires
        0 <= n <= words.len(),
    ensures
        full_credit(words.take(n)) <= full_credit(words),
    decreases words.len(),
{
    if n == words.len() {
        assert(words.take(n) =~= words);
    } else {
        lemma_full_credit_prefix(words.drop_last(), n);
        assert(words.drop_last().take(n) =~= words.take(n));
    }
}

/// The words still to be typed; the first is the current target.
#[derive(Debug)]
pub struct WordQueue {
    words: VecDeque<Vec<char>>,
}

impl View for WordQueue {
    type V = Seq<Seq<char>>;

    closed spec fn view(&self) -> Seq<Seq<char>> {
        words_view(self.words@)
    }
}

impl WordQueue {
    /// The empty queue.
    pub fn new() -> (q: Self)
        ensures
            q@ == Seq::<Seq<char>>::empty(),
    {
        WordQueue { words: VecDeque::new() }
    }

    /// The queue that holds `words` in the order given.
    pub fn from_words(words: Vec<Vec<char>>) -> (q: Self)
        ensures
            q@ == words_view(words@),
    {
        let ghost all = words@;
        let mut rest = words;
        let mut queue: VecDeque<Vec<char>> = VecDeque::new();
        loop
            invariant
                rest@ + queue@ == all,
            ensures
                queue@ == all,
            decreases rest.len(),
        {
            match rest.pop() {
                Some(word) => queue.push_front(word),
                None => break ,
            }
        }
        WordQueue { words: queue }
    }

    /// The words of `corpus` in a random order.
    pub fn generate(corpus: &Vec<Vec<char>>) -> (q: Self)
        ensures
            q@.to_multiset() == words_view(corpus@).to_multiset(),
            q@.len() == corpus@.len(),
            full_credit(q@) == full_credit(words_view(corpus@)),
    {
        WordQueue::from_words(shuffled(corpus))
    }

    /// The number of words still to be typed.
    pub fn len(&self) -> (n: usize)
        ensures
            n == self@.len(),
    {
        self.words.len()
    }

    /// Whether no word is left.
    pub fn is_empty(&self) -> (e: bool)
        ensures
            e == (self@.len() == 0),
    {
        self.words.len() == 0
    }

    /// The current target: the first word, where there is one.
    pub fn front(&self) -> (w: Option<&Vec<char>>)
        ensures
            self@.len() == 0 ==> w is None,
            self@.len() > 0 ==> w is Some && w->0@ == self@[0],
    {
        if self.words.len() > 0 {
            Some(&self.words[0])
        } else {
            None
        }
    }

    /// Drops the first word; an empty queue stays empty.
    pub fn pop_front(&mut self)
        ensures
            old(self)@.len() > 0 ==> final(self)@ == old(self)@.drop_first(),
            old(self)@.len() == 0 ==> final(self)@ == old(self)@,
    {
        self.words.pop_front();
    }

    /// The remaining words as one line, a single space between neighbours.
    pub fn render_text(&self) -> (line: String)
        ensures
            line@ == joined(self@),
    {
        let mut line = String::new();
        let mut i: usize = 0;
        while i < self.words.len()
            invariant
                i <= self.words.len(),
                line@ == joined(self@.take(i as int)),
            decreases self.words.len() - i,
        {
            if i > 0 {
                line.push(' ');
            }
            let ghost start = line@;
            let word = &self.words[i];
            let mut j: usize = 0;
            while j < word.len()
                invariant
                    j <= word.len(),
                    line@ == start + word@.take(j as int),
                decreases word.len() - j,
            {
                line.push(word[j]);
                j += 1;
            }
            assert(self@.take(i + 1).drop_last() =~= self@.take(i as int));
            i += 1;
        }
        assert(self@.take(i as int) =~= self@);
        line
    }
}

} // verus!
