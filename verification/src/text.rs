//! Character sequences: conversion between `String` and `Vec<char>`, decimal
//! digits, the `mm:ss` clock and the length of a common prefix.

use vstd::prelude::*;
use vstd::string::*;

verus! {

/// `String::push` of the standard library: appends one character at the end
/// and leaves the characters before it as they were.
pub assume_specification[ String::push ](s: &mut String, ch: char)
    ensures
        final(s)@ == old(s)@.push(ch),
;

/// The characters of `chars` from position `from` up to, not including,
/// position `to`, as a `String`.
pub fn string_of_range(chars: &Vec<char>, from: usize, to: usize) -> (s: String)
    requires
        from <= to <= chars.len(),
    ensures
        s@ == chars@.subrange(from as int, to as int),
{
    let mut s = String::new();
    let mut i: usize = from;
    while i < to
        invariant
            from <= i <= to <= chars.len(),
            s@ == chars@.subrange(from as int, i as int),
        decreases to - i,
    {
        s.push(chars[i]);
        i += 1;
    }
    s
}

/// The characters of `chars`, in order, as a `String`.
pub fn string_of_chars(chars: &Vec<char>) -> (s: String)
    ensures
        s@ == chars@,
{
    string_of_range(chars, 0, chars.len())
}

/// The characters of `s`, in order.
pub fn chars_of_str(s: &str) -> (chars: Vec<char>)
    ensures
        chars@ == s@,
{
    let mut chars: Vec<char> = Vec::new();
    for c in it: s.chars()
        invariant
            it.seq() == s@,
            chars@ == s@.take(it.index() as int),
    {
        chars.push(c);
    }
    chars
}

/// The character that writes the digit `d`, for `d` below ten.
pub open spec fn digit_char(d: nat) -> char {
    (d + 48) as char
}

/// `n` written in decimal, most significant digit first, without padding.
pub open spec fn decimal(n: nat) -> Seq<char>
    decreases n,
{
    if n < 10 {
        seq![digit_char(n)]
    } else {
        decimal(n / 10).push(digit_char(n % 10))
    }
}

/// `n` in decimal, with one leading zero where it has a single digit.
pub open spec fn two_digits(n: nat) -> Seq<char> {
    if n < 10 {
        seq!['0'] + decimal(n)
    } else {
        decimal(n)
    }
}

/// A number of seconds as minutes and seconds, `mm:ss`.
pub open spec fn clock(seconds: nat) -> Seq<char> {
    two_digits(seconds / 60) + seq![':'] + two_digits(seconds % 60)
}

fn digit(d: usize) -> (c: char)
    requires
        d < 10,
    ensures
        c == digit_char(d as nat),
{
    (d as u8 + 48u8) as char
}

/// Appends `n` in decimal to `s`.
pub fn push_decimal(s: &mut String, n: usize)
    ensures
        final(s)@ == old(s)@ + decimal(n as nat),
    decreases n,
{
    if n >= 10 {
        push_decimal(s, n / 10);
    }
    s.push(digit(n % 10));
}

/// Appends `n` in decimal to `s`, padded to two digits.
pub fn push_two_digits(s: &mut String, n: usize)
    ensures
        final(s)@ == old(s)@ + two_digits(n as nat),
{
    if n < 10 {
        s.push('0');
    }
    push_decimal(s, n);
}

/// Formats a number of seconds as `mm:ss`.
pub fn clock_text(seconds: usize) -> (s: String)
    ensures
        s@ == clock(seconds as nat),
{
    let mut s = String::new();
    push_two_digits(&mut s, seconds / 60);
    s.push(':');
    push_two_digits(&mut s, seconds % 60);
    s
}

/// The number of leading positions at which `a` and `b` hold the same
/// character: counting stops at the first difference or at the end of the
/// shorter sequence.
pub open spec fn common_prefix_len(a: Seq<char>, b: Seq<char>) -> nat
    decreases a.len(),
{
    if a.len() == 0 || b.len() == 0 || a[0] != b[0] {
        0
    } else {
        1 + common_prefix_len(a.drop_first(), b.drop_first())
    }
}

/// What it means for `n` to be the length of the longest common prefix.
pub open spec fn is_common_prefix_len(a: Seq<char>, b: Seq<char>, n: int) -> bool {
    &&& 0 <= n <= a.len()
    &&& n <= b.len()
    &&& forall|i: int| 0 <= i < n ==> a[i] == b[i]
    &&& n < a.len() && n < b.len() ==> a[n] != b[n]
}

/// `common_prefix_len` is the length of the longest common prefix.
pub proof fn lemma_common_prefix_len(a: Seq<char>, b: Seq<char>)
    ensures
        is_common_prefix_len(a, b, common_prefix_len(a, b) as int),
    decreases a.len(),
{
    if a.len() > 0 && b.len() > 0 && a[0] == b[0] {
        let a1 = a.drop_first();
        let b1 = b.drop_first();
        lemma_common_prefix_len(a1, b1);
        let n = common_prefix_len(a, b) as int;
        assert forall|i: int| 0 <= i < n implies a[i] == b[i] by {
            if i > 0 {
                assert(a1[i - 1] == a[i]);
                assert(b1[i - 1] == b[i]);
            }
        }
    }
}

/// Only one number is the length of the longest common prefix.
pub proof fn lemma_common_prefix_len_unique(a: Seq<char>, b: Seq<char>, n: int)
    requires
        is_common_prefix_len(a, b, n),
    ensures
        n == common_prefix_len(a, b),
{
    lemma_common_prefix_len(a, b);
}

/// Counts the leading characters that `a` and `b` share.
pub fn matching_prefix_len(a: &Vec<char>, b: &Vec<char>) -> (n: usize)
    ensures
        n == common_prefix_len(a@, b@),
{
    let mut n: usize = 0;
    while n < a.len() && n < b.len() && a[n] == b[n]
        invariant
            n <= a.len(),
            n <= b.len(),
            forall|i: int| 0 <= i < n ==> a@[i] == b@[i],
        decreases a.len() - n,
    {
        n += 1;
    }
    proof {
        lemma_common_prefix_len_unique(a@, b@, n as int);
    }
    n
}

/// Whether `a` and `b` hold the same characters.
pub fn same_chars(a: &Vec<char>, b: &Vec<char>) -> (same: bool)
    ensures
        same == (a@ == b@),
{
    if a.len() != b.len() {
        return false;
    }
    let n = matching_prefix_len(a, b);
    proof {
        lemma_common_prefix_len(a@, b@);
        if n == a.len() {
            assert(a@ =~= b@);
        }
    }
    n == a.len()
}

} // verus!
