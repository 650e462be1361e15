use typemaster::score::{Score, CHARS_PER_WORD, CREDIT_LIMIT};

#[test]
fn new_score_is_zero() {
    let s = Score::new();
    assert_eq!(s.matched_chars(), 0);
    assert_eq!(s.word_count(), 0);
    assert_eq!(s.wpm(30), 0);
}

#[test]
fn completed_word_counts_its_space() {
    let mut s = Score::new();
    s.credit_word(5);
    assert_eq!(s.matched_chars(), 6);
    s.credit_word(0);
    assert_eq!(s.matched_chars(), 7);
    s.credit_word(3);
    assert_eq!(s.matched_chars(), 11);
}

#[test]
fn prefix_counts_no_space() {
    let mut s = Score::new();
    s.credit_prefix(3);
    assert_eq!(s.matched_chars(), 3);
    s.credit_prefix(0);
    assert_eq!(s.matched_chars(), 3);
}

#[test]
fn word_count_is_matched_over_five() {
    assert_eq!(CHARS_PER_WORD, 5);
    let mut s = Score::new();
    s.credit_prefix(4);
    assert_eq!(s.word_count(), 0);
    s.credit_prefix(1);
    assert_eq!(s.word_count(), 1);
    s.credit_prefix(20);
    assert_eq!(s.word_count(), 5);
    s.credit_prefix(4);
    assert_eq!(s.word_count(), 5);
}

#[test]
fn wpm_of_25_chars_after_30_seconds() {
    let mut s = Score::new();
    s.credit_prefix(25);
    assert_eq!(s.word_count(), 5);
    assert_eq!(s.wpm(30), 10);
}

#[test]
fn wpm_divides_the_minute_first() {
    let mut s = Score::new();
    s.credit_prefix(15);
    assert_eq!(s.wpm(40), 3);
    assert_eq!(s.wpm(31), 3);
    assert_eq!(s.wpm(30), 6);
    assert_eq!(s.wpm(21), 6);
    assert_eq!(s.wpm(20), 9);
    assert_eq!(s.wpm(1), 180);
    assert_eq!(s.wpm(60), 3);
    assert_eq!(s.wpm(61), 0);
}

#[test]
fn wpm_is_zero_before_any_time_has_passed() {
    let mut s = Score::new();
    s.credit_prefix(500);
    assert_eq!(s.wpm(0), 0);
}

#[test]
fn wpm_fits_at_the_credit_limit() {
    let mut s = Score::new();
    s.credit_prefix(CREDIT_LIMIT);
    assert_eq!(s.matched_chars(), CREDIT_LIMIT);
    assert_eq!(s.wpm(1), CREDIT_LIMIT / 5 * 60);
}

#[test]
fn reset_clears_the_score() {
    let mut s = Score::new();
    s.credit_word(9);
    s.reset();
    assert_eq!(s.matched_chars(), 0);
}
