use typemaster::queue::{copy_words, fits_round, shuffled, WordQueue};
use typemaster::text::chars_of_str;

#[test]
fn new_queue_is_empty() {
    let q = WordQueue::new();
    assert_eq!(q.len(), 0);
    assert!(q.is_empty());
    assert!(q.front().is_none());
    assert_eq!(q.render_text(), "");
}

#[test]
fn from_words_keeps_the_order() {
    let q = WordQueue::from_words(vec![
        chars_of_str("one"),
        chars_of_str("two"),
        chars_of_str("three"),
    ]);
    assert_eq!(q.len(), 3);
    assert_eq!(q.front(), Some(&chars_of_str("one")));
    assert_eq!(q.render_text(), "one two three");
}

#[test]
fn pop_front_drops_the_target() {
    let mut q = WordQueue::from_words(vec![chars_of_str("one"), chars_of_str("two")]);
    q.pop_front();
    assert_eq!(q.len(), 1);
    assert_eq!(q.front(), Some(&chars_of_str("two")));
    assert_eq!(q.render_text(), "two");
    q.pop_front();
    assert!(q.is_empty());
    assert!(q.front().is_none());
    q.pop_front();
    assert!(q.is_empty());
}

#[test]
fn render_text_puts_single_spaces_between_words() {
    let q = WordQueue::from_words(vec![chars_of_str("a")]);
    assert_eq!(q.render_text(), "a");
    let q = WordQueue::from_words(vec![chars_of_str("a"), chars_of_str(""), chars_of_str("b")]);
    assert_eq!(q.render_text(), "a  b");
}

#[test]
fn copy_words_copies() {
    let words = vec![chars_of_str("alpha"), chars_of_str(""), chars_of_str("beta")];
    assert_eq!(copy_words(&words), words);
    assert_eq!(copy_words(&Vec::new()), Vec::<Vec<char>>::new());
}

#[test]
fn small_rounds_fit() {
    assert!(fits_round(&Vec::new()));
    assert!(fits_round(&vec![chars_of_str("alpha"), chars_of_str("beta")]));
}

#[test]
fn shuffle_keeps_every_word() {
    let corpus: Vec<Vec<char>> = (0..200).map(|n| chars_of_str(&format!("w{}", n % 50))).collect();
    let mut out = shuffled(&corpus);
    assert_eq!(out.len(), corpus.len());
    let mut expected = corpus.clone();
    expected.sort();
    out.sort();
    assert_eq!(out, expected);
}

#[test]
fn shuffle_changes_the_order() {
    let corpus: Vec<Vec<char>> = (0..100).map(|n| chars_of_str(&format!("word{}", n))).collect();
    let mut moved = false;
    for _ in 0..8 {
        if shuffled(&corpus) != corpus {
            moved = true;
        }
    }
    assert!(moved);
}

#[test]
fn generate_queues_the_whole_corpus() {
    let corpus: Vec<Vec<char>> = (0..100).map(|n| chars_of_str(&format!("word{}", n))).collect();
    let mut q = WordQueue::generate(&corpus);
    assert_eq!(q.len(), 100);
    let mut drawn = Vec::new();
    while let Some(word) = q.front() {
        drawn.push(word.clone());
        q.pop_front();
    }
    assert_ne!(drawn, corpus);
    drawn.sort();
    let mut expected = corpus.clone();
    expected.sort();
    assert_eq!(drawn, expected);
}

#[test]
fn generate_of_nothing_is_empty() {
    let q = WordQueue::generate(&Vec::new());
    assert!(q.is_empty());
}
