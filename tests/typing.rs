use std::path::PathBuf;
use ttyper_story::key::{KeyCode, KeyEvent};
use ttyper_story::results::Results;
use ttyper_story::typing::{Test, TestWord};

fn test_of(words: &[&str]) -> Test {
    Test::new(words.iter().map(|w| w.to_string()).collect(), PathBuf::from("image.png"))
}

fn press(test: &mut Test, keys: &str) {
    for (i, c) in keys.chars().enumerate() {
        test.handle_key(KeyEvent::plain(KeyCode::Char(c)), i as u64);
    }
}

#[test]
fn new_test_starts_fresh() {
    let test = test_of(&["cat", "dog"]);
    assert_eq!(test.words.len(), 2);
    assert_eq!(test.current_word, 0);
    assert!(!test.complete);
    assert_eq!(test.words[1].text, "dog");
    assert_eq!(test.words[1].progress, "");
    assert!(test.words[0].events.is_empty());
    assert_eq!(test.image_path, PathBuf::from("image.png"));
}

#[test]
fn word_from_text() {
    let word = TestWord::from("tree".to_string());
    assert_eq!(word.text, "tree");
    assert_eq!(word.progress, "");
    assert!(word.events.is_empty());
}

#[test]
fn round_trip_two_words() {
    let mut test = test_of(&["cat", "dog"]);
    press(&mut test, "cat dog ");
    assert!(test.complete);
    assert_eq!(test.current_word, 0);
    for word in &test.words {
        assert_eq!(word.progress, word.text);
        for event in &word.events {
            assert_eq!(event.correct, Some(true));
        }
    }
}

#[test]
fn typo_is_marked_wrong() {
    let mut test = test_of(&["cat"]);
    press(&mut test, "cax");
    let word = &test.words[0];
    assert_eq!(word.progress, "cax");
    assert_eq!(word.events.last().unwrap().correct, Some(false));
    assert!(!test.complete);
}

#[test]
fn typed_word_and_space_moves_on() {
    let mut test = test_of(&["sun", "moon", "star"]);
    press(&mut test, "sun");
    assert_eq!(test.current_word, 0);
    test.handle_key(KeyEvent::plain(KeyCode::Enter), 9);
    assert_eq!(test.current_word, 1);
    assert_eq!(test.words[0].progress, "sun");
    assert_eq!(test.words[0].events.last().unwrap().correct, Some(true));
}

#[test]
fn space_on_untouched_word_is_ignored() {
    let mut test = test_of(&["sun", "moon"]);
    test.handle_key(KeyEvent::plain(KeyCode::Char(' ')), 1);
    assert_eq!(test.current_word, 0);
    assert!(test.words[0].events.is_empty());
}

#[test]
fn space_inside_a_word_is_typed() {
    let mut test = test_of(&["a b", "c"]);
    press(&mut test, "a ");
    assert_eq!(test.current_word, 0);
    assert_eq!(test.words[0].progress, "a ");
    assert_eq!(test.words[0].events[1].correct, Some(true));
}

#[test]
fn wrong_word_is_judged_at_space() {
    let mut test = test_of(&["sun", "moon"]);
    press(&mut test, "sin ");
    assert_eq!(test.current_word, 1);
    assert_eq!(test.words[0].events.last().unwrap().correct, Some(false));
}

#[test]
fn backspace_removes_one_char() {
    let mut test = test_of(&["cat", "dog"]);
    press(&mut test, "cax");
    test.handle_key(KeyEvent::plain(KeyCode::Backspace), 5);
    assert_eq!(test.words[0].progress, "ca");
    assert_eq!(test.current_word, 0);
    // removing the wrong "x" fixes a mistake
    assert_eq!(test.words[0].events.last().unwrap().correct, Some(true));
    test.handle_key(KeyEvent::plain(KeyCode::Backspace), 6);
    assert_eq!(test.words[0].progress, "c");
    assert_eq!(test.words[0].events.last().unwrap().correct, Some(false));
}

#[test]
fn backspace_at_first_word_stays() {
    let mut test = test_of(&["cat", "dog"]);
    test.handle_key(KeyEvent::plain(KeyCode::Backspace), 1);
    assert_eq!(test.current_word, 0);
    assert_eq!(test.words[0].progress, "");
    assert!(test.words[0].events.is_empty());
}

#[test]
fn backspace_on_empty_word_goes_back() {
    let mut test = test_of(&["cat", "dog"]);
    press(&mut test, "cat ");
    assert_eq!(test.current_word, 1);
    test.handle_key(KeyEvent::plain(KeyCode::Backspace), 10);
    assert_eq!(test.current_word, 0);
    assert_eq!(test.words[0].progress, "cat");
    assert!(test.words[1].events.is_empty());
}

#[test]
fn control_h_clears_word() {
    let mut test = test_of(&["cat", "dog"]);
    press(&mut test, "cat do");
    test.handle_key(KeyEvent::with_control(KeyCode::Char('h')), 10);
    assert_eq!(test.current_word, 1);
    assert_eq!(test.words[1].progress, "");
    assert_eq!(test.words[1].events.last().unwrap().correct, None);
    test.handle_key(KeyEvent::with_control(KeyCode::Char('h')), 11);
    assert_eq!(test.current_word, 0);
    assert_eq!(test.words[0].progress, "");
    assert_eq!(test.words[0].events.last().unwrap().correct, None);
}

#[test]
fn last_word_completes_on_last_char() {
    let mut test = test_of(&["cat"]);
    press(&mut test, "ca");
    assert!(!test.complete);
    press(&mut test, "t");
    assert!(test.complete);
    assert_eq!(test.current_word, 0);
    // a complete exercise ignores further keys
    let recorded = test.words[0].events.len();
    test.handle_key(KeyEvent::plain(KeyCode::Char('z')), 20);
    test.handle_key(KeyEvent::plain(KeyCode::Char(' ')), 21);
    assert!(test.complete);
    assert_eq!(test.current_word, 0);
    assert_eq!(test.words[0].progress, "cat");
    assert_eq!(test.words[0].events.len(), recorded);
}

#[test]
fn empty_word_is_left_by_space() {
    let mut test = test_of(&["", "b"]);
    test.handle_key(KeyEvent::plain(KeyCode::Char(' ')), 1);
    assert_eq!(test.current_word, 1);
    assert_eq!(test.words[0].events[0].correct, Some(true));
}

#[test]
fn other_keys_are_ignored() {
    let mut test = test_of(&["cat"]);
    test.handle_key(KeyEvent::plain(KeyCode::Other), 1);
    test.handle_key(KeyEvent::plain(KeyCode::Esc), 2);
    assert!(test.words[0].events.is_empty());
    assert_eq!(test.words[0].progress, "");
}

#[test]
fn events_record_time_and_key() {
    let mut test = test_of(&["hi"]);
    test.handle_key(KeyEvent::plain(KeyCode::Char('h')), 1234);
    let event = test.words[0].events[0];
    assert_eq!(event.time, 1234);
    assert_eq!(event.key, KeyEvent::plain(KeyCode::Char('h')));
}

#[test]
fn results_count_and_time() {
    let mut test = test_of(&["cat", "dog"]);
    let keys = [('c', 1_000_000u64), ('x', 2_000_000), ('t', 3_000_000)];
    for (c, t) in keys {
        test.handle_key(KeyEvent::plain(KeyCode::Char(c)), t);
    }
    test.handle_key(KeyEvent::plain(KeyCode::Backspace), 4_000_000);
    test.handle_key(KeyEvent::plain(KeyCode::Backspace), 5_000_000);
    let results = Results::from(&test);
    // c: right, x: wrong, t: wrong (after the x), backspace over t: fixes, backspace over x: fixes
    assert_eq!(results.correct, 3);
    assert_eq!(results.incorrect, 2);
    assert_eq!(results.elapsed, 4_000_000);
    assert_eq!(results.accuracy_percent(), Some(60));
    // 3 correct keystrokes in 4 seconds: 45 per minute
    assert_eq!(results.keystrokes_per_minute(), Some(45));
}

#[test]
fn results_of_untyped_test() {
    let test = test_of(&["cat"]);
    let results = Results::from(&test);
    assert_eq!(results.correct, 0);
    assert_eq!(results.incorrect, 0);
    assert_eq!(results.elapsed, 0);
    assert_eq!(results.accuracy_percent(), None);
    assert_eq!(results.keystrokes_per_minute(), None);
}

#[test]
fn results_span_events_out_of_order() {
    let mut test = test_of(&["ab", "cd"]);
    test.handle_key(KeyEvent::plain(KeyCode::Char('a')), 50);
    test.handle_key(KeyEvent::plain(KeyCode::Char('b')), 60);
    test.handle_key(KeyEvent::plain(KeyCode::Char(' ')), 70);
    test.handle_key(KeyEvent::plain(KeyCode::Backspace), 80);
    test.handle_key(KeyEvent::plain(KeyCode::Backspace), 90);
    let results = Results::from(&test);
    assert_eq!(results.elapsed, 40);
    assert_eq!(results.correct, 3);
    assert_eq!(results.incorrect, 1);
}
