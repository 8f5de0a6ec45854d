use std::path::PathBuf;
use ttyper_story::key::{KeyCode, KeyEvent};
use ttyper_story::session::{SessionAction, State};
use ttyper_story::story::StoryPart;

fn story(words: &[&str]) -> StoryPart {
    StoryPart { section: words.iter().map(|w| w.to_string()).collect(), image: PathBuf::from("s.png") }
}

fn key(c: char) -> KeyEvent {
    KeyEvent::plain(KeyCode::Char(c))
}

#[test]
fn empty_story_part_gives_no_test() {
    assert!(State::from_story(story(&[])).is_none());
    assert!(StoryPart::default().section.is_empty());
}

#[test]
fn story_part_starts_a_test() {
    match State::from_story(story(&["go", "home"])).unwrap() {
        State::Test(test) => {
            assert_eq!(test.words.len(), 2);
            assert_eq!(test.words[1].text, "home");
            assert_eq!(test.current_word, 0);
            assert_eq!(test.image_path, PathBuf::from("s.png"));
        }
        State::Results(_) => panic!("expected a test"),
    }
}

#[test]
fn completing_a_test_shows_results() {
    let mut state = State::from_story(story(&["go"])).unwrap();
    assert_eq!(state.on_key(key('g'), 0), SessionAction::Continue);
    assert_eq!(state.on_key(key('o'), 2_000_000), SessionAction::Continue);
    match &state {
        State::Results(results) => {
            assert_eq!(results.correct, 2);
            assert_eq!(results.elapsed, 2_000_000);
        }
        State::Test(_) => panic!("expected results"),
    }
    assert_eq!(state.on_key(key('x'), 3), SessionAction::Continue);
    assert_eq!(state.on_key(key('r'), 4), SessionAction::NewStory);
    assert_eq!(state.on_key(key('q'), 5), SessionAction::Quit);
}

#[test]
fn escape_leaves_test_then_quits() {
    let mut state = State::from_story(story(&["go", "on"])).unwrap();
    state.on_key(key('g'), 1);
    assert_eq!(state.on_key(KeyEvent::plain(KeyCode::Esc), 2), SessionAction::Continue);
    assert!(matches!(state, State::Results(_)));
    assert_eq!(state.on_key(KeyEvent::plain(KeyCode::Esc), 3), SessionAction::Quit);
}

#[test]
fn interrupt_quits_from_test() {
    let mut state = State::from_story(story(&["go"])).unwrap();
    assert_eq!(state.on_key(KeyEvent::with_control(KeyCode::Char('c')), 1), SessionAction::Quit);
    match &state {
        State::Test(test) => assert!(test.words[0].events.is_empty()),
        State::Results(_) => panic!("expected the test unchanged"),
    }
}

#[test]
fn restart_key_needs_no_modifier() {
    let mut state = State::from_story(story(&["go"])).unwrap();
    state.on_key(KeyEvent::plain(KeyCode::Esc), 1);
    assert_eq!(state.on_key(KeyEvent::with_control(KeyCode::Char('r')), 2), SessionAction::Continue);
}
