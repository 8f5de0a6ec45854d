//! The typing engine: the target words of one exercise, what has been typed for
//! each, and a log of every key press that changed something.

use crate::key::{KeyCode, KeyEvent};
use crate::text::{char_at, char_count, starts_with};
use std::path::PathBuf;
use vstd::prelude::*;

verus! {

/// One key press as the engine recorded it.
#[derive(Clone, Copy, Debug)]
pub struct TestEvent {
    /// When the key was pressed, in microseconds from an origin the caller picks.
    pub time: u64,
    pub key: KeyEvent,
    /// `Some(true)` for a correct keystroke, `Some(false)` for a wrong one, `None`
    /// for one that is neither (clearing a word).
    pub correct: Option<bool>,
}

/// One target word with what has been typed for it.
#[derive(Debug)]
pub struct TestWord {
    pub text: String,
    pub progress: String,
    pub events: Vec<TestEvent>,
}

/// A word as a mathematical value.
pub struct WordView {
    pub text: Seq<char>,
    pub progress: Seq<char>,
    pub events: Seq<TestEvent>,
}

impl View for TestWord {
    type V = WordView;

    open spec fn view(&self) -> WordView {
        WordView { text: self.text@, progress: self.progress@, events: self.events@ }
    }
}

/// One exercise: its words, the word being typed, whether it is done, and the
/// image shown beside it.
#[derive(Debug)]
pub struct Test {
    pub words: Vec<TestWord>,
    pub current_word: usize,
    pub complete: bool,
    pub image_path: PathBuf,
}

/// An exercise as a mathematical value (the image is left out: the engine never
/// reads it).
pub struct TestView {
    pub words: Seq<WordView>,
    pub current_word: int,
    pub complete: bool,
}

impl View for Test {
    type V = TestView;

    open spec fn view(&self) -> TestView {
        TestView {
            words: self.words@.map_values(|w: TestWord| w@),
            current_word: self.current_word as int,
            complete: self.complete,
        }
    }
}

/// A fresh word: nothing typed, nothing recorded.
pub open spec fn fresh_word(text: Seq<char>) -> WordView {
    WordView { text, progress: Seq::empty(), events: Seq::empty() }
}

/// The event recorded for `key` at `time`.
pub open spec fn event_of(key: KeyEvent, time: u64, correct: Option<bool>) -> TestEvent {
    TestEvent { time, key, correct }
}

/// `t` with its current word replaced by `w`.
pub open spec fn with_current(t: TestView, w: WordView) -> TestView {
    TestView { words: t.words.update(t.current_word, w), ..t }
}

/// Moving on from the current word; past the last word the exercise is complete
/// and the position goes back to the first word.
pub open spec fn advance(t: TestView) -> TestView {
    if t.current_word == t.words.len() - 1 {
        TestView { complete: true, current_word: 0, ..t }
    } else {
        TestView { current_word: t.current_word + 1, ..t }
    }
}

/// Moving back one word; the first word stays where it is.
pub open spec fn retreat(t: TestView) -> TestView {
    if t.current_word != 0 {
        TestView { current_word: t.current_word - 1, ..t }
    } else {
        t
    }
}

/// Space or Enter: the keys that end a word.
pub open spec fn is_separator(code: KeyCode) -> bool {
    code == KeyCode::Char(' ') || code == KeyCode::Enter
}

/// Control-h: the key that clears a word.
pub open spec fn is_clear(key: KeyEvent) -> bool {
    key.code == KeyCode::Char('h') && key.modifiers.control
}

/// A separator: a space expected next is typed; otherwise a started word (or an
/// empty one) is judged whole and left; an untouched word ignores it.
pub open spec fn separator_step(t: TestView, key: KeyEvent, time: u64) -> TestView {
    let w = t.words[t.current_word];
    if w.progress.len() < w.text.len() && w.text[w.progress.len() as int] == ' ' {
        with_current(
            t,
            WordView {
                progress: w.progress.push(' '),
                events: w.events.push(event_of(key, time, Some(true))),
                ..w
            },
        )
    } else if w.progress.len() > 0 || w.text.len() == 0 {
        advance(
            with_current(
                t,
                WordView {
                    events: w.events.push(event_of(key, time, Some(w.progress == w.text))),
                    ..w
                },
            ),
        )
    } else {
        t
    }
}

/// Backspace: removes the last typed character, recording whether that removal
/// undoes a mistake; with nothing typed it moves back one word.
pub open spec fn backspace_step(t: TestView, key: KeyEvent, time: u64) -> TestView {
    let w = t.words[t.current_word];
    if w.progress.len() == 0 {
        retreat(t)
    } else {
        with_current(
            t,
            WordView {
                progress: w.progress.drop_last(),
                events: w.events.push(event_of(key, time, Some(!w.progress.is_prefix_of(w.text)))),
                ..w
            },
        )
    }
}

/// Clearing: with nothing typed it first moves back one word, then empties what
/// was typed of the current word.
pub open spec fn clear_step(t: TestView, key: KeyEvent, time: u64) -> TestView {
    let t1 = if t.words[t.current_word].progress.len() == 0 { retreat(t) } else { t };
    let w = t1.words[t1.current_word];
    with_current(
        t1,
        WordView { progress: Seq::empty(), events: w.events.push(event_of(key, time, None)), ..w },
    )
}

/// A character: appended and judged by whether the word still matches; typing
/// the last word out completes the exercise.
pub open spec fn char_step(t: TestView, key: KeyEvent, time: u64, c: char) -> TestView {
    let w = t.words[t.current_word];
    let p = w.progress.push(c);
    let t1 = with_current(
        t,
        WordView { progress: p, events: w.events.push(event_of(key, time, Some(p.is_prefix_of(w.text)))), ..w },
    );
    if p == w.text && t.current_word == t.words.len() - 1 {
        TestView { complete: true, current_word: 0, ..t1 }
    } else {
        t1
    }
}

/// What one key press at `time` does to an exercise. Completion is terminal: a
/// complete exercise ignores every key.
pub open spec fn key_step(t: TestView, key: KeyEvent, time: u64) -> TestView {
    if t.complete {
        t
    } else if is_separator(key.code) {
        separator_step(t, key, time)
    } else if key.code == KeyCode::Backspace {
        backspace_step(t, key, time)
    } else if is_clear(key) {
        clear_step(t, key, time)
    } else {
        match key.code {
            KeyCode::Char(c) => char_step(t, key, time, c),
            _ => t,
        }
    }
}

impl TestView {
    /// The position is a word of a non-empty exercise.
    pub open spec fn wf(self) -> bool {
        self.words.len() >= 1 && 0 <= self.current_word < self.words.len()
    }
}

impl TestWord {
    /// A word to type, with nothing typed yet.
    pub fn from(string: String) -> (r: TestWord)
        ensures
            r@ == fresh_word(string@),
    {
        TestWord { text: string, progress: String::new(), events: Vec::new() }
    }
}

impl Test {
    /// An exercise over `words`, shown beside the image at `image_path`; typing
    /// starts at the first word.
    pub fn new(words: Vec<String>, image_path: PathBuf) -> (r: Test)
        requires
            words.len() >= 1,
        ensures
            r.wf(),
            r@.words == words@.map_values(|s: String| fresh_word(s@)),
            r@.current_word == 0,
            !r@.complete,
            r.image_path == image_path,
    {
        let mut test_words: Vec<TestWord> = Vec::new();
        let mut i: usize = 0;
        while i < words.len()
            invariant
                i <= words.len(),
                test_words.len() == i,
                forall|j: int| 0 <= j < i ==> #[trigger] test_words@[j]@ == fresh_word(words@[j]@),
            decreases words.len() - i,
        {
            test_words.push(TestWord::from(words[i].clone()));
            i = i + 1;
        }
        assert(test_words@.map_values(|w: TestWord| w@) =~= words@.map_values(|s: String| fresh_word(s@)));
        Test { words: test_words, current_word: 0, complete: false, image_path }
    }

    /// The exercise has a word and the position is one of its words.
    pub open spec fn wf(&self) -> bool {
        self.words.len() >= 1 && self.current_word < self.words.len()
    }

    /// Applies one key press made at `time`.
    pub fn handle_key(&mut self, key: KeyEvent, time: u64)
        requires
            old(self).wf(),
        ensures
            final(self).wf(),
            final(self)@ == key_step(old(self)@, key, time),
            final(self).image_path == old(self).image_path,
    {
        if self.complete {
            return;
        }
        let i = self.current_word;
        let ghost t0 = self@;
        match key.code {
            KeyCode::Char(' ') | KeyCode::Enter => {
                let n = char_count(&self.words[i].progress);
                let next_is_space = match char_at(&self.words[i].text, n) {
                    Some(c) => c == ' ',
                    None => false,
                };
                if next_is_space {
                    self.words[i].progress.push(' ');
                    self.words[i].events.push(TestEvent { time, key, correct: Some(true) });
                    assert(self@.words =~= separator_step(t0, key, time).words);
                } else if n > 0 || char_count(&self.words[i].text) == 0 {
                    let correct = self.words[i].text == self.words[i].progress;
                    self.words[i].events.push(TestEvent { time, key, correct: Some(correct) });
                    assert(self@.words =~= with_current(
                        t0,
                        WordView {
                            events: t0.words[i as int].events.push(event_of(key, time, Some(correct))),
                            ..t0.words[i as int]
                        },
                    ).words);
                    self.next_word();
                }
            },
            KeyCode::Backspace => {
                if char_count(&self.words[i].progress) == 0 {
                    self.last_word();
                } else {
                    let fixes = !starts_with(&self.words[i].text, &self.words[i].progress);
                    self.words[i].events.push(TestEvent { time, key, correct: Some(fixes) });
                    self.words[i].progress.pop();
                    assert(self@.words =~= backspace_step(t0, key, time).words);
                }
            },
            KeyCode::Char('h') if key.modifiers.control => {
                if char_count(&self.words[i].progress) == 0 {
                    self.last_word();
                }
                let j = self.current_word;
                self.words[j].events.push(TestEvent { time, key, correct: None });
                self.words[j].progress.clear();
                assert(self@.words =~= clear_step(t0, key, time).words);
            },
            KeyCode::Char(c) => {
                self.words[i].progress.push(c);
                let matches = starts_with(&self.words[i].text, &self.words[i].progress);
                self.words[i].events.push(TestEvent { time, key, correct: Some(matches) });
                assert(self@.words =~= char_step(t0, key, time, c).words);
                if self.words[i].progress == self.words[i].text && i == self.words.len() - 1 {
                    self.complete = true;
                    self.current_word = 0;
                }
            },
            _ => {},
        }
    }

    /// Moves back one word, staying on the first.
    fn last_word(&mut self)
        requires
            old(self).wf(),
        ensures
            final(self).wf(),
            final(self)@ == retreat(old(self)@),
            final(self).image_path == old(self).image_path,
    {
        if self.current_word != 0 {
            self.current_word = self.current_word - 1;
        }
    }

    /// Moves on one word; past the last the exercise is complete.
    fn next_word(&mut self)
        requires
            old(self).wf(),
        ensures
            final(self).wf(),
            final(self)@ == advance(old(self)@),
            final(self).image_path == old(self).image_path,
    {
        if self.current_word == self.words.len() - 1 {
            self.complete = true;
            self.current_word = 0;
        } else {
            self.current_word = self.current_word + 1;
        }
    }
}

/// The exercise after the key presses `presses`, each with its time, in order.
pub open spec fn run(t: TestView, presses: Seq<(KeyEvent, u64)>) -> TestView
    decreases presses.len(),
{
    if presses.len() == 0 {
        t
    } else {
        let last = presses.last();
        key_step(run(t, presses.drop_last()), last.0, last.1)
    }
}

/// Every key press keeps the position on a word of the exercise.
pub proof fn key_step_keeps_wf(t: TestView, key: KeyEvent, time: u64)
    requires
        t.wf(),
    ensures
        key_step(t, key, time).wf(),
        key_step(t, key, time).words.len() == t.words.len(),
{
}

/// Backspace on a word with something typed removes exactly its last character
/// and stays on that word.
pub proof fn backspace_removes_one_char(t: TestView, key: KeyEvent, time: u64)
    requires
        t.wf(),
        !t.complete,
        key.code == KeyCode::Backspace,
        t.words[t.current_word].progress.len() > 0,
    ensures
        key_step(t, key, time).current_word == t.current_word,
        key_step(t, key, time).words[t.current_word].progress == t.words[t.current_word].progress.drop_last(),
        key_step(t, key, time).words[t.current_word].progress.len() == t.words[t.current_word].progress.len() - 1,
{
}

/// Backspace with nothing typed on the first word changes nothing: the position
/// never goes below the first word.
pub proof fn backspace_at_start_is_noop(t: TestView, key: KeyEvent, time: u64)
    requires
        t.wf(),
        key.code == KeyCode::Backspace,
        t.current_word == 0,
        t.words[0].progress.len() == 0,
    ensures
        key_step(t, key, time) == t,
{
}

/// Typing the last character of the last word completes the exercise and puts
/// the position back on the first word (a space is the exception: where the word
/// expects one it is only appended).
pub proof fn typing_out_last_word_completes(t: TestView, key: KeyEvent, time: u64, c: char)
    requires
        t.wf(),
        !t.complete,
        t.current_word == t.words.len() - 1,
        key.code == KeyCode::Char(c),
        c != ' ',
        !is_clear(key),
        t.words[t.current_word].progress.push(c) == t.words[t.current_word].text,
    ensures
        key_step(t, key, time).complete,
        key_step(t, key, time).current_word == 0,
{
}

/// Once complete, an exercise stays as it is whatever key follows.
pub proof fn completion_is_kept(t: TestView, key: KeyEvent, time: u64)
    requires
        t.wf(),
        t.complete,
    ensures
        key_step(t, key, time) == t,
{
}

/// The keys of a word that are plain characters of its text, in order.
pub open spec fn types_text(presses: Seq<(KeyEvent, u64)>, text: Seq<char>) -> bool {
    &&& presses.len() >= text.len()
    &&& forall|i: int|
        0 <= i < text.len() ==> presses[i].0.code == KeyCode::Char(#[trigger] text[i])
            && !presses[i].0.modifiers.control
}

proof fn typing_prefix(t: TestView, presses: Seq<(KeyEvent, u64)>, k: int)
    requires
        t.wf(),
        !t.complete,
        t.current_word < t.words.len() - 1,
        t.words[t.current_word].progress.len() == 0,
        types_text(presses, t.words[t.current_word].text),
        0 <= k <= t.words[t.current_word].text.len(),
    ensures
        run(t, presses.subrange(0, k)).wf(),
        run(t, presses.subrange(0, k)).words.len() == t.words.len(),
        run(t, presses.subrange(0, k)).current_word == t.current_word,
        !run(t, presses.subrange(0, k)).complete,
        run(t, presses.subrange(0, k)).words[t.current_word].text == t.words[t.current_word].text,
        run(t, presses.subrange(0, k)).words[t.current_word].progress
            == t.words[t.current_word].text.subrange(0, k),
    decreases k,
{
    let text = t.words[t.current_word].text;
    if k == 0 {
        assert(presses.subrange(0, 0) =~= Seq::<(KeyEvent, u64)>::empty());
        assert(text.subrange(0, 0) =~= Seq::<char>::empty());
    } else {
        typing_prefix(t, presses, k - 1);
        assert(presses.subrange(0, k).drop_last() =~= presses.subrange(0, k - 1));
        let before = run(t, presses.subrange(0, k - 1));
        let key = presses[k - 1].0;
        assert(key.code == KeyCode::Char(text[k - 1]));
        assert(text.subrange(0, k - 1).push(text[k - 1]) =~= text.subrange(0, k));
        key_step_keeps_wf(before, key, presses[k - 1].1);
    }
}

/// Typing a word out exactly, character by character, and then Space or Enter
/// leaves that word typed as its text and moves to the next word (for any word
/// but the last, whose final character already completes the exercise).
pub proof fn typing_a_word_moves_on(t: TestView, presses: Seq<(KeyEvent, u64)>)
    requires
        t.wf(),
        !t.complete,
        t.current_word < t.words.len() - 1,
        t.words[t.current_word].progress.len() == 0,
        presses.len() == t.words[t.current_word].text.len() + 1,
        types_text(presses, t.words[t.current_word].text),
        is_separator(presses.last().0.code),
    ensures
        run(t, presses).current_word == t.current_word + 1,
        run(t, presses).words[t.current_word].progress == t.words[t.current_word].text,
{
    let text = t.words[t.current_word].text;
    let n = text.len() as int;
    typing_prefix(t, presses, n);
    assert(presses.drop_last() =~= presses.subrange(0, n));
    assert(text.subrange(0, n) =~= text);
}

} // verus!
