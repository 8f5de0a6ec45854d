//! The interactive session: an exercise being typed, or the results of the
//! last one, driven by key presses.

use crate::key::{KeyCode, KeyEvent, KeyModifiers};
use crate::results::{summary, Results};
use crate::story::StoryPart;
use crate::typing::{fresh_word, key_step, Test, TestView};
use crate::text::strings_view;
use std::path::PathBuf;
use vstd::prelude::*;

verus! {

/// What the session shows.
#[derive(Debug)]
pub enum State {
    Test(Test),
    Results(Results),
}

pub enum StateView {
    Test(TestView),
    Results(Results),
}

impl View for State {
    type V = StateView;

    open spec fn view(&self) -> StateView {
        match self {
            State::Test(t) => StateView::Test(t@),
            State::Results(r) => StateView::Results(*r),
        }
    }
}

/// What the driver of the session does after a key press.
#[derive(Clone, Copy, Debug, PartialEq, Eq, Structural)]
pub enum SessionAction {
    /// Show the state and read the next key.
    Continue,
    /// Fetch the next story part and start an exercise on it.
    NewStory,
    /// End the session.
    Quit,
}

/// `code` pressed with no modifier.
pub open spec fn plain(key: KeyEvent, code: KeyCode) -> bool {
    key.code == code && key.modifiers == (KeyModifiers { control: false, shift: false, alt: false })
}

/// Control-c alone: the interrupt that ends the session from any state.
pub open spec fn is_interrupt(key: KeyEvent) -> bool {
    key.code == KeyCode::Char('c') && key.modifiers == (KeyModifiers {
        control: true,
        shift: false,
        alt: false,
    })
}

/// What a key press at `time` does to the session.
///
/// The interrupt quits. Escape leaves an exercise for its results, and quits
/// from the results. Any other key goes to the exercise, which gives way to its
/// results once complete; on the results `r` asks for a new story part and `q`
/// quits.
pub open spec fn session_step(s: StateView, key: KeyEvent, time: u64) -> (StateView, SessionAction) {
    if is_interrupt(key) {
        (s, SessionAction::Quit)
    } else if plain(key, KeyCode::Esc) {
        match s {
            StateView::Test(t) => (StateView::Results(summary(t.words)), SessionAction::Continue),
            StateView::Results(_) => (s, SessionAction::Quit),
        }
    } else {
        match s {
            StateView::Test(t) => {
                let t2 = key_step(t, key, time);
                if t2.complete {
                    (StateView::Results(summary(t2.words)), SessionAction::Continue)
                } else {
                    (StateView::Test(t2), SessionAction::Continue)
                }
            },
            StateView::Results(_) => if plain(key, KeyCode::Char('r')) {
                (s, SessionAction::NewStory)
            } else if plain(key, KeyCode::Char('q')) {
                (s, SessionAction::Quit)
            } else {
                (s, SessionAction::Continue)
            },
        }
    }
}

fn is_plain(key: KeyEvent, code: KeyCode) -> (r: bool)
    ensures
        r == plain(key, code),
{
    key.code == code && !key.modifiers.control && !key.modifiers.shift && !key.modifiers.alt
}

/// `s` is a fresh exercise on the words `section`, beside the image `image`.
pub open spec fn starts_on(s: State, section: Seq<Seq<char>>, image: PathBuf) -> bool {
    match s {
        State::Test(t) => {
            &&& t@.words == section.map_values(|w: Seq<char>| fresh_word(w))
            &&& t@.current_word == 0
            &&& !t@.complete
            &&& t.image_path == image
        },
        State::Results(_) => false,
    }
}

impl State {
    /// An exercise being typed is well formed.
    pub open spec fn wf(&self) -> bool {
        match self {
            State::Test(t) => t.wf(),
            State::Results(_) => true,
        }
    }

    /// An exercise on `part`, or `None` where the part has no words to type.
    pub fn from_story(part: StoryPart) -> (r: Option<State>)
        ensures
            part.section.len() == 0 <==> r is None,
            r matches Some(s) ==> s.wf() && starts_on(s, strings_view(part.section@), part.image),
    {
        if part.section.len() == 0 {
            return None;
        }
        let ghost section = part.section@;
        let test = Test::new(part.section, part.image);
        assert(test@.words =~= strings_view(section).map_values(|w: Seq<char>| fresh_word(w)));
        Some(State::Test(test))
    }

    /// Takes one key press made at `time`.
    pub fn on_key(&mut self, key: KeyEvent, time: u64) -> (r: SessionAction)
        requires
            old(self).wf(),
        ensures
            final(self).wf(),
            (final(self)@, r) == session_step(old(self)@, key, time),
    {
        let interrupt = key.code == KeyCode::Char('c') && key.modifiers.control && !key.modifiers.shift
            && !key.modifiers.alt;
        if interrupt {
            return SessionAction::Quit;
        }
        if is_plain(key, KeyCode::Esc) {
            match self {
                State::Test(t) => {
                    let results = Results::from(t);
                    *self = State::Results(results);
                    return SessionAction::Continue;
                },
                State::Results(_) => {
                    return SessionAction::Quit;
                },
            }
        }
        match self {
            State::Test(t) => {
                t.handle_key(key, time);
                if t.complete {
                    let results = Results::from(t);
                    *self = State::Results(results);
                }
                SessionAction::Continue
            },
            State::Results(_) => {
                if is_plain(key, KeyCode::Char('r')) {
                    SessionAction::NewStory
                } else if is_plain(key, KeyCode::Char('q')) {
                    SessionAction::Quit
                } else {
                    SessionAction::Continue
                }
            },
        }
    }
}

} // verus!
