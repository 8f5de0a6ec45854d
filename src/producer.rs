//! The decisions of the background producer of story parts.
//!
//! The producer keeps a conversation with a text and image provider. Each round
//! it asks for a continuation of the story, splits it into words, asks for an
//! image of those words (again and again until one comes), records the
//! continuation in the conversation and publishes the words with the image. The
//! calls themselves and the hand-off queue are driven from outside: they come
//! back here as events, and each event yields the next action.

use crate::story::StoryPart;
use crate::text::{join_words, joined, split_words, strings_view, whitespace_words};
use std::path::PathBuf;
use vstd::prelude::*;

verus! {

/// Who speaks a message of the conversation.
#[derive(Clone, Copy, Debug, PartialEq, Eq, Structural)]
pub enum Role {
    System,
    User,
    Assistant,
}

/// One message of the conversation.
#[derive(Debug)]
pub struct ChatMessage {
    pub role: Role,
    pub content: String,
}

impl View for ChatMessage {
    type V = (Role, Seq<char>);

    open spec fn view(&self) -> (Role, Seq<char>) {
        (self.role, self.content@)
    }
}

/// The messages of `v` as values.
pub open spec fn messages_view(v: Seq<ChatMessage>) -> Seq<(Role, Seq<char>)> {
    v.map_values(|m: ChatMessage| m@)
}

/// What the producer waits for.
#[derive(Debug)]
pub enum Phase {
    /// A continuation of the story.
    AwaitText,
    /// An image for `section`, the words of the continuation `line`.
    AwaitImage { line: String, section: Vec<String> },
    /// The hand-off of the part it published.
    AwaitDelivery,
    /// Nothing: the producer has stopped for good.
    Stopped,
}

pub enum PhaseView {
    AwaitText,
    AwaitImage { line: Seq<char>, section: Seq<Seq<char>> },
    AwaitDelivery,
    Stopped,
}

impl View for Phase {
    type V = PhaseView;

    open spec fn view(&self) -> PhaseView {
        match self {
            Phase::AwaitText => PhaseView::AwaitText,
            Phase::AwaitImage { line, section } => PhaseView::AwaitImage {
                line: line@,
                section: strings_view(section@),
            },
            Phase::AwaitDelivery => PhaseView::AwaitDelivery,
            Phase::Stopped => PhaseView::Stopped,
        }
    }
}

/// What came back from outside.
#[derive(Debug)]
pub enum ProducerEvent {
    /// The provider continued the story; one text per choice it returned.
    TextReady(Vec<String>),
    /// The provider failed to continue the story.
    TextFailed,
    /// The provider drew the image and it is stored at this path.
    ImageReady(PathBuf),
    /// The provider failed to draw the image.
    ImageFailed,
    /// The published part entered the hand-off queue.
    Delivered,
    /// The hand-off queue is closed: nobody receives any more.
    QueueClosed,
}

pub enum EventView {
    TextReady(Seq<Seq<char>>),
    TextFailed,
    ImageReady(PathBuf),
    ImageFailed,
    Delivered,
    QueueClosed,
}

impl View for ProducerEvent {
    type V = EventView;

    open spec fn view(&self) -> EventView {
        match self {
            ProducerEvent::TextReady(choices) => EventView::TextReady(strings_view(choices@)),
            ProducerEvent::TextFailed => EventView::TextFailed,
            ProducerEvent::ImageReady(path) => EventView::ImageReady(*path),
            ProducerEvent::ImageFailed => EventView::ImageFailed,
            ProducerEvent::Delivered => EventView::Delivered,
            ProducerEvent::QueueClosed => EventView::QueueClosed,
        }
    }
}

/// What the producer asks to be done next.
#[derive(Debug)]
pub enum ProducerAction {
    /// Ask the provider to continue this conversation.
    RequestText(Vec<ChatMessage>),
    /// Ask the provider for an image of these words.
    RequestImage(Vec<String>),
    /// Send this part into the hand-off queue, waiting while the queue is full.
    Publish(StoryPart),
    /// End the producer: the conversation cannot go on.
    Stop,
}

pub enum ActionView {
    RequestText(Seq<(Role, Seq<char>)>),
    RequestImage(Seq<Seq<char>>),
    Publish(Seq<Seq<char>>, PathBuf),
    Stop,
}

impl View for ProducerAction {
    type V = ActionView;

    open spec fn view(&self) -> ActionView {
        match self {
            ProducerAction::RequestText(messages) => ActionView::RequestText(messages_view(messages@)),
            ProducerAction::RequestImage(words) => ActionView::RequestImage(strings_view(words@)),
            ProducerAction::Publish(part) => ActionView::Publish(strings_view(part.section@), part.image),
            ProducerAction::Stop => ActionView::Stop,
        }
    }
}

/// The producer: the conversation so far (a fixed preamble, then one
/// continuation and one instruction to go on for each published part), the
/// instruction it adds after each continuation, and what it waits for.
#[derive(Debug)]
pub struct Producer {
    pub history: Vec<ChatMessage>,
    pub continue_prompt: String,
    pub phase: Phase,
}

pub struct ProducerView {
    pub history: Seq<(Role, Seq<char>)>,
    pub continue_prompt: Seq<char>,
    pub phase: PhaseView,
}

impl View for Producer {
    type V = ProducerView;

    open spec fn view(&self) -> ProducerView {
        ProducerView {
            history: messages_view(self.history@),
            continue_prompt: self.continue_prompt@,
            phase: self.phase@,
        }
    }
}

/// The producer stops and asks for nothing more.
pub open spec fn stopped(s: ProducerView) -> (ProducerView, ActionView) {
    (ProducerView { phase: PhaseView::Stopped, ..s }, ActionView::Stop)
}

/// A continuation `line` with words `section` arrived: ask for their image.
pub open spec fn on_text(s: ProducerView, line: Seq<char>, section: Seq<Seq<char>>) -> (
    ProducerView,
    ActionView,
) {
    (ProducerView { phase: PhaseView::AwaitImage { line, section }, ..s }, ActionView::RequestImage(section))
}

/// The conversation after the continuation `line`: that continuation, then the
/// instruction to go on.
pub open spec fn extended(s: ProducerView, line: Seq<char>) -> Seq<(Role, Seq<char>)> {
    s.history.push((Role::Assistant, line)).push((Role::User, s.continue_prompt))
}

/// The producer's decision on one event.
///
/// A continuation is split into words and their image requested; a failed image
/// is requested again, with the same words, however often it fails; a drawn
/// image completes the round: the continuation and the instruction to go on join
/// the conversation and the part is published; once it is delivered the next
/// continuation is requested. A failed continuation, a closed queue or an event
/// that does not answer what the producer waits for stops it.
pub open spec fn next(s: ProducerView, e: EventView) -> (ProducerView, ActionView) {
    match s.phase {
        PhaseView::AwaitText => match e {
            EventView::TextReady(choices) => on_text(
                s,
                joined(choices),
                whitespace_words(joined(choices)),
            ),
            _ => stopped(s),
        },
        PhaseView::AwaitImage { line, section } => match e {
            EventView::ImageReady(path) => (
                ProducerView { history: extended(s, line), phase: PhaseView::AwaitDelivery, ..s },
                ActionView::Publish(section, path),
            ),
            EventView::ImageFailed => (s, ActionView::RequestImage(section)),
            _ => stopped(s),
        },
        PhaseView::AwaitDelivery => match e {
            EventView::Delivered => (
                ProducerView { phase: PhaseView::AwaitText, ..s },
                ActionView::RequestText(s.history),
            ),
            _ => stopped(s),
        },
        PhaseView::Stopped => stopped(s),
    }
}

/// A copy of `words`.
fn copy_words(words: &Vec<String>) -> (r: Vec<String>)
    ensures
        strings_view(r@) == strings_view(words@),
{
    let mut r: Vec<String> = Vec::new();
    let mut i: usize = 0;
    while i < words.len()
        invariant
            i <= words.len(),
            r.len() == i,
            forall|j: int| 0 <= j < i ==> #[trigger] r@[j]@ == words@[j]@,
        decreases words.len() - i,
    {
        r.push(words[i].clone());
        i = i + 1;
    }
    assert(strings_view(r@) =~= strings_view(words@));
    r
}

/// A copy of `messages`.
fn copy_messages(messages: &Vec<ChatMessage>) -> (r: Vec<ChatMessage>)
    ensures
        messages_view(r@) == messages_view(messages@),
{
    let mut r: Vec<ChatMessage> = Vec::new();
    let mut i: usize = 0;
    while i < messages.len()
        invariant
            i <= messages.len(),
            r.len() == i,
            forall|j: int| 0 <= j < i ==> #[trigger] r@[j]@ == messages@[j]@,
        decreases messages.len() - i,
    {
        r.push(ChatMessage { role: messages[i].role, content: messages[i].content.clone() });
        i = i + 1;
    }
    assert(messages_view(r@) =~= messages_view(messages@));
    r
}

impl Producer {
    /// A producer that opens with the messages `preamble` and adds
    /// `continue_prompt` after each continuation; it first waits for a
    /// continuation of the preamble.
    pub fn from_preamble(preamble: Vec<ChatMessage>, continue_prompt: String) -> (r: Producer)
        ensures
            r@.history == messages_view(preamble@),
            r@.continue_prompt == continue_prompt@,
            r@.phase == PhaseView::AwaitText,
    {
        Producer { history: preamble, continue_prompt, phase: Phase::AwaitText }
    }

    /// The first action: asking for a continuation of the conversation, if the
    /// producer waits for one; otherwise stopping.
    pub fn begin(&self) -> (r: ProducerAction)
        ensures
            self@.phase == PhaseView::AwaitText ==> r@ == ActionView::RequestText(self@.history),
            self@.phase != PhaseView::AwaitText ==> r@ == ActionView::Stop,
    {
        match self.phase {
            Phase::AwaitText => ProducerAction::RequestText(copy_messages(&self.history)),
            _ => ProducerAction::Stop,
        }
    }

    /// Takes the continuation `line` and its words `section`: a producer that
    /// waits for a continuation then asks for, and waits for, an image of
    /// `section`; any other stops.
    pub fn text_arrived(&mut self, line: String, section: Vec<String>) -> (r: ProducerAction)
        ensures
            old(self)@.phase == PhaseView::AwaitText ==> (final(self)@, r@) == on_text(
                old(self)@,
                line@,
                strings_view(section@),
            ),
            old(self)@.phase != PhaseView::AwaitText ==> (final(self)@, r@) == stopped(old(self)@),
    {
        match self.phase {
            Phase::AwaitText => {},
            _ => {
                self.phase = Phase::Stopped;
                return ProducerAction::Stop;
            },
        }
        let words = copy_words(&section);
        self.phase = Phase::AwaitImage { line, section };
        ProducerAction::RequestImage(words)
    }

    /// Takes what came back from outside and says what to do next.
    pub fn step(&mut self, event: ProducerEvent) -> (r: ProducerAction)
        ensures
            (final(self)@, r@) == next(old(self)@, event@),
    {
        let mut phase = Phase::Stopped;
        std::mem::swap(&mut phase, &mut self.phase);
        match phase {
            Phase::AwaitText => match event {
                ProducerEvent::TextReady(choices) => {
                    let line = join_words(&choices);
                    let section = split_words(line.as_str());
                    self.phase = Phase::AwaitText;
                    self.text_arrived(line, section)
                },
                _ => ProducerAction::Stop,
            },
            Phase::AwaitImage { line, section } => match event {
                ProducerEvent::ImageReady(image) => {
                    let ghost s0 = old(self)@;
                    let ghost line_view = line@;
                    self.history.push(ChatMessage { role: Role::Assistant, content: line });
                    let go_on = self.continue_prompt.clone();
                    self.history.push(ChatMessage { role: Role::User, content: go_on });
                    self.phase = Phase::AwaitDelivery;
                    assert(messages_view(self.history@) =~= extended(s0, line_view));
                    ProducerAction::Publish(StoryPart { section, image })
                },
                ProducerEvent::ImageFailed => {
                    let words = copy_words(&section);
                    self.phase = Phase::AwaitImage { line, section };
                    ProducerAction::RequestImage(words)
                },
                _ => ProducerAction::Stop,
            },
            Phase::AwaitDelivery => match event {
                ProducerEvent::Delivered => {
                    self.phase = Phase::AwaitText;
                    ProducerAction::RequestText(copy_messages(&self.history))
                },
                _ => ProducerAction::Stop,
            },
            Phase::Stopped => ProducerAction::Stop,
        }
    }
}

/// The producer after the events `events`, in order, with the action it took on
/// each.
pub open spec fn run(s: ProducerView, events: Seq<EventView>) -> (ProducerView, Seq<ActionView>)
    decreases events.len(),
{
    if events.len() == 0 {
        (s, Seq::empty())
    } else {
        let (s1, actions) = run(s, events.drop_last());
        let (s2, a) = next(s1, events.last());
        (s2, actions.push(a))
    }
}

/// One round in which the image fails `n` times: the continuation, `n` failed
/// images, then a drawn one.
pub open spec fn round_with_failures(choices: Seq<Seq<char>>, n: nat, path: PathBuf) -> Seq<EventView> {
    seq![EventView::TextReady(choices)] + Seq::new(n, |i: int| EventView::ImageFailed).push(
        EventView::ImageReady(path),
    )
}

proof fn failures_repeat_request(s: ProducerView, choices: Seq<Seq<char>>, k: nat)
    requires
        s.phase == PhaseView::AwaitText,
    ensures
        ({
            let line = joined(choices);
            let section = whitespace_words(line);
            let events = seq![EventView::TextReady(choices)] + Seq::new(k, |i: int| EventView::ImageFailed);
            &&& run(s, events).0 == ProducerView { phase: PhaseView::AwaitImage { line, section }, ..s }
            &&& run(s, events).1 == Seq::new(k + 1, |i: int| ActionView::RequestImage(section))
        }),
    decreases k,
{
    let line = joined(choices);
    let section = whitespace_words(line);
    let events = seq![EventView::TextReady(choices)] + Seq::new(k, |i: int| EventView::ImageFailed);
    if k == 0 {
        assert(events =~= seq![EventView::TextReady(choices)]);
        assert(events.drop_last() =~= Seq::<EventView>::empty());
        assert(run(s, events.drop_last()) == (s, Seq::<ActionView>::empty()));
        assert(events.last() == EventView::TextReady(choices));
        assert(run(s, events).1 =~= Seq::new(1, |i: int| ActionView::RequestImage(section)));
    } else {
        let k1 = (k - 1) as nat;
        failures_repeat_request(s, choices, k1);
        let before = seq![EventView::TextReady(choices)] + Seq::new(k1, |i: int| EventView::ImageFailed);
        assert(events.drop_last() =~= before);
        assert(events.last() == EventView::ImageFailed);
        assert(run(s, events).1 =~= Seq::new(k + 1, |i: int| ActionView::RequestImage(section)));
    }
}

/// However often the image fails before one is drawn (`n` times), a round asks
/// for the image exactly `n + 1` times, always for the words of the one
/// continuation, publishes exactly one part, those words with the image, and
/// extends the conversation by exactly one continuation and one instruction to
/// go on.
pub proof fn image_failures_are_retried(s: ProducerView, choices: Seq<Seq<char>>, n: nat, path: PathBuf)
    requires
        s.phase == PhaseView::AwaitText,
    ensures
        ({
            let line = joined(choices);
            let section = whitespace_words(line);
            let (s2, actions) = run(s, round_with_failures(choices, n, path));
            &&& actions == Seq::new(n + 1, |i: int| ActionView::RequestImage(section)).push(
                ActionView::Publish(section, path),
            )
            &&& s2.history == s.history.push((Role::Assistant, line)).push((Role::User, s.continue_prompt))
            &&& s2.phase == PhaseView::AwaitDelivery
        }),
{
    failures_repeat_request(s, choices, n);
    let events = round_with_failures(choices, n, path);
    assert(events.drop_last() =~= seq![EventView::TextReady(choices)] + Seq::new(
        n,
        |i: int| EventView::ImageFailed,
    ));
}

/// A part is published only as the producer begins to wait for its delivery;
/// while it waits, nothing but that delivery lets it go on: any other event stops
/// it, so it never holds a second part before the first was handed off.
pub proof fn one_part_in_flight(s: ProducerView, e: EventView)
    ensures
        next(s, e).1 is Publish ==> next(s, e).0.phase == PhaseView::AwaitDelivery,
        next(s, e).1 is Publish ==> s.phase is AwaitImage,
        s.phase == PhaseView::AwaitDelivery && e != EventView::Delivered ==> next(s, e).1 == ActionView::Stop,
{
}

} // verus!
