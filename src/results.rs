//! The summary of an exercise: how many keystrokes were right and wrong, how
//! long the typing took, and the rates derived from them.

use crate::typing::{Test, TestEvent, WordView};
use vstd::prelude::*;

verus! {

/// Every event of `words`, word by word, each word's in the order recorded.
pub open spec fn all_events(words: Seq<WordView>) -> Seq<TestEvent>
    decreases words.len(),
{
    if words.len() == 0 {
        Seq::empty()
    } else {
        all_events(words.drop_last()) + words.last().events
    }
}

/// How many of `events` are marked `mark`.
pub open spec fn count_marked(events: Seq<TestEvent>, mark: Option<bool>) -> nat
    decreases events.len(),
{
    if events.len() == 0 {
        0
    } else {
        count_marked(events.drop_last(), mark) + if events.last().correct == mark {
            1nat
        } else {
            0nat
        }
    }
}

/// The earliest time among `events` (0 for none).
pub open spec fn earliest(events: Seq<TestEvent>) -> u64
    decreases events.len(),
{
    if events.len() == 0 {
        0
    } else if events.len() == 1 {
        events[0].time
    } else if events.last().time < earliest(events.drop_last()) {
        events.last().time
    } else {
        earliest(events.drop_last())
    }
}

/// The latest time among `events` (0 for none).
pub open spec fn latest(events: Seq<TestEvent>) -> u64
    decreases events.len(),
{
    if events.len() == 0 {
        0
    } else if events.len() == 1 {
        events[0].time
    } else if events.last().time > latest(events.drop_last()) {
        events.last().time
    } else {
        latest(events.drop_last())
    }
}

/// `n`, or the largest `u64` where `n` is larger.
pub open spec fn capped(n: nat) -> u64 {
    if n > u64::MAX {
        u64::MAX
    } else {
        n as u64
    }
}

/// The summary of an exercise whose words are `words`.
pub open spec fn summary(words: Seq<WordView>) -> Results {
    let events = all_events(words);
    Results {
        correct: capped(count_marked(events, Some(true))),
        incorrect: capped(count_marked(events, Some(false))),
        elapsed: (latest(events) - earliest(events)) as u64,
    }
}

/// The summary of one exercise.
#[derive(Clone, Copy, Debug, PartialEq, Eq, Structural)]
pub struct Results {
    /// Keystrokes recorded as correct.
    pub correct: u64,
    /// Keystrokes recorded as wrong.
    pub incorrect: u64,
    /// Microseconds from the earliest to the latest recorded keystroke.
    pub elapsed: u64,
}

proof fn earliest_le_latest(events: Seq<TestEvent>)
    ensures
        earliest(events) <= latest(events),
    decreases events.len(),
{
    if events.len() > 1 {
        earliest_le_latest(events.drop_last());
    }
}

impl Results {
    /// Summarises `test` from the events its words recorded.
    pub fn from(test: &Test) -> (r: Results)
        ensures
            r == summary(test@.words),
    {
        let ghost words = test@.words;
        let mut correct: u64 = 0;
        let mut incorrect: u64 = 0;
        let mut first: u64 = 0;
        let mut last: u64 = 0;
        let mut any = false;
        let mut i: usize = 0;
        while i < test.words.len()
            invariant
                i <= test.words.len(),
                words == test@.words,
                ({
                    let seen = all_events(words.subrange(0, i as int));
                    &&& correct == capped(count_marked(seen, Some(true)))
                    &&& incorrect == capped(count_marked(seen, Some(false)))
                    &&& first == earliest(seen)
                    &&& last == latest(seen)
                    &&& any == (seen.len() > 0)
                }),
            decreases test.words.len() - i,
        {
            let ghost before = all_events(words.subrange(0, i as int));
            let events = &test.words[i].events;
            assert(events@ == words[i as int].events);
            let mut k: usize = 0;
            while k < events.len()
                invariant
                    k <= events.len(),
                    ({
                        let seen = before + events@.subrange(0, k as int);
                        &&& correct == capped(count_marked(seen, Some(true)))
                        &&& incorrect == capped(count_marked(seen, Some(false)))
                        &&& first == earliest(seen)
                        &&& last == latest(seen)
                        &&& any == (seen.len() > 0)
                    }),
                decreases events.len() - k,
            {
                let e = events[k];
                let ghost seen = before + events@.subrange(0, k + 1);
                assert(seen.drop_last() =~= before + events@.subrange(0, k as int));
                assert(seen.last() == e);
                match e.correct {
                    Some(true) => {
                        correct = correct.saturating_add(1);
                    },
                    Some(false) => {
                        incorrect = incorrect.saturating_add(1);
                    },
                    None => {},
                }
                if !any {
                    assert(seen.len() == 1);
                    first = e.time;
                    last = e.time;
                    any = true;
                } else {
                    if e.time < first {
                        first = e.time;
                    }
                    if e.time > last {
                        last = e.time;
                    }
                }
                k = k + 1;
            }
            assert(words.subrange(0, i + 1).drop_last() =~= words.subrange(0, i as int));
            assert(events@.subrange(0, k as int) =~= events@);
            i = i + 1;
        }
        assert(words.subrange(0, i as int) =~= words);
        proof {
            earliest_le_latest(all_events(words));
        }
        Results { correct, incorrect, elapsed: last - first }
    }

    /// Correct keystrokes per minute, or `None` where no time passed.
    pub fn keystrokes_per_minute(&self) -> (r: Option<u64>)
        ensures
            self.elapsed == 0 ==> r is None,
            self.elapsed > 0 ==> r == Some(capped(self.correct as nat * 60_000_000 / self.elapsed as nat)),
    {
        if self.elapsed == 0 {
            return None;
        }
        let c = self.correct as u128;
        assert(c * 60_000_000 <= u64::MAX as u128 * 60_000_000) by (nonlinear_arith)
            requires
                c <= u64::MAX,
        ;
        let rate = c * 60_000_000 / (self.elapsed as u128);
        if rate > u64::MAX as u128 {
            Some(u64::MAX)
        } else {
            Some(rate as u64)
        }
    }

    /// The share of judged keystrokes that were correct, in whole percent, or
    /// `None` where none was judged.
    pub fn accuracy_percent(&self) -> (r: Option<u64>)
        ensures
            self.correct + self.incorrect == 0 ==> r is None,
            self.correct + self.incorrect > 0 ==> r == Some(
                (self.correct as nat * 100 / (self.correct as nat + self.incorrect as nat)) as u64,
            ),
            r matches Some(p) ==> p <= 100,
    {
        let total = self.correct as u128 + self.incorrect as u128;
        if total == 0 {
            return None;
        }
        let c = self.correct as u128;
        assert(c * 100 <= total * 100) by (nonlinear_arith)
            requires
                c <= total,
        ;
        assert((c * 100) as int / (total as int) <= 100) by (nonlinear_arith)
            requires
                c <= total,
                total > 0,
        ;
        Some((c * 100 / total) as u64)
    }
}

} // verus!
