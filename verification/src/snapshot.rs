//! What a display needs of a session, taken at one moment.

use vstd::prelude::*;
use crate::input::{after_cursor, before_cursor, under_cursor};
use crate::queue::joined;
use crate::score::{word_count, words_per_minute};
use crate::session::{Phase, SessionModel, TypeMaster};
use crate::text::{clock, clock_text};
use crate::timer::{TimerModel, TimerState, elapsed};

verus! {

/// The state of a session as a display shows it.
#[derive(Debug)]
pub struct Snapshot {
    /// Where the session stands.
    pub phase: Phase,
    /// The words still to be typed, as one line.
    pub words: String,
    /// The input left of the cursor.
    pub input_before: String,
    /// The character under the cursor, if there is one.
    pub input_at: Option<char>,
    /// The input right of the character under the cursor.
    pub input_after: String,
    /// The cursor's position in the input.
    pub cursor: usize,
    /// The time left, as `mm:ss`.
    pub clock: String,
    /// Whole words credited so far.
    pub word_count: usize,
    /// Words per minute so far.
    pub wpm: usize,
}

/// Whether `snap` shows the session `s` beside the countdown `t`.
pub open spec fn shows(snap: Snapshot, s: SessionModel, t: TimerModel) -> bool {
    &&& snap.phase == s.phase
    &&& snap.words@ == joined(s.queue)
    &&& snap.input_before@ == before_cursor(s.input)
    &&& snap.input_at == under_cursor(s.input)
    &&& snap.input_after@ == after_cursor(s.input)
    &&& snap.cursor == s.input.cursor
    &&& snap.clock@ == clock(t.remaining)
    &&& snap.word_count == word_count(s.matched)
    &&& snap.wpm == words_per_minute(s.matched, elapsed(t))
}

impl TypeMaster {
    /// What a display needs of the session right now. Nothing changes.
    pub fn snapshot(&self, timer: &TimerState) -> (snap: Snapshot)
        requires
            self.wf(),
            timer.wf(),
        ensures
            shows(snap, self@, timer@),
    {
        let (input_before, input_at, input_after) = self.input().split_at_cursor();
        Snapshot {
            phase: self.phase(),
            words: self.word_queue().render_text(),
            input_before,
            input_at,
            input_after,
            cursor: self.input().cursor(),
            clock: clock_text(timer.remaining_seconds()),
            word_count: self.word_count(),
            wpm: self.wpm(timer),
        }
    }
}

} // verus!
