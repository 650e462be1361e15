//! The countdown that the input loop and the ticking activity share.
//!
//! The state is plain data. Whoever owns it puts it behind one lock; the
//! ticking activity sleeps a second, takes the lock and calls
//! [`TimerState::tick`], and leaves once that returns `true`.

use vstd::prelude::*;

verus! {

/// Length of a round, in seconds.
pub const ROUND_DURATION: usize = 60;

/// The countdown as plain values.
pub struct TimerModel {
    /// Seconds left in the round.
    pub remaining: nat,
    /// Whether a ticking activity is alive for the current round.
    pub running: bool,
    /// Set when the round ran out; taken once by the session.
    pub expired: bool,
    /// Whether the round was called off.
    pub cancelled: bool,
}

/// What holds of every countdown between two operations.
pub open spec fn timer_wf(t: TimerModel) -> bool {
    &&& t.remaining <= ROUND_DURATION
    &&& t.expired ==> !t.running && t.remaining == 0
    &&& t.cancelled ==> t.remaining == 0 && !t.expired
    &&& t.running && !t.cancelled ==> t.remaining > 0
}

/// A countdown that has never run.
pub open spec fn timer_idle() -> TimerModel {
    TimerModel { remaining: 0, running: false, expired: false, cancelled: false }
}

/// Starting a round: a fresh countdown, unless one is still running.
pub open spec fn timer_launched(t: TimerModel) -> TimerModel {
    if t.running {
        t
    } else {
        TimerModel {
            remaining: ROUND_DURATION as nat,
            running: true,
            expired: false,
            cancelled: false,
        }
    }
}

/// One wake-up of the ticking activity: a second less where any is left, and
/// at zero the activity ends, raising the expiry signal unless the round was
/// called off.
pub open spec fn timer_ticked(t: TimerModel) -> TimerModel {
    if !t.running {
        t
    } else if t.remaining > 1 {
        TimerModel { remaining: (t.remaining - 1) as nat, ..t }
    } else {
        TimerModel { remaining: 0, running: false, expired: !t.cancelled, cancelled: t.cancelled }
    }
}

/// Calling the round off: no time left, and no expiry signal to come.
pub open spec fn timer_cancelled(t: TimerModel) -> TimerModel {
    TimerModel { remaining: 0, running: t.running, expired: false, cancelled: true }
}

/// Seconds of the round that have passed.
pub open spec fn elapsed(t: TimerModel) -> int {
    ROUND_DURATION - t.remaining
}

/// Remaining time, the running flag and the expiry signal of a round.
#[derive(Clone, Copy, Debug)]
pub struct TimerState {
    remaining_seconds: usize,
    running: bool,
    expired_signal: bool,
    cancelled: bool,
}

impl View for TimerState {
    type V = TimerModel;

    closed spec fn view(&self) -> TimerModel {
        TimerModel {
            remaining: self.remaining_seconds as nat,
            running: self.running,
            expired: self.expired_signal,
            cancelled: self.cancelled,
        }
    }
}

impl TimerState {
    /// Validity of the state.
    pub open spec fn wf(&self) -> bool {
        timer_wf(self@)
    }

    /// A countdown that has never run: no time left, nothing running.
    pub fn new() -> (t: Self)
        ensures
            t.wf(),
            t@ == timer_idle(),
    {
        TimerState { remaining_seconds: 0, running: false, expired_signal: false, cancelled: false }
    }

    /// Seconds left in the round.
    pub fn remaining_seconds(&self) -> (r: usize)
        ensures
            r == self@.remaining,
    {
        self.remaining_seconds
    }

    /// Whether a ticking activity is alive.
    pub fn is_running(&self) -> (r: bool)
        ensures
            r == self@.running,
    {
        self.running
    }

    /// Whether the round ran out and nobody has taken note yet.
    pub fn expired_signal(&self) -> (r: bool)
        ensures
            r == self@.expired,
    {
        self.expired_signal
    }

    /// Whether the round was called off.
    pub fn is_cancelled(&self) -> (r: bool)
        ensures
            r == self@.cancelled,
    {
        self.cancelled
    }

    /// Seconds of the round that have passed.
    pub fn elapsed_seconds(&self) -> (e: usize)
        requires
            self.wf(),
        ensures
            e == elapsed(self@),
    {
        ROUND_DURATION - self.remaining_seconds
    }

    /// Arms the countdown for a new round and marks it running. With a
    /// countdown still running nothing changes. Returns whether a ticking
    /// activity has to be started.
    pub fn launch(&mut self) -> (launched: bool)
        requires
            old(self).wf(),
        ensures
            final(self).wf(),
            final(self)@ == timer_launched(old(self)@),
            launched == !old(self)@.running,
    {
        if self.running {
            false
        } else {
            self.remaining_seconds = ROUND_DURATION;
            self.running = true;
            self.expired_signal = false;
            self.cancelled = false;
            true
        }
    }

    /// One wake-up of the ticking activity. Returns whether the activity is
    /// over; after that it must not call again.
    pub fn tick(&mut self) -> (exited: bool)
        requires
            old(self).wf(),
        ensures
            final(self).wf(),
            final(self)@ == timer_ticked(old(self)@),
            exited == !final(self)@.running,
    {
        if !self.running {
            return true;
        }
        if self.remaining_seconds > 1 {
            self.remaining_seconds -= 1;
            false
        } else {
            self.remaining_seconds = 0;
            self.running = false;
            self.expired_signal = !self.cancelled;
            true
        }
    }

    /// Calls the round off: the time left drops to zero, so that the ticking
    /// activity ends at its next wake-up without raising the expiry signal.
    pub fn request_cancel(&mut self)
        ensures
            final(self)@ == timer_cancelled(old(self)@),
            timer_wf(final(self)@),
    {
        self.remaining_seconds = 0;
        self.expired_signal = false;
        self.cancelled = true;
    }

    /// Takes the expiry signal: returns it and lowers it.
    pub fn take_expired(&mut self) -> (expired: bool)
        requires
            old(self).wf(),
        ensures
            final(self).wf(),
            expired == old(self)@.expired,
            final(self)@ == (TimerModel { expired: false, ..old(self)@ }),
    {
        let expired = self.expired_signal;
        self.expired_signal = false;
        expired
    }
}

} // verus!
