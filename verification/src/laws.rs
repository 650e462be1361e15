//! What holds of every session, proved over its model.

use vstd::prelude::*;
use crate::input::{InputModel, input_empty};
use crate::queue::lemma_full_credit_permutation;
use crate::session::{
    Effect, KeyAction, Outcome, Phase, SessionModel, cancel_completed, expiry_observed,
    hits_target, lemma_full_credit_front, session_initial, session_wf, step,
};
use crate::text::lemma_common_prefix_len;
use crate::timer::{ROUND_DURATION, TimerModel, timer_idle, timer_ticked, timer_wf};

verus! {

/// Whether `action` edits at the cursor or moves it.
pub open spec fn is_cursor_action(action: KeyAction) -> bool {
    ||| action is InsertChar
    ||| action is DeleteBefore
    ||| action is DeleteAt
    ||| action is MoveLeft
    ||| action is MoveRight
}

/// The session after a run of keys that edit the line or hand it in. Each key
/// comes with the countdown as it stood when the key arrived.
pub open spec fn after_keys(s: SessionModel, keys: Seq<(KeyAction, TimerModel)>) -> SessionModel
    decreases keys.len(),
{
    if keys.len() == 0 {
        s
    } else {
        step(after_keys(s, keys.drop_last()), keys.last().1, keys.last().0, Seq::empty()).session
    }
}

/// A step keeps a valid session and a valid countdown valid.
pub proof fn lemma_step_keeps_wf(
    s: SessionModel,
    t: TimerModel,
    action: KeyAction,
    draw: Seq<Seq<char>>,
)
    requires
        session_wf(s),
        timer_wf(t),
    ensures
        session_wf(step(s, t, action, draw).session),
        timer_wf(step(s, t, action, draw).timer),
{
    if action is CommitWord && s.phase == Phase::Playing && hits_target(s) {
        lemma_full_credit_front(s.queue);
    }
}

/// However the line is edited and the cursor moved, the cursor stays within
/// the text or just behind it.
pub proof fn law_cursor_stays_in_text(s: SessionModel, keys: Seq<(KeyAction, TimerModel)>)
    requires
        session_wf(s),
        forall|i: int| 0 <= i < keys.len() ==> is_cursor_action(#[trigger] keys[i].0),
    ensures
        0 <= after_keys(s, keys).input.cursor <= after_keys(s, keys).input.text.len(),
        session_wf(after_keys(s, keys)),
    decreases keys.len(),
{
    if keys.len() > 0 {
        law_cursor_stays_in_text(s, keys.drop_last());
    }
}

/// Handing in a line that is the target word takes that word off the queue,
/// credits its length and one more for the space, and empties the line,
/// however the line came to hold the word.
pub proof fn law_target_commit_advances(s: SessionModel, t: TimerModel, draw: Seq<Seq<char>>)
    requires
        s.phase == Phase::Playing,
        hits_target(s),
    ensures
        step(s, t, KeyAction::CommitWord, draw) == (Outcome {
            session: SessionModel {
                queue: s.queue.drop_first(),
                input: input_empty(),
                matched: s.matched + s.queue[0].len() + 1,
                ..s
            },
            timer: t,
            effect: Effect::Nothing,
        }),
        step(s, t, KeyAction::CommitWord, draw).session.queue.len() == s.queue.len() - 1,
{
}

/// Typing the characters of the target word into an empty line, while time
/// is left, leaves exactly that word on the line and nothing else changed.
pub proof fn lemma_typing_fills_line(
    s: SessionModel,
    keys: Seq<(KeyAction, TimerModel)>,
    word: Seq<char>,
)
    requires
        s.phase == Phase::Playing,
        s.queue.len() > 0,
        s.input == input_empty(),
        keys.len() == word.len(),
        forall|i: int|
            0 <= i < keys.len() ==> (#[trigger] keys[i]).0 == KeyAction::InsertChar(word[i])
                && keys[i].1.remaining > 0,
    ensures
        after_keys(s, keys) == (SessionModel {
            input: InputModel { text: word, cursor: word.len() as int },
            ..s
        }),
    decreases keys.len(),
{
    if keys.len() == 0 {
        assert(word =~= Seq::<char>::empty());
    } else {
        let start = word.drop_last();
        lemma_typing_fills_line(s, keys.drop_last(), start);
        assert(start.insert(start.len() as int, word.last()) =~= word);
    }
}

/// Typing the target word, character for character, and handing it in takes
/// that word off the queue, credits its length and one more, and empties
/// the line.
pub proof fn law_exact_word_advances(s: SessionModel, keys: Seq<(KeyAction, TimerModel)>)
    requires
        session_wf(s),
        s.phase == Phase::Playing,
        s.queue.len() > 0,
        s.input == input_empty(),
        keys.len() == s.queue[0].len() + 1,
        forall|i: int|
            0 <= i < keys.len() - 1 ==> (#[trigger] keys[i]).0 == KeyAction::InsertChar(
                s.queue[0][i],
            ) && keys[i].1.remaining > 0,
        keys.last().0 == KeyAction::CommitWord,
    ensures
        after_keys(s, keys) == (SessionModel {
            queue: s.queue.drop_first(),
            input: input_empty(),
            matched: s.matched + s.queue[0].len() + 1,
            ..s
        }),
{
    lemma_typing_fills_line(s, keys.drop_last(), s.queue[0]);
}

/// Handing in a line that is not the target word changes nothing: the queue,
/// the score and the line stay, and no space goes into the line.
pub proof fn law_wrong_word_stays(s: SessionModel, t: TimerModel, draw: Seq<Seq<char>>)
    requires
        !hits_target(s),
    ensures
        step(s, t, KeyAction::CommitWord, draw) == (Outcome {
            session: s,
            timer: t,
            effect: Effect::Nothing,
        }),
{
}

/// Outside a round the line cannot be edited: whatever key comes, it stays
/// empty.
pub proof fn law_line_fixed_outside_round(
    s: SessionModel,
    t: TimerModel,
    action: KeyAction,
    draw: Seq<Seq<char>>,
)
    requires
        session_wf(s),
        s.phase != Phase::Playing,
    ensures
        step(s, t, action, draw).session.input == s.input,
        s.input == input_empty(),
{
}

/// Starting a round while no countdown runs clears the score, sets the
/// countdown to the length of a round and queues as many words as the corpus
/// holds, whatever order they are drawn in.
pub proof fn law_start_resets_round(s: SessionModel, t: TimerModel, draw: Seq<Seq<char>>)
    requires
        session_wf(s),
        !t.running,
        draw.to_multiset() == s.corpus.to_multiset(),
    ensures
        step(s, t, KeyAction::StartOrRestart, draw).session.phase == Phase::Playing,
        step(s, t, KeyAction::StartOrRestart, draw).session.matched == 0,
        step(s, t, KeyAction::StartOrRestart, draw).session.input == input_empty(),
        step(s, t, KeyAction::StartOrRestart, draw).session.queue == draw,
        step(s, t, KeyAction::StartOrRestart, draw).session.queue.len() == s.corpus.len(),
        step(s, t, KeyAction::StartOrRestart, draw).timer.remaining == ROUND_DURATION,
        step(s, t, KeyAction::StartOrRestart, draw).timer.running,
        step(s, t, KeyAction::StartOrRestart, draw).effect == Effect::LaunchTimer,
{
    lemma_full_credit_permutation(draw, s.corpus);
}

/// Starting while a countdown runs changes nothing, so no second ticking
/// activity is ever asked for.
pub proof fn law_start_needs_stopped_timer(s: SessionModel, t: TimerModel, draw: Seq<Seq<char>>)
    requires
        t.running,
    ensures
        step(s, t, KeyAction::StartOrRestart, draw) == (Outcome {
            session: s,
            timer: t,
            effect: Effect::Nothing,
        }),
{
}

/// Calling a round off leaves no time on the countdown and asks the program
/// to wait for the ticking activity. As long as that activity is alive a start
/// changes nothing. The activity ends at its next wake-up without raising the
/// expiry signal, so the round never shows a result; and once it has ended
/// the session goes idle with nothing credited.
pub proof fn law_cancel_stops_round(s: SessionModel, t: TimerModel, draw: Seq<Seq<char>>)
    requires
        session_wf(s),
        timer_wf(t),
        s.phase == Phase::Playing,
    ensures
        ({
            let asked = step(s, t, KeyAction::CancelRound, draw);
            let stopped = timer_ticked(asked.timer);
            let idle = cancel_completed(asked.session, stopped);
            &&& asked.effect == Effect::AwaitTimerExit
            &&& asked.timer.remaining == 0
            &&& asked.timer.running ==> step(
                asked.session,
                asked.timer,
                KeyAction::StartOrRestart,
                draw,
            ) == (Outcome { effect: Effect::Nothing, ..asked })
            &&& !stopped.running
            &&& !stopped.expired
            &&& stopped.remaining == 0
            &&& expiry_observed(asked.session, stopped) == (asked.session, stopped)
            &&& idle.phase == Phase::Idle
            &&& idle.matched == 0
            &&& idle.input == input_empty()
        }),
{
}

/// A tick never adds time, and it raises the expiry signal exactly when it
/// ends a round that was not called off.
pub proof fn law_tick_counts_down(t: TimerModel)
    requires
        timer_wf(t),
    ensures
        timer_wf(timer_ticked(t)),
        timer_ticked(t).remaining <= t.remaining,
        timer_ticked(t).expired && !t.expired <==> t.running && t.remaining <= 1 && !t.cancelled,
{
}

/// The countdown after `n` wake-ups of the ticking activity.
pub open spec fn after_ticks(t: TimerModel, n: nat) -> TimerModel
    decreases n,
{
    if n == 0 {
        t
    } else {
        timer_ticked(after_ticks(t, (n - 1) as nat))
    }
}

/// A round that is not called off lasts as many ticks as it has seconds:
/// each tick before the last takes one second off, the last one stops the
/// countdown and raises the expiry signal, and further ticks change nothing.
pub proof fn law_round_lasts_its_seconds(t: TimerModel, n: nat)
    requires
        timer_wf(t),
        t.running,
        !t.cancelled,
    ensures
        n < t.remaining ==> after_ticks(t, n) == (TimerModel {
            remaining: (t.remaining - n) as nat,
            ..t
        }),
        n >= t.remaining ==> after_ticks(t, n) == (TimerModel {
            remaining: 0,
            running: false,
            expired: true,
            cancelled: false,
        }),
    decreases n,
{
    if n > 0 {
        law_round_lasts_its_seconds(t, (n - 1) as nat);
    }
}

/// Something that happens to a session and its countdown.
pub enum Event {
    /// The session takes a key; `draw` is the order of the words if a round
    /// starts.
    Key { action: KeyAction, draw: Seq<Seq<char>> },
    /// The ticking activity wakes up.
    Tick,
    /// The input loop looks at the countdown before it redraws.
    Observe,
    /// The program has waited for the ticking activity and finishes calling
    /// the round off.
    CompleteCancel,
}

/// The session and the countdown after `event`.
pub open spec fn after_event(s: SessionModel, t: TimerModel, event: Event) -> (
    SessionModel,
    TimerModel,
) {
    match event {
        Event::Key { action, draw } => (
            step(s, t, action, draw).session,
            step(s, t, action, draw).timer,
        ),
        Event::Tick => (s, timer_ticked(t)),
        Event::Observe => expiry_observed(s, t),
        Event::CompleteCancel => (cancel_completed(s, t), t),
    }
}

/// The session and the countdown after a run of events, in any interleaving
/// of keys, ticks and looks at the countdown.
pub open spec fn after_events(s: SessionModel, t: TimerModel, events: Seq<Event>) -> (
    SessionModel,
    TimerModel,
)
    decreases events.len(),
{
    if events.len() == 0 {
        (s, t)
    } else {
        let before = after_events(s, t, events.drop_last());
        after_event(before.0, before.1, events.last())
    }
}

/// What holds of a session and its countdown together: both are valid, and
/// a countdown runs, or has an expiry signal up, only while a round is on.
pub open spec fn in_step(s: SessionModel, t: TimerModel) -> bool {
    &&& session_wf(s)
    &&& timer_wf(t)
    &&& t.running ==> s.phase == Phase::Playing
    &&& t.expired ==> s.phase == Phase::Playing
}

/// A fresh session and a countdown that has never run are in step.
pub proof fn law_initial_state_in_step()
    ensures
        in_step(session_initial(), timer_idle()),
{
}

/// Whatever happens, in whatever order, a session and its countdown stay in
/// step: the cursor stays within the text, the score within its limit, and
/// outside a round no countdown runs, so that a new round can always start.
pub proof fn law_events_keep_in_step(s: SessionModel, t: TimerModel, events: Seq<Event>)
    requires
        in_step(s, t),
    ensures
        in_step(after_events(s, t, events).0, after_events(s, t, events).1),
    decreases events.len(),
{
    if events.len() > 0 {
        law_events_keep_in_step(s, t, events.drop_last());
        let before = after_events(s, t, events.drop_last());
        match events.last() {
            Event::Key { action, draw } => {
                lemma_step_keeps_wf(before.0, before.1, action, draw);
            },
            Event::Observe => {
                if before.0.phase == Phase::Playing && before.1.expired && before.0.queue.len() > 0 {
                    lemma_full_credit_front(before.0.queue);
                    lemma_common_prefix_len(before.0.input.text, before.0.queue[0]);
                }
            },
            _ => {},
        }
    }
}

} // verus!
