//! The session: the state machine that a typing round runs through.
//!
//! A round begins with the explicit start action, never with a typed
//! character: characters that arrive outside a round are dropped. Once every
//! word of the round is done the input line stays empty until the time runs
//! out or the round is called off.

use vstd::prelude::*;
use crate::input::{
    InputBuffer, InputModel, input_deleted_at, input_deleted_before, input_empty, input_inserted,
    input_moved_left, input_moved_right, input_wf,
};
use crate::queue::{
    WordQueue, fits_round, full_credit, lemma_full_credit_remove, shuffled, words_view,
};
use crate::score::{CREDIT_LIMIT, Score, word_count, words_per_minute};
use crate::text::{common_prefix_len, lemma_common_prefix_len};
use crate::timer::{TimerModel, TimerState, elapsed, timer_cancelled, timer_launched};

verus! {

/// Where a session stands.
#[derive(Clone, Copy, Debug, PartialEq, Eq, Structural)]
pub enum Phase {
    /// No round yet, or the last one was called off.
    Idle,
    /// A round is on.
    Playing,
    /// The round ran out; its figures stay on show.
    Result,
}

/// What a key asks of the session.
#[derive(Clone, Copy, Debug, PartialEq, Eq)]
pub enum KeyAction {
    /// Leave the program.
    Quit,
    /// Begin a round.
    StartOrRestart,
    /// Put a character in at the cursor.
    InsertChar(char),
    /// Remove the character left of the cursor.
    DeleteBefore,
    /// Remove the character under the cursor.
    DeleteAt,
    /// Move the cursor one to the left.
    MoveLeft,
    /// Move the cursor one to the right.
    MoveRight,
    /// Hand in the line as the current word.
    CommitWord,
    /// Empty the line.
    ClearLine,
    /// Call the round off.
    CancelRound,
}

/// A key as the terminal reports it, without the terminal's own types.
#[derive(Clone, Copy, Debug, PartialEq, Eq)]
pub enum Key {
    /// The escape key.
    Escape,
    /// The enter key.
    Enter,
    /// The backspace key.
    Backspace,
    /// The delete key.
    Delete,
    /// The left arrow.
    Left,
    /// The right arrow.
    Right,
    /// A character key.
    Char(char),
    /// Any other key.
    Other,
}

/// What the program has to do after the session has taken a key.
#[derive(Clone, Copy, Debug, PartialEq, Eq, Structural)]
pub enum Effect {
    /// Go on.
    Nothing,
    /// Leave the input loop.
    Quit,
    /// Start the ticking activity: the countdown is armed and marked running.
    LaunchTimer,
    /// Block until the ticking activity has ended, then call
    /// [`TypeMaster::complete_cancel`].
    AwaitTimerExit,
}

/// The action that a key stands for, if any. The space key hands the word
/// in, with or without the control key; with the control key held, `u` clears
/// the line and `c` calls the round off, in either case of the letter, and
/// every other character is ignored.
pub open spec fn key_action(key: Key, control: bool) -> Option<KeyAction> {
    match key {
        Key::Escape => Some(KeyAction::Quit),
        Key::Enter => Some(KeyAction::StartOrRestart),
        Key::Backspace => Some(KeyAction::DeleteBefore),
        Key::Delete => Some(KeyAction::DeleteAt),
        Key::Left => Some(KeyAction::MoveLeft),
        Key::Right => Some(KeyAction::MoveRight),
        Key::Char(c) => if c == ' ' {
            Some(KeyAction::CommitWord)
        } else if !control {
            Some(KeyAction::InsertChar(c))
        } else if c == 'u' || c == 'U' {
            Some(KeyAction::ClearLine)
        } else if c == 'c' || c == 'C' {
            Some(KeyAction::CancelRound)
        } else {
            None
        },
        Key::Other => None,
    }
}

/// Maps a key, and whether the control key was held, to its action.
pub fn classify_key(key: Key, control: bool) -> (action: Option<KeyAction>)
    ensures
        action == key_action(key, control),
{
    match key {
        Key::Escape => Some(KeyAction::Quit),
        Key::Enter => Some(KeyAction::StartOrRestart),
        Key::Backspace => Some(KeyAction::DeleteBefore),
        Key::Delete => Some(KeyAction::DeleteAt),
        Key::Left => Some(KeyAction::MoveLeft),
        Key::Right => Some(KeyAction::MoveRight),
        Key::Char(c) => {
            if c == ' ' {
                Some(KeyAction::CommitWord)
            } else if !control {
                Some(KeyAction::InsertChar(c))
            } else if c == 'u' || c == 'U' {
                Some(KeyAction::ClearLine)
            } else if c == 'c' || c == 'C' {
                Some(KeyAction::CancelRound)
            } else {
                None
            }
        },
        Key::Other => None,
    }
}

/// The session as plain values.
pub struct SessionModel {
    /// The words that rounds are drawn from.
    pub corpus: Seq<Seq<char>>,
    /// Where the session stands.
    pub phase: Phase,
    /// The words still to be typed; the first is the target.
    pub queue: Seq<Seq<char>>,
    /// The line being typed.
    pub input: InputModel,
    /// The characters credited in this round.
    pub matched: nat,
}

/// A session, the countdown beside it, and what the program is asked to do.
pub struct Outcome {
    /// The session after the step.
    pub session: SessionModel,
    /// The countdown after the step.
    pub timer: TimerModel,
    /// What the program has to do.
    pub effect: Effect,
}

/// What holds of every session between two steps.
pub open spec fn session_wf(s: SessionModel) -> bool {
    &&& input_wf(s.input)
    &&& full_credit(s.corpus) <= CREDIT_LIMIT
    &&& s.phase == Phase::Idle ==> s.matched == 0
    &&& s.phase == Phase::Playing ==> s.matched + full_credit(s.queue) <= CREDIT_LIMIT
    &&& s.phase == Phase::Result ==> s.matched <= CREDIT_LIMIT
    &&& s.phase != Phase::Playing || s.queue.len() == 0 ==> s.input == input_empty()
}

/// A session before its first round.
pub open spec fn session_initial() -> SessionModel {
    SessionModel {
        corpus: Seq::empty(),
        phase: Phase::Idle,
        queue: Seq::empty(),
        input: input_empty(),
        matched: 0,
    }
}

/// The start of a round over `draw`, the words in the order in which they
/// are to be typed. While a countdown is running, and for a round that would
/// pass the credit limit, nothing happens.
pub open spec fn started(s: SessionModel, t: TimerModel, draw: Seq<Seq<char>>) -> Outcome {
    if t.running || full_credit(draw) > CREDIT_LIMIT {
        Outcome { session: s, timer: t, effect: Effect::Nothing }
    } else {
        Outcome {
            session: SessionModel {
                phase: Phase::Playing,
                queue: draw,
                input: input_empty(),
                matched: 0,
                ..s
            },
            timer: timer_launched(t),
            effect: Effect::LaunchTimer,
        }
    }
}

/// Whether the line is the target word, character for character.
pub open spec fn hits_target(s: SessionModel) -> bool {
    s.queue.len() > 0 && s.input.text == s.queue[0]
}

/// Handing the line in: a line that is the target word is credited with its
/// length and one for the space, the word leaves the queue and the line is
/// emptied; any other line stays, and nothing else changes.
pub open spec fn committed(s: SessionModel) -> SessionModel {
    if hits_target(s) {
        SessionModel {
            queue: s.queue.drop_first(),
            input: input_empty(),
            matched: s.matched + s.input.text.len() + 1,
            ..s
        }
    } else {
        s
    }
}

/// The line after an action that edits it.
pub open spec fn edited(s: SessionModel, t: TimerModel, action: KeyAction) -> InputModel {
    match action {
        KeyAction::InsertChar(c) => if t.remaining > 0 && s.queue.len() > 0 {
            input_inserted(s.input, c)
        } else {
            s.input
        },
        KeyAction::DeleteBefore => input_deleted_before(s.input),
        KeyAction::DeleteAt => input_deleted_at(s.input),
        KeyAction::MoveLeft => input_moved_left(s.input),
        KeyAction::MoveRight => input_moved_right(s.input),
        KeyAction::ClearLine => input_empty(),
        _ => s.input,
    }
}

/// One step of the session: the state after `action`, the countdown after
/// it, and what the program has to do. `draw` is the order in which the words
/// of a new round come; only the start action reads it. Outside a round every
/// action but quitting and starting leaves everything as it is.
pub open spec fn step(
    s: SessionModel,
    t: TimerModel,
    action: KeyAction,
    draw: Seq<Seq<char>>,
) -> Outcome {
    match action {
        KeyAction::Quit => Outcome { session: s, timer: t, effect: Effect::Quit },
        KeyAction::StartOrRestart => started(s, t, draw),
        _ => if s.phase != Phase::Playing {
            Outcome { session: s, timer: t, effect: Effect::Nothing }
        } else {
            match action {
                KeyAction::CommitWord => Outcome {
                    session: committed(s),
                    timer: t,
                    effect: Effect::Nothing,
                },
                KeyAction::CancelRound => Outcome {
                    session: s,
                    timer: timer_cancelled(t),
                    effect: Effect::AwaitTimerExit,
                },
                _ => Outcome {
                    session: SessionModel { input: edited(s, t, action), ..s },
                    timer: t,
                    effect: Effect::Nothing,
                },
            }
        },
    }
}

/// The credit for a word left unfinished: the characters that the line and
/// the target share from the start, up to the first difference.
pub open spec fn prefix_credit(s: SessionModel) -> nat {
    if s.queue.len() > 0 {
        common_prefix_len(s.input.text, s.queue[0])
    } else {
        0
    }
}

/// The session after it has looked at the countdown: a round whose expiry
/// signal is up ends, with the credit for the unfinished word added and the
/// line emptied, and the signal is taken. Otherwise nothing changes.
pub open spec fn expiry_observed(s: SessionModel, t: TimerModel) -> (SessionModel, TimerModel) {
    if s.phase == Phase::Playing && t.expired {
        (
            SessionModel {
                phase: Phase::Result,
                input: input_empty(),
                matched: s.matched + prefix_credit(s),
                ..s
            },
            TimerModel { expired: false, ..t },
        )
    } else {
        (s, t)
    }
}

/// The session after a round that was called off and whose ticking activity
/// has ended: idle, with nothing credited and an empty line.
pub open spec fn cancel_completed(s: SessionModel, t: TimerModel) -> SessionModel {
    if s.phase == Phase::Playing && t.cancelled && !t.running {
        SessionModel { phase: Phase::Idle, input: input_empty(), matched: 0, ..s }
    } else {
        s
    }
}

/// The first word's share of the credit of a queue.
pub proof fn lemma_full_credit_front(queue: Seq<Seq<char>>)
    requires
        queue.len() > 0,
    ensures
        full_credit(queue) == full_credit(queue.drop_first()) + queue[0].len() + 1,
{
    lemma_full_credit_remove(queue, 0);
}

/// The typing test: the corpus, the phase, the words of the round, the line
/// being typed and the score.
#[derive(Debug)]
pub struct TypeMaster {
    corpus: Vec<Vec<char>>,
    phase: Phase,
    queue: WordQueue,
    input: InputBuffer,
    score: Score,
}

impl View for TypeMaster {
    type V = SessionModel;

    closed spec fn view(&self) -> SessionModel {
        SessionModel {
            corpus: words_view(self.corpus@),
            phase: self.phase,
            queue: self.queue@,
            input: self.input@,
            matched: self.score@,
        }
    }
}

impl TypeMaster {
    /// Validity of the session.
    pub open spec fn wf(&self) -> bool {
        session_wf(self@)
    }

    /// A session before its first round, with an empty corpus.
    pub fn new() -> (session: Self)
        ensures
            session.wf(),
            session@ == session_initial(),
    {
        let session = TypeMaster {
            corpus: Vec::new(),
            phase: Phase::Idle,
            queue: WordQueue::new(),
            input: InputBuffer::new(),
            score: Score::new(),
        };
        assert(session@.corpus =~= Seq::<Seq<char>>::empty());
        session
    }

    /// Where the session stands.
    pub fn phase(&self) -> (p: Phase)
        ensures
            p == self@.phase,
    {
        self.phase
    }

    /// The words still to be typed.
    pub fn word_queue(&self) -> (q: &WordQueue)
        ensures
            q@ == self@.queue,
    {
        &self.queue
    }

    /// The line being typed.
    pub fn input(&self) -> (b: &InputBuffer)
        ensures
            b@ == self@.input,
    {
        &self.input
    }

    /// The characters credited in this round.
    pub fn matched_chars(&self) -> (m: usize)
        ensures
            m == self@.matched,
    {
        self.score.matched_chars()
    }

    /// Whole words credited in this round.
    pub fn word_count(&self) -> (w: usize)
        ensures
            w == word_count(self@.matched),
    {
        self.score.word_count()
    }

    /// Words per minute of this round, by the time that `timer` shows.
    pub fn wpm(&self, timer: &TimerState) -> (w: usize)
        requires
            self.wf(),
            timer.wf(),
        ensures
            w == words_per_minute(self@.matched, elapsed(timer@)),
    {
        self.score.wpm(timer.elapsed_seconds())
    }

    /// The words that rounds are drawn from.
    pub fn corpus(&self) -> (c: &Vec<Vec<char>>)
        ensures
            words_view(c@) == self@.corpus,
    {
        &self.corpus
    }

    /// Replaces the corpus, unless a round over `words` would pass the credit
    /// limit. Returns whether the corpus was replaced. A round that is on
    /// keeps its words.
    pub fn set_corpus(&mut self, words: Vec<Vec<char>>) -> (accepted: bool)
        requires
            old(self).wf(),
        ensures
            final(self).wf(),
            accepted == (full_credit(words_view(words@)) <= CREDIT_LIMIT),
            accepted ==> final(self)@ == (SessionModel {
                corpus: words_view(words@),
                ..old(self)@
            }),
            !accepted ==> final(self)@ == old(self)@,
    {
        if fits_round(&words) {
            self.corpus = words;
            true
        } else {
            false
        }
    }

    /// Begins a round over `words`, in the order given: see [`started`].
    pub fn begin_round(&mut self, timer: &mut TimerState, words: Vec<Vec<char>>) -> (effect: Effect)
        requires
            old(self).wf(),
            old(timer).wf(),
        ensures
            final(self).wf(),
            final(timer).wf(),
            (Outcome { session: final(self)@, timer: final(timer)@, effect }) == started(
                old(self)@,
                old(timer)@,
                words_view(words@),
            ),
    {
        if timer.is_running() || !fits_round(&words) {
            return Effect::Nothing;
        }
        timer.launch();
        self.queue = WordQueue::from_words(words);
        self.input.clear();
        self.score.reset();
        self.phase = Phase::Playing;
        Effect::LaunchTimer
    }

    /// Takes one key action: see [`step`]. A new round gets the words of the
    /// corpus in a random order.
    pub fn handle_key(&mut self, timer: &mut TimerState, action: KeyAction) -> (effect: Effect)
        requires
            old(self).wf(),
            old(timer).wf(),
        ensures
            final(self).wf(),
            final(timer).wf(),
            (Outcome { session: final(self)@, timer: final(timer)@, effect }) == step(
                old(self)@,
                old(timer)@,
                action,
                final(self)@.queue,
            ),
            action == KeyAction::StartOrRestart && !old(timer)@.running
                ==> final(self)@.queue.to_multiset() == old(self)@.corpus.to_multiset(),
    {
        match action {
            KeyAction::Quit => Effect::Quit,
            KeyAction::StartOrRestart => {
                if timer.is_running() {
                    return Effect::Nothing;
                }
                let words = shuffled(&self.corpus);
                self.begin_round(timer, words)
            },
            _ => {
                if self.phase != Phase::Playing {
                    return Effect::Nothing;
                }
                match action {
                    KeyAction::CommitWord => {
                        self.commit();
                        Effect::Nothing
                    },
                    KeyAction::CancelRound => {
                        timer.request_cancel();
                        Effect::AwaitTimerExit
                    },
                    KeyAction::InsertChar(c) => {
                        if timer.remaining_seconds() > 0 && !self.queue.is_empty() {
                            self.input.insert(c);
                        }
                        Effect::Nothing
                    },
                    KeyAction::DeleteBefore => {
                        self.input.delete_before();
                        Effect::Nothing
                    },
                    KeyAction::DeleteAt => {
                        self.input.delete_at();
                        Effect::Nothing
                    },
                    KeyAction::MoveLeft => {
                        self.input.move_left();
                        Effect::Nothing
                    },
                    KeyAction::MoveRight => {
                        self.input.move_right();
                        Effect::Nothing
                    },
                    KeyAction::ClearLine => {
                        self.input.clear();
                        Effect::Nothing
                    },
                    _ => Effect::Nothing,
                }
            },
        }
    }

    /// Hands the line in as the current word: see [`committed`].
    fn commit(&mut self)
        requires
            old(self).wf(),
            old(self)@.phase == Phase::Playing,
        ensures
            final(self).wf(),
            final(self)@ == committed(old(self)@),
    {
        let hit = match self.queue.front() {
            Some(word) => self.input.matches(word),
            None => false,
        };
        if hit {
            proof {
                lemma_full_credit_front(self@.queue);
            }
            self.score.credit_word(self.input.len());
            self.queue.pop_front();
            self.input.clear();
        }
    }

    /// Looks at the countdown, as the input loop does before each redraw:
    /// see [`expiry_observed`]. Returns whether the round ended just now.
    pub fn observe_expiry(&mut self, timer: &mut TimerState) -> (ended: bool)
        requires
            old(self).wf(),
            old(timer).wf(),
        ensures
            final(self).wf(),
            final(timer).wf(),
            (final(self)@, final(timer)@) == expiry_observed(old(self)@, old(timer)@),
            ended == (old(self)@.phase == Phase::Playing && old(timer)@.expired),
    {
        if self.phase != Phase::Playing || !timer.expired_signal() {
            return false;
        }
        timer.take_expired();
        let credit = match self.queue.front() {
            Some(word) => self.input.prefix_credit(word),
            None => 0,
        };
        proof {
            if self@.queue.len() > 0 {
                lemma_full_credit_front(self@.queue);
                lemma_common_prefix_len(self@.input.text, self@.queue[0]);
            }
        }
        self.score.credit_prefix(credit);
        self.input.clear();
        self.phase = Phase::Result;
        true
    }

    /// Finishes calling a round off, once the ticking activity has ended:
    /// see [`cancel_completed`]. Returns whether the session went idle.
    pub fn complete_cancel(&mut self, timer: &TimerState) -> (done: bool)
        requires
            old(self).wf(),
        ensures
            final(self).wf(),
            final(self)@ == cancel_completed(old(self)@, timer@),
            done == (old(self)@.phase == Phase::Playing && timer@.cancelled && !timer@.running),
    {
        if self.phase != Phase::Playing || !timer.is_cancelled() || timer.is_running() {
            return false;
        }
        self.score.reset();
        self.input.clear();
        self.phase = Phase::Idle;
        true
    }
}

} // verus!
