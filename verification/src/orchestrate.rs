//! Run orchestration: every unstable game gets one worker on a fixed-size
//! pool, all workers feed one event channel, and the drain loop below decides
//! what each event means — forward it, count it toward completion, request
//! global cancellation — until exactly one terminal event per submitted game
//! has arrived. The first fatal error becomes the run's result; later ones
//! are dropped.
//!
//! The pool, the channel and the blocking receive live in the surrounding
//! binary; it calls `drain_step` for every received event and stops when
//! `drain_done` says so.

use vstd::prelude::*;

use crate::Game;
use crate::User;

verus! {

/// One event on the shared worker channel. The three `Die` variants are
/// terminal: a worker sends exactly one of them, as its last word.
#[derive(Debug, Clone, PartialEq)]
pub enum Message {
    /// The worker died on an unrecoverable error (store failure or an
    /// exhausted backoff token).
    DieErr(String),
    /// The worker's game converged; the final snapshot rides along.
    DieResult(Game),
    /// The worker saw the cancellation flag and exited without writing.
    DieInterrupt,
    /// Informational: a transient remote failure was noted and retried.
    NoteErr(String),
    /// Informational: a previously unseen rater was resolved and cached.
    NoteUserProgress(User),
    /// Informational: a worker is about to ask for a page of this game.
    NoteGameProgress(Game),
}

/// A worker-lifecycle-ending event, counted toward run completion.
pub open spec fn is_terminal(m: Message) -> bool {
    m is DieErr || m is DieResult || m is DieInterrupt
}

/// How many of the events are terminal.
pub open spec fn count_terminals(ms: Seq<Message>) -> int
    decreases ms.len(),
{
    if ms.len() == 0 {
        0
    } else {
        (if is_terminal(ms[0]) {
            1int
        } else {
            0int
        }) + count_terminals(ms.drop_first())
    }
}

/// The payload of the first fatal event, if any.
pub open spec fn first_fatal(ms: Seq<Message>) -> Option<String>
    decreases ms.len(),
{
    if ms.len() == 0 {
        None
    } else {
        match ms[0] {
            Message::DieErr(e) => Some(e),
            _ => first_fatal(ms.drop_first()),
        }
    }
}

/// What the drain loop forwards to the progress callback: everything except
/// a fatal death and an interrupt, which only count toward completion.
pub open spec fn forwarded(m: Message) -> Option<Message> {
    match m {
        Message::DieErr(_) => None,
        Message::DieInterrupt => None,
        _ => Some(m),
    }
}

/// The orchestrator's view of a run while the event channel drains.
#[derive(Debug, Clone, PartialEq)]
pub struct DrainState {
    /// Number of workers submitted; the run ends after this many terminal
    /// events.
    pub job_size: usize,
    /// Terminal events received so far.
    pub finished: usize,
    /// The first fatal error, kept as the run's result; later fatal errors
    /// are dropped.
    pub first_error: Option<String>,
    /// Whether cooperative cancellation of all workers was requested.
    pub cancel: bool,
}

/// The drain state after one event: a fatal death requests cancellation,
/// keeps its error only if it came first, and counts; the other terminal
/// events only count; informational events change nothing.
pub open spec fn drain_stepped(st: DrainState, m: Message) -> DrainState {
    match m {
        Message::DieErr(e) => DrainState {
            finished: (st.finished + 1) as usize,
            first_error: if st.first_error is None {
                Some(e)
            } else {
                st.first_error
            },
            cancel: true,
            ..st
        },
        Message::DieResult(_) => DrainState { finished: (st.finished + 1) as usize, ..st },
        Message::DieInterrupt => DrainState { finished: (st.finished + 1) as usize, ..st },
        _ => st,
    }
}

/// The drain state after a whole sequence of events, oldest first.
pub open spec fn drained(st: DrainState, ms: Seq<Message>) -> DrainState
    decreases ms.len(),
{
    if ms.len() == 0 {
        st
    } else {
        drained(drain_stepped(st, ms[0]), ms.drop_first())
    }
}

impl DrainState {
    /// A fresh drain for a run of `job_size` submitted workers.
    pub fn new(job_size: usize) -> (st: DrainState)
        ensures
            st == (DrainState { job_size, finished: 0, first_error: None, cancel: false }),
    {
        DrainState { job_size, finished: 0, first_error: None, cancel: false }
    }

    /// Account one received event; what it returns is handed to the progress
    /// callback. The caller stops receiving once `drain_done` holds, so an
    /// event never arrives on a finished drain.
    pub fn drain_step(&mut self, msg: Message) -> (fwd: Option<Message>)
        requires
            old(self).finished < old(self).job_size,
        ensures
            *final(self) == drain_stepped(*old(self), msg),
            fwd == forwarded(msg),
    {
        match msg {
            Message::DieErr(e) => {
                self.cancel = true;
                self.finished = self.finished + 1;
                if self.first_error.is_none() {
                    self.first_error = Some(e);
                }
                None
            },
            Message::DieResult(g) => {
                self.finished = self.finished + 1;
                Some(Message::DieResult(g))
            },
            Message::DieInterrupt => {
                self.finished = self.finished + 1;
                None
            },
            other => Some(other),
        }
    }

    /// Whether every submitted worker has reported a terminal event.
    pub fn drain_done(&self) -> (b: bool)
        ensures
            b == (self.finished == self.job_size),
    {
        self.finished == self.job_size
    }

    /// The run's result: success if no worker died on an error, otherwise
    /// the first fatal error.
    pub fn drain_result(self) -> (r: Result<(), String>)
        ensures
            self.first_error matches Some(e) ==> r == Err::<(), String>(e),
            self.first_error is None ==> r == Ok::<(), String>(()),
    {
        match self.first_error {
            Some(e) => Err(e),
            None => Ok(()),
        }
    }
}

/// Terminal events are never negative in number.
pub proof fn lemma_count_terminals_nonneg(ms: Seq<Message>)
    ensures
        0 <= count_terminals(ms) <= ms.len(),
    decreases ms.len(),
{
    if ms.len() > 0 {
        lemma_count_terminals_nonneg(ms.drop_first());
    }
}

/// What a whole drain does, from any starting state: terminal events are
/// counted one for one, the earliest fatal error wins, and cancellation
/// stands from the first fatal event on.
pub proof fn lemma_drained(st: DrainState, ms: Seq<Message>)
    requires
        st.finished + count_terminals(ms) <= usize::MAX,
    ensures
        drained(st, ms).job_size == st.job_size,
        drained(st, ms).finished == st.finished + count_terminals(ms),
        drained(st, ms).first_error == if st.first_error is Some {
            st.first_error
        } else {
            first_fatal(ms)
        },
        drained(st, ms).cancel == (st.cancel || first_fatal(ms) is Some),
    decreases ms.len(),
{
    lemma_count_terminals_nonneg(ms);
    if ms.len() > 0 {
        lemma_count_terminals_nonneg(ms.drop_first());
        lemma_drained(drain_stepped(st, ms[0]), ms.drop_first());
    }
}

/// Fail-fast: when one worker dies on an error while the others are still
/// mid-loop, every sibling still reaches a terminal event; a drain that saw
/// exactly one terminal event per submitted worker is complete, returns the
/// first fatal error as the run's result, and requested cancellation the
/// moment that error arrived.
pub proof fn lemma_fail_fast(job_size: usize, ms: Seq<Message>)
    requires
        count_terminals(ms) == job_size,
    ensures
        ({
            let end = drained(
                DrainState { job_size, finished: 0, first_error: None, cancel: false },
                ms,
            );
            &&& end.finished == end.job_size
            &&& end.first_error == first_fatal(ms)
            &&& end.cancel == (first_fatal(ms) is Some)
        }),
{
    lemma_drained(DrainState { job_size, finished: 0, first_error: None, cancel: false }, ms);
}

/// The report is ready only when no game is left unstable: given that count
/// and the ranked list read from the store, hand the list back when the
/// count is zero and an empty list otherwise.
pub fn make_report(unstable_games: u32, games: Vec<Game>) -> (r: Vec<Game>)
    ensures
        unstable_games == 0 ==> r == games,
        unstable_games != 0 ==> r@.len() == 0,
{
    if unstable_games == 0 {
        games
    } else {
        Vec::new()
    }
}

} // verus!
