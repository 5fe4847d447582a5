//! The queue between the terminal reader and the main loop.
//!
//! A reader, on its own thread, feeds each result of a blocking read into an
//! `Input`; the main loop polls it without blocking. Events come out in the
//! order they went in, and once the terminal stream has ended and the queue is
//! drained, every poll reports that the input is disconnected.

use vstd::prelude::*;
use std::collections::VecDeque;
use crate::event::Event;

verus! {

/// Why a poll returned no event.
#[derive(Clone, Copy, Debug, PartialEq, Eq, Structural)]
pub enum TryRecvError {
    /// Nothing is queued now; more may come.
    Empty,
    /// Nothing is queued and the terminal stream has ended: nothing will come.
    Disconnected,
}

/// Where an `Input` stands in its life.
#[derive(Clone, Copy, Debug, PartialEq, Eq, Structural)]
pub enum Phase {
    /// Created; no reader yet.
    Constructed,
    /// A reader has been started and its stream is open.
    Running,
    /// The reader's stream has ended.
    Ended,
}

/// The result of one blocking read of the terminal.
#[derive(Clone, Copy, Debug, PartialEq, Eq, Structural)]
pub enum Read {
    /// A decoded event.
    Event(Event),
    /// A frame that could not be read or decoded.
    Failure,
    /// The stream has ended.
    End,
}

/// The abstract state of an `Input`: the queued events, oldest first, and the
/// phase.
pub struct InputView {
    pub pending: Seq<Event>,
    pub phase: Phase,
}

/// The queue between the terminal reader and the main loop.
pub struct Input {
    pending: VecDeque<Event>,
    phase: Phase,
}

impl View for Input {
    type V = InputView;

    closed spec fn view(&self) -> InputView {
        InputView { pending: self.pending@, phase: self.phase }
    }
}

/// The state after the reader queues `e`.
pub open spec fn produce_state(s: InputView, e: Event) -> InputView {
    InputView { pending: s.pending.push(e), ..s }
}

/// What a poll returns: the oldest queued event; or, with nothing queued,
/// `Disconnected` once the stream has ended and `Empty` before.
pub open spec fn recv_result(s: InputView) -> Result<Event, TryRecvError> {
    if s.pending.len() > 0 {
        Ok(s.pending[0])
    } else if s.phase == Phase::Ended {
        Err(TryRecvError::Disconnected)
    } else {
        Err(TryRecvError::Empty)
    }
}

/// The state after a poll: the oldest queued event, if any, is gone.
pub open spec fn recv_state(s: InputView) -> InputView {
    if s.pending.len() > 0 {
        InputView { pending: s.pending.drop_first(), ..s }
    } else {
        s
    }
}

/// One step of a run of the queue: the reader queues an event, or the main
/// loop polls once.
pub enum Step {
    Produce(Event),
    Poll,
}

/// The state after one step.
pub open spec fn step_state(s: InputView, step: Step) -> InputView {
    match step {
        Step::Produce(e) => produce_state(s, e),
        Step::Poll => recv_state(s),
    }
}

/// The state after a run of steps, taken in order.
pub open spec fn run_state(s: InputView, steps: Seq<Step>) -> InputView
    decreases steps.len(),
{
    if steps.len() == 0 {
        s
    } else {
        step_state(run_state(s, steps.drop_last()), steps.last())
    }
}

/// The events that the reader queues in a run of steps, in order.
pub open spec fn produced(steps: Seq<Step>) -> Seq<Event>
    decreases steps.len(),
{
    if steps.len() == 0 {
        Seq::empty()
    } else {
        match steps.last() {
            Step::Produce(e) => produced(steps.drop_last()).push(e),
            Step::Poll => produced(steps.drop_last()),
        }
    }
}

/// The events that the polls of a run of steps return, in order.
pub open spec fn polled(s: InputView, steps: Seq<Step>) -> Seq<Event>
    decreases steps.len(),
{
    if steps.len() == 0 {
        Seq::empty()
    } else {
        let before = run_state(s, steps.drop_last());
        match steps.last() {
            Step::Poll => match recv_result(before) {
                Ok(e) => polled(s, steps.drop_last()).push(e),
                Err(_) => polled(s, steps.drop_last()),
            },
            Step::Produce(_) => polled(s, steps.drop_last()),
        }
    }
}

/// The state after `n` polls.
pub open spec fn polls(s: InputView, n: nat) -> InputView
    decreases n,
{
    if n == 0 {
        s
    } else {
        recv_state(polls(s, (n - 1) as nat))
    }
}

/// Delivery is first in, first out, however polls and reads interleave: what
/// the polls have returned, followed by what is still queued, is what was
/// queued at the start followed by what the reader queued, with nothing lost,
/// reordered or repeated.
pub proof fn lemma_fifo(s: InputView, steps: Seq<Step>)
    ensures
        polled(s, steps) + run_state(s, steps).pending == s.pending + produced(steps),
    decreases steps.len(),
{
    if steps.len() > 0 {
        let prev = steps.drop_last();
        lemma_fifo(s, prev);
        let t = run_state(s, prev);
        match steps.last() {
            Step::Produce(e) => {
                assert(polled(s, steps) + run_state(s, steps).pending
                    =~= (polled(s, prev) + t.pending).push(e));
                assert(s.pending + produced(steps) =~= (s.pending + produced(prev)).push(e));
            },
            Step::Poll => {
                assert(polled(s, steps) + run_state(s, steps).pending
                    =~= polled(s, prev) + t.pending);
            },
        }
    }
}

/// Events that the reader queues after the main loop has drained the queue
/// come out in the order they were queued, once polled often enough.
pub proof fn lemma_fifo_from_empty(s: InputView, steps: Seq<Step>)
    requires
        s.pending.len() == 0,
        run_state(s, steps).pending.len() == 0,
    ensures
        polled(s, steps) == produced(steps),
{
    lemma_fifo(s, steps);
    assert(polled(s, steps) =~= polled(s, steps) + run_state(s, steps).pending);
    assert(produced(steps) =~= s.pending + produced(steps));
}

/// Once the stream has ended, a poll never reports `Empty`; and once the queue
/// is also drained, every later poll reports `Disconnected` and changes
/// nothing.
pub proof fn lemma_disconnected_after_end(s: InputView, n: nat)
    requires
        s.phase == Phase::Ended,
    ensures
        recv_result(s) != Err::<Event, TryRecvError>(TryRecvError::Empty),
        s.pending.len() == 0 ==> polls(s, n) == s && recv_result(polls(s, n)) == Err::<
            Event,
            TryRecvError,
        >(TryRecvError::Disconnected),
    decreases n,
{
    if n > 0 {
        lemma_disconnected_after_end(s, (n - 1) as nat);
    }
}

impl Input {
    /// An empty queue with no reader.
    pub fn new() -> (r: Input)
        ensures
            r@.pending == Seq::<Event>::empty(),
            r@.phase == Phase::Constructed,
    {
        Input { pending: VecDeque::new(), phase: Phase::Constructed }
    }

    /// The current phase.
    pub fn phase(&self) -> (r: Phase)
        ensures
            r == self@.phase,
    {
        self.phase
    }

    /// Marks the start of the reader. Called once, before the first `feed`.
    pub fn run(&mut self)
        requires
            old(self)@.phase == Phase::Constructed,
        ensures
            final(self)@.pending == old(self)@.pending,
            final(self)@.phase == Phase::Running,
    {
        self.phase = Phase::Running;
    }

    /// Takes the result of one read of the reader: an event is queued, a
    /// failed read is dropped, and the end of the stream closes the input.
    /// Returns whether the reader goes on reading.
    pub fn feed(&mut self, read: Read) -> (more: bool)
        requires
            old(self)@.phase == Phase::Running,
        ensures
            match read {
                Read::Event(e) => final(self)@ == produce_state(old(self)@, e) && more,
                Read::Failure => final(self)@ == old(self)@ && more,
                Read::End => {
                    &&& final(self)@.pending == old(self)@.pending
                    &&& final(self)@.phase == Phase::Ended
                    &&& !more
                },
            },
    {
        match read {
            Read::Event(e) => {
                self.pending.push_back(e);
                true
            },
            Read::Failure => true,
            Read::End => {
                self.phase = Phase::Ended;
                false
            },
        }
    }

    /// Takes the oldest queued event without waiting.
    pub fn try_recv(&mut self) -> (r: Result<Event, TryRecvError>)
        ensures
            r == recv_result(old(self)@),
            final(self)@ == recv_state(old(self)@),
    {
        match self.pending.pop_front() {
            Some(e) => Ok(e),
            None => {
                if self.phase == Phase::Ended {
                    Err(TryRecvError::Disconnected)
                } else {
                    Err(TryRecvError::Empty)
                }
            },
        }
    }
}

} // verus!
