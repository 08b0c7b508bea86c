//! The session orchestrator's run loop as a state machine: it consumes
//! finalized records, keeps a per-origin tally, and decides when to drain,
//! signal cancellation, and finish. The runtime around it performs each
//! decided action (awaiting the channel, sleeping out the grace interval,
//! firing the one-shot cancellation, joining the engine task) and hands the
//! next event back.

use vstd::prelude::*;

verus! {

/// Where the session stands.
#[derive(Clone, Copy, Debug, PartialEq, Eq, Structural)]
pub enum SessionPhase {
    /// Consuming finalized records and tallying them.
    Running,
    /// Every tally has reached the target; peers get a fixed grace interval
    /// to converge.
    Draining,
    /// The one-shot cancellation signal is out; waiting for the engine task
    /// to exit.
    ShuttingDown,
    /// The engine task has been joined; the session is over.
    Done,
}

/// What the runtime must do next.
#[derive(Clone, Copy, Debug, PartialEq, Eq, Structural)]
pub enum SessionAction {
    /// Keep consuming finalized records.
    Proceed,
    /// Wait out the grace interval, then report `GraceElapsed`.
    BeginGrace,
    /// Fire the one-shot cancellation signal and join the engine task.
    SignalShutdown,
    /// The finalization stream closed before the expected volume was
    /// reached: an unrecoverable protocol violation, abort loudly.
    Abort,
    /// Terminate successfully.
    Finish,
}

/// What the runtime observed.
#[derive(Clone, Copy, Debug, PartialEq, Eq, Structural)]
pub enum SessionEvent {
    /// One finalized record arrived, originating at the given participant.
    Finalized(usize),
    /// The finalization stream closed.
    StreamClosed,
    /// The grace interval has passed.
    GraceElapsed,
    /// The engine task has exited and been joined.
    EngineJoined,
}

/// The orchestrator: session-wide configuration (participant count and the
/// per-participant target volume) plus the run loop's mutable state (the
/// per-origin tally, indexed by participant, and the current phase).
#[derive(Debug)]
pub struct SessionOrchestrator {
    pub count: usize,
    pub target: u32,
    pub tally: Vec<u32>,
    pub phase: SessionPhase,
}

impl SessionOrchestrator {
    /// One tally slot per participant.
    pub open spec fn wf(self) -> bool {
        self.tally@.len() == self.count
    }

    /// Every participant's tally has reached or passed the target volume.
    pub open spec fn all_reached(self) -> bool {
        forall|i: int| 0 <= i < self.tally@.len() ==> self.tally@[i] >= self.target
    }

    pub fn new(count: usize, target: u32) -> (r: SessionOrchestrator)
        ensures
            r.wf(),
            r.count == count,
            r.target == target,
            forall|i: int| 0 <= i < count ==> r.tally@[i] == 0,
            r.phase is Running,
    {
        let mut tally: Vec<u32> = Vec::new();
        let mut i: usize = 0;
        while i < count
            invariant
                0 <= i <= count,
                tally@.len() == i,
                forall|j: int| 0 <= j < i ==> tally@[j] == 0,
            decreases count - i,
        {
            tally.push(0);
            i += 1;
        }
        SessionOrchestrator { count, target, tally, phase: SessionPhase::Running }
    }

    /// The per-origin finalized counts, in ascending participant order.
    pub fn finalized_counts(&self) -> (r: Vec<u32>)
        ensures
            r@ == self.tally@,
    {
        vstd::slice::slice_to_vec(self.tally.as_slice())
    }

    /// True once every participant's tally has reached the target.
    pub fn all_counts_reached(&self) -> (r: bool)
        ensures
            r == self.all_reached(),
    {
        let mut i: usize = 0;
        while i < self.tally.len()
            invariant
                0 <= i <= self.tally@.len(),
                forall|j: int| 0 <= j < i ==> self.tally@[j] >= self.target,
            decreases self.tally@.len() - i,
        {
            if self.tally[i] < self.target {
                return false;
            }
            i += 1;
        }
        true
    }

    /// One step of the run loop: applies the observed event to the state
    /// and decides the next action.
    ///
    /// While running, a finalized record bumps its origin's tally; once
    /// every tally reaches the target the session drains, then shuts down
    /// once the grace interval has passed, and finishes once the engine
    /// task is joined. A stream that closes while records are still owed is
    /// a protocol violation and aborts.
    pub fn step(&mut self, event: SessionEvent) -> (action: SessionAction)
        requires
            old(self).wf(),
            event matches SessionEvent::Finalized(origin) ==> (old(self).phase is Running && origin
                < old(self).count && old(self).tally@[origin as int] < u32::MAX),
            event is StreamClosed ==> old(self).phase is Running,
            event is GraceElapsed ==> old(self).phase is Draining,
            event is EngineJoined ==> old(self).phase is ShuttingDown,
        ensures
            final(self).wf(),
            final(self).count == old(self).count,
            final(self).target == old(self).target,
            event matches SessionEvent::Finalized(origin) ==> {
                &&& final(self).tally@ == old(self).tally@.update(
                    origin as int,
                    (old(self).tally@[origin as int] + 1) as u32,
                )
                &&& final(self).phase == (if final(self).all_reached() {
                    SessionPhase::Draining
                } else {
                    SessionPhase::Running
                })
                &&& action == (if final(self).all_reached() {
                    SessionAction::BeginGrace
                } else {
                    SessionAction::Proceed
                })
            },
            event is StreamClosed ==> action is Abort && final(self).tally@ == old(self).tally@
                && final(self).phase == old(self).phase,
            event is GraceElapsed ==> action is SignalShutdown && final(self).tally@ == old(
                self,
            ).tally@ && final(self).phase is ShuttingDown,
            event is EngineJoined ==> action is Finish && final(self).tally@ == old(self).tally@
                && final(self).phase is Done,
    {
        match event {
            SessionEvent::Finalized(origin) => {
                let bumped = self.tally[origin] + 1;
                self.tally.set(origin, bumped);
                if self.all_counts_reached() {
                    self.phase = SessionPhase::Draining;
                    SessionAction::BeginGrace
                } else {
                    SessionAction::Proceed
                }
            },
            SessionEvent::StreamClosed => SessionAction::Abort,
            SessionEvent::GraceElapsed => {
                self.phase = SessionPhase::ShuttingDown;
                SessionAction::SignalShutdown
            },
            SessionEvent::EngineJoined => {
                self.phase = SessionPhase::Done;
                SessionAction::Finish
            },
        }
    }
}

} // verus!
