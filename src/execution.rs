//! The execution loop's decisions. The loop owns the device; it waits for
//! an envelope, runs that one job to its end, records how it ended and waits
//! again, until the submission channel is closed and drained. The caller
//! performs each action and reports back what happened, as an event.
use vstd::prelude::*;

use crate::channels::JobOutcome;

verus! {

/// Where the loop stands.
#[derive(Debug, Clone, Copy, PartialEq, Eq, Structural)]
pub enum Phase {
    /// Waiting for the next envelope.
    Idle,
    /// One job holds the device.
    Executing,
    /// The channel is closed and drained; the loop has returned.
    Stopped,
}

/// What the caller observed.
#[derive(Debug, Clone, Copy, PartialEq, Eq, Structural)]
pub enum LoopEvent {
    /// The channel handed over the next envelope.
    Received,
    /// The channel is closed and holds nothing more.
    ChannelClosed,
    /// The current job has ended, in this way.
    Finished(JobOutcome),
}

/// What the caller does next.
#[derive(Debug, Clone, Copy, PartialEq, Eq, Structural)]
pub enum LoopAction {
    /// Run the envelope just received, to its end. The ticket counts the
    /// jobs started before it.
    Run { ticket: u64 },
    /// Wait for the next envelope.
    AwaitNext,
    /// Return from the loop and release the device.
    Exit,
    /// The event does not fit the phase; nothing changed.
    Ignore,
}

/// The execution loop's state: its phase and how many jobs it has started
/// and seen end in each way.
#[derive(Debug, Clone, Copy, PartialEq, Eq, Structural)]
pub struct ExecutionLoop {
    pub phase: Phase,
    pub started: u64,
    pub delivered: u64,
    pub abandoned: u64,
    pub failed: u64,
}

/// One more, stopping at the largest `u64`.
pub open spec fn bump(n: u64) -> u64 {
    if n < u64::MAX {
        (n + 1) as u64
    } else {
        n
    }
}

/// A loop that has not yet received anything.
pub open spec fn initial() -> ExecutionLoop {
    ExecutionLoop { phase: Phase::Idle, started: 0, delivered: 0, abandoned: 0, failed: 0 }
}

/// The state after the current job ended with `outcome`.
pub open spec fn record(s: ExecutionLoop, outcome: JobOutcome) -> ExecutionLoop {
    match outcome {
        JobOutcome::Delivered => ExecutionLoop {
            phase: Phase::Idle,
            delivered: bump(s.delivered),
            ..s
        },
        JobOutcome::ReceiverGone => ExecutionLoop {
            phase: Phase::Idle,
            abandoned: bump(s.abandoned),
            ..s
        },
        JobOutcome::Failed(_) => ExecutionLoop { phase: Phase::Idle, failed: bump(s.failed), ..s },
    }
}

/// The loop's transition on one event, and the action it asks for.
pub open spec fn next(s: ExecutionLoop, ev: LoopEvent) -> (ExecutionLoop, LoopAction) {
    match ev {
        LoopEvent::Received => if s.phase == Phase::Idle {
            (
                ExecutionLoop { phase: Phase::Executing, started: bump(s.started), ..s },
                LoopAction::Run { ticket: s.started },
            )
        } else {
            (s, LoopAction::Ignore)
        },
        LoopEvent::ChannelClosed => if s.phase == Phase::Idle {
            (ExecutionLoop { phase: Phase::Stopped, ..s }, LoopAction::Exit)
        } else {
            (s, LoopAction::Ignore)
        },
        LoopEvent::Finished(outcome) => if s.phase == Phase::Executing {
            (record(s, outcome), LoopAction::AwaitNext)
        } else {
            (s, LoopAction::Ignore)
        },
    }
}

fn saturating_bump(n: u64) -> (r: u64)
    ensures
        r == bump(n),
{
    if n < u64::MAX {
        n + 1
    } else {
        n
    }
}

impl ExecutionLoop {
    /// A loop waiting for its first envelope.
    pub fn new() -> (r: Self)
        ensures
            r == initial(),
    {
        ExecutionLoop { phase: Phase::Idle, started: 0, delivered: 0, abandoned: 0, failed: 0 }
    }

    /// Takes one event and returns the next action.
    pub fn step(&mut self, ev: LoopEvent) -> (a: LoopAction)
        ensures
            (*final(self), a) == next(*old(self), ev),
    {
        match ev {
            LoopEvent::Received => {
                if self.phase == Phase::Idle {
                    let ticket = self.started;
                    self.phase = Phase::Executing;
                    self.started = saturating_bump(self.started);
                    LoopAction::Run { ticket }
                } else {
                    LoopAction::Ignore
                }
            },
            LoopEvent::ChannelClosed => {
                if self.phase == Phase::Idle {
                    self.phase = Phase::Stopped;
                    LoopAction::Exit
                } else {
                    LoopAction::Ignore
                }
            },
            LoopEvent::Finished(outcome) => {
                if self.phase == Phase::Executing {
                    self.phase = Phase::Idle;
                    match outcome {
                        JobOutcome::Delivered => {
                            self.delivered = saturating_bump(self.delivered);
                        },
                        JobOutcome::ReceiverGone => {
                            self.abandoned = saturating_bump(self.abandoned);
                        },
                        JobOutcome::Failed(_) => {
                            self.failed = saturating_bump(self.failed);
                        },
                    }
                    LoopAction::AwaitNext
                } else {
                    LoopAction::Ignore
                }
            },
        }
    }
}

/// Runs the loop from `s` over `evs`: the final state and the actions asked
/// for, one per event.
pub open spec fn run(s: ExecutionLoop, evs: Seq<LoopEvent>) -> (ExecutionLoop, Seq<LoopAction>)
    decreases evs.len(),
{
    if evs.len() == 0 {
        (s, Seq::empty())
    } else {
        let (s1, a) = next(s, evs[0]);
        let (sn, acts) = run(s1, evs.subrange(1, evs.len() as int));
        (sn, seq![a] + acts)
    }
}

/// The tickets of the jobs started by `acts`, in the order they started.
pub open spec fn started_tickets(acts: Seq<LoopAction>) -> Seq<u64>
    decreases acts.len(),
{
    if acts.len() == 0 {
        Seq::empty()
    } else {
        let rest = started_tickets(acts.subrange(1, acts.len() as int));
        match acts[0] {
            LoopAction::Run { ticket } => seq![ticket] + rest,
            _ => rest,
        }
    }
}

/// Every job the loop started has ended exactly once, except the one it is
/// running now.
pub open spec fn accounted(s: ExecutionLoop) -> bool {
    s.delivered + s.abandoned + s.failed + (if s.phase == Phase::Executing {
        1int
    } else {
        0int
    }) == s.started
}

/// Jobs start in the order the loop receives them: from a fresh loop, the
/// started tickets are 0, 1, 2, ... with no gap and no repeat, one per
/// job started.
pub proof fn lemma_jobs_start_in_order(evs: Seq<LoopEvent>)
    requires
        evs.len() < u64::MAX,
    ensures
        ({
            let (s, acts) = run(initial(), evs);
            &&& started_tickets(acts).len() == s.started
            &&& forall|i: int|
                0 <= i < started_tickets(acts).len() ==> started_tickets(acts)[i] == i
        }),
{
    lemma_tickets_count_up(initial(), evs);
}

proof fn lemma_tickets_count_up(s: ExecutionLoop, evs: Seq<LoopEvent>)
    requires
        s.started + evs.len() <= u64::MAX,
    ensures
        ({
            let (sn, acts) = run(s, evs);
            &&& s.started <= sn.started <= s.started + evs.len()
            &&& started_tickets(acts).len() == sn.started - s.started
            &&& forall|i: int|
                0 <= i < started_tickets(acts).len() ==> started_tickets(acts)[i] == s.started + i
        }),
    decreases evs.len(),
{
    if evs.len() > 0 {
        let (s1, a) = next(s, evs[0]);
        let rest = evs.subrange(1, evs.len() as int);
        lemma_tickets_count_up(s1, rest);
        let (sn, acts) = run(s, evs);
        let (_, tail) = run(s1, rest);
        assert(acts == seq![a] + tail);
        assert(acts.subrange(1, acts.len() as int) =~= tail);
    }
}

/// A job that arrives while another holds the device does not start: the
/// running job is never preempted.
pub proof fn lemma_no_preemption(s: ExecutionLoop)
    requires
        s.phase == Phase::Executing,
    ensures
        next(s, LoopEvent::Received) == (s, LoopAction::Ignore),
{
}

/// A failed job touches only its own producer: the loop records the
/// failure, goes back to waiting, and starts the next job it receives.
pub proof fn lemma_failure_is_local(s: ExecutionLoop, e: crate::channels::JobError)
    requires
        s.phase == Phase::Executing,
    ensures
        ({
            let (s1, a1) = next(s, LoopEvent::Finished(JobOutcome::Failed(e)));
            &&& a1 == LoopAction::AwaitNext
            &&& s1.phase == Phase::Idle
            &&& s1.failed == bump(s.failed)
            &&& s1.delivered == s.delivered
            &&& s1.abandoned == s.abandoned
            &&& next(s1, LoopEvent::Received).1 == LoopAction::Run { ticket: s.started }
        }),
{
}

/// A result whose producer stopped waiting is discarded: the loop counts
/// it, goes back to waiting, and starts the next job it receives.
pub proof fn lemma_abandoned_result_is_discarded(s: ExecutionLoop)
    requires
        s.phase == Phase::Executing,
    ensures
        ({
            let (s1, a1) = next(s, LoopEvent::Finished(JobOutcome::ReceiverGone));
            &&& a1 == LoopAction::AwaitNext
            &&& s1.phase == Phase::Idle
            &&& s1.abandoned == bump(s.abandoned)
            &&& s1.delivered == s.delivered
            &&& s1.failed == s.failed
            &&& next(s1, LoopEvent::Received).1 == LoopAction::Run { ticket: s.started }
        }),
{
}

/// Each started job ends exactly once, whatever its outcome: every step
/// keeps the count of ended jobs, plus the running one, equal to the count
/// of started jobs.
pub proof fn lemma_every_job_ends_once(s: ExecutionLoop, ev: LoopEvent)
    requires
        accounted(s),
        s.started < u64::MAX,
    ensures
        accounted(next(s, ev).0),
{
}

/// The loop only stops when the channel is closed while it is waiting, and
/// once stopped it stays stopped and starts nothing.
pub proof fn lemma_stop_is_final(s: ExecutionLoop, ev: LoopEvent)
    ensures
        next(s, ev).1 == LoopAction::Exit <==> (s.phase == Phase::Idle && ev
            == LoopEvent::ChannelClosed),
        s.phase == Phase::Stopped ==> next(s, ev) == (s, LoopAction::Ignore),
{
}

} // verus!
