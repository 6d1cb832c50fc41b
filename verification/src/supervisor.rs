//! The process supervisor's state machine. The launched process's two
//! output streams and its exit are raced by the I/O driver; every won
//! race is handed here as one event. The first line from either stream
//! that carries the readiness marker fires the readiness signal, exactly
//! once; an exit before that reports the code, with a sentinel for
//! signal termination.

use vstd::prelude::*;
use crate::strutil::{contains_substr, has_substring};

verus! {

/// What the race produced: a line from one of the two streams, or the
/// process's exit with its code when it had one.
pub enum ProcessEvent {
    StdoutLine(String),
    StderrLine(String),
    Exited(Option<i32>),
}

/// Where the supervision stands.
#[derive(Clone, Copy, Debug, PartialEq, Eq, Structural)]
pub enum SupervisorStatus {
    /// Still racing lines against exit.
    Running,
    /// The readiness marker has been seen.
    ReadyDetected,
    /// The process exited before the marker was ever seen.
    ExitedWithoutReady { code: i32 },
}

/// What one step tells the caller: keep racing, readiness just fired, or
/// the process is gone.
#[derive(Clone, Copy, Debug, PartialEq, Eq, Structural)]
pub enum StepOutcome {
    Continue,
    Ready,
    Exit { code: i32 },
}

/// The readiness marker in the launched process's log output.
pub open spec fn spec_ready_marker() -> Seq<char> {
    "Sound engine started"@
}

/// The line an event carries, if it carries one.
pub open spec fn spec_event_line(e: ProcessEvent) -> Option<Seq<char>> {
    match e {
        ProcessEvent::StdoutLine(l) => Some(l@),
        ProcessEvent::StderrLine(l) => Some(l@),
        ProcessEvent::Exited(_) => None,
    }
}

/// An exit code, with a sentinel distinct from any real code for signal
/// termination.
pub open spec fn spec_exit_code(c: Option<i32>) -> int {
    match c {
        Some(x) => x as int,
        None => -1,
    }
}

/// One transition of the supervisor: while running, a marker line fires
/// readiness and an exit ends the run; after either, further events only
/// drain.
pub open spec fn spec_step(st: SupervisorStatus, e: ProcessEvent) -> (SupervisorStatus, StepOutcome) {
    match st {
        SupervisorStatus::Running => match spec_event_line(e) {
            Some(l) => if has_substring(l, spec_ready_marker()) {
                (SupervisorStatus::ReadyDetected, StepOutcome::Ready)
            } else {
                (SupervisorStatus::Running, StepOutcome::Continue)
            },
            None => {
                let code = spec_exit_code(e->Exited_0) as i32;
                (
                    SupervisorStatus::ExitedWithoutReady { code },
                    StepOutcome::Exit { code },
                )
            },
        },
        _ => (st, StepOutcome::Continue),
    }
}

/// Supervises one launched process.
pub struct Supervisor {
    pub status: SupervisorStatus,
}

impl Supervisor {
    /// A supervisor for a process that was just spawned.
    pub fn new() -> (r: Supervisor)
        ensures
            r.status == SupervisorStatus::Running,
    {
        Supervisor { status: SupervisorStatus::Running }
    }

    /// Whether the race should go on.
    pub fn should_continue(&self) -> (r: bool)
        ensures
            r == (self.status == SupervisorStatus::Running),
    {
        match self.status {
            SupervisorStatus::Running => true,
            _ => false,
        }
    }

    /// Consumes one event, as `spec_step` states. Every line is forwarded
    /// by the driver as it arrives; this only decides the state.
    pub fn step(&mut self, event: &ProcessEvent) -> (sig: StepOutcome)
        ensures
            final(self).status == spec_step(old(self).status, *event).0,
            sig == spec_step(old(self).status, *event).1,
    {
        match self.status {
            SupervisorStatus::Running => match event {
                ProcessEvent::StdoutLine(l) => {
                    if contains_substr(l.as_str(), "Sound engine started") {
                        self.status = SupervisorStatus::ReadyDetected;
                        StepOutcome::Ready
                    } else {
                        StepOutcome::Continue
                    }
                },
                ProcessEvent::StderrLine(l) => {
                    if contains_substr(l.as_str(), "Sound engine started") {
                        self.status = SupervisorStatus::ReadyDetected;
                        StepOutcome::Ready
                    } else {
                        StepOutcome::Continue
                    }
                },
                ProcessEvent::Exited(code) => {
                    let c: i32 = match code {
                        Some(x) => *x,
                        None => -1,
                    };
                    self.status = SupervisorStatus::ExitedWithoutReady { code: c };
                    StepOutcome::Exit { code: c }
                },
            },
            _ => StepOutcome::Continue,
        }
    }
}

/// The status after a whole event sequence.
pub open spec fn spec_run(st: SupervisorStatus, events: Seq<ProcessEvent>) -> SupervisorStatus
    decreases events.len(),
{
    if events.len() == 0 {
        st
    } else {
        spec_run(spec_step(st, events[0]).0, events.drop_first())
    }
}

/// How many readiness signals a whole event sequence fires.
pub open spec fn spec_ready_count(st: SupervisorStatus, events: Seq<ProcessEvent>) -> int
    decreases events.len(),
{
    if events.len() == 0 {
        0
    } else {
        (if spec_step(st, events[0]).1 == StepOutcome::Ready {
            1int
        } else {
            0int
        }) + spec_ready_count(spec_step(st, events[0]).0, events.drop_first())
    }
}

/// Once the supervisor has left the running state it never signals
/// readiness again.
pub proof fn lemma_no_ready_after(st: SupervisorStatus, events: Seq<ProcessEvent>)
    requires
        st != SupervisorStatus::Running,
    ensures
        spec_ready_count(st, events) == 0,
    decreases events.len(),
{
    if events.len() > 0 {
        lemma_no_ready_after(st, events.drop_first());
    }
}

/// The readiness signal fires at most once, whatever events the race
/// produces and however the two streams interleave.
pub proof fn lemma_ready_fires_at_most_once(st: SupervisorStatus, events: Seq<ProcessEvent>)
    ensures
        spec_ready_count(st, events) <= 1,
    decreases events.len(),
{
    if events.len() > 0 {
        let (st2, sig) = spec_step(st, events[0]);
        if sig == StepOutcome::Ready {
            lemma_no_ready_after(st2, events.drop_first());
        } else {
            lemma_ready_fires_at_most_once(st2, events.drop_first());
        }
    }
}

} // verus!
