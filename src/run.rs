use vstd::prelude::*;

verus! {

/// Where a sync run stands.
#[derive(Debug, Clone, Copy, PartialEq, Eq, Structural)]
pub enum RunPhase {
    Uninitialized,
    /// The starting state is being loaded from a snapshot or genesis.
    Resuming,
    /// The integrity digest of the starting state is being computed.
    Hashing,
    /// Reader and processor are running.
    Streaming,
    /// The reader has closed the queue; the processor finishes what is queued.
    Draining,
    Completed,
    Failed,
}

/// What happened to a run.
#[derive(Debug, Clone, Copy, PartialEq, Eq, Structural)]
pub enum RunEvent {
    Started,
    StateLoaded,
    DigestReported,
    ReaderFinished,
    ProcessorFinished,
    Fault,
}

/// Whether a run in `phase` has ended.
pub open spec fn is_terminal(phase: RunPhase) -> bool {
    phase == RunPhase::Completed || phase == RunPhase::Failed
}

/// The phase a run moves to on `event`, or `None` where the event cannot happen.
pub open spec fn spec_next_phase(phase: RunPhase, event: RunEvent) -> Option<RunPhase> {
    if is_terminal(phase) {
        None
    } else if event == RunEvent::Fault {
        Some(RunPhase::Failed)
    } else {
        match (phase, event) {
            (RunPhase::Uninitialized, RunEvent::Started) => Some(RunPhase::Resuming),
            (RunPhase::Resuming, RunEvent::StateLoaded) => Some(RunPhase::Hashing),
            (RunPhase::Hashing, RunEvent::DigestReported) => Some(RunPhase::Streaming),
            (RunPhase::Streaming, RunEvent::ReaderFinished) => Some(RunPhase::Draining),
            (RunPhase::Draining, RunEvent::ProcessorFinished) => Some(RunPhase::Completed),
            _ => None,
        }
    }
}

/// Advances a run on `event`; a fault ends any unfinished run as failed, and
/// an ended run takes no more events.
pub fn next_phase(phase: RunPhase, event: RunEvent) -> (r: Option<RunPhase>)
    ensures
        r == spec_next_phase(phase, event),
{
    if phase == RunPhase::Completed || phase == RunPhase::Failed {
        return None;
    }
    if event == RunEvent::Fault {
        return Some(RunPhase::Failed);
    }
    match (phase, event) {
        (RunPhase::Uninitialized, RunEvent::Started) => Some(RunPhase::Resuming),
        (RunPhase::Resuming, RunEvent::StateLoaded) => Some(RunPhase::Hashing),
        (RunPhase::Hashing, RunEvent::DigestReported) => Some(RunPhase::Streaming),
        (RunPhase::Streaming, RunEvent::ReaderFinished) => Some(RunPhase::Draining),
        (RunPhase::Draining, RunEvent::ProcessorFinished) => Some(RunPhase::Completed),
        _ => None,
    }
}

} // verus!
