use vstd::prelude::*;

use crate::service::ServiceTypes;

verus! {

/// The command line: where the configuration lies, and whether to run one
/// cycle only.
pub struct Args {
    pub config: String,
    pub once: bool,
}

/// The configuration: seconds between cycles, the address of the IP echo
/// service, and the services to keep up to date, in order.
pub struct Config {
    pub interval: u64,
    pub ip_webservice: String,
    pub services: Vec<ServiceTypes>,
}

/// How a poll cycle ended.
#[derive(PartialEq, Eq, Structural, Clone, Copy, Debug)]
pub enum CycleOutcome {
    /// Every service was updated or found current.
    Completed,
    /// Neither address family could be resolved; no service was attempted.
    ResolutionFailed,
    /// A service's update failed; the services after it were not attempted.
    ServiceFailed,
}

#[derive(PartialEq, Eq, Structural, Clone, Copy, Debug)]
pub enum PollState {
    Polling,
    Stopped,
}

/// What the loop does once a cycle has ended.
#[derive(PartialEq, Eq, Structural, Clone, Copy, Debug)]
pub enum PollAction {
    /// Wait this many seconds, then run the next cycle.
    Sleep(u64),
    /// Stop cleanly.
    Stop,
    /// Stop, reporting that the last cycle failed.
    Fail,
}

/// The action that ends a cycle: a one-shot run stops (failing if the cycle
/// did), a continuous run sleeps for the interval whatever the outcome, since
/// the next cycle is the retry.
pub open spec fn action_after(once: bool, interval: u64, outcome: CycleOutcome) -> PollAction {
    if once {
        if outcome == CycleOutcome::Completed {
            PollAction::Stop
        } else {
            PollAction::Fail
        }
    } else {
        PollAction::Sleep(interval)
    }
}

/// The poll loop's decisions, apart from the work of each cycle.
pub struct PollLoop {
    pub once: bool,
    pub interval: u64,
    pub state: PollState,
}

impl PollLoop {
    pub fn new(once: bool, interval: u64) -> (r: PollLoop)
        ensures
            r.once == once,
            r.interval == interval,
            r.state == PollState::Polling,
    {
        PollLoop { once, interval, state: PollState::Polling }
    }

    /// Whether another cycle is to run.
    pub fn is_polling(&self) -> (r: bool)
        ensures
            r == (self.state == PollState::Polling),
    {
        self.state == PollState::Polling
    }

    /// Ends a cycle: a one-shot loop moves to `Stopped`, a continuous one keeps
    /// polling; the returned action says what to do next.
    pub fn after_cycle(&mut self, outcome: CycleOutcome) -> (r: PollAction)
        requires
            old(self).state == PollState::Polling,
        ensures
            r == action_after(old(self).once, old(self).interval, outcome),
            final(self).once == old(self).once,
            final(self).interval == old(self).interval,
            final(self).state == (if old(self).once {
                PollState::Stopped
            } else {
                PollState::Polling
            }),
    {
        if self.once {
            self.state = PollState::Stopped;
            if outcome == CycleOutcome::Completed {
                PollAction::Stop
            } else {
                PollAction::Fail
            }
        } else {
            PollAction::Sleep(self.interval)
        }
    }
}

} // verus!
