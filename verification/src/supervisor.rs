use vstd::prelude::*;
use crate::protocol::Command;
use crate::protocol::Response;

verus! {

/// The supervisor's belief about whether the backing service is running: a
/// cached, possibly stale reflection of reality, owned by the serve loop
/// alone and reconciled against `is_up` whenever a transition is ambiguous.
#[derive(Clone, Copy, Debug, PartialEq, Eq, Structural)]
pub enum ServiceState {
    Running,
    Stopped,
}

/// A blocking call the supervisor asks its collaborator, the external
/// orchestration tool, to perform. Each is all-or-nothing and reports
/// success or failure; `IsUp` reports whether the service is running.
#[derive(Clone, Copy, Debug, PartialEq, Eq, Structural)]
pub enum CollabCall {
    IsUp,
    BringUp,
    BringDown,
}

/// What a finished command handler hands back: the reconciled belief, the
/// one reply owed to the client, and whether the serve loop must end.
#[derive(Clone, Copy, Debug, PartialEq, Eq, Structural)]
pub struct Outcome {
    pub belief: ServiceState,
    pub reply: Response,
    pub quit: bool,
}

/// One step of a command handler: either a collaborator call whose result
/// the handler needs next, or the handler's finished outcome. The caller
/// performs the call and feeds the result back through `Supervisor::resume`.
#[derive(Clone, Copy, Debug, PartialEq, Eq, Structural)]
pub enum Step {
    Ask(CollabCall),
    Done(Outcome),
}

/// The belief that a fresh reading of reality dictates.
pub open spec fn belief_of(up: bool) -> ServiceState {
    if up {
        ServiceState::Running
    } else {
        ServiceState::Stopped
    }
}

/// The reply that reports a belief.
pub open spec fn reply_of(b: ServiceState) -> Response {
    match b {
        ServiceState::Running => Response::Running,
        ServiceState::Stopped => Response::Stopped,
    }
}

/// A handler that finished by resyncing belief to the reading `up`.
pub open spec fn resynced(up: bool) -> Step {
    Step::Done(
        Outcome { belief: belief_of(up), reply: reply_of(belief_of(up)), quit: false },
    )
}

/// The outcome of `quit`: belief forced to `Stopped`, the reply `stopped`
/// owed to the client whatever the teardown reported, and the loop ended.
pub open spec fn quit_outcome() -> Outcome {
    Outcome { belief: ServiceState::Stopped, reply: Response::Stopped, quit: true }
}

/// The first step of handling a command, from the current belief.
///
/// `status` and `quit` begin with a reality check; `start` acts only when the
/// service is believed stopped, otherwise it resyncs; `toggle` reverses the
/// believed state; an unrecognized command finishes at once with `error` and
/// touches neither the belief nor the collaborator.
pub open spec fn spec_first_step(cmd: Command, belief: ServiceState) -> Step {
    match cmd {
        Command::Status => Step::Ask(CollabCall::IsUp),
        Command::Start => match belief {
            ServiceState::Stopped => Step::Ask(CollabCall::BringUp),
            ServiceState::Running => Step::Ask(CollabCall::IsUp),
        },
        Command::Toggle => match belief {
            ServiceState::Running => Step::Ask(CollabCall::BringDown),
            ServiceState::Stopped => Step::Ask(CollabCall::BringUp),
        },
        Command::Quit => Step::Ask(CollabCall::IsUp),
        Command::Unrecognized => Step::Done(
            Outcome { belief, reply: Response::Error, quit: false },
        ),
    }
}

/// The step that follows a collaborator call's result.
///
/// For `status`, `start` and `toggle`: a reality check settles the belief; a
/// transition that reported success is trusted; one that reported failure is
/// followed by a resync, because the underlying effect may have partially
/// succeeded anyway. For `quit`: a service found up is brought down, and the
/// handler finishes with `quit_outcome` whatever that teardown reported.
pub open spec fn spec_next_step(
    cmd: Command,
    belief: ServiceState,
    call: CollabCall,
    result: bool,
) -> Step {
    match cmd {
        Command::Quit => match call {
            CollabCall::IsUp => if result {
                Step::Ask(CollabCall::BringDown)
            } else {
                Step::Done(quit_outcome())
            },
            _ => Step::Done(quit_outcome()),
        },
        Command::Unrecognized => Step::Done(
            Outcome { belief, reply: Response::Error, quit: false },
        ),
        _ => match call {
            CollabCall::IsUp => resynced(result),
            CollabCall::BringUp => if result {
                Step::Done(
                    Outcome {
                        belief: ServiceState::Running,
                        reply: Response::Running,
                        quit: false,
                    },
                )
            } else {
                Step::Ask(CollabCall::IsUp)
            },
            CollabCall::BringDown => if result {
                Step::Done(
                    Outcome {
                        belief: ServiceState::Stopped,
                        reply: Response::Stopped,
                        quit: false,
                    },
                )
            } else {
                Step::Ask(CollabCall::IsUp)
            },
        },
    }
}

/// The command-serving core: owns the belief state for the whole life of the
/// serve loop. The loop around it accepts one connection at a time, performs
/// the collaborator calls the handler asks for, writes the reply of the
/// finished outcome, and commits that outcome's belief before the next
/// connection — so command execution is fully serialized.
pub struct Supervisor {
    pub belief: ServiceState,
}

impl Supervisor {
    /// A supervisor whose belief is initialized from an eager reality check
    /// made at startup.
    pub fn new(initially_up: bool) -> (s: Supervisor)
        ensures
            s.belief == belief_of(initially_up),
    {
        Supervisor { belief: belief_of_exec(initially_up) }
    }

    /// Begin handling a command.
    pub fn begin(&self, cmd: Command) -> (st: Step)
        ensures
            st == spec_first_step(cmd, self.belief),
    {
        match cmd {
            Command::Status => Step::Ask(CollabCall::IsUp),
            Command::Start => match self.belief {
                ServiceState::Stopped => Step::Ask(CollabCall::BringUp),
                ServiceState::Running => Step::Ask(CollabCall::IsUp),
            },
            Command::Toggle => match self.belief {
                ServiceState::Running => Step::Ask(CollabCall::BringDown),
                ServiceState::Stopped => Step::Ask(CollabCall::BringUp),
            },
            Command::Quit => Step::Ask(CollabCall::IsUp),
            Command::Unrecognized => Step::Done(
                Outcome { belief: self.belief, reply: Response::Error, quit: false },
            ),
        }
    }

    /// Continue handling a command with the result of the collaborator call
    /// the previous step asked for.
    pub fn resume(&self, cmd: Command, call: CollabCall, result: bool) -> (st: Step)
        ensures
            st == spec_next_step(cmd, self.belief, call, result),
    {
        match cmd {
            Command::Quit => match call {
                CollabCall::IsUp => if result {
                    Step::Ask(CollabCall::BringDown)
                } else {
                    Step::Done(quit_outcome_exec())
                },
                _ => Step::Done(quit_outcome_exec()),
            },
            Command::Unrecognized => Step::Done(
                Outcome { belief: self.belief, reply: Response::Error, quit: false },
            ),
            _ => match call {
                CollabCall::IsUp => Step::Done(
                    Outcome {
                        belief: belief_of_exec(result),
                        reply: if result {
                            Response::Running
                        } else {
                            Response::Stopped
                        },
                        quit: false,
                    },
                ),
                CollabCall::BringUp => if result {
                    Step::Done(
                        Outcome {
                            belief: ServiceState::Running,
                            reply: Response::Running,
                            quit: false,
                        },
                    )
                } else {
                    Step::Ask(CollabCall::IsUp)
                },
                CollabCall::BringDown => if result {
                    Step::Done(
                        Outcome {
                            belief: ServiceState::Stopped,
                            reply: Response::Stopped,
                            quit: false,
                        },
                    )
                } else {
                    Step::Ask(CollabCall::IsUp)
                },
            },
        }
    }

    /// Adopt a finished handler's belief before the next connection is
    /// accepted.
    pub fn commit(&mut self, outcome: Outcome)
        ensures
            final(self).belief == outcome.belief,
    {
        self.belief = outcome.belief;
    }
}

/// Executable mirror of `belief_of`.
pub fn belief_of_exec(up: bool) -> (b: ServiceState)
    ensures
        b == belief_of(up),
{
    if up {
        ServiceState::Running
    } else {
        ServiceState::Stopped
    }
}

/// Executable mirror of `quit_outcome`.
pub fn quit_outcome_exec() -> (o: Outcome)
    ensures
        o == quit_outcome(),
{
    Outcome { belief: ServiceState::Stopped, reply: Response::Stopped, quit: true }
}

} // verus!
