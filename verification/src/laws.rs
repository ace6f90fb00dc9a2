use vstd::prelude::*;
use crate::protocol::Command;
use crate::protocol::ReadStep;
use crate::protocol::Response;
use crate::protocol::command_of;
use crate::protocol::read_outcome;
use crate::protocol::token_of;
use crate::protocol::trimmed;
use crate::supervisor::CollabCall;
use crate::supervisor::Outcome;
use crate::supervisor::ServiceState;
use crate::supervisor::Step;
use crate::supervisor::belief_of;
use crate::supervisor::quit_outcome;
use crate::supervisor::reply_of;
use crate::supervisor::spec_first_step;
use crate::supervisor::spec_next_step;

verus! {

/// `status` is idempotent: whatever the belief, a `status` command makes one
/// reality check and finishes at once with the belief and the reply that the
/// reading dictates — so repeated `status` commands against an unchanged
/// reality return the same reply each time, as the last clause states by
/// making the finishing step independent of the belief.
pub proof fn lemma_status_idempotent(b: ServiceState, up: bool)
    ensures
        spec_first_step(Command::Status, b) == Step::Ask(CollabCall::IsUp),
        spec_next_step(Command::Status, b, CollabCall::IsUp, up) == Step::Done(
            Outcome { belief: belief_of(up), reply: reply_of(belief_of(up)), quit: false },
        ),
        spec_next_step(Command::Status, belief_of(up), CollabCall::IsUp, up) == spec_next_step(
            Command::Status,
            b,
            CollabCall::IsUp,
            up,
        ),
{
}

/// `toggle` is its own inverse under successful operations: from `Stopped`,
/// a toggle asks for `BringUp` and a reported success leaves the belief
/// `Running` with the reply `running`; a second toggle then asks for
/// `BringDown` and a reported success returns the belief to `Stopped` with
/// the reply `stopped` — the service observably down again.
pub proof fn lemma_toggle_involution()
    ensures
        spec_first_step(Command::Toggle, ServiceState::Stopped) == Step::Ask(CollabCall::BringUp),
        spec_next_step(Command::Toggle, ServiceState::Stopped, CollabCall::BringUp, true)
            == Step::Done(
            Outcome { belief: ServiceState::Running, reply: Response::Running, quit: false },
        ),
        spec_first_step(Command::Toggle, ServiceState::Running) == Step::Ask(CollabCall::BringDown),
        spec_next_step(Command::Toggle, ServiceState::Running, CollabCall::BringDown, true)
            == Step::Done(
            Outcome { belief: ServiceState::Stopped, reply: Response::Stopped, quit: false },
        ),
{
}

/// `quit` always replies `stopped` and ends the serve loop: a service found
/// up is brought down and the handler finishes with `quit_outcome` whether or
/// not that teardown reported success; a service found down is left alone and
/// the handler finishes with the same outcome at once.
pub proof fn lemma_quit_replies_stopped(b: ServiceState, up: bool, down_ok: bool)
    ensures
        spec_first_step(Command::Quit, b) == Step::Ask(CollabCall::IsUp),
        up ==> spec_next_step(Command::Quit, b, CollabCall::IsUp, up) == Step::Ask(
            CollabCall::BringDown,
        ),
        up ==> spec_next_step(Command::Quit, b, CollabCall::BringDown, down_ok) == Step::Done(
            quit_outcome(),
        ),
        !up ==> spec_next_step(Command::Quit, b, CollabCall::IsUp, up) == Step::Done(
            quit_outcome(),
        ),
        quit_outcome().reply == Response::Stopped,
        quit_outcome().quit,
{
}

/// An unrecognized command is inert: it finishes at once with the reply
/// `error`, the belief unchanged, no collaborator call made, and the loop
/// kept running — so a later `status` finds the state it would have found
/// anyway.
pub proof fn lemma_unrecognized_inert(b: ServiceState)
    ensures
        spec_first_step(Command::Unrecognized, b) == Step::Done(
            Outcome { belief: b, reply: Response::Error, quit: false },
        ),
{
}

/// A request line whose trimmed text is none of the four tokens parses to
/// the fallback command, and handling that command yields exactly the reply
/// `error`, with the belief unchanged and no collaborator call made.
pub proof fn lemma_unknown_token_yields_error(line: Seq<u8>, b: ServiceState)
    requires
        trimmed(line) != token_of(Command::Status),
        trimmed(line) != token_of(Command::Start),
        trimmed(line) != token_of(Command::Toggle),
        trimmed(line) != token_of(Command::Quit),
    ensures
        command_of(line) == Command::Unrecognized,
        spec_first_step(command_of(line), b) == Step::Done(
            Outcome { belief: b, reply: Response::Error, quit: false },
        ),
{
}

/// A client that disconnects before sending any byte is ignored: its
/// connection is skipped outright, so nothing is replied, no command is
/// handled, and the belief the next connection sees is untouched.
pub proof fn lemma_early_disconnect_is_ignored(line: Seq<u8>)
    ensures
        read_outcome(0, line) == ReadStep::Skip,
{
}

/// Every handler finishes after at most two collaborator calls: whenever a
/// step taken after one call asks for a second, the step taken after that
/// second call is a finished outcome — so each connection's handler runs to
/// completion before the next connection is accepted, and no two handlers'
/// collaborator calls can overlap.
pub proof fn lemma_handler_bounded(
    cmd: Command,
    b: ServiceState,
    c1: CollabCall,
    r1: bool,
    c2: CollabCall,
    r2: bool,
)
    requires
        spec_next_step(cmd, b, c1, r1) == Step::Ask(c2),
    ensures
        spec_next_step(cmd, b, c2, r2) is Done,
{
}

/// Only `quit` ends the serve loop: a handler for any other command that
/// reaches a finished outcome reaches one whose `quit` flag is off.
pub proof fn lemma_only_quit_ends_loop(
    cmd: Command,
    b: ServiceState,
    call: CollabCall,
    result: bool,
)
    requires
        cmd != Command::Quit,
    ensures
        spec_first_step(cmd, b) matches Step::Done(o) ==> !o.quit,
        spec_next_step(cmd, b, call, result) matches Step::Done(o) ==> !o.quit,
{
}

} // verus!
