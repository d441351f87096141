//! The service's endpoints. Each one is a function from what the service
//! observed on the machine to the reply it sends.
use crate::action::PowerAction;
use crate::outcome::{CommandOutcome, StderrNotUtf8};
use crate::reply::{seen, Reply, Status};
use vstd::prelude::*;

verus! {

/// The body of the liveness reply.
pub const ALIVE: &'static str = "turn-me-off is alive";

/// Checks if the server is alive: always status 200 and the same text,
/// whatever state the machine is in.
pub fn alive() -> (reply: Reply<&'static str>)
    ensures
        reply@ == (Reply { status: Status::Success, body: ALIVE@ }),
        reply.status.spec_code() == 200,
{
    Reply { status: Status::Success, body: ALIVE }
}

/// Answers a request to turn the machine off, from the outcome of the
/// command that was run for it.
pub fn turn_off(outcome: CommandOutcome) -> (answer: Result<Reply<&'static str>, StderrNotUtf8>)
    ensures
        seen(answer) == PowerAction::TurnOff.spec_respond(outcome.code, outcome.stderr@),
{
    PowerAction::TurnOff.respond(outcome)
}

/// Answers a request to reboot the machine, from the outcome of the command
/// that was run for it.
pub fn reboot(outcome: CommandOutcome) -> (answer: Result<Reply<&'static str>, StderrNotUtf8>)
    ensures
        seen(answer) == PowerAction::Reboot.spec_respond(outcome.code, outcome.stderr@),
{
    PowerAction::Reboot.respond(outcome)
}

/// Answers a request to put the machine to sleep, from the outcome of the
/// command that was run for it.
pub fn suspend(outcome: CommandOutcome) -> (answer: Result<Reply<&'static str>, StderrNotUtf8>)
    ensures
        seen(answer) == PowerAction::Suspend.spec_respond(outcome.code, outcome.stderr@),
{
    PowerAction::Suspend.respond(outcome)
}

/// Answers a request for the machine's hostname with the name as it was
/// read, byte for byte: nothing is trimmed.
pub fn hostname(name: String) -> (reply: Reply<String>)
    ensures
        reply@ == (Reply { status: Status::Success, body: name@ }),
        reply.status.spec_code() == 200,
{
    Reply { status: Status::Success, body: name }
}

} // verus!
