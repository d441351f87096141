//! The power actions: the command line that carries each one out, and the
//! reply that each verdict on that command earns.
use crate::outcome::{
    verdict_on_bytes, CommandOutcome, StderrNotUtf8, Verdict, AUTHENTICATION_REQUIRED,
};
use crate::reply::{seen, Reply, Status};
use crate::text::{lemma_occurs_between, occurs_at, occurs_in};
use vstd::prelude::*;
use vstd::utf8::{decode_utf8, valid_utf8};

verus! {

/// The service manager's program.
pub const SERVICE_MANAGER: &'static str = "/usr/bin/systemctl";

/// The flag that keeps the service manager from asking for a password: it
/// fails at once where it would need one.
pub const NO_ASK_PASSWORD: &'static str = "--no-ask-password";

/// What the machine can be asked to do.
#[derive(Clone, Copy, Debug, PartialEq, Eq, Structural)]
pub enum PowerAction {
    TurnOff,
    Reboot,
    Suspend,
}

/// A program and the two arguments it is run with.
#[derive(Clone, Copy, Debug, PartialEq, Eq)]
pub struct CommandLine {
    pub program: &'static str,
    pub arguments: [&'static str; 2],
}

impl Verdict {
    /// The status a verdict is answered with. A denial is answered with
    /// 500 and not with 403: the permission is missing on the side of the
    /// service, which the machine's owner set up, not on the caller's.
    pub open spec fn spec_status(self) -> Status {
        match self {
            Verdict::Succeeded => Status::Success,
            Verdict::Denied => Status::InternalServerError,
            Verdict::FailedWithOne => Status::NotImplemented,
            Verdict::Failed => Status::NotImplemented,
            Verdict::Interrupted => Status::InternalServerError,
        }
    }

    /// The status a verdict is answered with.
    #[verifier::when_used_as_spec(spec_status)]
    pub fn status(self) -> (status: Status)
        ensures
            status == self.spec_status(),
    {
        match self {
            Verdict::Succeeded => Status::Success,
            Verdict::Denied | Verdict::Interrupted => Status::InternalServerError,
            Verdict::FailedWithOne | Verdict::Failed => Status::NotImplemented,
        }
    }
}

impl PowerAction {
    /// The service manager's word for the action.
    pub open spec fn spec_subcommand(self) -> Seq<char> {
        match self {
            PowerAction::TurnOff => "poweroff"@,
            PowerAction::Reboot => "reboot"@,
            PowerAction::Suspend => "suspend"@,
        }
    }

    /// The service manager's word for the action.
    pub fn subcommand(self) -> (word: &'static str)
        ensures
            word@ == self.spec_subcommand(),
    {
        match self {
            PowerAction::TurnOff => "poweroff",
            PowerAction::Reboot => "reboot",
            PowerAction::Suspend => "suspend",
        }
    }

    /// The command line that carries the action out: the service manager,
    /// the action's word, and the flag against password prompts.
    pub fn command_line(self) -> (line: CommandLine)
        ensures
            line.program@ == SERVICE_MANAGER@,
            line.arguments@.len() == 2,
            line.arguments@[0]@ == self.spec_subcommand(),
            line.arguments@[1]@ == NO_ASK_PASSWORD@,
    {
        CommandLine { program: SERVICE_MANAGER, arguments: [self.subcommand(), NO_ASK_PASSWORD] }
    }

    /// What the machine does when the action is carried out.
    pub open spec fn deed(self) -> Seq<char> {
        match self {
            PowerAction::TurnOff => "turn off"@,
            PowerAction::Reboot => "reboot"@,
            PowerAction::Suspend => "enter sleep mode"@,
        }
    }

    /// The action's name inside a sentence.
    pub open spec fn name(self) -> Seq<char> {
        match self {
            PowerAction::TurnOff => "shutdown"@,
            PowerAction::Reboot => "reboot"@,
            PowerAction::Suspend => "suspend"@,
        }
    }

    /// The action's name at the head of a sentence.
    pub open spec fn title(self) -> Seq<char> {
        match self {
            PowerAction::TurnOff => "Shutdown"@,
            PowerAction::Reboot => "Reboot"@,
            PowerAction::Suspend => "Suspend"@,
        }
    }

    /// Whether `text` speaks of the action, under any of its three names.
    pub open spec fn named_in(self, text: Seq<char>) -> bool {
        ||| occurs_in(self.name(), text)
        ||| occurs_in(self.title(), text)
        ||| occurs_in(self.deed(), text)
    }

    /// The text that answers a verdict on the action's command: one
    /// sentence for each verdict, worded for the action. No line feed
    /// follows it.
    pub open spec fn spec_message(self, verdict: Verdict) -> Seq<char> {
        match verdict {
            Verdict::Succeeded => "This machine will now "@ + self.deed() + "."@,
            Verdict::Denied => "The user running turn-me-off does not have the permission to "@
                + self.name() + " the device."@,
            Verdict::FailedWithOne => self.title()
                + " command failed for unknown reason, status code 1."@,
            Verdict::Failed => self.title() + " command failed for unknown reason."@,
            Verdict::Interrupted => "Unexpected error occurred while running the "@
                + self.name() + " command, please file an issue."@,
        }
    }

    fn succeeded_message(self) -> (text: &'static str)
        ensures
            text@ == self.spec_message(Verdict::Succeeded),
    {
        proof {
            reveal_strlit("This machine will now ");
            reveal_strlit(".");
            reveal_strlit("turn off");
            reveal_strlit("reboot");
            reveal_strlit("enter sleep mode");
            reveal_strlit("This machine will now turn off.");
            reveal_strlit("This machine will now reboot.");
            reveal_strlit("This machine will now enter sleep mode.");
        }
        let text = match self {
            PowerAction::TurnOff => "This machine will now turn off.",
            PowerAction::Reboot => "This machine will now reboot.",
            PowerAction::Suspend => "This machine will now enter sleep mode.",
        };
        assert(text@ =~= self.spec_message(Verdict::Succeeded));
        text
    }

    fn denied_message(self) -> (text: &'static str)
        ensures
            text@ == self.spec_message(Verdict::Denied),
    {
        proof {
            reveal_strlit("The user running turn-me-off does not have the permission to ");
            reveal_strlit(" the device.");
            reveal_strlit("shutdown");
            reveal_strlit("reboot");
            reveal_strlit("suspend");
            reveal_strlit(
                "The user running turn-me-off does not have the permission to shutdown the device.",
            );
            reveal_strlit(
                "The user running turn-me-off does not have the permission to reboot the device.",
            );
            reveal_strlit(
                "The user running turn-me-off does not have the permission to suspend the device.",
            );
        }
        let text = match self {
            PowerAction::TurnOff =>
                "The user running turn-me-off does not have the permission to shutdown the device.",
            PowerAction::Reboot =>
                "The user running turn-me-off does not have the permission to reboot the device.",
            PowerAction::Suspend =>
                "The user running turn-me-off does not have the permission to suspend the device.",
        };
        assert(text@ =~= self.spec_message(Verdict::Denied));
        text
    }

    fn failed_with_one_message(self) -> (text: &'static str)
        ensures
            text@ == self.spec_message(Verdict::FailedWithOne),
    {
        proof {
            reveal_strlit(" command failed for unknown reason, status code 1.");
            reveal_strlit("Shutdown");
            reveal_strlit("Reboot");
            reveal_strlit("Suspend");
            reveal_strlit("Shutdown command failed for unknown reason, status code 1.");
            reveal_strlit("Reboot command failed for unknown reason, status code 1.");
            reveal_strlit("Suspend command failed for unknown reason, status code 1.");
        }
        let text = match self {
            PowerAction::TurnOff => "Shutdown command failed for unknown reason, status code 1.",
            PowerAction::Reboot => "Reboot command failed for unknown reason, status code 1.",
            PowerAction::Suspend => "Suspend command failed for unknown reason, status code 1.",
        };
        assert(text@ =~= self.spec_message(Verdict::FailedWithOne));
        text
    }

    fn failed_message(self) -> (text: &'static str)
        ensures
            text@ == self.spec_message(Verdict::Failed),
    {
        proof {
            reveal_strlit(" command failed for unknown reason.");
            reveal_strlit("Shutdown");
            reveal_strlit("Reboot");
            reveal_strlit("Suspend");
            reveal_strlit("Shutdown command failed for unknown reason.");
            reveal_strlit("Reboot command failed for unknown reason.");
            reveal_strlit("Suspend command failed for unknown reason.");
        }
        let text = match self {
            PowerAction::TurnOff => "Shutdown command failed for unknown reason.",
            PowerAction::Reboot => "Reboot command failed for unknown reason.",
            PowerAction::Suspend => "Suspend command failed for unknown reason.",
        };
        assert(text@ =~= self.spec_message(Verdict::Failed));
        text
    }

    fn interrupted_message(self) -> (text: &'static str)
        ensures
            text@ == self.spec_message(Verdict::Interrupted),
    {
        proof {
            reveal_strlit("Unexpected error occurred while running the ");
            reveal_strlit(" command, please file an issue.");
            reveal_strlit("shutdown");
            reveal_strlit("reboot");
            reveal_strlit("suspend");
            reveal_strlit(
                "Unexpected error occurred while running the shutdown command, please file an issue.",
            );
            reveal_strlit(
                "Unexpected error occurred while running the reboot command, please file an issue.",
            );
            reveal_strlit(
                "Unexpected error occurred while running the suspend command, please file an issue.",
            );
        }
        let text = match self {
            PowerAction::TurnOff =>
                "Unexpected error occurred while running the shutdown command, please file an issue.",
            PowerAction::Reboot =>
                "Unexpected error occurred while running the reboot command, please file an issue.",
            PowerAction::Suspend =>
                "Unexpected error occurred while running the suspend command, please file an issue.",
        };
        assert(text@ =~= self.spec_message(Verdict::Interrupted));
        text
    }

    /// The text that answers a verdict on the action's command.
    pub fn message(self, verdict: Verdict) -> (text: &'static str)
        ensures
            text@ == self.spec_message(verdict),
    {
        match verdict {
            Verdict::Succeeded => self.succeeded_message(),
            Verdict::Denied => self.denied_message(),
            Verdict::FailedWithOne => self.failed_with_one_message(),
            Verdict::Failed => self.failed_message(),
            Verdict::Interrupted => self.interrupted_message(),
        }
    }

    /// The reply that a verdict on the action's command earns.
    pub open spec fn spec_reply(self, verdict: Verdict) -> Reply<Seq<char>> {
        Reply { status: verdict.spec_status(), body: self.spec_message(verdict) }
    }

    /// The reply that a verdict on the action's command earns.
    pub fn reply(self, verdict: Verdict) -> (reply: Reply<&'static str>)
        ensures
            reply@ == self.spec_reply(verdict),
    {
        Reply { status: verdict.status(), body: self.message(verdict) }
    }

    /// The answer to a request for the action whose command exited with
    /// `code` and wrote `stderr`: the reply that the verdict earns, or the
    /// error where no verdict can be reached.
    pub open spec fn spec_respond(self, code: Option<i32>, stderr: Seq<u8>) -> Result<
        Reply<Seq<char>>,
        StderrNotUtf8,
    > {
        match verdict_on_bytes(code, stderr) {
            Ok(verdict) => Ok(self.spec_reply(verdict)),
            Err(e) => Err(e),
        }
    }

    /// Answers a request for the action from the outcome of its command.
    /// Fails exactly where the exit code is 1 and standard error is not
    /// well-formed UTF-8.
    pub fn respond(self, outcome: CommandOutcome) -> (answer: Result<
        Reply<&'static str>,
        StderrNotUtf8,
    >)
        ensures
            seen(answer) == self.spec_respond(outcome.code, outcome.stderr@),
    {
        match outcome.verdict() {
            Ok(verdict) => Ok(self.reply(verdict)),
            Err(e) => Err(e),
        }
    }
}

/// The sentence that cites exit code 1 ends with the citation.
proof fn lemma_citation_ends_sentence()
    ensures
        " command failed for unknown reason, status code 1."@
            == " command failed for unknown reason, "@ + "status code 1."@,
{
    reveal_strlit(" command failed for unknown reason, status code 1.");
    reveal_strlit(" command failed for unknown reason, ");
    reveal_strlit("status code 1.");
    assert(" command failed for unknown reason, status code 1."@
        =~= " command failed for unknown reason, "@ + "status code 1."@);
}

/// The sentence that asks for an issue ends with the request.
proof fn lemma_request_ends_sentence()
    ensures
        " command, please file an issue."@ == " command, "@ + "please file an issue."@,
{
    reveal_strlit(" command, please file an issue.");
    reveal_strlit(" command, ");
    reveal_strlit("please file an issue.");
    assert(" command, please file an issue."@ =~= " command, "@ + "please file an issue."@);
}

/// A text that ends the second of two texts stands in the two joined.
proof fn lemma_occurs_at_end(start: Seq<char>, before: Seq<char>, needle: Seq<char>)
    ensures
        occurs_in(needle, start + (before + needle)),
{
    lemma_occurs_between(start + before, needle, Seq::empty());
    assert((start + before) + needle + Seq::<char>::empty() =~= start + (before + needle));
}

/// The sentence for a failure without a reason holds no "status code".
proof fn lemma_no_code_is_cited(action: PowerAction)
    ensures
        !occurs_in("status code"@, action.spec_message(Verdict::Failed)),
{
    reveal_strlit("status code");
    reveal_strlit(" command failed for unknown reason.");
    reveal_strlit("Shutdown");
    reveal_strlit("Reboot");
    reveal_strlit("Suspend");
    let needle = "status code"@;
    let hay = action.spec_message(Verdict::Failed);
    assert forall|at: int| !occurs_at(needle, hay, at) by {
        if occurs_at(needle, hay, at) {
            let part = hay.subrange(at, at + needle.len());
            assert(part[0] == 's' && part[1] == 't');
            assert(hay[at] == 's' && hay[at + 1] == 't');
            assert(false);
        }
    }
}

/// An answer is owed for every outcome but one: only an exit code of 1
/// together with a standard error that is not well-formed UTF-8 gets none.
pub proof fn answer_is_owed(action: PowerAction, code: Option<i32>, stderr: Seq<u8>)
    ensures
        action.spec_respond(code, stderr) is Err <==> code == Some(1i32) && !valid_utf8(stderr),
{
}

/// Exit code 0 is answered with status 200 and the sentence that says what
/// the machine will now do, whatever was written to standard error.
pub proof fn exit_zero_succeeds(action: PowerAction, stderr: Seq<u8>)
    ensures
        action.spec_respond(Some(0i32), stderr) matches Ok(reply) && {
            &&& reply.status.spec_code() == 200
            &&& reply.body == "This machine will now "@ + action.deed() + "."@
        },
{
}

/// Exit code 1 with a standard error that holds the service manager's
/// demand for a password is answered with status 500 and a sentence that
/// says the permission is missing, and for what: it names the action.
pub proof fn missing_permission_is_reported(action: PowerAction, stderr: Seq<u8>)
    requires
        valid_utf8(stderr),
        occurs_in(AUTHENTICATION_REQUIRED@, decode_utf8(stderr)),
    ensures
        action.spec_respond(Some(1i32), stderr) matches Ok(reply) && {
            &&& reply.status.spec_code() == 500
            &&& reply.body
                == "The user running turn-me-off does not have the permission to "@
                + action.name() + " the device."@
            &&& occurs_in(action.name(), reply.body)
        },
{
    lemma_occurs_between(
        "The user running turn-me-off does not have the permission to "@,
        action.name(),
        " the device."@,
    );
}

/// Exit code 1 with a standard error that is text and holds no demand for
/// a password is answered with status 501 and a sentence that gives no
/// reason but cites the exit code.
pub proof fn exit_one_is_cited(action: PowerAction, stderr: Seq<u8>)
    requires
        valid_utf8(stderr),
        !occurs_in(AUTHENTICATION_REQUIRED@, decode_utf8(stderr)),
    ensures
        action.spec_respond(Some(1i32), stderr) matches Ok(reply) && {
            &&& reply.status.spec_code() == 501
            &&& reply.body == action.title()
                + " command failed for unknown reason, status code 1."@
            &&& occurs_in("status code 1."@, reply.body)
        },
{
    lemma_citation_ends_sentence();
    lemma_occurs_at_end(
        action.title(),
        " command failed for unknown reason, "@,
        "status code 1."@,
    );
}

/// Every exit code other than 0 and 1 is answered with status 501 and a
/// sentence that gives no reason and cites no code, whatever was written to
/// standard error.
pub proof fn other_exit_codes_fail(action: PowerAction, code: i32, stderr: Seq<u8>)
    requires
        code != 0,
        code != 1,
    ensures
        action.spec_respond(Some(code), stderr) matches Ok(reply) && {
            &&& reply.status.spec_code() == 501
            &&& reply.body == action.title() + " command failed for unknown reason."@
            &&& !occurs_in("status code"@, reply.body)
        },
{
    lemma_no_code_is_cited(action);
}

/// A command that left no exit code is answered with status 500 and a
/// sentence that asks for an issue to be filed, whatever was written to
/// standard error.
pub proof fn missing_exit_code_is_an_error(action: PowerAction, stderr: Seq<u8>)
    ensures
        action.spec_respond(None, stderr) matches Ok(reply) && {
            &&& reply.status.spec_code() == 500
            &&& reply.body == "Unexpected error occurred while running the "@
                + action.name() + " command, please file an issue."@
            &&& occurs_in("please file an issue."@, reply.body)
        },
{
    lemma_request_ends_sentence();
    lemma_occurs_at_end(
        "Unexpected error occurred while running the "@ + action.name(),
        " command, "@,
        "please file an issue."@,
    );
}

/// Asking twice is answered twice alike: where the command exits with code
/// 0 both times, both answers are the same success, whatever either run
/// wrote to standard error. Nothing is carried from one request to the next.
pub proof fn success_repeats(action: PowerAction, first: Seq<u8>, second: Seq<u8>)
    ensures
        action.spec_respond(Some(0i32), first) == action.spec_respond(Some(0i32), second),
        action.spec_respond(Some(0i32), first) == Ok::<Reply<Seq<char>>, StderrNotUtf8>(
            action.spec_reply(Verdict::Succeeded),
        ),
{
}

/// Where a text stands in another, the two agree character by character.
proof fn lemma_occurrence_agrees(needle: Seq<char>, hay: Seq<char>, at: int)
    requires
        occurs_at(needle, hay, at),
    ensures
        forall|k: int| 0 <= k < needle.len() ==> hay[at + k] == #[trigger] needle[k],
{
    assert forall|k: int| 0 <= k < needle.len() implies hay[at + k] == #[trigger] needle[k] by {
        assert(hay.subrange(at, at + needle.len())[k] == hay[at + k]);
    }
}

/// Where a word of five characters or more stands in a text, the text
/// holds the word's first five characters there.
proof fn lemma_probe(word: Seq<char>, hay: Seq<char>, at: int)
    requires
        occurs_at(word, hay, at),
        word.len() >= 5,
    ensures
        hay[at] == word[0],
        hay[at + 1] == word[1],
        hay[at + 2] == word[2],
        hay[at + 3] == word[3],
        hay[at + 4] == word[4],
{
    lemma_occurrence_agrees(word, hay, at);
}

/// The sentence for a success speaks of no other action.
proof fn lemma_success_names_no_other(action: PowerAction, other: PowerAction)
    requires
        action != other,
    ensures
        !other.named_in(action.spec_message(Verdict::Succeeded)),
{
    reveal_strlit("This machine will now ");
    reveal_strlit(".");
    reveal_strlit("turn off");
    reveal_strlit("reboot");
    reveal_strlit("enter sleep mode");
    reveal_strlit("shutdown");
    reveal_strlit("suspend");
    reveal_strlit("Shutdown");
    reveal_strlit("Reboot");
    reveal_strlit("Suspend");
    let hay = action.spec_message(Verdict::Succeeded);
    assert forall|at: int| !occurs_at(other.name(), hay, at) by {
        if occurs_at(other.name(), hay, at) {
            lemma_probe(other.name(), hay, at);
        }
    }
    assert forall|at: int| !occurs_at(other.title(), hay, at) by {
        if occurs_at(other.title(), hay, at) {
            lemma_probe(other.title(), hay, at);
        }
    }
    assert forall|at: int| !occurs_at(other.deed(), hay, at) by {
        if occurs_at(other.deed(), hay, at) {
            lemma_probe(other.deed(), hay, at);
        }
    }
}

/// The sentence for a denial speaks of no other action.
proof fn lemma_denial_names_no_other(action: PowerAction, other: PowerAction)
    requires
        action != other,
    ensures
        !other.named_in(action.spec_message(Verdict::Denied)),
{
    reveal_strlit("The user running turn-me-off does not have the permission to ");
    reveal_strlit(" the device.");
    reveal_strlit("turn off");
    reveal_strlit("reboot");
    reveal_strlit("enter sleep mode");
    reveal_strlit("shutdown");
    reveal_strlit("suspend");
    reveal_strlit("Shutdown");
    reveal_strlit("Reboot");
    reveal_strlit("Suspend");
    let hay = action.spec_message(Verdict::Denied);
    assert forall|at: int| !occurs_at(other.name(), hay, at) by {
        if occurs_at(other.name(), hay, at) {
            lemma_probe(other.name(), hay, at);
        }
    }
    assert forall|at: int| !occurs_at(other.title(), hay, at) by {
        if occurs_at(other.title(), hay, at) {
            lemma_probe(other.title(), hay, at);
        }
    }
    assert forall|at: int| !occurs_at(other.deed(), hay, at) by {
        if occurs_at(other.deed(), hay, at) {
            lemma_probe(other.deed(), hay, at);
        }
    }
}

/// The sentence that cites exit code 1 speaks of no other action.
proof fn lemma_citation_names_no_other(action: PowerAction, other: PowerAction)
    requires
        action != other,
    ensures
        !other.named_in(action.spec_message(Verdict::FailedWithOne)),
{
    reveal_strlit(" command failed for unknown reason, status code 1.");
    reveal_strlit("turn off");
    reveal_strlit("reboot");
    reveal_strlit("enter sleep mode");
    reveal_strlit("shutdown");
    reveal_strlit("suspend");
    reveal_strlit("Shutdown");
    reveal_strlit("Reboot");
    reveal_strlit("Suspend");
    let hay = action.spec_message(Verdict::FailedWithOne);
    assert forall|at: int| !occurs_at(other.name(), hay, at) by {
        if occurs_at(other.name(), hay, at) {
            lemma_probe(other.name(), hay, at);
        }
    }
    assert forall|at: int| !occurs_at(other.title(), hay, at) by {
        if occurs_at(other.title(), hay, at) {
            lemma_probe(other.title(), hay, at);
        }
    }
    assert forall|at: int| !occurs_at(other.deed(), hay, at) by {
        if occurs_at(other.deed(), hay, at) {
            lemma_probe(other.deed(), hay, at);
        }
    }
}

/// The sentence for a failure without a reason speaks of no other action.
proof fn lemma_failure_names_no_other(action: PowerAction, other: PowerAction)
    requires
        action != other,
    ensures
        !other.named_in(action.spec_message(Verdict::Failed)),
{
    reveal_strlit(" command failed for unknown reason.");
    reveal_strlit("turn off");
    reveal_strlit("reboot");
    reveal_strlit("enter sleep mode");
    reveal_strlit("shutdown");
    reveal_strlit("suspend");
    reveal_strlit("Shutdown");
    reveal_strlit("Reboot");
    reveal_strlit("Suspend");
    let hay = action.spec_message(Verdict::Failed);
    assert forall|at: int| !occurs_at(other.name(), hay, at) by {
        if occurs_at(other.name(), hay, at) {
            lemma_probe(other.name(), hay, at);
        }
    }
    assert forall|at: int| !occurs_at(other.title(), hay, at) by {
        if occurs_at(other.title(), hay, at) {
            lemma_probe(other.title(), hay, at);
        }
    }
    assert forall|at: int| !occurs_at(other.deed(), hay, at) by {
        if occurs_at(other.deed(), hay, at) {
            lemma_probe(other.deed(), hay, at);
        }
    }
}

/// The sentence for an interruption speaks of no other action.
proof fn lemma_interruption_names_no_other(action: PowerAction, other: PowerAction)
    requires
        action != other,
    ensures
        !other.named_in(action.spec_message(Verdict::Interrupted)),
{
    reveal_strlit("Unexpected error occurred while running the ");
    reveal_strlit(" command, please file an issue.");
    reveal_strlit("turn off");
    reveal_strlit("reboot");
    reveal_strlit("enter sleep mode");
    reveal_strlit("shutdown");
    reveal_strlit("suspend");
    reveal_strlit("Shutdown");
    reveal_strlit("Reboot");
    reveal_strlit("Suspend");
    let hay = action.spec_message(Verdict::Interrupted);
    assert forall|at: int| !occurs_at(other.name(), hay, at) by {
        if occurs_at(other.name(), hay, at) {
            lemma_probe(other.name(), hay, at);
        }
    }
    assert forall|at: int| !occurs_at(other.title(), hay, at) by {
        if occurs_at(other.title(), hay, at) {
            lemma_probe(other.title(), hay, at);
        }
    }
    assert forall|at: int| !occurs_at(other.deed(), hay, at) by {
        if occurs_at(other.deed(), hay, at) {
            lemma_probe(other.deed(), hay, at);
        }
    }
}

/// Every reply is worded for its own action: whatever became of the
/// command, the text speaks of no other action under any of its names.
pub proof fn reply_names_no_other_action(
    action: PowerAction,
    other: PowerAction,
    code: Option<i32>,
    stderr: Seq<u8>,
)
    requires
        action != other,
    ensures
        action.spec_respond(code, stderr) matches Ok(reply) ==> !other.named_in(reply.body),
{
    lemma_success_names_no_other(action, other);
    lemma_denial_names_no_other(action, other);
    lemma_citation_names_no_other(action, other);
    lemma_failure_names_no_other(action, other);
    lemma_interruption_names_no_other(action, other);
}

} // verus!
