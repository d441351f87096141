//! What a finished command leaves behind, and how it is judged.
use crate::text::{contains, occurs_in};
use vstd::prelude::*;
use vstd::utf8::{decode_utf8, valid_utf8};

verus! {

/// The line with which the service manager turns away a caller whom it
/// would have to ask for a password.
pub const AUTHENTICATION_REQUIRED: &'static str = "Interactive authentication required.";

/// What is known of a command once it has ended.
#[derive(Clone, Debug, PartialEq, Eq)]
pub struct CommandOutcome {
    /// The exit code; `None` where the command did not exit by itself, as
    /// when a signal ended it.
    pub code: Option<i32>,
    /// Everything the command wrote to standard error.
    pub stderr: Vec<u8>,
}

/// The five ways in which a command can have gone.
#[derive(Clone, Copy, Debug, PartialEq, Eq, Structural)]
pub enum Verdict {
    /// The command exited with code 0.
    Succeeded,
    /// The command exited with code 1 and was told that it may not act
    /// without a password.
    Denied,
    /// The command exited with code 1 and gave no reason that is known here.
    FailedWithOne,
    /// The command exited with a code other than 0 and 1.
    Failed,
    /// The command left no exit code.
    Interrupted,
}

/// Standard error has to be read, and its bytes are not well-formed UTF-8.
#[derive(Clone, Copy, Debug, PartialEq, Eq, Structural)]
pub struct StderrNotUtf8;

/// The verdict on a command that exited with `code` and whose standard
/// error reads `text`. The rules apply in the order written: the first one
/// that fits decides.
pub open spec fn verdict_on_text(code: Option<i32>, text: Seq<char>) -> Verdict {
    if code == Some(0i32) {
        Verdict::Succeeded
    } else if code == Some(1i32) && occurs_in(AUTHENTICATION_REQUIRED@, text) {
        Verdict::Denied
    } else if code == Some(1i32) {
        Verdict::FailedWithOne
    } else if code is Some {
        Verdict::Failed
    } else {
        Verdict::Interrupted
    }
}

/// The verdict on a command that exited with `code` and wrote `stderr`.
/// Standard error is read only after exit code 1, so only then do its bytes
/// have to be text.
pub open spec fn verdict_on_bytes(code: Option<i32>, stderr: Seq<u8>) -> Result<
    Verdict,
    StderrNotUtf8,
> {
    if code != Some(1i32) {
        Ok(verdict_on_text(code, Seq::empty()))
    } else if valid_utf8(stderr) {
        Ok(verdict_on_text(code, decode_utf8(stderr)))
    } else {
        Err(StderrNotUtf8)
    }
}

/// Judges a command by its exit code and by what its standard error reads.
pub fn judge(code: Option<i32>, stderr_text: &str) -> (verdict: Verdict)
    ensures
        verdict == verdict_on_text(code, stderr_text@),
{
    match code {
        Some(0) => Verdict::Succeeded,
        Some(1) => {
            if contains(stderr_text, AUTHENTICATION_REQUIRED) {
                Verdict::Denied
            } else {
                Verdict::FailedWithOne
            }
        },
        Some(_) => Verdict::Failed,
        None => Verdict::Interrupted,
    }
}

/// `String::from_utf8` of std: the text that `bytes` encode, or the error
/// where they are not well-formed UTF-8. Trusted, not proved: that std
/// accepts exactly the byte strings that `valid_utf8` describes, and that
/// the text it hands back is the one that `decode_utf8` describes.
#[verifier::external_body]
fn text_of(bytes: Vec<u8>) -> (text: Result<String, StderrNotUtf8>)
    ensures
        text is Ok <==> valid_utf8(bytes@),
        text matches Ok(s) ==> s@ == decode_utf8(bytes@),
{
    match String::from_utf8(bytes) {
        Ok(text) => Ok(text),
        Err(_) => Err(StderrNotUtf8),
    }
}

impl CommandOutcome {
    /// Judges the command. Fails exactly where the exit code is 1 and
    /// standard error is not well-formed UTF-8.
    pub fn verdict(self) -> (verdict: Result<Verdict, StderrNotUtf8>)
        ensures
            verdict == verdict_on_bytes(self.code, self.stderr@),
    {
        match self.code {
            Some(1) => {
                match text_of(self.stderr) {
                    Ok(text) => Ok(judge(self.code, text.as_str())),
                    Err(e) => Err(e),
                }
            },
            _ => Ok(judge(self.code, "")),
        }
    }
}

} // verus!
