//! What goes to the process invoker and what comes back from it. The
//! invoker itself lies outside the library: it starts the program of an
//! invocation, waits for it, and hands back the outcome.

use vstd::prelude::*;
use vstd::utf8::{decode_utf8, valid_utf8};

verus! {

/// A program to start, with its arguments in order.
#[derive(Clone, Debug, PartialEq, Eq)]
pub struct Invocation {
    pub program: String,
    pub args: Vec<String>,
}

/// An invocation as mathematical values.
pub struct InvocationView {
    pub program: Seq<char>,
    pub args: Seq<Seq<char>>,
}

impl View for Invocation {
    type V = InvocationView;

    open spec fn view(&self) -> InvocationView {
        InvocationView { program: self.program@, args: self.args.deep_view() }
    }
}

/// How an invocation ended: the program ran to its end, or it could not be
/// started at all.
#[derive(Clone, Debug, PartialEq, Eq)]
pub enum ProcessOutcome {
    Exited { success: bool, stdout: String, stderr: String },
    SpawnFailed { description: String },
}

/// An outcome as mathematical values.
pub enum OutcomeView {
    Exited { success: bool, stdout: Seq<char>, stderr: Seq<char> },
    SpawnFailed { description: Seq<char> },
}

impl View for ProcessOutcome {
    type V = OutcomeView;

    open spec fn view(&self) -> OutcomeView {
        match self {
            ProcessOutcome::Exited { success, stdout, stderr } => OutcomeView::Exited {
                success: *success,
                stdout: stdout@,
                stderr: stderr@,
            },
            ProcessOutcome::SpawnFailed { description } => OutcomeView::SpawnFailed {
                description: description@,
            },
        }
    }
}

/// The text that a lossy reading makes of `bytes`: the text that the bytes
/// encode, with a replacement character in the place of every part that
/// is not UTF-8.
pub uninterp spec fn lossy_text(bytes: Seq<u8>) -> Seq<char>;

/// `String::from_utf8_lossy`: reads the bytes as UTF-8 and never fails.
/// Bytes that are valid UTF-8 give the text they encode.
#[verifier::external_body]
fn decode_lossy(bytes: &[u8]) -> (text: String)
    ensures
        text@ == lossy_text(bytes@),
        valid_utf8(bytes@) ==> text@ == decode_utf8(bytes@),
{
    String::from_utf8_lossy(bytes).into_owned()
}

impl ProcessOutcome {
    /// The outcome of a program that ran to its end, from what it wrote to
    /// its two streams. `success` says whether its exit status reports
    /// success.
    pub fn exited(success: bool, stdout: &[u8], stderr: &[u8]) -> (outcome: ProcessOutcome)
        ensures
            outcome@ == (OutcomeView::Exited {
                success,
                stdout: lossy_text(stdout@),
                stderr: lossy_text(stderr@),
            }),
            valid_utf8(stdout@) ==> outcome->stdout@ == decode_utf8(stdout@),
            valid_utf8(stderr@) ==> outcome->stderr@ == decode_utf8(stderr@),
    {
        ProcessOutcome::Exited {
            success,
            stdout: decode_lossy(stdout),
            stderr: decode_lossy(stderr),
        }
    }

    /// The outcome of a program that could not be started, with the
    /// description of what went wrong.
    pub fn spawn_failed(description: String) -> (outcome: ProcessOutcome)
        ensures
            outcome@ == (OutcomeView::SpawnFailed { description: description@ }),
    {
        ProcessOutcome::SpawnFailed { description }
    }
}

} // verus!
