//! The generation modes. Batch mode runs the backend to completion once;
//! incremental mode asks it for one token at a time. The backend itself is
//! driven by the caller, which hands each outcome to the functions here and
//! carries out what they decide.

use vstd::prelude::*;
use crate::transcript::{trim_text, trimmed};

verus! {

/// How a session generates its answers.
#[derive(Clone, Copy, Debug, PartialEq, Eq, Structural)]
pub enum Mode {
    /// Run to completion, then read the whole response.
    Batch,
    /// Run one step at a time, reading and showing each token as it comes.
    Incremental,
}

/// Why generation for a turn stopped.
#[derive(Clone, Debug, PartialEq, Eq)]
pub enum TruncatedReason {
    /// The backend ran to completion (batch mode).
    Completed,
    /// The backend reached the end of the sequence.
    EndOfSequence,
    /// The backend's context window is exhausted.
    ContextFull,
    /// The prompt exceeds what the backend can take.
    PromptTooLong,
    /// Any other backend failure, with its message.
    OtherError(String),
}

/// The response to one turn.
#[derive(Clone, Debug, PartialEq, Eq)]
pub struct GenerationResult {
    pub text: String,
    pub truncated_reason: TruncatedReason,
}

/// What the backend reported for one run (batch) or one step (incremental).
#[derive(Clone, Debug, PartialEq, Eq)]
pub enum BackendOutcome {
    /// The run or step succeeded, and this is the text read from its output.
    Produced(String),
    EndOfSequence,
    ContextFull,
    PromptTooLong,
    /// Another backend error, with its message.
    Failed(String),
}

/// An informational message for the user about why generation stopped.
#[derive(Clone, Debug, PartialEq, Eq)]
pub enum Notice {
    ContextFull,
    PromptTooLong,
    Error(String),
}

/// The line shown for a notice.
pub open spec fn notice_line(notice: Notice) -> Seq<char> {
    match notice {
        Notice::ContextFull => "[INFO] Context full"@,
        Notice::PromptTooLong => "[INFO] Prompt too long"@,
        Notice::Error(message) => "[ERROR] "@ + message@,
    }
}

impl Notice {
    /// The line to show the user for this notice.
    pub fn message(&self) -> (r: String)
        ensures
            r@ == notice_line(*self),
    {
        match self {
            Notice::ContextFull => "[INFO] Context full".to_owned(),
            Notice::PromptTooLong => "[INFO] Prompt too long".to_owned(),
            Notice::Error(message) => {
                let mut r = "[ERROR] ".to_owned();
                r.append(message.as_str());
                r
            },
        }
    }
}

/// What the caller does after an incremental step.
#[derive(Clone, Debug, PartialEq, Eq)]
pub enum StepAction {
    /// Show this token at once, then ask the backend for the next step.
    Emit(String),
    /// Generation for this turn is over: show the notice, if any, then
    /// release the per-token state of the backend.
    Stop(Option<Notice>),
}

/// The state of incremental generation for one turn: the text produced so
/// far, and why it stopped, once it has.
#[derive(Clone, Debug)]
pub struct IncrementalRun {
    pub text: String,
    pub stopped: Option<TruncatedReason>,
}

/// How one backend outcome moves incremental generation on, and what the
/// caller is told to do.
pub open spec fn step_relation(
    before: IncrementalRun,
    outcome: BackendOutcome,
    after: IncrementalRun,
    action: StepAction,
) -> bool {
    match outcome {
        BackendOutcome::Produced(token) => {
            &&& after.text@ == before.text@ + token@
            &&& after.stopped is None
            &&& action == StepAction::Emit(token)
        },
        BackendOutcome::EndOfSequence => {
            &&& after.text@ == before.text@
            &&& after.stopped == Some(TruncatedReason::EndOfSequence)
            &&& action == StepAction::Stop(None)
        },
        BackendOutcome::ContextFull => {
            &&& after.text@ == before.text@
            &&& after.stopped == Some(TruncatedReason::ContextFull)
            &&& action == StepAction::Stop(Some(Notice::ContextFull))
        },
        BackendOutcome::PromptTooLong => {
            &&& after.text@ == before.text@
            &&& after.stopped == Some(TruncatedReason::PromptTooLong)
            &&& action == StepAction::Stop(Some(Notice::PromptTooLong))
        },
        BackendOutcome::Failed(message) => {
            &&& after.text@ == before.text@
            &&& after.stopped == Some(TruncatedReason::OtherError(message))
            &&& action == StepAction::Stop(Some(Notice::Error(message)))
        },
    }
}

impl IncrementalRun {
    /// A run that has produced nothing yet.
    pub fn new() -> (r: Self)
        ensures
            r.text@ == Seq::<char>::empty(),
            r.stopped is None,
    {
        IncrementalRun { text: String::new(), stopped: None }
    }

    /// Whether generation has stopped.
    pub fn is_stopped(&self) -> (r: bool)
        ensures
            r == self.stopped is Some,
    {
        self.stopped.is_some()
    }

    /// Takes the outcome of one backend step. A produced token is appended as
    /// it is, untrimmed, and shown; any other outcome ends the run, with a
    /// notice for the user where it is no normal end.
    pub fn on_outcome(&mut self, outcome: BackendOutcome) -> (action: StepAction)
        requires
            old(self).stopped is None,
        ensures
            step_relation(*old(self), outcome, *final(self), action),
    {
        match outcome {
            BackendOutcome::Produced(token) => {
                self.text.append(token.as_str());
                StepAction::Emit(token)
            },
            BackendOutcome::EndOfSequence => {
                self.stopped = Some(TruncatedReason::EndOfSequence);
                StepAction::Stop(None)
            },
            BackendOutcome::ContextFull => {
                self.stopped = Some(TruncatedReason::ContextFull);
                StepAction::Stop(Some(Notice::ContextFull))
            },
            BackendOutcome::PromptTooLong => {
                self.stopped = Some(TruncatedReason::PromptTooLong);
                StepAction::Stop(Some(Notice::PromptTooLong))
            },
            BackendOutcome::Failed(message) => {
                self.stopped = Some(TruncatedReason::OtherError(message.clone()));
                StepAction::Stop(Some(Notice::Error(message)))
            },
        }
    }

    /// The result of a stopped run: all the text produced, possibly none.
    pub fn finish(self) -> (r: GenerationResult)
        requires
            self.stopped is Some,
        ensures
            r.text == self.text,
            r.truncated_reason == self.stopped->0,
    {
        match self.stopped {
            Some(reason) => GenerationResult { text: self.text, truncated_reason: reason },
            None => GenerationResult { text: self.text, truncated_reason: TruncatedReason::Completed },
        }
    }
}

/// What batch generation leaves for the caller: the result, the text to
/// print, if any, and a notice for the user, if any.
#[derive(Clone, Debug, PartialEq, Eq)]
pub struct BatchReply {
    pub result: GenerationResult,
    pub print: Option<String>,
    pub notice: Option<Notice>,
}

/// The reply to one batch run, whose outcome is `outcome`. The result is the
/// trimmed output; unless the backend streams it itself (`stream_stdout`),
/// that text is printed once, after the run.
pub fn batch_generation(outcome: BackendOutcome, stream_stdout: bool) -> (r: BatchReply)
    ensures
        match outcome {
            BackendOutcome::Produced(output) => {
                &&& r.result.text@ == trimmed(output@)
                &&& r.result.truncated_reason == TruncatedReason::Completed
                &&& r.notice is None
                &&& if stream_stdout { r.print is None } else { r.print == Some(r.result.text) }
            },
            BackendOutcome::EndOfSequence => {
                &&& r.result.text@.len() == 0
                &&& r.result.truncated_reason == TruncatedReason::EndOfSequence
                &&& r.notice is None
                &&& r.print is None
            },
            BackendOutcome::ContextFull => {
                &&& r.result.text@.len() == 0
                &&& r.result.truncated_reason == TruncatedReason::ContextFull
                &&& r.notice == Some(Notice::ContextFull)
                &&& r.print is None
            },
            BackendOutcome::PromptTooLong => {
                &&& r.result.text@.len() == 0
                &&& r.result.truncated_reason == TruncatedReason::PromptTooLong
                &&& r.notice == Some(Notice::PromptTooLong)
                &&& r.print is None
            },
            BackendOutcome::Failed(message) => {
                &&& r.result.text@.len() == 0
                &&& r.result.truncated_reason == TruncatedReason::OtherError(message)
                &&& r.notice == Some(Notice::Error(message))
                &&& r.print is None
            },
        },
{
    match outcome {
        BackendOutcome::Produced(output) => {
            let text = trim_text(output.as_str());
            let print = if stream_stdout {
                None
            } else {
                Some(text.clone())
            };
            BatchReply {
                result: GenerationResult { text, truncated_reason: TruncatedReason::Completed },
                print,
                notice: None,
            }
        },
        BackendOutcome::EndOfSequence => BatchReply {
            result: GenerationResult {
                text: String::new(),
                truncated_reason: TruncatedReason::EndOfSequence,
            },
            print: None,
            notice: None,
        },
        BackendOutcome::ContextFull => BatchReply {
            result: GenerationResult {
                text: String::new(),
                truncated_reason: TruncatedReason::ContextFull,
            },
            print: None,
            notice: Some(Notice::ContextFull),
        },
        BackendOutcome::PromptTooLong => BatchReply {
            result: GenerationResult {
                text: String::new(),
                truncated_reason: TruncatedReason::PromptTooLong,
            },
            print: None,
            notice: Some(Notice::PromptTooLong),
        },
        BackendOutcome::Failed(message) => BatchReply {
            result: GenerationResult {
                text: String::new(),
                truncated_reason: TruncatedReason::OtherError(message.clone()),
            },
            print: None,
            notice: Some(Notice::Error(message)),
        },
    }
}

} // verus!
