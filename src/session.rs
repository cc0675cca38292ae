//! The session: its transcript, its configuration, and the choice between a
//! single scripted answer and an interactive conversation.

use vstd::prelude::*;
use crate::dispatch::Mode;
use crate::transcript::{
    append_output, append_turn, conversation, trim_text, trimmed, with_output, with_turn,
};

verus! {

/// The system prompt that opens every interactive conversation.
pub fn default_system_prompt() -> (r: String)
    ensures
        r@ == "<<SYS>>You are a helpful, respectful and honest assistant. Always answer as short as possible, while being safe. <</SYS>>"@,
{
    "<<SYS>>You are a helpful, respectful and honest assistant. Always answer as short as possible, while being safe. <</SYS>>".to_owned()
}

/// What a session is: its transcript and configuration, the finished
/// exchanges (user input, model output), and the user input of a turn whose
/// output has not come yet.
pub struct SessionView {
    pub transcript: Seq<char>,
    pub system_prompt: Seq<char>,
    pub mode: Mode,
    pub enable_log: bool,
    pub stream_stdout: bool,
    pub history: Seq<(Seq<char>, Seq<char>)>,
    pub pending: Option<Seq<char>>,
}

/// An interactive session. Its transcript changes only by appending turns
/// and outputs through its methods.
pub struct Session {
    transcript: String,
    system_prompt: String,
    mode: Mode,
    enable_log: bool,
    stream_stdout: bool,
    history: Ghost<Seq<(Seq<char>, Seq<char>)>>,
    pending: Ghost<Option<Seq<char>>>,
}

impl View for Session {
    type V = SessionView;

    closed spec fn view(&self) -> SessionView {
        SessionView {
            transcript: self.transcript@,
            system_prompt: self.system_prompt@,
            mode: self.mode,
            enable_log: self.enable_log,
            stream_stdout: self.stream_stdout,
            history: self.history@,
            pending: self.pending@,
        }
    }
}

impl Session {
    /// The transcript is what the exchanges so far, and the pending user
    /// input if there is one, make of the system prompt.
    pub open spec fn wf(&self) -> bool {
        let done = conversation(self@.system_prompt, self@.history);
        match self@.pending {
            None => self@.transcript == done,
            Some(user) => self@.transcript == with_turn(done, self@.system_prompt, user),
        }
    }

    /// A session with an empty transcript.
    pub fn new(system_prompt: String, mode: Mode, enable_log: bool, stream_stdout: bool) -> (s:
        Self)
        ensures
            s.wf(),
            s@.transcript == Seq::<char>::empty(),
            s@.system_prompt == system_prompt@,
            s@.mode == mode,
            s@.enable_log == enable_log,
            s@.stream_stdout == stream_stdout,
            s@.history == Seq::<(Seq<char>, Seq<char>)>::empty(),
            s@.pending is None,
    {
        Session {
            transcript: String::new(),
            system_prompt,
            mode,
            enable_log,
            stream_stdout,
            history: Ghost(Seq::empty()),
            pending: Ghost(None),
        }
    }

    /// The prompt to submit to the backend: the whole transcript.
    pub fn prompt(&self) -> (r: &str)
        ensures
            r@ == self@.transcript,
    {
        self.transcript.as_str()
    }

    /// How the session generates its answers.
    pub fn mode(&self) -> (r: Mode)
        ensures
            r == self@.mode,
    {
        self.mode
    }

    /// Whether token counts are shown.
    pub fn enable_log(&self) -> (r: bool)
        ensures
            r == self@.enable_log,
    {
        self.enable_log
    }

    /// Whether the backend streams batch output itself.
    pub fn stream_stdout(&self) -> (r: bool)
        ensures
            r == self@.stream_stdout,
    {
        self.stream_stdout
    }

    /// Adds the user's input as a new turn. The transcript only grows.
    pub fn add_user_turn(&mut self, input: &str)
        requires
            old(self).wf(),
            old(self)@.pending is None,
        ensures
            final(self).wf(),
            final(self)@ == (SessionView {
                transcript: with_turn(old(self)@.transcript, old(self)@.system_prompt, input@),
                pending: Some(input@),
                ..old(self)@
            }),
            old(self)@.transcript.is_prefix_of(final(self)@.transcript),
    {
        self.transcript = append_turn(self.transcript.as_str(), self.system_prompt.as_str(), input);
        self.pending = Ghost(Some(input@));
    }

    /// Adds the model's output to the pending turn, which is then finished.
    /// The transcript only grows.
    pub fn add_model_output(&mut self, output: &str)
        requires
            old(self).wf(),
            old(self)@.pending is Some,
        ensures
            final(self).wf(),
            final(self)@ == (SessionView {
                transcript: with_output(old(self)@.transcript, output@),
                history: old(self)@.history.push((old(self)@.pending->0, output@)),
                pending: None,
                ..old(self)@
            }),
            old(self)@.transcript.is_prefix_of(final(self)@.transcript),
    {
        let ghost user = self.pending@->0;
        let ghost before = self.history@;
        self.transcript = append_output(self.transcript.as_str(), output);
        self.history = Ghost(before.push((user, output@)));
        self.pending = Ghost(None);
        proof {
            assert(self.history@.drop_last() =~= before);
        }
    }
}

/// How the process runs, chosen from its arguments: a prompt among them
/// (the third) asks for a single scripted answer; without one the session is
/// interactive, in the configured mode.
#[derive(Clone, Debug, PartialEq, Eq)]
pub enum Launch {
    Scripted(String),
    Interactive(Mode),
}

/// Chooses how to run from the process arguments (program, model, then an
/// optional prompt) and the `compute_single` setting. The setting matters
/// only to an interactive session.
pub fn choose_launch(args: &Vec<String>, compute_single: bool) -> (r: Launch)
    ensures
        args.len() >= 3 ==> r == Launch::Scripted(args[2]),
        args.len() < 3 ==> r == Launch::Interactive(
            if compute_single {
                Mode::Incremental
            } else {
                Mode::Batch
            },
        ),
{
    if args.len() >= 3 {
        Launch::Scripted(args[2].clone())
    } else if compute_single {
        Launch::Interactive(Mode::Incremental)
    } else {
        Launch::Interactive(Mode::Batch)
    }
}

/// One thing for the caller to do with the backend or the console.
#[derive(Clone, Debug, PartialEq, Eq)]
pub enum Command {
    /// Load this prompt into the backend's input, replacing any before.
    Submit(String),
    /// Run the backend to completion.
    RunToCompletion,
    /// Advance the backend by one token.
    RunOneStep,
    /// Read the backend's output: only the last token where the flag is set.
    ReadOutput(bool),
    /// Read the backend's run metadata.
    ReadMetadata,
    /// Release the backend's per-token state.
    FinalizeStep,
    /// Print the output that was read, trimmed.
    ShowTrimmedOutput,
    /// End the process with this status.
    Exit(i32),
}

/// How many of `commands` run the backend.
pub open spec fn backend_runs(commands: Seq<Command>) -> nat
    decreases commands.len(),
{
    if commands.len() == 0 {
        0
    } else {
        backend_runs(commands.drop_last()) + if commands.last() is RunToCompletion
            || commands.last() is RunOneStep {
            1nat
        } else {
            0nat
        }
    }
}

/// The commands of a scripted run: submit the prompt as it is, with no
/// transcript around it, run the backend to completion once, print the
/// trimmed output and end with success. The mode of interactive sessions
/// plays no part.
pub fn scripted_commands(prompt: &str) -> (commands: Vec<Command>)
    ensures
        commands@.len() == 5,
        commands@[0] is Submit && commands@[0]->Submit_0@ == prompt@,
        commands@[1] == Command::RunToCompletion,
        commands@[2] == Command::ReadOutput(false),
        commands@[3] == Command::ShowTrimmedOutput,
        commands@[4] == Command::Exit(0),
        backend_runs(commands@) == 1,
{
    let mut commands: Vec<Command> = Vec::new();
    commands.push(Command::Submit(prompt.to_owned()));
    commands.push(Command::RunToCompletion);
    commands.push(Command::ReadOutput(false));
    commands.push(Command::ShowTrimmedOutput);
    commands.push(Command::Exit(0));
    proof {
        reveal_with_fuel(backend_runs, 6);
        assert(commands@.drop_last().drop_last().drop_last().drop_last().drop_last().len() == 0);
    }
    commands
}

/// The commands that start generation for a turn, once the user's input is
/// in the transcript: submit the whole transcript, then read the metadata
/// that gives its token count.
pub fn turn_opening(session: &Session) -> (commands: Vec<Command>)
    ensures
        commands@.len() == 2,
        commands@[0] is Submit && commands@[0]->Submit_0@ == session@.transcript,
        commands@[1] == Command::ReadMetadata,
{
    let mut commands: Vec<Command> = Vec::new();
    commands.push(Command::Submit(session.prompt().to_owned()));
    commands.push(Command::ReadMetadata);
    commands
}

/// The commands of one unit of generation: one run to completion in batch
/// mode, one step in incremental mode, each followed by reading what it
/// produced. The read is only made where the run succeeded.
pub fn generation_commands(mode: Mode) -> (commands: Vec<Command>)
    ensures
        commands@.len() == 2,
        mode == Mode::Batch ==> commands@[0] == Command::RunToCompletion && commands@[1]
            == Command::ReadOutput(false),
        mode == Mode::Incremental ==> commands@[0] == Command::RunOneStep && commands@[1]
            == Command::ReadOutput(true),
        backend_runs(commands@) == 1,
{
    let mut commands: Vec<Command> = Vec::new();
    match mode {
        Mode::Batch => {
            commands.push(Command::RunToCompletion);
            commands.push(Command::ReadOutput(false));
        },
        Mode::Incremental => {
            commands.push(Command::RunOneStep);
            commands.push(Command::ReadOutput(true));
        },
    }
    proof {
        reveal_with_fuel(backend_runs, 3);
        assert(commands@.drop_last().drop_last().len() == 0);
    }
    commands
}

/// The commands that end a turn once generation has stopped: in incremental
/// mode the backend's per-token state is released, always; then the metadata
/// with the token counts is read.
pub fn turn_closing(mode: Mode) -> (commands: Vec<Command>)
    ensures
        mode == Mode::Batch ==> commands@ == seq![Command::ReadMetadata],
        mode == Mode::Incremental ==> commands@ == seq![
            Command::FinalizeStep,
            Command::ReadMetadata,
        ],
{
    let mut commands: Vec<Command> = Vec::new();
    if mode == Mode::Incremental {
        commands.push(Command::FinalizeStep);
    }
    commands.push(Command::ReadMetadata);
    proof {
        assert(mode == Mode::Batch ==> commands@ =~= seq![Command::ReadMetadata]);
        assert(mode == Mode::Incremental ==> commands@ =~= seq![
            Command::FinalizeStep,
            Command::ReadMetadata,
        ]);
    }
    commands
}

/// The text shown for the output of a scripted run: the output, trimmed.
pub fn scripted_reply(output: &str) -> (r: String)
    ensures
        r@ == trimmed(output@),
{
    trim_text(output)
}

/// Whether a line read from the user starts a turn: one that is empty or
/// whitespace only is skipped, and the next line is read.
pub fn is_usable_input(line: &str) -> (r: bool)
    ensures
        r == (trimmed(line@).len() > 0),
{
    let t = trim_text(line);
    !t.as_str().is_empty()
}

} // verus!
