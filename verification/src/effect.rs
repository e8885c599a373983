//! What the library asks the program around it to do, and what the program
//! reports back.
//!
//! A driver of this library never touches the system. It names the next
//! [`Action`]; the program performs it and hands back an [`Outcome`], from
//! which the driver moves to its next state.

use vstd::prelude::*;

verus! {

/// An external program and its arguments.
#[derive(Debug, Clone, PartialEq, Eq)]
pub struct Invocation {
    pub program: String,
    pub args: Vec<String>,
}

/// The mathematical value of an [`Invocation`].
pub struct InvocationModel {
    pub program: Seq<char>,
    pub args: Seq<Seq<char>>,
}

impl DeepView for Invocation {
    type V = InvocationModel;

    open spec fn deep_view(&self) -> InvocationModel {
        InvocationModel { program: self.program@, args: self.args.deep_view() }
    }
}

/// The invocation of `program` with `args`.
pub open spec fn invocation(program: Seq<char>, args: Seq<Seq<char>>) -> InvocationModel {
    InvocationModel { program, args }
}

/// Adds `arg` to the end of `args`.
pub fn push_arg(args: &mut Vec<String>, arg: &str)
    ensures
        final(args).deep_view() == old(args).deep_view().push(arg@),
{
    args.push(String::from_str(arg));
    assert(args.deep_view() =~= old(args).deep_view().push(arg@));
}

impl Invocation {
    /// The invocation of `program` with no argument.
    pub fn new(program: &str) -> (out: Invocation)
        ensures
            out.deep_view() == invocation(program@, Seq::empty()),
    {
        let args: Vec<String> = Vec::new();
        assert(args.deep_view() =~= Seq::<Seq<char>>::empty());
        Invocation { program: String::from_str(program), args }
    }

    /// This invocation with `arg` as one more argument.
    pub fn arg(self, arg: &str) -> (out: Invocation)
        ensures
            out.deep_view() == invocation(
                self.deep_view().program,
                self.deep_view().args.push(arg@),
            ),
    {
        let mut args = self.args;
        push_arg(&mut args, arg);
        Invocation { program: self.program, args }
    }
}

/// How long the create or the start of a container may take, in seconds.
pub const WAIT_SECS: u64 = 10;

/// One thing for the program to do.
#[derive(Debug, Clone, PartialEq, Eq)]
pub enum Action {
    /// Mark this process as the subreaper of its descendants.
    SetSubreaper,
    /// Create the directory and its missing parents.
    CreateDirAll(String),
    /// Report whether the path is an existing directory.
    ProbeDir(String),
    /// Start the command with its output piped and wait for it, that many
    /// seconds at most; kill and reap it when the time is up.
    Run(Invocation, u64),
    /// Run the command to its end, however long it takes, and collect what
    /// it prints.
    Complete(Invocation),
    /// Start the command and do not wait for it.
    Spawn(Invocation),
    /// Read the file as text.
    ReadFile(String),
    /// Remove the file.
    RemoveFile(String),
    /// Wait for that many seconds.
    Sleep(u64),
    /// Report whether the process with this id is alive.
    ProbeProcess(i32),
    /// Nothing is left to do; the work ended with this aggregate status.
    Finish(i32),
    /// Nothing more can be done: a step that must not fail has failed.
    Abort,
}

/// The mathematical value of an [`Action`].
pub enum ActionModel {
    SetSubreaper,
    CreateDirAll(Seq<char>),
    ProbeDir(Seq<char>),
    Run(InvocationModel, u64),
    Complete(InvocationModel),
    Spawn(InvocationModel),
    ReadFile(Seq<char>),
    RemoveFile(Seq<char>),
    Sleep(u64),
    ProbeProcess(i32),
    Finish(i32),
    Abort,
}

impl DeepView for Action {
    type V = ActionModel;

    open spec fn deep_view(&self) -> ActionModel {
        match self {
            Action::SetSubreaper => ActionModel::SetSubreaper,
            Action::CreateDirAll(p) => ActionModel::CreateDirAll(p@),
            Action::ProbeDir(p) => ActionModel::ProbeDir(p@),
            Action::Run(c, secs) => ActionModel::Run(c.deep_view(), *secs),
            Action::Complete(c) => ActionModel::Complete(c.deep_view()),
            Action::Spawn(c) => ActionModel::Spawn(c.deep_view()),
            Action::ReadFile(p) => ActionModel::ReadFile(p@),
            Action::RemoveFile(p) => ActionModel::RemoveFile(p@),
            Action::Sleep(s) => ActionModel::Sleep(*s),
            Action::ProbeProcess(p) => ActionModel::ProbeProcess(*p),
            Action::Finish(s) => ActionModel::Finish(*s),
            Action::Abort => ActionModel::Abort,
        }
    }
}

/// What came of an [`Action`].
#[derive(Debug, Clone, PartialEq, Eq)]
pub enum Outcome {
    /// It was done; a probe found what it looked for.
    Done,
    /// It could not be done; a probe found nothing.
    Failed,
    /// The command ended by itself, with this exit code if it has one.
    Exited(Option<i32>),
    /// The command was still running when its time was up, and was killed.
    TimedOut,
    /// The file was read and holds this text.
    Text(String),
    /// The command ran to its end: whether it reported success, and what it
    /// printed, if that is text.
    Printed { success: bool, text: Option<String> },
}

/// The mathematical value of an [`Outcome`].
pub enum OutcomeModel {
    Done,
    Failed,
    Exited(Option<i32>),
    TimedOut,
    Text(Seq<char>),
    Printed { success: bool, text: Option<Seq<char>> },
}

impl DeepView for Outcome {
    type V = OutcomeModel;

    open spec fn deep_view(&self) -> OutcomeModel {
        match self {
            Outcome::Done => OutcomeModel::Done,
            Outcome::Failed => OutcomeModel::Failed,
            Outcome::Exited(code) => OutcomeModel::Exited(*code),
            Outcome::TimedOut => OutcomeModel::TimedOut,
            Outcome::Text(text) => OutcomeModel::Text(text@),
            Outcome::Printed { success, text } => OutcomeModel::Printed {
                success: *success,
                text: text.deep_view(),
            },
        }
    }
}

/// The exit code of the process after a driver's last action: 0 when the
/// work ran to its end, whatever its aggregate status; 1 when it had to be
/// given up.
pub open spec fn exit_code_of(last: ActionModel) -> i32 {
    if last is Abort {
        1
    } else {
        0
    }
}

/// The exit code of the process after a driver's last action.
pub fn exit_code(last: &Action) -> (code: i32)
    ensures
        code == exit_code_of(last.deep_view()),
{
    match last {
        Action::Abort => 1,
        _ => 0,
    }
}

} // verus!
