//! The protocol between the supervisors and the host that runs them.
//!
//! A supervisor never touches the operating system. It hands the host a
//! [`Request`], the host performs it and answers with a [`Reply`], and the
//! supervisor decides what comes next. The host needs no knowledge of the
//! services: it probes files, runs commands, sleeps and terminates processes.

use crate::docker_manager::{ContainerStatus, ContainerStatusView};
use crate::error::{SupervisorError, SupervisorErrorView};
use vstd::prelude::*;

verus! {

/// A command with its arguments, working directory and environment.
#[derive(Clone, Debug, PartialEq, Eq)]
pub struct CommandLine {
    pub program: String,
    pub args: Vec<String>,
    /// The directory to run in; `None` keeps the host's own.
    pub working_dir: Option<String>,
    /// Variables set for the command, on top of the host's environment.
    pub env: Vec<(String, String)>,
}

/// The mathematical content of a [`CommandLine`].
pub struct CommandLineView {
    pub program: Seq<char>,
    pub args: Seq<Seq<char>>,
    pub working_dir: Option<Seq<char>>,
    pub env: Seq<(Seq<char>, Seq<char>)>,
}

impl View for CommandLine {
    type V = CommandLineView;

    open spec fn view(&self) -> CommandLineView {
        CommandLineView {
            program: self.program@,
            args: self.args.deep_view(),
            working_dir: self.working_dir.deep_view(),
            env: self.env.deep_view(),
        }
    }
}

impl CommandLineView {
    /// The command that runs `program` with nothing else set.
    pub open spec fn bare(program: Seq<char>) -> CommandLineView {
        CommandLineView {
            program,
            args: Seq::empty(),
            working_dir: None,
            env: Seq::empty(),
        }
    }

    /// This command with one more argument.
    pub open spec fn arg(self, arg: Seq<char>) -> CommandLineView {
        CommandLineView { args: self.args.push(arg), ..self }
    }

    /// This command, run in `dir`.
    pub open spec fn in_dir(self, dir: Seq<char>) -> CommandLineView {
        CommandLineView { working_dir: Some(dir), ..self }
    }

    /// This command with one more environment variable.
    pub open spec fn var(self, name: Seq<char>, value: Seq<char>) -> CommandLineView {
        CommandLineView { env: self.env.push((name, value)), ..self }
    }
}

impl CommandLine {
    /// The command that runs `program` with nothing else set.
    pub fn new(program: &str) -> (command: CommandLine)
        ensures
            command@ == CommandLineView::bare(program@),
    {
        let command = CommandLine {
            program: program.to_owned(),
            args: Vec::new(),
            working_dir: None,
            env: Vec::new(),
        };
        assert(command.args.deep_view() =~= Seq::empty());
        assert(command.env.deep_view() =~= Seq::empty());
        command
    }

    /// Adds an argument.
    pub fn arg(&mut self, arg: &str)
        ensures
            final(self)@ == old(self)@.arg(arg@),
    {
        let ghost before = self.args.deep_view();
        self.args.push(arg.to_owned());
        assert(self.args.deep_view() =~= before.push(arg@));
    }

    /// Sets the working directory.
    pub fn current_dir(&mut self, dir: &str)
        ensures
            final(self)@ == old(self)@.in_dir(dir@),
    {
        self.working_dir = Some(dir.to_owned());
    }

    /// Sets an environment variable.
    pub fn env(&mut self, name: &str, value: &str)
        ensures
            final(self)@ == old(self)@.var(name@, value@),
    {
        let ghost before = self.env.deep_view();
        self.env.push((name.to_owned(), value.to_owned()));
        assert(self.env.deep_view() =~= before.push((name@, value@)));
    }
}

/// The paths that the host found to exist, among those it was asked about.
#[derive(Clone, Debug, PartialEq, Eq)]
pub struct FileSet {
    paths: Vec<String>,
}

impl View for FileSet {
    type V = Set<Seq<char>>;

    closed spec fn view(&self) -> Set<Seq<char>> {
        self.paths.deep_view().to_set()
    }
}

impl FileSet {
    /// No path exists.
    pub fn new() -> (files: FileSet)
        ensures
            files@ == Set::<Seq<char>>::empty(),
    {
        let files = FileSet { paths: Vec::new() };
        files
    }

    /// Records that `path` exists.
    pub fn insert(&mut self, path: String)
        ensures
            final(self)@ == old(self)@.insert(path@),
    {
        let ghost before = self.paths.deep_view();
        self.paths.push(path);
        assert(self.paths.deep_view() =~= before.push(path@));
        proof {
            before.lemma_push_to_set_commute(path@);
        }
    }

    /// The set of exactly the given paths.
    pub fn from_paths(paths: Vec<String>) -> (files: FileSet)
        ensures
            files@ == paths.deep_view().to_set(),
    {
        FileSet { paths }
    }

    /// Whether `path` was found to exist.
    pub fn contains(&self, path: &str) -> (b: bool)
        ensures
            b == self@.contains(path@),
    {
        let wanted = path.to_owned();
        let mut i: usize = 0;
        while i < self.paths.len()
            invariant
                i <= self.paths.len(),
                wanted@ == path@,
                forall|j: int| 0 <= j < i ==> (#[trigger] self.paths@[j])@ != path@,
            decreases self.paths.len() - i,
        {
            if self.paths[i] == wanted {
                assert(self.paths.deep_view()[i as int] == path@);
                return true;
            }
            i += 1;
        }
        assert(!self.paths.deep_view().contains(path@)) by {
            if self.paths.deep_view().contains(path@) {
                let j = choose|j: int|
                    0 <= j < self.paths.deep_view().len() && self.paths.deep_view()[j] == path@;
            }
        }
        false
    }
}

/// What a supervisor asks of the host.
#[derive(Clone, Debug, PartialEq, Eq)]
pub enum Request {
    /// Report which of these paths exist. Answered by [`Reply::Files`].
    Probe(Vec<String>),
    /// Search the execution path for a program. Answered by [`Reply::Located`].
    Locate(String),
    /// Read a text file. Answered by [`Reply::Text`], with `None` for a file
    /// that is missing or unreadable.
    ReadText(String),
    /// Read an environment variable. Answered by [`Reply::Text`].
    ReadEnv(String),
    /// Create a directory and its missing ancestors.
    CreateDirAll(String),
    /// Copy a file.
    CopyFile { from: String, to: String },
    /// Start a child process with its output piped, and keep it running.
    /// Answered by [`Reply::Spawned`] with the process identifier.
    Spawn(CommandLine),
    /// Start a program and leave it to itself.
    Launch(CommandLine),
    /// Run a command to its end with its output discarded. Answered by
    /// [`Reply::Exited`].
    Check(CommandLine),
    /// Run a command to its end. Answered by [`Reply::Exited`].
    Run(CommandLine),
    /// Run a command to its end and collect its standard output. Answered by
    /// [`Reply::Captured`].
    Capture(CommandLine),
    /// Pause for a number of seconds.
    Sleep(u64),
    /// Kill these processes and wait for each, in this order.
    Terminate(Vec<u32>),
    /// Open an address with the user's default application.
    OpenUrl(String),
}

/// The mathematical content of a [`Request`].
pub enum RequestView {
    Probe(Seq<Seq<char>>),
    Locate(Seq<char>),
    ReadText(Seq<char>),
    ReadEnv(Seq<char>),
    CreateDirAll(Seq<char>),
    CopyFile { from: Seq<char>, to: Seq<char> },
    Spawn(CommandLineView),
    Launch(CommandLineView),
    Check(CommandLineView),
    Run(CommandLineView),
    Capture(CommandLineView),
    Sleep(u64),
    Terminate(Seq<u32>),
    OpenUrl(Seq<char>),
}

impl View for Request {
    type V = RequestView;

    open spec fn view(&self) -> RequestView {
        match self {
            Request::Probe(paths) => RequestView::Probe(paths.deep_view()),
            Request::Locate(program) => RequestView::Locate(program@),
            Request::ReadText(path) => RequestView::ReadText(path@),
            Request::ReadEnv(name) => RequestView::ReadEnv(name@),
            Request::CreateDirAll(path) => RequestView::CreateDirAll(path@),
            Request::CopyFile { from, to } => RequestView::CopyFile { from: from@, to: to@ },
            Request::Spawn(command) => RequestView::Spawn(command@),
            Request::Launch(command) => RequestView::Launch(command@),
            Request::Check(command) => RequestView::Check(command@),
            Request::Run(command) => RequestView::Run(command@),
            Request::Capture(command) => RequestView::Capture(command@),
            Request::Sleep(seconds) => RequestView::Sleep(*seconds),
            Request::Terminate(pids) => RequestView::Terminate(pids@),
            Request::OpenUrl(url) => RequestView::OpenUrl(url@),
        }
    }
}

/// What the host answers.
#[derive(Clone, Debug, PartialEq, Eq)]
pub enum Reply {
    /// The paths that exist, among those probed.
    Files(FileSet),
    /// Where the program was found on the execution path, if anywhere.
    Located(Option<String>),
    /// The text that was read, if any.
    Text(Option<String>),
    /// The identifier of the process that was started.
    Spawned(u32),
    /// The command ran to its end; the flag tells whether it reported success.
    Exited(bool),
    /// The command ran to its end; its standard output is attached.
    Captured { success: bool, stdout: String },
    /// The request was performed and there is nothing to report.
    Completed,
    /// The request could not be performed, for the reason given.
    Failed(String),
}

/// The mathematical content of a [`Reply`].
pub enum ReplyView {
    Files(Set<Seq<char>>),
    Located(Option<Seq<char>>),
    Text(Option<Seq<char>>),
    Spawned(u32),
    Exited(bool),
    Captured { success: bool, stdout: Seq<char> },
    Completed,
    Failed(Seq<char>),
}

impl View for Reply {
    type V = ReplyView;

    open spec fn view(&self) -> ReplyView {
        match self {
            Reply::Files(files) => ReplyView::Files(files@),
            Reply::Located(path) => ReplyView::Located(path.deep_view()),
            Reply::Text(text) => ReplyView::Text(text.deep_view()),
            Reply::Spawned(pid) => ReplyView::Spawned(*pid),
            Reply::Exited(success) => ReplyView::Exited(*success),
            Reply::Captured { success, stdout } => ReplyView::Captured {
                success: *success,
                stdout: stdout@,
            },
            Reply::Completed => ReplyView::Completed,
            Reply::Failed(reason) => ReplyView::Failed(reason@),
        }
    }
}

impl ReplyView {
    /// The paths reported to exist; none, if the reply reports no files.
    pub open spec fn files(self) -> Set<Seq<char>> {
        match self {
            ReplyView::Files(files) => files,
            _ => Set::empty(),
        }
    }

    /// Where a program was located; nowhere, if the reply locates nothing.
    pub open spec fn located(self) -> Option<Seq<char>> {
        match self {
            ReplyView::Located(path) => path,
            _ => None,
        }
    }

    /// The text that was read; none, if the reply carries no text.
    pub open spec fn text(self) -> Option<Seq<char>> {
        match self {
            ReplyView::Text(text) => text,
            _ => None,
        }
    }

    /// Whether a command ran to its end and reported success.
    pub open spec fn succeeded(self) -> bool {
        self == ReplyView::Exited(true)
    }

    /// Why the request was not performed. A reply of another kind than the
    /// one awaited counts as a failure of the host.
    pub open spec fn failure(self) -> Seq<char> {
        match self {
            ReplyView::Failed(reason) => reason,
            _ => "unexpected reply from the host"@,
        }
    }
}

/// How an operation ended.
#[derive(Debug, PartialEq, Eq)]
pub enum Outcome {
    /// The answer to a yes-or-no question.
    Flag(bool),
    /// The operation finished, well or with a failure.
    Finished(Result<(), SupervisorError>),
    /// The state of the containers.
    Statuses(Vec<ContainerStatus>),
    /// No operation was under way.
    Idle,
}

/// The mathematical content of an [`Outcome`].
pub enum OutcomeView {
    Flag(bool),
    Finished(Result<(), SupervisorErrorView>),
    Statuses(Seq<ContainerStatusView>),
    Idle,
}

impl View for Outcome {
    type V = OutcomeView;

    open spec fn view(&self) -> OutcomeView {
        match self {
            Outcome::Flag(flag) => OutcomeView::Flag(*flag),
            Outcome::Finished(result) => OutcomeView::Finished(
                match result {
                    Ok(_) => Ok(()),
                    Err(e) => Err(e@),
                },
            ),
            Outcome::Statuses(statuses) => OutcomeView::Statuses(statuses.deep_view()),
            Outcome::Idle => OutcomeView::Idle,
        }
    }
}

/// One step of an operation: a request for the host, or the end.
#[derive(Debug, PartialEq, Eq)]
pub enum Step {
    Ask(Request),
    Done(Outcome),
}

/// The mathematical content of a [`Step`].
pub enum StepView {
    Ask(RequestView),
    Done(OutcomeView),
}

impl View for Step {
    type V = StepView;

    open spec fn view(&self) -> StepView {
        match self {
            Step::Ask(request) => StepView::Ask(request@),
            Step::Done(outcome) => StepView::Done(outcome@),
        }
    }
}

impl StepView {
    /// Whether the operation has ended.
    pub open spec fn is_done(self) -> bool {
        self is Done
    }

    /// Whether the operation has ended with the answer yes.
    pub open spec fn is_yes(self) -> bool {
        self == StepView::Done(OutcomeView::Flag(true))
    }

    /// Whether the operation has ended well.
    pub open spec fn is_success(self) -> bool {
        self == StepView::Done(OutcomeView::Finished(Ok(())))
    }

    /// The failure that the operation has ended with, if it has.
    pub open spec fn error(self) -> Option<SupervisorErrorView> {
        match self {
            StepView::Done(OutcomeView::Finished(Err(error))) => Some(error),
            _ => None,
        }
    }
}

impl Step {
    /// Whether the operation has ended.
    pub fn is_done(&self) -> (b: bool)
        ensures
            b == self@.is_done(),
    {
        match self {
            Step::Done(_) => true,
            Step::Ask(_) => false,
        }
    }

    /// Whether the operation has ended with the answer yes.
    pub fn is_yes(&self) -> (b: bool)
        ensures
            b == self@.is_yes(),
    {
        match self {
            Step::Done(Outcome::Flag(flag)) => *flag,
            _ => false,
        }
    }

    /// Whether the operation has ended well.
    pub fn is_success(&self) -> (b: bool)
        ensures
            b == self@.is_success(),
    {
        match self {
            Step::Done(Outcome::Finished(Ok(_))) => true,
            _ => false,
        }
    }

    /// The failure that the operation has ended with, if it has.
    pub fn into_error(self) -> (error: Option<SupervisorError>)
        ensures
            match error {
                Some(e) => self@.error() == Some(e@),
                None => self@.error() is None,
            },
    {
        match self {
            Step::Done(Outcome::Finished(Err(error))) => Some(error),
            _ => None,
        }
    }
}

impl Reply {
    /// Whether a command ran to its end and reported success.
    pub fn succeeded(&self) -> (b: bool)
        ensures
            b == self@.succeeded(),
    {
        match self {
            Reply::Exited(success) => *success,
            _ => false,
        }
    }

    /// Where a program was located.
    pub fn into_located(self) -> (path: Option<String>)
        ensures
            path.deep_view() == self@.located(),
    {
        match self {
            Reply::Located(path) => path,
            _ => None,
        }
    }

    /// The text that was read.
    pub fn into_text(self) -> (text: Option<String>)
        ensures
            text.deep_view() == self@.text(),
    {
        match self {
            Reply::Text(text) => text,
            _ => None,
        }
    }

    /// Why the request was not performed.
    pub fn into_failure(self) -> (reason: String)
        ensures
            reason@ == self@.failure(),
    {
        match self {
            Reply::Failed(reason) => reason,
            _ => "unexpected reply from the host".to_owned(),
        }
    }

    /// The paths reported to exist.
    pub fn into_files(self) -> (files: FileSet)
        ensures
            files@ == self@.files(),
    {
        match self {
            Reply::Files(files) => files,
            _ => FileSet::new(),
        }
    }
}

} // verus!
