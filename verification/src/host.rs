//! What the program asks of the world outside it, and what comes back.
//!
//! The program does nothing to the world by itself. It is a function of the replies that it has
//! had so far: where one more is needed it halts with the [`Request`], and whoever runs it
//! performs the request, adds the [`Reply`] and starts it again. It then reads the earlier
//! replies in their order, decides as it did before, and goes on from where it halted.

use vstd::prelude::*;
use crate::model::{ConfigView, WorktreeConfig};
use crate::name;

verus! {

/// How a process ended, and what it wrote.
#[derive(Debug, PartialEq, Eq)]
pub struct Output {
    /// The exit code, unless a signal ended the process.
    pub code: Option<i32>,
    /// How the process ended, in words.
    pub status: String,
    /// What it wrote to its standard output, where that was captured.
    pub stdout: Vec<u8>,
    /// What it wrote to its standard error, where that was captured.
    pub stderr: Vec<u8>,
}

/// The view of an [`Output`].
pub struct OutputView {
    pub code: Option<i32>,
    pub status: Seq<char>,
    pub stdout: Seq<u8>,
    pub stderr: Seq<u8>,
}

impl OutputView {
    /// Whether the process reported success.
    pub open spec fn succeeded(self) -> bool {
        self.code == Some(0i32)
    }
}

impl DeepView for Output {
    type V = OutputView;

    open spec fn deep_view(&self) -> OutputView {
        OutputView {
            code: self.code,
            status: self.status@,
            stdout: self.stdout@,
            stderr: self.stderr@,
        }
    }
}

impl Output {
    /// Whether the process reported success.
    pub fn success(&self) -> (answer: bool)
        ensures
            answer == self.deep_view().succeeded(),
    {
        match self.code {
            Some(code) => code == 0,
            None => false,
        }
    }

    /// Whether the process ended with the exit code.
    pub fn exited_with(&self, code: i32) -> (answer: bool)
        ensures
            answer == (self.code == Some(code)),
    {
        match self.code {
            Some(own) => own == code,
            None => false,
        }
    }
}

/// Something that only the world outside can do or tell.
#[derive(Debug, PartialEq, Eq)]
pub enum Request {
    /// Run Git in a directory and capture what it writes.
    Git { directory: String, arguments: Vec<String> },
    /// Run Git in a directory with the standard streams of this process.
    GitAttached { directory: String, arguments: Vec<String> },
    /// Run a command in a directory through the platform's shell, with the standard streams of
    /// this process and one more environment variable.
    Shell { directory: String, command: String, variable: String, value: String },
    /// Tell whether something exists at a path.
    Exists { path: String },
    /// Read a file as text.
    Read { path: String },
    /// Replace what a file holds.
    Write { path: String, contents: String },
    /// Remove a file.
    Remove { path: String },
    /// Create a directory and the directories above it.
    CreateDirectory { path: String },
    /// Read a text as a configuration file.
    ParseConfig { contents: String },
    /// Create the log of the worker that is about to start.
    CreateLog { path: String },
    /// Open the log that was created once more.
    ShareLog { path: String },
    /// Start a detached process that writes to the log that was created and opened.
    StartWorker { executable: String, arguments: Vec<String> },
    /// Tell the directory that the program was started in.
    CurrentDirectory,
    /// Tell the path of the program.
    CurrentExecutable,
    /// Tell the path of a file without symbolic links in it.
    Canonicalize { path: String },
    /// Tell whether the standard input is a terminal.
    InputIsTerminal,
    /// Make up a name for a worktree, in the shape of a generated one.
    RandomName,
    /// Write a line to the standard output.
    Print { line: String },
    /// Write a line to the standard error.
    Report { line: String },
    /// Write to the standard output without ending the line.
    Prompt { question: String },
    /// Read a line from the standard input.
    ReadLine,
    /// Start `fzf`.
    StartSelector { arguments: Vec<String> },
    /// Write to the standard input of the `fzf` that was started, and close it.
    FeedSelector { rows: String },
    /// Wait until the `fzf` that was started ends, and capture what it wrote.
    AwaitSelector,
}

/// The view of a [`Request`].
pub enum RequestView {
    Git { directory: Seq<char>, arguments: Seq<Seq<char>> },
    GitAttached { directory: Seq<char>, arguments: Seq<Seq<char>> },
    Shell { directory: Seq<char>, command: Seq<char>, variable: Seq<char>, value: Seq<char> },
    Exists { path: Seq<char> },
    Read { path: Seq<char> },
    Write { path: Seq<char>, contents: Seq<char> },
    Remove { path: Seq<char> },
    CreateDirectory { path: Seq<char> },
    ParseConfig { contents: Seq<char> },
    CreateLog { path: Seq<char> },
    ShareLog { path: Seq<char> },
    StartWorker { executable: Seq<char>, arguments: Seq<Seq<char>> },
    CurrentDirectory,
    CurrentExecutable,
    Canonicalize { path: Seq<char> },
    InputIsTerminal,
    RandomName,
    Print { line: Seq<char> },
    Report { line: Seq<char> },
    Prompt { question: Seq<char> },
    ReadLine,
    StartSelector { arguments: Seq<Seq<char>> },
    FeedSelector { rows: Seq<char> },
    AwaitSelector,
}

impl DeepView for Request {
    type V = RequestView;

    open spec fn deep_view(&self) -> RequestView {
        match self {
            Request::Git { directory, arguments } => RequestView::Git {
                directory: directory@,
                arguments: arguments.deep_view(),
            },
            Request::GitAttached { directory, arguments } => RequestView::GitAttached {
                directory: directory@,
                arguments: arguments.deep_view(),
            },
            Request::Shell { directory, command, variable, value } => RequestView::Shell {
                directory: directory@,
                command: command@,
                variable: variable@,
                value: value@,
            },
            Request::Exists { path } => RequestView::Exists { path: path@ },
            Request::Read { path } => RequestView::Read { path: path@ },
            Request::Write { path, contents } => RequestView::Write {
                path: path@,
                contents: contents@,
            },
            Request::Remove { path } => RequestView::Remove { path: path@ },
            Request::CreateDirectory { path } => RequestView::CreateDirectory { path: path@ },
            Request::ParseConfig { contents } => RequestView::ParseConfig { contents: contents@ },
            Request::CreateLog { path } => RequestView::CreateLog { path: path@ },
            Request::ShareLog { path } => RequestView::ShareLog { path: path@ },
            Request::StartWorker { executable, arguments } => RequestView::StartWorker {
                executable: executable@,
                arguments: arguments.deep_view(),
            },
            Request::CurrentDirectory => RequestView::CurrentDirectory,
            Request::CurrentExecutable => RequestView::CurrentExecutable,
            Request::Canonicalize { path } => RequestView::Canonicalize { path: path@ },
            Request::InputIsTerminal => RequestView::InputIsTerminal,
            Request::RandomName => RequestView::RandomName,
            Request::Print { line } => RequestView::Print { line: line@ },
            Request::Report { line } => RequestView::Report { line: line@ },
            Request::Prompt { question } => RequestView::Prompt { question: question@ },
            Request::ReadLine => RequestView::ReadLine,
            Request::StartSelector { arguments } => RequestView::StartSelector {
                arguments: arguments.deep_view(),
            },
            Request::FeedSelector { rows } => RequestView::FeedSelector { rows: rows@ },
            Request::AwaitSelector => RequestView::AwaitSelector,
        }
    }
}

/// What came of a request.
#[derive(Debug, PartialEq, Eq)]
pub enum Reply {
    /// It was done.
    Done,
    /// The file or the program that it names is not there.
    Absent,
    /// It failed, and why.
    Failed(String),
    /// Yes or no.
    Answer(bool),
    /// A text.
    Text(String),
    /// A process ended.
    Ended(Output),
    /// A configuration.
    Config(WorktreeConfig),
    /// A process was started, with its number.
    Started(u32),
}

/// The view of a [`Reply`].
pub enum ReplyView {
    Done,
    Absent,
    Failed(Seq<char>),
    Answer(bool),
    Text(Seq<char>),
    Ended(OutputView),
    Config(ConfigView),
    Started(u32),
}

impl DeepView for Reply {
    type V = ReplyView;

    open spec fn deep_view(&self) -> ReplyView {
        match self {
            Reply::Done => ReplyView::Done,
            Reply::Absent => ReplyView::Absent,
            Reply::Failed(error) => ReplyView::Failed(error@),
            Reply::Answer(answer) => ReplyView::Answer(*answer),
            Reply::Text(text) => ReplyView::Text(text@),
            Reply::Ended(output) => ReplyView::Ended(output.deep_view()),
            Reply::Config(config) => ReplyView::Config(config.deep_view()),
            Reply::Started(process) => ReplyView::Started(*process),
        }
    }
}

/// Which replies a request can have.
pub open spec fn fits(request: RequestView, reply: ReplyView) -> bool {
    match request {
        RequestView::Git { .. }
        | RequestView::GitAttached { .. }
        | RequestView::Shell { .. }
        | RequestView::AwaitSelector => reply is Ended || reply is Failed,
        RequestView::Exists { .. } | RequestView::InputIsTerminal => reply is Answer,
        RequestView::Read { .. } => reply is Text || reply is Absent || reply is Failed,
        RequestView::Write { .. }
        | RequestView::CreateDirectory { .. }
        | RequestView::CreateLog { .. }
        | RequestView::ShareLog { .. }
        | RequestView::Prompt { .. } => reply is Done || reply is Failed,
        RequestView::Remove { .. }
        | RequestView::StartSelector { .. }
        | RequestView::FeedSelector { .. } => reply is Done || reply is Absent || reply is Failed,
        RequestView::ParseConfig { .. } => reply is Config || reply is Failed,
        RequestView::StartWorker { .. } => reply is Started || reply is Failed,
        RequestView::CurrentDirectory
        | RequestView::CurrentExecutable
        | RequestView::Canonicalize { .. }
        | RequestView::ReadLine => reply is Text || reply is Failed,
        RequestView::RandomName => reply matches ReplyView::Text(made_up)
            && name::generated_shape(made_up),
        RequestView::Print { .. } | RequestView::Report { .. } => reply is Done,
    }
}

/// Whether the request can have the reply.
pub fn reply_fits(request: &Request, reply: &Reply) -> (answer: bool)
    ensures
        answer == fits(request.deep_view(), reply.deep_view()),
{
    match request {
        Request::Git { .. }
        | Request::GitAttached { .. }
        | Request::Shell { .. }
        | Request::AwaitSelector => matches!(reply, Reply::Ended(_) | Reply::Failed(_)),
        Request::Exists { .. } | Request::InputIsTerminal => matches!(reply, Reply::Answer(_)),
        Request::Read { .. } => matches!(
            reply,
            Reply::Text(_) | Reply::Absent | Reply::Failed(_)
        ),
        Request::Write { .. }
        | Request::CreateDirectory { .. }
        | Request::CreateLog { .. }
        | Request::ShareLog { .. }
        | Request::Prompt { .. } => matches!(reply, Reply::Done | Reply::Failed(_)),
        Request::Remove { .. }
        | Request::StartSelector { .. }
        | Request::FeedSelector { .. } => matches!(
            reply,
            Reply::Done | Reply::Absent | Reply::Failed(_)
        ),
        Request::ParseConfig { .. } => matches!(reply, Reply::Config(_) | Reply::Failed(_)),
        Request::StartWorker { .. } => matches!(reply, Reply::Started(_) | Reply::Failed(_)),
        Request::CurrentDirectory
        | Request::CurrentExecutable
        | Request::Canonicalize { .. }
        | Request::ReadLine => matches!(reply, Reply::Text(_) | Reply::Failed(_)),
        Request::RandomName => match reply {
            Reply::Text(made_up) => name::is_generated(made_up.as_str()),
            _ => false,
        },
        Request::Print { .. } | Request::Report { .. } => matches!(reply, Reply::Done),
    }
}

/// Why the program did not come to its end.
#[derive(Debug, PartialEq, Eq)]
pub enum Halt {
    /// It failed, and why.
    Failed(String),
    /// It needs the reply to a request.
    Pending(Request),
}

/// The view of a [`Halt`].
pub enum HaltView {
    Failed(Seq<char>),
    Pending(RequestView),
}

impl DeepView for Halt {
    type V = HaltView;

    open spec fn deep_view(&self) -> HaltView {
        match self {
            Halt::Failed(message) => HaltView::Failed(message@),
            Halt::Pending(request) => HaltView::Pending(request.deep_view()),
        }
    }
}

/// What a part of the program comes to, and the replies that it leaves for what follows it.
pub type Flow<T> = (Result<T, HaltView>, Seq<ReplyView>);

/// The view of a result.
pub open spec fn seen<T: DeepView>(result: Result<T, Halt>) -> Result<T::V, HaltView> {
    match result {
        Ok(value) => Ok(value.deep_view()),
        Err(halt) => Err(halt.deep_view()),
    }
}

/// A failure, and the replies that are left.
pub open spec fn failed<T>(message: Seq<char>, replies: Seq<ReplyView>) -> Flow<T> {
    (Err(HaltView::Failed(message)), replies)
}

/// Whether a part of the program needs one more reply.
pub open spec fn pending<T>(flow: Flow<T>) -> bool {
    flow.0 matches Err(HaltView::Pending(_))
}

/// The reply to a request: the next one, if it can be the reply to that request. Otherwise the
/// request has had no reply yet.
pub open spec fn ask_flow(request: RequestView, replies: Seq<ReplyView>) -> Flow<ReplyView> {
    if replies.len() > 0 && fits(request, replies[0]) {
        (Ok(replies[0]), replies.drop_first())
    } else {
        (Err(HaltView::Pending(request)), replies)
    }
}

/// The replies that the program has had and not read yet.
pub struct Session<'a> {
    rest: &'a [Reply],
}

impl<'a> View for Session<'a> {
    type V = Seq<ReplyView>;

    closed spec fn view(&self) -> Seq<ReplyView> {
        self.rest.deep_view()
    }
}

impl<'a> Session<'a> {
    /// A session in which the program has had the replies.
    pub fn new(replies: &'a [Reply]) -> (session: Self)
        ensures
            session@ == replies.deep_view(),
    {
        Session { rest: replies }
    }

    /// The reply to the request, or a halt until there is one.
    pub fn ask(&mut self, request: Request) -> (result: Result<&'a Reply, Halt>)
        ensures
            (seen(result), final(self)@) == ask_flow(request.deep_view(), old(self)@),
    {
        let rest: &'a [Reply] = self.rest;
        if rest.len() > 0 && reply_fits(&request, &rest[0]) {
            self.rest = vstd::slice::slice_subrange(rest, 1, rest.len());
            assert(self@ =~= old(self)@.drop_first());
            Ok(&rest[0])
        } else {
            Err(Halt::Pending(request))
        }
    }
}

} // verus!
