use vstd::prelude::*;
use crate::error::{Error, ErrorView};

verus! {

/// A piece of outside work that a lifecycle step asks its runner to do.
/// The runner does it and reports an `Outcome`.
#[derive(Debug, PartialEq, Eq)]
pub enum Effect {
    /// Does the path exist? Answered with `Exists`.
    CheckPath(String),
    /// Create a directory and its parents. `Done` or `Failed`.
    CreateDirAll(String),
    /// Remove a directory tree. Any outcome is accepted.
    RemoveDirAll(String),
    /// Rename a path. `Done` or `Failed`.
    Rename(String, String),
    /// Replace a file's content. `Done` or `Failed`.
    WriteFile(String, String),
    /// Read a file as text. `Content`, with `None` when it cannot be read.
    ReadFile(String),
    /// Create a fresh directory under a parent, with a name prefix. `TempDir` or `Failed`.
    MakeTempDir(String, String),
    /// Keep the fresh directory instead of deleting it when done. Any outcome is accepted.
    KeepTempDir,
    /// Send an HTTP GET. `Fetched` with the status code and its text, or `Failed`.
    Fetch(String),
    /// Create a file for the response body. `Done` or `Failed`.
    CreateFile(String),
    /// Copy the response body into the created file. `Done` or `Failed`.
    CopyBody,
    /// Open a gzip-compressed tar archive. `Done` or `Failed`.
    OpenArchive(String),
    /// Unpack the opened archive into a directory. `Done` or `Failed`.
    Unpack(String),
    /// Bind a TCP listener on the host with port 0. `Port` or `Failed`.
    PickPort(String),
    /// Run a program to completion, with its arguments, and `TZ=UTC` in its
    /// environment when the flag is set. `Finished` or `Failed`.
    Run(String, Vec<String>, bool),
    /// Create the server's log file. `Done` or `Failed`.
    CreateLog(String),
    /// Duplicate the log file handle for standard output. `Done` or `Failed`.
    CloneLog,
    /// Start a program in the background, its output going to the log file. `Done` or `Failed`.
    Spawn(String, Vec<String>),
    /// Start measuring time. Any outcome is accepted.
    StartClock,
    /// How long since `StartClock`? `Elapsed`, in nanoseconds.
    ReadClock,
    /// Try a TCP connection. `Connected`.
    Connect(String, u16),
    /// Sleep for some milliseconds. Any outcome is accepted.
    Sleep(u64),
    /// Kill the background server. Any outcome is accepted.
    KillChild,
    /// Wait for the background server to exit. Any outcome is accepted.
    WaitChild,
    /// Let go of the background server's handle. Any outcome is accepted.
    ForgetChild,
    /// The work is over, with this result.
    Finish(Result<(), Error>),
}

/// What the runner reports after doing an `Effect`.
#[derive(Debug, Clone, PartialEq, Eq)]
pub enum Outcome {
    Exists(bool),
    Done,
    Failed(String),
    Content(Option<String>),
    TempDir(String),
    Fetched(u16, String),
    Port(u16),
    /// Whether the program exited successfully, and what it wrote to standard error.
    Finished(bool, String),
    Elapsed(u64),
    Connected(bool),
}

pub enum EffectView {
    CheckPath(Seq<char>),
    CreateDirAll(Seq<char>),
    RemoveDirAll(Seq<char>),
    Rename(Seq<char>, Seq<char>),
    WriteFile(Seq<char>, Seq<char>),
    ReadFile(Seq<char>),
    MakeTempDir(Seq<char>, Seq<char>),
    KeepTempDir,
    Fetch(Seq<char>),
    CreateFile(Seq<char>),
    CopyBody,
    OpenArchive(Seq<char>),
    Unpack(Seq<char>),
    PickPort(Seq<char>),
    Run(Seq<char>, Seq<Seq<char>>, bool),
    CreateLog(Seq<char>),
    CloneLog,
    Spawn(Seq<char>, Seq<Seq<char>>),
    StartClock,
    ReadClock,
    Connect(Seq<char>, u16),
    Sleep(u64),
    KillChild,
    WaitChild,
    ForgetChild,
    Finish(Result<(), ErrorView>),
}

pub enum OutcomeView {
    Exists(bool),
    Done,
    Failed(Seq<char>),
    Content(Option<Seq<char>>),
    TempDir(Seq<char>),
    Fetched(u16, Seq<char>),
    Port(u16),
    Finished(bool, Seq<char>),
    Elapsed(u64),
    Connected(bool),
}

/// The texts of a list of strings.
pub open spec fn strings_view(v: Seq<String>) -> Seq<Seq<char>> {
    v.map_values(|s: String| s@)
}

impl View for Effect {
    type V = EffectView;

    open spec fn view(&self) -> EffectView {
        match self {
            Effect::CheckPath(p) => EffectView::CheckPath(p@),
            Effect::CreateDirAll(p) => EffectView::CreateDirAll(p@),
            Effect::RemoveDirAll(p) => EffectView::RemoveDirAll(p@),
            Effect::Rename(a, b) => EffectView::Rename(a@, b@),
            Effect::WriteFile(p, c) => EffectView::WriteFile(p@, c@),
            Effect::ReadFile(p) => EffectView::ReadFile(p@),
            Effect::MakeTempDir(p, x) => EffectView::MakeTempDir(p@, x@),
            Effect::KeepTempDir => EffectView::KeepTempDir,
            Effect::Fetch(u) => EffectView::Fetch(u@),
            Effect::CreateFile(p) => EffectView::CreateFile(p@),
            Effect::CopyBody => EffectView::CopyBody,
            Effect::OpenArchive(p) => EffectView::OpenArchive(p@),
            Effect::Unpack(p) => EffectView::Unpack(p@),
            Effect::PickPort(h) => EffectView::PickPort(h@),
            Effect::Run(p, a, tz) => EffectView::Run(p@, strings_view(a@), *tz),
            Effect::CreateLog(p) => EffectView::CreateLog(p@),
            Effect::CloneLog => EffectView::CloneLog,
            Effect::Spawn(p, a) => EffectView::Spawn(p@, strings_view(a@)),
            Effect::StartClock => EffectView::StartClock,
            Effect::ReadClock => EffectView::ReadClock,
            Effect::Connect(h, p) => EffectView::Connect(h@, *p),
            Effect::Sleep(ms) => EffectView::Sleep(*ms),
            Effect::KillChild => EffectView::KillChild,
            Effect::WaitChild => EffectView::WaitChild,
            Effect::ForgetChild => EffectView::ForgetChild,
            Effect::Finish(r) => EffectView::Finish(
                match r {
                    Ok(()) => Ok(()),
                    Err(e) => Err(e@),
                },
            ),
        }
    }
}

impl View for Outcome {
    type V = OutcomeView;

    open spec fn view(&self) -> OutcomeView {
        match self {
            Outcome::Exists(b) => OutcomeView::Exists(*b),
            Outcome::Done => OutcomeView::Done,
            Outcome::Failed(m) => OutcomeView::Failed(m@),
            Outcome::Content(c) => OutcomeView::Content(
                match c {
                    Some(s) => Some(s@),
                    None => None,
                },
            ),
            Outcome::TempDir(p) => OutcomeView::TempDir(p@),
            Outcome::Fetched(code, text) => OutcomeView::Fetched(*code, text@),
            Outcome::Port(p) => OutcomeView::Port(*p),
            Outcome::Finished(ok, err) => OutcomeView::Finished(*ok, err@),
            Outcome::Elapsed(n) => OutcomeView::Elapsed(*n),
            Outcome::Connected(b) => OutcomeView::Connected(*b),
        }
    }
}

/// The message of a failure report (empty for any other outcome).
pub open spec fn failure_text(o: OutcomeView) -> Seq<char> {
    match o {
        OutcomeView::Failed(m) => m,
        _ => Seq::empty(),
    }
}

/// The message of a failure report (empty for any other outcome).
pub fn failure_message(o: &Outcome) -> (m: String)
    ensures
        m@ == failure_text(o@),
{
    match o {
        Outcome::Failed(m) => m.clone(),
        _ => String::new(),
    }
}

} // verus!
