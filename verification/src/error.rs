use vstd::prelude::*;
use vstd::string::*;

verus! {

/// What can go wrong while managing an instance. Failures reported by the
/// operating system or the database driver are carried as their messages.
#[derive(Debug, Clone, PartialEq, Eq)]
pub enum Error {
    Io(String),
    Extract(String),
    InitDb(String),
    Start(String),
    Stop(String),
    Query(String),
    Config(String),
    Sqlx(String),
}

/// An `Error` with its message as a character sequence.
pub enum ErrorView {
    Io(Seq<char>),
    Extract(Seq<char>),
    InitDb(Seq<char>),
    Start(Seq<char>),
    Stop(Seq<char>),
    Query(Seq<char>),
    Config(Seq<char>),
    Sqlx(Seq<char>),
}

impl View for Error {
    type V = ErrorView;

    open spec fn view(&self) -> ErrorView {
        match self {
            Error::Io(m) => ErrorView::Io(m@),
            Error::Extract(m) => ErrorView::Extract(m@),
            Error::InitDb(m) => ErrorView::InitDb(m@),
            Error::Start(m) => ErrorView::Start(m@),
            Error::Stop(m) => ErrorView::Stop(m@),
            Error::Query(m) => ErrorView::Query(m@),
            Error::Config(m) => ErrorView::Config(m@),
            Error::Sqlx(m) => ErrorView::Sqlx(m@),
        }
    }
}

/// The message of an error, as its `Display` form in the original shows it.
pub open spec fn error_message(e: ErrorView) -> Seq<char> {
    match e {
        ErrorView::Io(m) => "IO error: "@ + m,
        ErrorView::Extract(m) => "extraction failed: "@ + m,
        ErrorView::InitDb(m) => "initdb failed: "@ + m,
        ErrorView::Start(m) => "postgres start failed: "@ + m,
        ErrorView::Stop(m) => "postgres stop failed: "@ + m,
        ErrorView::Query(m) => "query error: "@ + m,
        ErrorView::Config(m) => "configuration error: "@ + m,
        ErrorView::Sqlx(m) => "sqlx error: "@ + m,
    }
}

impl Error {
    /// The error's message.
    pub fn to_string(&self) -> (s: String)
        ensures
            s@ == error_message(self@),
    {
        let (prefix, m) = match self {
            Error::Io(m) => ("IO error: ", m),
            Error::Extract(m) => ("extraction failed: ", m),
            Error::InitDb(m) => ("initdb failed: ", m),
            Error::Start(m) => ("postgres start failed: ", m),
            Error::Stop(m) => ("postgres stop failed: ", m),
            Error::Query(m) => ("query error: ", m),
            Error::Config(m) => ("configuration error: ", m),
            Error::Sqlx(m) => ("sqlx error: ", m),
        };
        let mut s = String::from_str(prefix);
        s.append(m.as_str());
        s
    }
}

} // verus!
