//! The error type of the server, the causes that an error wraps, and the lines that
//! report an error together with its causes.

use vstd::prelude::*;
use vstd::string::*;

verus! {

/// What lies behind a wrapped error: its own description first, then the description of
/// each error that it wraps in turn, outermost first.
#[derive(Clone, Debug, PartialEq, Eq)]
pub struct Cause {
    pub chain: Vec<String>,
}

impl View for Cause {
    type V = Seq<Seq<char>>;

    open spec fn view(&self) -> Seq<Seq<char>> {
        self.chain.deep_view()
    }
}

impl Cause {
    /// A cause with a single description.
    pub fn new(description: String) -> (r: Cause)
        ensures
            r@ == seq![description@],
    {
        let mut chain: Vec<String> = Vec::new();
        chain.push(description);
        Cause { chain }
    }
}

/// Everything that can go wrong while a request is served.
///
/// The first five variants wrap a failure of a collaborator; the last two say what is
/// wrong with the request itself and wrap nothing.
#[derive(Clone, Debug, PartialEq, Eq)]
pub enum Error {
    Http(Cause),
    Hyper(Cause),
    Io(Cause),
    AddrParse(Cause),
    TemplateRender(Cause),
    UriNotAbsolute,
    UriNotUtf8,
}

/// An `Error` as a mathematical value.
pub enum ErrorView {
    Http(Seq<Seq<char>>),
    Hyper(Seq<Seq<char>>),
    Io(Seq<Seq<char>>),
    AddrParse(Seq<Seq<char>>),
    TemplateRender(Seq<Seq<char>>),
    UriNotAbsolute,
    UriNotUtf8,
}

impl ErrorView {
    /// The error's own description.
    pub open spec fn message(self) -> Seq<char> {
        match self {
            ErrorView::Http(_) => "HTTP error"@,
            ErrorView::Hyper(_) => "Hyper error"@,
            ErrorView::Io(_) => "I/O error"@,
            ErrorView::AddrParse(_) => "failed to parse IP address"@,
            ErrorView::TemplateRender(_) => "failed to render template"@,
            ErrorView::UriNotAbsolute => "requested URI is not an absolute path"@,
            ErrorView::UriNotUtf8 => "requested URI is not UTF-8"@,
        }
    }

    /// The chain of causes that the error wraps, if it wraps any.
    pub open spec fn source(self) -> Option<Seq<Seq<char>>> {
        match self {
            ErrorView::Http(c) => Some(c),
            ErrorView::Hyper(c) => Some(c),
            ErrorView::Io(c) => Some(c),
            ErrorView::AddrParse(c) => Some(c),
            ErrorView::TemplateRender(c) => Some(c),
            ErrorView::UriNotAbsolute => None,
            ErrorView::UriNotUtf8 => None,
        }
    }

    /// The report of the error: one line for the error, then one for each cause.
    pub open spec fn report(self) -> Seq<Seq<char>> {
        let causes = match self.source() {
            Some(c) => c,
            None => Seq::empty(),
        };
        seq!["error: "@ + self.message()] + Seq::new(
            causes.len(),
            |i: int| "caused by: "@ + causes[i],
        )
    }
}

impl View for Error {
    type V = ErrorView;

    open spec fn view(&self) -> ErrorView {
        match self {
            Error::Http(c) => ErrorView::Http(c@),
            Error::Hyper(c) => ErrorView::Hyper(c@),
            Error::Io(c) => ErrorView::Io(c@),
            Error::AddrParse(c) => ErrorView::AddrParse(c@),
            Error::TemplateRender(c) => ErrorView::TemplateRender(c@),
            Error::UriNotAbsolute => ErrorView::UriNotAbsolute,
            Error::UriNotUtf8 => ErrorView::UriNotUtf8,
        }
    }
}

impl Error {
    /// The error's own description, without its causes.
    pub fn message(&self) -> (r: String)
        ensures
            r@ == self@.message(),
    {
        match self {
            Error::Http(_) => String::from_str("HTTP error"),
            Error::Hyper(_) => String::from_str("Hyper error"),
            Error::Io(_) => String::from_str("I/O error"),
            Error::AddrParse(_) => String::from_str("failed to parse IP address"),
            Error::TemplateRender(_) => String::from_str("failed to render template"),
            Error::UriNotAbsolute => String::from_str("requested URI is not an absolute path"),
            Error::UriNotUtf8 => String::from_str("requested URI is not UTF-8"),
        }
    }

    /// The cause that the error wraps; none for the two errors about the request itself.
    pub fn source(&self) -> (r: Option<&Cause>)
        ensures
            match r {
                Some(c) => self@.source() == Some(c@),
                None => self@.source() is None,
            },
    {
        match self {
            Error::Http(c) => Some(c),
            Error::Hyper(c) => Some(c),
            Error::Io(c) => Some(c),
            Error::AddrParse(c) => Some(c),
            Error::TemplateRender(c) => Some(c),
            Error::UriNotAbsolute => None,
            Error::UriNotUtf8 => None,
        }
    }
}

/// The lines that report `e` and its chain of causes: `error: ` and the error's
/// description, then `caused by: ` and a cause for each cause, outermost first.
pub fn log_error_chain(e: &Error) -> (lines: Vec<String>)
    ensures
        lines.deep_view() == e@.report(),
{
    let mut lines: Vec<String> = Vec::new();
    let mut first = String::from_str("error: ");
    let message = e.message();
    first.append(message.as_str());
    lines.push(first);
    if let Some(cause) = e.source() {
        let n = cause.chain.len();
        let mut i: usize = 0;
        while i < n
            invariant
                n == cause.chain.len(),
                i <= n,
                e@.source() == Some(cause@),
                lines.len() == i + 1,
                forall|j: int| 0 <= j < i + 1 ==> lines@[j]@ == #[trigger] e@.report()[j],
            decreases n - i,
        {
            let mut line = String::from_str("caused by: ");
            line.append(cause.chain[i].as_str());
            lines.push(line);
            i += 1;
        }
    }
    lines
}

/// How serious a log record is.
#[derive(Clone, Copy, Debug, PartialEq, Eq)]
pub enum Level {
    Error,
    Debug,
}

/// One line for the log, with its level.
#[derive(Clone, Debug, PartialEq, Eq)]
pub struct LogRecord {
    pub level: Level,
    pub text: String,
}

impl View for LogRecord {
    type V = (Level, Seq<char>);

    open spec fn view(&self) -> (Level, Seq<char>) {
        (self.level, self.text@)
    }
}

} // verus!
