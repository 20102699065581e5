//! The data model: the closed set of commands the shell understands, the
//! error taxonomy of their handlers, and the spec-level views of both.

use vstd::prelude::*;
use vstd::string::StringExecFns;

verus! {

/// One parsed input line.  A value is immutable and self-describing: the
/// executor needs nothing beyond it (and ambient OS state) to run it.
///
/// Missing positional arguments are `None`, never empty strings.
pub enum Command {
    /// List the current working directory.  Takes no payload; any extra
    /// tokens on the line are ignored.
    Dir,
    /// Print the static table of builtins.
    Help,
    /// Report volume / filesystem information for the current directory.
    Vol,
    /// Display or change the `PATH` variable: no subcommand displays it,
    /// `clear` empties it, `set` (with a value) replaces it.
    Path(Option<String>, Option<String>),
    /// List the running processes.
    TaskList,
    /// Open the platform's text editor.
    Notepad,
    /// Print up to four tokens joined by single spaces.
    Echo(Option<String>, Option<String>, Option<String>, Option<String>),
    /// Change terminal colors.  The payload is the whole remainder of the
    /// line after the verb (tokens re-joined with single spaces), so that
    /// several `key=value` settings can be given on one line.
    Color(Option<String>),
    /// Ping a host: the payload is the address to ping.
    Ping(Option<String>),
    /// Leave the shell.
    Exit,
    /// Anything whose verb is not a builtin.
    Unknown,
}

/// Spec-level mirror of [`Command`]: the same variants over `Seq<char>`.
pub enum CmdView {
    Dir,
    Help,
    Vol,
    Path(Option<Seq<char>>, Option<Seq<char>>),
    TaskList,
    Notepad,
    Echo(Option<Seq<char>>, Option<Seq<char>>, Option<Seq<char>>, Option<Seq<char>>),
    Color(Option<Seq<char>>),
    Ping(Option<Seq<char>>),
    Exit,
    Unknown,
}

/// The view of an optional argument: `None` stays `None`.
pub open spec fn ov(o: Option<String>) -> Option<Seq<char>> {
    match o {
        Option::Some(s) => Option::Some(s@),
        Option::None => Option::None,
    }
}

impl View for Command {
    type V = CmdView;

    open spec fn view(&self) -> CmdView {
        match self {
            Command::Dir => CmdView::Dir,
            Command::Help => CmdView::Help,
            Command::Vol => CmdView::Vol,
            Command::Path(a, b) => CmdView::Path(ov(*a), ov(*b)),
            Command::TaskList => CmdView::TaskList,
            Command::Notepad => CmdView::Notepad,
            Command::Echo(a, b, c, d) => CmdView::Echo(ov(*a), ov(*b), ov(*c), ov(*d)),
            Command::Color(a) => CmdView::Color(ov(*a)),
            Command::Ping(a) => CmdView::Ping(ov(*a)),
            Command::Exit => CmdView::Exit,
            Command::Unknown => CmdView::Unknown,
        }
    }
}

/// `std::io::Error`, which vstd gives no specification, declared so that
/// [`CommandError::IOError`] can carry the underlying OS error itself.
/// Values of it are opaque here.
#[verifier::external_type_specification]
#[verifier::external_body]
pub struct ExIoError(std::io::Error);

/// Why a handler failed.  A value is constructed at the point of failure,
/// carried unchanged to the top of the dispatch, rendered once, and dropped.
#[derive(Debug)]
pub enum CommandError {
    /// An underlying OS or filesystem error.
    IOError(std::io::Error),
    /// No handler exists for the command.
    NotFound(String),
    /// An argument was present but semantically wrong.
    InvalidArgument(String),
    /// A required argument was absent.
    MissingArguments(String),
    /// Reserved: no handler currently reports it.
    TooManyArguments(String),
    /// An external process could not be spawned or exited unsuccessfully.
    CommandFailed(String),
}

/// Relies on `std::io::Error`'s `Display` implementation to render the
/// underlying OS error; nothing is assumed of the resulting text.
#[verifier::external_body]
pub(crate) fn io_error_text(e: &std::io::Error) -> String {
    format!("{}", e)
}

impl CommandError {
    /// The one-line description the shell prints for this error.
    ///
    /// For [`CommandError::IOError`] only the prefix is pinned down: the
    /// rest is the OS error's own text, which is opaque here.
    pub fn message(&self) -> (r: String)
        ensures
            self matches CommandError::IOError(_) ==> r@.len() >= "I/O error "@.len() && r@.take(
                "I/O error "@.len() as int,
            ) == "I/O error "@,
            self matches CommandError::NotFound(m) ==> r@ == "Command not found "@ + m@,
            self matches CommandError::InvalidArgument(m) ==> r@ == "Invalid argument(s) "@ + m@,
            self matches CommandError::MissingArguments(m) ==> r@ == "Missing argument(s) "@ + m@,
            self matches CommandError::TooManyArguments(m) ==> r@ == "Too many arguments "@ + m@,
            self matches CommandError::CommandFailed(m) ==> r@ == "Command failed "@ + m@,
    {
        match self {
            CommandError::IOError(e) => {
                let mut s = String::from_str("I/O error ");
                let t = io_error_text(e);
                s.append(t.as_str());
                proof {
                    assert(s@.take("I/O error "@.len() as int) =~= "I/O error "@);
                }
                s
            },
            CommandError::NotFound(m) => {
                let mut s = String::from_str("Command not found ");
                s.append(m.as_str());
                s
            },
            CommandError::InvalidArgument(m) => {
                let mut s = String::from_str("Invalid argument(s) ");
                s.append(m.as_str());
                s
            },
            CommandError::MissingArguments(m) => {
                let mut s = String::from_str("Missing argument(s) ");
                s.append(m.as_str());
                s
            },
            CommandError::TooManyArguments(m) => {
                let mut s = String::from_str("Too many arguments ");
                s.append(m.as_str());
                s
            },
            CommandError::CommandFailed(m) => {
                let mut s = String::from_str("Command failed ");
                s.append(m.as_str());
                s
            },
        }
    }
}

} // verus!
