//! The dispatcher.  Running a command is split in two: [`os_request`] says
//! what, if anything, the caller must ask the operating system for, and
//! [`execute_checked`] turns the command, the environment and the OS's
//! answer into the lines to print, the terminal steps to apply, and the
//! error to report.  The caller performs the request, feeds the answer
//! back, prints and applies — it decides nothing itself.
//!
//! `Exit` and `Unknown` are for the read-loop to handle before dispatch;
//! should they arrive here anyway, the answer is `NotFound`.

use vstd::prelude::*;
use vstd::pervasive::unreached;
use vstd::string::StrSliceExecFns;
use vstd::string::StringExecFns;

use crate::color::{execute_color, spec_color_ok, spec_color_steps, steps_view, color_usage,
    ColorStep};
use crate::handlers::{execute_dir, execute_echo, execute_help, execute_notepad, execute_path,
    execute_ping, execute_tasklist, execute_vol, execute_vol_windows, entries_view,
    notepad_program, notepad_spawn_prefix, opts_view, ping_failed_msg, ping_spawn_prefix,
    ping_usage, spec_dir_lines, spec_echo, spec_help_lines, spec_notepad_program,
    spec_numbered, spec_path_display, spec_ping_program, spec_tasklist_program, spec_vol_line,
    spec_vol_program, spec_vol_windows_line, path_set_usage, path_usage, tasklist_fail_msg,
    tasklist_program, tasklist_spawn_prefix, vol_program, EnvState, FsEntry, Platform,
    ProcOutput, VolStat};
use crate::models::{ov, CmdView, Command, CommandError};
use crate::parser::spec_tokens;
use crate::strutil::{split_lines, strs_view};

verus! {

/// What the executor needs from the operating system before it can decide
/// a command, if anything.
pub enum OsRequest {
    /// Nothing: the command is decided from its arguments and the
    /// environment alone.
    Nothing,
    /// The current working directory's name and entries.
    ListCurrentDir,
    /// Filesystem statistics for the current working directory.
    StatCurrentDir,
    /// Run this program (name, then arguments), wait, and capture its
    /// output.
    RunProgram(Vec<String>),
    /// Spawn this program (name, then arguments) detached.
    SpawnProgram(Vec<String>),
}

/// The operating system's answer to an [`OsRequest`], carrying the OS error
/// where the request failed.
pub enum OsResponse {
    Nothing,
    DirListing(Result<(String, Vec<FsEntry>), std::io::Error>),
    VolInfo(Result<VolStat, std::io::Error>),
    ProcResult(Result<ProcOutput, std::io::Error>),
    SpawnResult(Result<(), std::io::Error>),
}

/// Everything one command's execution asks of the caller: lines to print,
/// terminal color steps to apply, and the error to report, if any.
pub struct CommandResult {
    pub lines: Vec<String>,
    pub steps: Vec<ColorStep>,
    pub error: Option<CommandError>,
}

/// A plain success: these lines, no terminal steps, no error.
pub open spec fn is_lines(r: CommandResult, lines: Seq<Seq<char>>) -> bool {
    &&& strs_view(r.lines@) == lines
    &&& r.steps@.len() == 0
    &&& r.error is None
}

/// A plain failure: no output, no terminal steps, this error.
pub open spec fn is_failure(r: CommandResult, e: CommandError) -> bool {
    &&& r.lines@.len() == 0
    &&& r.steps@.len() == 0
    &&& r.error == Option::Some(e)
}

/// What the OS must be asked before executing `cmd` on `platform`.
pub fn os_request(cmd: &Command, platform: Platform) -> (r: OsRequest)
    ensures
        cmd@ is Dir ==> r is ListCurrentDir,
        cmd@ is Vol && platform == Platform::Windows ==> (r matches OsRequest::RunProgram(args)
            && strs_view(args@) == spec_vol_program()),
        cmd@ is Vol && platform != Platform::Windows ==> r is StatCurrentDir,
        cmd@ is TaskList ==> (r matches OsRequest::RunProgram(args) && strs_view(args@)
            == spec_tasklist_program(platform)),
        cmd@ is Notepad ==> (r matches OsRequest::SpawnProgram(args) && strs_view(args@)
            == spec_notepad_program(platform)),
        cmd@ matches CmdView::Ping(a) ==> (match a {
            Option::Some(ad) => r matches OsRequest::RunProgram(args) && strs_view(args@)
                == spec_ping_program(platform, ad),
            Option::None => r is Nothing,
        }),
        cmd@ is Help || cmd@ is Path || cmd@ is Echo || cmd@ is Color || cmd@ is Exit || cmd@
            is Unknown ==> r is Nothing,
{
    match cmd {
        Command::Dir => OsRequest::ListCurrentDir,
        Command::Vol => {
            if platform == Platform::Windows {
                OsRequest::RunProgram(vol_program())
            } else {
                OsRequest::StatCurrentDir
            }
        },
        Command::TaskList => OsRequest::RunProgram(tasklist_program(platform)),
        Command::Notepad => OsRequest::SpawnProgram(notepad_program(platform)),
        Command::Ping(a) => {
            match crate::handlers::ping_request(a, platform) {
                Result::Ok(args) => OsRequest::RunProgram(args),
                Result::Err(_) => OsRequest::Nothing,
            }
        },
        _ => OsRequest::Nothing,
    }
}

/// Does an answer fit what [`os_request`] asks for `cmd` on `platform`?
/// The caller establishes this by construction: each request kind has one
/// answer kind.
pub open spec fn response_matches(cmd: CmdView, platform: Platform, os: OsResponse) -> bool {
    match cmd {
        CmdView::Dir => os is DirListing,
        CmdView::Vol => if platform == Platform::Windows {
            os is ProcResult
        } else {
            os is VolInfo
        },
        CmdView::TaskList => os is ProcResult,
        CmdView::Notepad => os is SpawnResult,
        CmdView::Ping(a) => if a is Some {
            os is ProcResult
        } else {
            os is Nothing
        },
        _ => os is Nothing,
    }
}

/// Wrap a handler's outcome as a [`CommandResult`].
fn lines_result(out: Result<Vec<String>, CommandError>) -> (r: CommandResult)
    ensures
        out matches Ok(lines) ==> r.lines == lines && r.steps@.len() == 0 && r.error is None,
        out matches Err(e) ==> is_failure(r, e),
{
    match out {
        Result::Ok(lines) => CommandResult { lines, steps: Vec::new(), error: Option::None },
        Result::Err(e) => CommandResult {
            lines: Vec::new(),
            steps: Vec::new(),
            error: Option::Some(e),
        },
    }
}

/// Execute one command against the environment and the OS's answer.
///
/// Every decision the shell makes for a command is here or in the handler
/// this routes to; the caller only performs the request, prints `lines`,
/// applies `steps`, and reports `error`.  Only `path set` and `path clear`
/// change the environment.
pub fn execute_checked(cmd: Command, env: &mut EnvState, platform: Platform, os: OsResponse) -> (r:
    CommandResult)
    requires
        response_matches(cmd@, platform, os),
    ensures
        !(cmd@ is Path) ==> final(env)@ == old(env)@,
        cmd@ is Dir ==> (os matches OsResponse::DirListing(res) && (match res {
            Result::Ok(l) => is_lines(r, spec_dir_lines(l.0@, entries_view(l.1@))),
            Result::Err(e) => r.lines@.len() == 0 && r.steps@.len() == 0 && (r.error matches Some(
                ce,
            ) && ce matches CommandError::IOError(e2) && e2 == e),
        })),
        cmd@ is Help ==> is_lines(r, spec_help_lines()),
        cmd@ is Vol && platform != Platform::Windows ==> (os matches OsResponse::VolInfo(res) && (
        match res {
            Result::Ok(st) => is_lines(r, seq![spec_vol_line(st)]),
            Result::Err(e) => r.lines@.len() == 0 && r.steps@.len() == 0 && (r.error matches Some(
                ce,
            ) && ce matches CommandError::IOError(e2) && e2 == e),
        })),
        cmd@ is Vol && platform == Platform::Windows ==> (os matches OsResponse::ProcResult(res)
            && (match res {
            Result::Ok(out) => is_lines(r, seq![spec_vol_windows_line(out.stdout@)]),
            Result::Err(e) => r.lines@.len() == 0 && r.steps@.len() == 0 && (r.error matches Some(
                ce,
            ) && ce matches CommandError::IOError(e2) && e2 == e),
        })),
        cmd@ matches CmdView::Path(sub, value) ==> {
            &&& sub is None ==> final(env)@ == old(env)@ && is_lines(
                r,
                seq![spec_path_display(old(env)@)],
            )
            &&& (sub matches Some(s) && s == "clear"@) ==> final(env)@ == Option::Some(
                Seq::<char>::empty(),
            ) && is_lines(r, seq!["PATH has been cleared."@])
            &&& (sub matches Some(s) && s == "set"@) ==> (match value {
                Option::Some(v) => final(env)@ == Option::Some(v) && is_lines(
                    r,
                    seq!["PATH has been set to: "@ + v],
                ),
                Option::None => final(env)@ == old(env)@ && r.lines@.len() == 0 && r.steps@.len()
                    == 0 && (r.error matches Some(e) && e matches CommandError::MissingArguments(m)
                    && m@ == path_set_usage()),
            })
            &&& (sub matches Some(s) && s != "clear"@ && s != "set"@) ==> final(env)@ == old(env)@
                && r.lines@.len() == 0 && r.steps@.len() == 0 && (r.error matches Some(e) && e
                matches CommandError::InvalidArgument(m) && m@ == path_usage())
        },
        cmd@ is TaskList ==> (os matches OsResponse::ProcResult(res) && (match res {
            Result::Ok(out) => {
                &&& out.success ==> is_lines(r, spec_numbered(split_lines(out.stdout@)))
                &&& !out.success ==> r.lines@.len() == 0 && r.steps@.len() == 0 && (
                r.error matches Some(e) && e matches CommandError::CommandFailed(m) && m@
                    == tasklist_fail_msg())
            },
            Result::Err(_) => r.lines@.len() == 0 && r.steps@.len() == 0 && (r.error matches Some(
                e,
            ) && e matches CommandError::CommandFailed(m) && m@.len()
                >= tasklist_spawn_prefix().len() && m@.take(tasklist_spawn_prefix().len() as int)
                == tasklist_spawn_prefix()),
        })),
        cmd@ is Notepad ==> (os matches OsResponse::SpawnResult(res) && (match res {
            Result::Ok(_) => is_lines(r, seq!["Notepad opened!"@]),
            Result::Err(_) => r.lines@.len() == 0 && r.steps@.len() == 0 && (r.error matches Some(
                e,
            ) && e matches CommandError::CommandFailed(m) && m@.len()
                >= notepad_spawn_prefix().len() && m@.take(notepad_spawn_prefix().len() as int)
                == notepad_spawn_prefix()),
        })),
        cmd@ matches CmdView::Echo(a1, a2, a3, a4) ==> is_lines(
            r,
            seq![spec_echo(seq![a1, a2, a3, a4])],
        ),
        cmd@ matches CmdView::Color(p) ==> {
            &&& r.lines@.len() == 0
            &&& p is None ==> r.steps@.len() == 0 && (r.error matches Some(e) && e matches
                CommandError::MissingArguments(m) && m@ == color_usage())
            &&& p matches Some(pl) ==> {
                &&& steps_view(r.steps@) == spec_color_steps(spec_tokens(pl))
                &&& spec_color_ok(spec_tokens(pl)) ==> r.error is None
                &&& !spec_color_ok(spec_tokens(pl)) ==> (r.error matches Some(e) && e matches
                    CommandError::InvalidArgument(m) && m@ == color_usage())
            }
        },
        cmd@ matches CmdView::Ping(a) ==> (match a {
            Option::Some(ad) => os matches OsResponse::ProcResult(res) && (match res {
                Result::Ok(out) => {
                    &&& out.success ==> is_lines(r, seq![out.stdout@])
                    &&& !out.success ==> r.lines@.len() == 0 && r.steps@.len() == 0 && (
                    r.error matches Some(e) && e matches CommandError::CommandFailed(m) && m@
                        == ping_failed_msg(ad))
                },
                Result::Err(_) => r.lines@.len() == 0 && r.steps@.len() == 0 && (
                r.error matches Some(e) && e matches CommandError::CommandFailed(m) && m@.len()
                    >= ping_spawn_prefix().len() && m@.take(ping_spawn_prefix().len() as int)
                    == ping_spawn_prefix()),
            }),
            Option::None => r.lines@.len() == 0 && r.steps@.len() == 0 && (r.error matches Some(e)
                && e matches CommandError::MissingArguments(m) && m@ == ping_usage()),
        }),
        cmd@ is Exit || cmd@ is Unknown ==> r.lines@.len() == 0 && r.steps@.len() == 0 && (
        r.error matches Some(e) && e matches CommandError::NotFound(m) && m@
            == "Command not found\n"@),
{
    match cmd {
        Command::Dir => match os {
            OsResponse::DirListing(res) => lines_result(execute_dir(res)),
            _ => unreached(),
        },
        Command::Help => lines_result(execute_help()),
        Command::Vol => {
            if platform == Platform::Windows {
                match os {
                    OsResponse::ProcResult(res) => lines_result(execute_vol_windows(res)),
                    _ => unreached(),
                }
            } else {
                match os {
                    OsResponse::VolInfo(res) => lines_result(execute_vol(res)),
                    _ => unreached(),
                }
            }
        },
        Command::Path(sub, value) => {
            match execute_path(&sub, &value, env) {
                Result::Ok(m) => {
                    let mut lines: Vec<String> = Vec::new();
                    let ghost mv = m@;
                    lines.push(m);
                    proof {
                        assert(strs_view(lines@) =~= seq![mv]);
                    }
                    CommandResult { lines, steps: Vec::new(), error: Option::None }
                },
                Result::Err(e) => CommandResult {
                    lines: Vec::new(),
                    steps: Vec::new(),
                    error: Option::Some(e),
                },
            }
        },
        Command::TaskList => match os {
            OsResponse::ProcResult(res) => lines_result(execute_tasklist(res)),
            _ => unreached(),
        },
        Command::Notepad => match os {
            OsResponse::SpawnResult(res) => lines_result(execute_notepad(res)),
            _ => unreached(),
        },
        Command::Echo(a1, a2, a3, a4) => {
            let mut args: Vec<Option<String>> = Vec::new();
            let ghost gv = (ov(a1), ov(a2), ov(a3), ov(a4));
            args.push(a1);
            args.push(a2);
            args.push(a3);
            args.push(a4);
            proof {
                assert(opts_view(args@) =~= seq![gv.0, gv.1, gv.2, gv.3]);
            }
            match execute_echo(&args) {
                Result::Ok(s) => {
                    let mut lines: Vec<String> = Vec::new();
                    let ghost sv = s@;
                    lines.push(s);
                    proof {
                        assert(strs_view(lines@) =~= seq![sv]);
                    }
                    CommandResult { lines, steps: Vec::new(), error: Option::None }
                },
                Result::Err(_) => unreached(),
            }
        },
        Command::Color(p) => {
            let (steps, res) = execute_color(&p);
            let error = match res {
                Result::Ok(_) => Option::None,
                Result::Err(e) => Option::Some(e),
            };
            CommandResult { lines: Vec::new(), steps, error }
        },
        Command::Ping(a) => match a {
            Option::Some(ad) => match os {
                OsResponse::ProcResult(res) => lines_result(execute_ping(ad.as_str(), res)),
                _ => unreached(),
            },
            Option::None => CommandResult {
                lines: Vec::new(),
                steps: Vec::new(),
                error: Option::Some(
                    CommandError::MissingArguments(
                        String::from_str("\nCorrect usage: ping <address>\n"),
                    ),
                ),
            },
        },
        Command::Exit | Command::Unknown => CommandResult {
            lines: Vec::new(),
            steps: Vec::new(),
            error: Option::Some(
                CommandError::NotFound(String::from_str("Command not found\n")),
            ),
        },
    }
}

} // verus!
