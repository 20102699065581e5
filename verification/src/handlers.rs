//! The per-command handlers.  Each one is a function from plain values to
//! plain values: whatever the operating system contributed (directory
//! entries, filesystem statistics, a process's output, a spawn outcome) is
//! handed in as an argument, and the handler is verified for every value of
//! it.  Handlers return the lines to print, or the error to report.

use vstd::prelude::*;
use vstd::string::StrSliceExecFns;
use vstd::string::StringExecFns;

use crate::models::{CommandError, ov};
use crate::parser::{join_from, join_tokens};
use crate::strutil::{dec_rep, dec_string, lines_of, push_dec, split_lines, str_eq, strs_view};

verus! {

/// The platform the shell runs on, fixed once at startup.  It selects the
/// external tool names and flags several handlers use.
#[derive(Clone, Copy, PartialEq, Eq, Structural, Debug)]
pub enum Platform {
    Windows,
    MacOs,
    Linux,
}

/// The process-wide environment as far as the shell touches it: the `PATH`
/// variable, absent or present with a value.  The caller mirrors it into
/// the real process environment.
pub struct EnvState {
    pub path: Option<String>,
}

impl View for EnvState {
    type V = Option<Seq<char>>;

    open spec fn view(&self) -> Option<Seq<char>> {
        ov(self.path)
    }
}

/// One directory entry: its file name and whether it is a directory.
pub struct FsEntry {
    pub name: String,
    pub is_dir: bool,
}

/// The view of a directory listing: each entry's name and kind, in order.
pub open spec fn entries_view(v: Seq<FsEntry>) -> Seq<(Seq<char>, bool)> {
    v.map_values(|e: FsEntry| (e.name@, e.is_dir))
}

/// Filesystem statistics for one directory, as `statvfs` reports them.
pub struct VolStat {
    pub fs_id: u64,
    pub blocks_free: u64,
    pub block_size: u64,
}

/// What running an external process produced: whether it exited
/// successfully, and its captured standard output.
pub struct ProcOutput {
    pub success: bool,
    pub stdout: String,
}

/// The views of four optional arguments.
pub open spec fn opts_view(v: Seq<Option<String>>) -> Seq<Option<Seq<char>>> {
    v.map_values(|o: Option<String>| ov(o))
}

// ---------------------------------------------------------------------------
// Platform strategy table
// ---------------------------------------------------------------------------

/// The process-list command of each platform.
pub open spec fn spec_tasklist_program(p: Platform) -> Seq<Seq<char>> {
    if p is Windows {
        seq!["tasklist"@]
    } else {
        seq!["ps"@, "-e"@, "-o"@, "pid,comm"@]
    }
}

/// The process-list command line: `tasklist` on Windows, `ps` elsewhere.
pub fn tasklist_program(p: Platform) -> (r: Vec<String>)
    ensures
        strs_view(r@) == spec_tasklist_program(p),
{
    let mut r: Vec<String> = Vec::new();
    match p {
        Platform::Windows => {
            r.push(String::from_str("tasklist"));
        },
        _ => {
            r.push(String::from_str("ps"));
            r.push(String::from_str("-e"));
            r.push(String::from_str("-o"));
            r.push(String::from_str("pid,comm"));
        },
    }
    proof {
        assert(strs_view(r@) =~= spec_tasklist_program(p));
    }
    r
}

/// The text-editor command of each platform.
pub open spec fn spec_notepad_program(p: Platform) -> Seq<Seq<char>> {
    match p {
        Platform::Windows => seq!["notepad.exe"@],
        Platform::MacOs => seq!["open"@, "-a"@, "TextEdit"@],
        Platform::Linux => seq!["gedit"@],
    }
}

/// The text-editor command line: `notepad.exe`, `open -a TextEdit`, or
/// `gedit`, by platform.
pub fn notepad_program(p: Platform) -> (r: Vec<String>)
    ensures
        strs_view(r@) == spec_notepad_program(p),
{
    let mut r: Vec<String> = Vec::new();
    match p {
        Platform::Windows => {
            r.push(String::from_str("notepad.exe"));
        },
        Platform::MacOs => {
            r.push(String::from_str("open"));
            r.push(String::from_str("-a"));
            r.push(String::from_str("TextEdit"));
        },
        Platform::Linux => {
            r.push(String::from_str("gedit"));
        },
    }
    proof {
        assert(strs_view(r@) =~= spec_notepad_program(p));
    }
    r
}

/// The volume-information command of Windows (`cmd /C vol`); the other
/// platforms read filesystem statistics instead of running a program.
pub open spec fn spec_vol_program() -> Seq<Seq<char>> {
    seq!["cmd"@, "/C"@, "vol"@]
}

/// The Windows volume-information command line.
pub fn vol_program() -> (r: Vec<String>)
    ensures
        strs_view(r@) == spec_vol_program(),
{
    let mut r: Vec<String> = Vec::new();
    r.push(String::from_str("cmd"));
    r.push(String::from_str("/C"));
    r.push(String::from_str("vol"));
    proof {
        assert(strs_view(r@) =~= spec_vol_program());
    }
    r
}

/// The ping command of each platform: four echo requests, with `-n` naming
/// the count on Windows and `-c` elsewhere.
pub open spec fn spec_ping_program(p: Platform, address: Seq<char>) -> Seq<Seq<char>> {
    seq![
        "ping"@,
        if p is Windows {
            "-n"@
        } else {
            "-c"@
        },
        "4"@,
        address,
    ]
}

// ---------------------------------------------------------------------------
// help
// ---------------------------------------------------------------------------

/// `n` spaces.
pub open spec fn spaces(n: nat) -> Seq<char> {
    Seq::new(n, |i: int| ' ')
}

/// `s` padded with spaces to at least `w` characters.
pub open spec fn pad_to(s: Seq<char>, w: nat) -> Seq<char> {
    if s.len() >= w {
        s
    } else {
        s + spaces((w - s.len()) as nat)
    }
}

/// One row of the help table: the verb padded to ten columns, a dash, its
/// description.
pub open spec fn help_line(verb: Seq<char>, desc: Seq<char>) -> Seq<char> {
    pad_to(verb, 10) + " - "@ + desc
}

/// The full help output: a title line and one row per builtin.
pub open spec fn spec_help_lines() -> Seq<Seq<char>> {
    seq![
        "Available commands:"@,
        help_line("dir"@, "Lists the contents of a directory."@),
        help_line("help"@, "Displays this list of commands."@),
        help_line("vol"@, "Displays the disk volume label and serial number."@),
        help_line("path"@, "Displays or sets a search path for executable files."@),
        help_line("tasklist"@, "Displays a list of currently running processes."@),
        help_line("notepad"@, "Opens Notepad, a simple text editor."@),
        help_line("echo"@, "Displays messages, or turns command echoing on or off."@),
        help_line("color"@, "Sets the default console foreground and background colors."@),
        help_line("ping"@, "Sends ICMP ECHO_REQUEST packets to network hosts."@),
        help_line("exit"@, "Exit the Shell"@),
    ]
}

/// Build one help row.
fn make_help_line(verb: &str, desc: &str) -> (r: String)
    ensures
        r@ == help_line(verb@, desc@),
{
    let mut s = String::from_str(verb);
    let mut w = verb.unicode_len();
    proof {
        reveal_strlit(" ");
        assert(" "@ =~= seq![' ']);
        assert(s@ == verb@);
        assert(spaces(0) =~= Seq::<char>::empty());
        assert(verb@ + spaces(0) =~= verb@);
        assert(s@ =~= verb@ + spaces(0));
    }
    while w < 10
        invariant
            verb@.len() <= w,
            verb@.len() < 10 ==> w <= 10,
            verb@.len() >= 10 ==> w == verb@.len(),
            s@ == verb@ + spaces((w - verb@.len()) as nat),
        decreases 10 - w,
    {
        s.append(" ");
        proof {
            reveal_strlit(" ");
            assert(" "@ =~= seq![' ']);
            assert(verb@ + spaces((w - verb@.len()) as nat) + seq![' '] =~= verb@ + spaces(
                (w + 1 - verb@.len()) as nat,
            ));
        }
        w += 1;
    }
    proof {
        assert(s@ == pad_to(verb@, 10)) by {
            if verb@.len() >= 10 {
                assert(s@ =~= verb@ + spaces(0));
                assert(verb@ + spaces(0) =~= verb@);
            }
        }
    }
    s.append(" - ");
    s.append(desc);
    proof {
        assert((pad_to(verb@, 10) + " - "@) + desc@ =~= pad_to(verb@, 10) + " - "@ + desc@);
    }
    s
}

/// Print the table of builtins.  Never fails, and depends on nothing but
/// the static table, so two runs produce identical output.
pub fn execute_help() -> (r: Result<Vec<String>, CommandError>)
    ensures
        r matches Ok(lines) && strs_view(lines@) == spec_help_lines(),
{
    let mut lines: Vec<String> = Vec::new();
    lines.push(String::from_str("Available commands:"));
    lines.push(make_help_line("dir", "Lists the contents of a directory."));
    lines.push(make_help_line("help", "Displays this list of commands."));
    lines.push(make_help_line("vol", "Displays the disk volume label and serial number."));
    lines.push(make_help_line("path", "Displays or sets a search path for executable files."));
    lines.push(make_help_line("tasklist", "Displays a list of currently running processes."));
    lines.push(make_help_line("notepad", "Opens Notepad, a simple text editor."));
    lines.push(make_help_line("echo", "Displays messages, or turns command echoing on or off."));
    lines.push(
        make_help_line("color", "Sets the default console foreground and background colors."),
    );
    lines.push(make_help_line("ping", "Sends ICMP ECHO_REQUEST packets to network hosts."));
    lines.push(make_help_line("exit", "Exit the Shell"));
    proof {
        assert(strs_view(lines@) =~= spec_help_lines());
    }
    Result::Ok(lines)
}

/// The help output is a constant: any two runs of [`execute_help`] print
/// the same lines.
pub proof fn lemma_help_deterministic(a: Seq<String>, b: Seq<String>)
    requires
        strs_view(a) == spec_help_lines(),
        strs_view(b) == spec_help_lines(),
    ensures
        strs_view(a) == strs_view(b),
{
}

// ---------------------------------------------------------------------------
// echo
// ---------------------------------------------------------------------------

/// The arguments that are present, in order; absent slots contribute
/// nothing at all.
pub open spec fn present_tokens(args: Seq<Option<Seq<char>>>) -> Seq<Seq<char>>
    decreases args.len(),
{
    if args.len() == 0 {
        Seq::empty()
    } else {
        match args[0] {
            Option::Some(t) => seq![t] + present_tokens(args.drop_first()),
            Option::None => present_tokens(args.drop_first()),
        }
    }
}

proof fn lemma_present_push(args: Seq<Option<Seq<char>>>, x: Option<Seq<char>>)
    ensures
        present_tokens(args.push(x)) == present_tokens(args) + (match x {
            Option::Some(t) => seq![t],
            Option::None => Seq::<Seq<char>>::empty(),
        }),
    decreases args.len(),
{
    if args.len() == 0 {
        assert(args.push(x).drop_first() =~= Seq::<Option<Seq<char>>>::empty());
        assert(args.push(x)[0] == x);
        assert(present_tokens(Seq::<Option<Seq<char>>>::empty()) == Seq::<Seq<char>>::empty()) by {
            reveal_with_fuel(present_tokens, 2);
        }
        match x {
            Option::Some(t) => {
                assert(present_tokens(args.push(x)) =~= seq![t]);
                assert(present_tokens(args) + seq![t] =~= seq![t]);
            },
            Option::None => {
                assert(present_tokens(args.push(x)) =~= Seq::<Seq<char>>::empty());
                assert(present_tokens(args) + Seq::<Seq<char>>::empty() =~= Seq::<
                    Seq<char>,
                >::empty());
            },
        }
    } else {
        assert(args.push(x).drop_first() =~= args.drop_first().push(x));
        assert(args.push(x)[0] == args[0]);
        lemma_present_push(args.drop_first(), x);
        match args[0] {
            Option::Some(t0) => {
                assert(present_tokens(args.push(x)) =~= present_tokens(args) + (match x {
                    Option::Some(t) => seq![t],
                    Option::None => Seq::<Seq<char>>::empty(),
                }));
            },
            Option::None => {},
        }
    }
}

/// What `echo` prints: the present arguments joined with single spaces.
pub open spec fn spec_echo(args: Seq<Option<Seq<char>>>) -> Seq<char> {
    join_tokens(present_tokens(args))
}

/// Join the present arguments with single spaces.  Absent arguments
/// contribute nothing — in particular no separator.  Never fails.
pub fn execute_echo(args: &Vec<Option<String>>) -> (r: Result<String, CommandError>)
    ensures
        r matches Ok(s) && s@ == spec_echo(opts_view(args@)),
{
    let ghost av = opts_view(args@);
    let mut present: Vec<String> = Vec::new();
    let mut i: usize = 0;
    proof {
        assert(av.take(0) =~= Seq::<Option<Seq<char>>>::empty());
        assert(strs_view(present@) =~= present_tokens(av.take(0)));
    }
    while i < args.len()
        invariant
            av == opts_view(args@),
            i <= args@.len(),
            strs_view(present@) == present_tokens(av.take(i as int)),
        decreases args@.len() - i,
    {
        proof {
            assert(av[i as int] == ov(args@[i as int]));
            assert(av.take(i + 1) =~= av.take(i as int).push(av[i as int]));
            lemma_present_push(av.take(i as int), av[i as int]);
        }
        match &args[i] {
            Option::Some(s) => {
                let t = s.clone();
                proof {
                    assert(strs_view(present@.push(t)) =~= strs_view(present@) + seq![t@]);
                }
                present.push(t);
            },
            Option::None => {
                proof {
                    assert(strs_view(present@) + Seq::<Seq<char>>::empty() =~= strs_view(present@));
                }
            },
        }
        i += 1;
    }
    proof {
        assert(av.take(args@.len() as int) =~= av);
    }
    if present.len() == 0 {
        proof {
            assert(strs_view(present@) =~= Seq::<Seq<char>>::empty());
            assert(join_tokens(Seq::<Seq<char>>::empty()) =~= Seq::<char>::empty());
        }
        Result::Ok(String::new())
    } else {
        let joined = join_from(&present, 0);
        proof {
            assert(strs_view(present@).skip(0) =~= strs_view(present@));
        }
        Result::Ok(joined)
    }
}

// ---------------------------------------------------------------------------
// path
// ---------------------------------------------------------------------------

/// What `path` with no subcommand reports.
pub open spec fn spec_path_display(path: Option<Seq<char>>) -> Seq<char> {
    match path {
        Option::Some(p) => "Current PATH: "@ + p,
        Option::None => "PATH variable is not set."@,
    }
}

pub open spec fn path_set_usage() -> Seq<char> {
    "\nCorrect usage: path set <PATH>\n"@
}

pub open spec fn path_usage() -> Seq<char> {
    "\nCorrect usage: 'path' OR 'path clear' OR 'path set <PATH>'\n"@
}

/// Display or change the `PATH` variable.
///
/// No subcommand reports the current value verbatim (or that none is set)
/// and changes nothing.  `clear` sets it to the empty string.  `set`
/// requires a value and replaces the variable with it; without a value the
/// variable is untouched and the error is `MissingArguments`.  Any other
/// subcommand leaves the variable untouched and is `InvalidArgument`.
pub fn execute_path(sub: &Option<String>, value: &Option<String>, env: &mut EnvState) -> (r: Result<
    String,
    CommandError,
>)
    ensures
        (*sub) is None ==> final(env)@ == old(env)@ && (r matches Ok(m) && m@ == spec_path_display(
            old(env)@,
        )),
        (*sub) matches Some(s) && s@ == "clear"@ ==> final(env)@ == Option::Some(
            Seq::<char>::empty(),
        ) && (r matches Ok(m) && m@ == "PATH has been cleared."@),
        (*sub) matches Some(s) && s@ == "set"@ ==> (match *value {
            Option::Some(v) => final(env)@ == Option::Some(v@) && (r matches Ok(m) && m@
                == "PATH has been set to: "@ + v@),
            Option::None => final(env)@ == old(env)@ && (r matches Err(e) && e matches
                CommandError::MissingArguments(m) && m@ == path_set_usage()),
        }),
        (*sub) matches Some(s) && s@ != "clear"@ && s@ != "set"@ ==> final(env)@ == old(env)@ && (
        r matches Err(e) && e matches CommandError::InvalidArgument(m) && m@ == path_usage()),
{
    proof {
        reveal_strlit("clear");
        reveal_strlit("set");
        assert("clear"@.len() == 5 && "set"@.len() == 3);
    }
    match sub {
        Option::None => {
            match &env.path {
                Option::Some(p) => {
                    let mut m = String::from_str("Current PATH: ");
                    m.append(p.as_str());
                    Result::Ok(m)
                },
                Option::None => Result::Ok(String::from_str("PATH variable is not set.")),
            }
        },
        Option::Some(s) => {
            if str_eq(s.as_str(), "clear") {
                env.path = Option::Some(String::new());
                Result::Ok(String::from_str("PATH has been cleared."))
            } else if str_eq(s.as_str(), "set") {
                match value {
                    Option::Some(v) => {
                        env.path = Option::Some(v.clone());
                        let mut m = String::from_str("PATH has been set to: ");
                        m.append(v.as_str());
                        Result::Ok(m)
                    },
                    Option::None => Result::Err(
                        CommandError::MissingArguments(
                            String::from_str("\nCorrect usage: path set <PATH>\n"),
                        ),
                    ),
                }
            } else {
                Result::Err(
                    CommandError::InvalidArgument(
                        String::from_str(
                            "\nCorrect usage: 'path' OR 'path clear' OR 'path set <PATH>'\n",
                        ),
                    ),
                )
            }
        },
    }
}

/// Setting `PATH` and then displaying it round-trips: the report is the
/// display prefix followed by exactly the value that was set.
pub proof fn lemma_path_round_trip(x: Seq<char>)
    ensures
        spec_path_display(Option::Some(x)).len() == "Current PATH: "@.len() + x.len(),
        spec_path_display(Option::Some(x)).skip("Current PATH: "@.len() as int) == x,
{
    assert(("Current PATH: "@ + x).skip("Current PATH: "@.len() as int) =~= x);
}

// ---------------------------------------------------------------------------
// dir
// ---------------------------------------------------------------------------

/// One line of a directory listing: the quoted entry name and its kind.
pub open spec fn spec_dir_line(name: Seq<char>, is_dir: bool) -> Seq<char> {
    "\""@ + name + "\" - "@ + (if is_dir {
        "Directory"@
    } else {
        "File"@
    })
}

/// The whole listing: a title naming the directory, then one line per
/// entry, in the order the entries were handed in.
pub open spec fn spec_dir_lines(cwd: Seq<char>, entries: Seq<(Seq<char>, bool)>) -> Seq<Seq<char>> {
    seq!["Contents of \""@ + cwd + "\""@] + entries.map_values(
        |e: (Seq<char>, bool)| spec_dir_line(e.0, e.1),
    )
}

/// Build one listing line.
fn dir_line(e: &FsEntry) -> (r: String)
    ensures
        r@ == spec_dir_line(e.name@, e.is_dir),
{
    let mut s = String::from_str("\"");
    s.append(e.name.as_str());
    s.append("\" - ");
    if e.is_dir {
        s.append("Directory");
    } else {
        s.append("File");
    }
    proof {
        assert(s@ =~= spec_dir_line(e.name@, e.is_dir));
    }
    s
}

/// List the current working directory.
///
/// The caller resolves the directory and reads its entries; any OS error
/// along the way arrives here and is reported as `IOError`, wrapping that
/// same error.  On success the listing is printed, one entry per line.
pub fn execute_dir(listing: Result<(String, Vec<FsEntry>), std::io::Error>) -> (r: Result<
    Vec<String>,
    CommandError,
>)
    ensures
        listing matches Ok(l) ==> (r matches Ok(lines) && strs_view(lines@) == spec_dir_lines(
            l.0@,
            entries_view(l.1@),
        )),
        listing matches Err(e) ==> (r matches Err(ce) && ce matches CommandError::IOError(e2) && e2
            == e),
{
    match listing {
        Result::Ok(l) => {
            let (cwd, entries) = l;
            let ghost emap = entries_view(entries@).map_values(
                |e: (Seq<char>, bool)| spec_dir_line(e.0, e.1),
            );
            let mut title = String::from_str("Contents of \"");
            title.append(cwd.as_str());
            title.append("\"");
            let mut lines: Vec<String> = Vec::new();
            proof {
                assert(title@ =~= "Contents of \""@ + cwd@ + "\""@);
            }
            lines.push(title);
            proof {
                assert(strs_view(lines@) =~= seq!["Contents of \""@ + cwd@ + "\""@] + emap.take(0));
            }
            let mut i: usize = 0;
            while i < entries.len()
                invariant
                    emap == entries_view(entries@).map_values(
                        |e: (Seq<char>, bool)| spec_dir_line(e.0, e.1),
                    ),
                    i <= entries@.len(),
                    strs_view(lines@) == seq!["Contents of \""@ + cwd@ + "\""@] + emap.take(
                        i as int,
                    ),
                decreases entries@.len() - i,
            {
                let line = dir_line(&entries[i]);
                proof {
                    assert(entries_view(entries@)[i as int] == (
                        entries@[i as int].name@,
                        entries@[i as int].is_dir,
                    ));
                    assert(emap[i as int] == spec_dir_line(
                        entries@[i as int].name@,
                        entries@[i as int].is_dir,
                    ));
                    assert(strs_view(lines@.push(line)) =~= strs_view(lines@) + seq![line@]);
                    assert((seq!["Contents of \""@ + cwd@ + "\""@] + emap.take(i as int)) + seq![
                        emap[i as int],
                    ] =~= seq!["Contents of \""@ + cwd@ + "\""@] + emap.take(i + 1));
                }
                lines.push(line);
                i += 1;
            }
            proof {
                assert(emap.take(entries@.len() as int) =~= emap);
            }
            Result::Ok(lines)
        },
        Result::Err(e) => Result::Err(CommandError::IOError(e)),
    }
}

// ---------------------------------------------------------------------------
// vol
// ---------------------------------------------------------------------------

/// The volume report of the non-Windows platforms: the filesystem id and
/// the free space, the free block count times the block size.
pub open spec fn spec_vol_line(st: VolStat) -> Seq<char> {
    "Filesystem Type: "@ + dec_rep(st.fs_id as nat) + ", Available Space: "@ + dec_rep(
        (st.blocks_free as nat) * (st.block_size as nat),
    ) + " bytes"@
}

/// Report filesystem statistics for the current directory.
///
/// The caller reads them from the OS; an error doing so arrives here and is
/// reported as `IOError`, wrapping that same error.  The free space is the
/// exact product of the block count and the block size, computed without
/// overflow.
pub fn execute_vol(stat: Result<VolStat, std::io::Error>) -> (r: Result<Vec<String>, CommandError>)
    ensures
        stat matches Ok(st) ==> (r matches Ok(lines) && strs_view(lines@) == seq![
            spec_vol_line(st),
        ]),
        stat matches Err(e) ==> (r matches Err(ce) && ce matches CommandError::IOError(e2) && e2
            == e),
{
    match stat {
        Result::Ok(st) => {
            proof {
                vstd::arithmetic::mul::lemma_mul_upper_bound(
                    st.blocks_free as int,
                    0xffff_ffff_ffff_ffff,
                    st.block_size as int,
                    0xffff_ffff_ffff_ffff,
                );
            }
            let free: u128 = (st.blocks_free as u128) * (st.block_size as u128);
            let mut line = String::from_str("Filesystem Type: ");
            push_dec(&mut line, st.fs_id as u128);
            line.append(", Available Space: ");
            push_dec(&mut line, free);
            line.append(" bytes");
            proof {
                assert(line@ =~= spec_vol_line(st));
            }
            let mut lines: Vec<String> = Vec::new();
            lines.push(line);
            proof {
                assert(strs_view(lines@) =~= seq![spec_vol_line(st)]);
            }
            Result::Ok(lines)
        },
        Result::Err(e) => Result::Err(CommandError::IOError(e)),
    }
}

/// The Windows volume report: the tool's raw output behind a banner.
pub open spec fn spec_vol_windows_line(out: Seq<char>) -> Seq<char> {
    "Volume Info (Windows): "@ + out
}

/// Report the Windows volume tool's output (see [`vol_program`]); the exit
/// status is not consulted.  A spawn failure is `IOError`, wrapping that
/// same error.
pub fn execute_vol_windows(output: Result<ProcOutput, std::io::Error>) -> (r: Result<
    Vec<String>,
    CommandError,
>)
    ensures
        output matches Ok(out) ==> (r matches Ok(lines) && strs_view(lines@) == seq![
            spec_vol_windows_line(out.stdout@),
        ]),
        output matches Err(e) ==> (r matches Err(ce) && ce matches CommandError::IOError(e2) && e2
            == e),
{
    match output {
        Result::Ok(out) => {
            let ghost sv = out.stdout@;
            let mut line = String::from_str("Volume Info (Windows): ");
            line.append(out.stdout.as_str());
            let mut lines: Vec<String> = Vec::new();
            lines.push(line);
            proof {
                assert(strs_view(lines@) =~= seq![spec_vol_windows_line(sv)]);
            }
            Result::Ok(lines)
        },
        Result::Err(e) => Result::Err(CommandError::IOError(e)),
    }
}

// ---------------------------------------------------------------------------
// tasklist
// ---------------------------------------------------------------------------

/// The process list, numbered: line `k` of the tool's output becomes
/// `k+1: line`.
pub open spec fn spec_numbered(lines: Seq<Seq<char>>) -> Seq<Seq<char>> {
    Seq::new(lines.len(), |k: int| dec_rep((k + 1) as nat) + ": "@ + lines[k])
}

pub open spec fn tasklist_fail_msg() -> Seq<char> {
    "The process list command exited unsuccessfully"@
}

pub open spec fn tasklist_spawn_prefix() -> Seq<char> {
    "Failed to run the process list command: "@
}

/// Number and report the process-list tool's output.
///
/// The caller runs the platform's tool (see [`tasklist_program`]) and hands
/// in the outcome.  A spawn failure or an unsuccessful exit is
/// `CommandFailed`; on success each output line is numbered from one.
pub fn execute_tasklist(output: Result<ProcOutput, std::io::Error>) -> (r: Result<
    Vec<String>,
    CommandError,
>)
    ensures
        output matches Ok(out) ==> {
            &&& out.success ==> (r matches Ok(lines) && strs_view(lines@) == spec_numbered(
                split_lines(out.stdout@),
            ))
            &&& !out.success ==> (r matches Err(e) && e matches CommandError::CommandFailed(m)
                && m@ == tasklist_fail_msg())
        },
        output matches Err(_) ==> (r matches Err(e) && e matches CommandError::CommandFailed(m)
            && m@.len() >= tasklist_spawn_prefix().len() && m@.take(
            tasklist_spawn_prefix().len() as int,
        ) == tasklist_spawn_prefix()),
{
    match output {
        Result::Ok(out) => {
            if out.success {
                let raw = lines_of(out.stdout.as_str());
                let ghost rv = strs_view(raw@);
                let mut numbered: Vec<String> = Vec::new();
                let mut i: usize = 0;
                while i < raw.len()
                    invariant
                        rv == strs_view(raw@),
                        i <= raw@.len(),
                        strs_view(numbered@).len() == i,
                        forall|k: int|
                            0 <= k < i ==> strs_view(numbered@)[k] == spec_numbered(rv)[k],
                    decreases raw@.len() - i,
                {
                    let mut m = dec_string((i as u128) + 1);
                    m.append(": ");
                    m.append(raw[i].as_str());
                    proof {
                        assert(rv[i as int] == raw@[i as int]@);
                        assert(m@ == dec_rep((i + 1) as nat) + ": "@ + rv[i as int]);
                        assert(strs_view(numbered@.push(m)) =~= strs_view(numbered@) + seq![m@]);
                    }
                    numbered.push(m);
                    i += 1;
                }
                proof {
                    assert(strs_view(numbered@) =~= spec_numbered(rv));
                }
                Result::Ok(numbered)
            } else {
                Result::Err(
                    CommandError::CommandFailed(
                        String::from_str("The process list command exited unsuccessfully"),
                    ),
                )
            }
        },
        Result::Err(e) => {
            let mut m = String::from_str("Failed to run the process list command: ");
            let t = crate::models::io_error_text(&e);
            m.append(t.as_str());
            proof {
                assert(m@.take(tasklist_spawn_prefix().len() as int) =~= tasklist_spawn_prefix());
            }
            Result::Err(CommandError::CommandFailed(m))
        },
    }
}

// ---------------------------------------------------------------------------
// notepad
// ---------------------------------------------------------------------------

pub open spec fn notepad_spawn_prefix() -> Seq<char> {
    "Failed to open Notepad: "@
}

/// Report the outcome of launching the platform's text editor.
///
/// The caller spawns the editor (see [`notepad_program`]) as a detached
/// process and hands in the result; a spawn failure is `CommandFailed`.
pub fn execute_notepad(spawn: Result<(), std::io::Error>) -> (r: Result<Vec<String>, CommandError>)
    ensures
        spawn is Ok ==> (r matches Ok(lines) && strs_view(lines@) == seq!["Notepad opened!"@]),
        spawn is Err ==> (r matches Err(e) && e matches CommandError::CommandFailed(m) && m@.len()
            >= notepad_spawn_prefix().len() && m@.take(notepad_spawn_prefix().len() as int)
            == notepad_spawn_prefix()),
{
    match spawn {
        Result::Ok(_) => {
            let mut lines: Vec<String> = Vec::new();
            lines.push(String::from_str("Notepad opened!"));
            proof {
                assert(strs_view(lines@) =~= seq!["Notepad opened!"@]);
            }
            Result::Ok(lines)
        },
        Result::Err(e) => {
            let mut m = String::from_str("Failed to open Notepad: ");
            let t = crate::models::io_error_text(&e);
            m.append(t.as_str());
            proof {
                assert(m@.take(notepad_spawn_prefix().len() as int) =~= notepad_spawn_prefix());
            }
            Result::Err(CommandError::CommandFailed(m))
        },
    }
}

// ---------------------------------------------------------------------------
// ping
// ---------------------------------------------------------------------------

pub open spec fn ping_usage() -> Seq<char> {
    "\nCorrect usage: ping <address>\n"@
}

/// The ping command line for an address, or `MissingArguments` when the
/// address is absent — nothing is run in that case.
pub fn ping_request(address: &Option<String>, platform: Platform) -> (r: Result<
    Vec<String>,
    CommandError,
>)
    ensures
        (*address) matches Some(a) ==> (r matches Ok(args) && strs_view(args@)
            == spec_ping_program(platform, a@)),
        (*address) is None ==> (r matches Err(e) && e matches CommandError::MissingArguments(m)
            && m@ == ping_usage()),
{
    match address {
        Option::Some(a) => {
            let mut args: Vec<String> = Vec::new();
            args.push(String::from_str("ping"));
            match platform {
                Platform::Windows => args.push(String::from_str("-n")),
                _ => args.push(String::from_str("-c")),
            }
            args.push(String::from_str("4"));
            args.push(a.clone());
            proof {
                assert(strs_view(args@) =~= spec_ping_program(platform, a@));
            }
            Result::Ok(args)
        },
        Option::None => Result::Err(
            CommandError::MissingArguments(String::from_str("\nCorrect usage: ping <address>\n")),
        ),
    }
}

pub open spec fn ping_spawn_prefix() -> Seq<char> {
    "Failed to execute ping: "@
}

/// What `ping` failing against `address` reports.
pub open spec fn ping_failed_msg(address: Seq<char>) -> Seq<char> {
    "Ping to "@ + address + " failed"@
}

/// Report the outcome of the ping run for `address`.
///
/// The caller runs the platform's ping tool (see [`spec_ping_program`]) and
/// hands in the outcome.  On success the tool's output is printed; an
/// unsuccessful exit or a spawn failure is `CommandFailed`.
pub fn execute_ping(address: &str, output: Result<ProcOutput, std::io::Error>) -> (r: Result<
    Vec<String>,
    CommandError,
>)
    ensures
        output matches Ok(out) ==> {
            &&& out.success ==> (r matches Ok(lines) && strs_view(lines@) == seq![out.stdout@])
            &&& !out.success ==> (r matches Err(e) && e matches CommandError::CommandFailed(m)
                && m@ == ping_failed_msg(address@))
        },
        output matches Err(_) ==> (r matches Err(e) && e matches CommandError::CommandFailed(m)
            && m@.len() >= ping_spawn_prefix().len() && m@.take(ping_spawn_prefix().len() as int)
            == ping_spawn_prefix()),
{
    match output {
        Result::Ok(out) => {
            if out.success {
                let ghost sv = out.stdout@;
                let mut lines: Vec<String> = Vec::new();
                lines.push(out.stdout);
                proof {
                    assert(strs_view(lines@) =~= seq![sv]);
                }
                Result::Ok(lines)
            } else {
                let mut m = String::from_str("Ping to ");
                m.append(address);
                m.append(" failed");
                proof {
                    assert(m@ =~= ping_failed_msg(address@));
                }
                Result::Err(CommandError::CommandFailed(m))
            }
        },
        Result::Err(e) => {
            let mut m = String::from_str("Failed to execute ping: ");
            let t = crate::models::io_error_text(&e);
            m.append(t.as_str());
            proof {
                assert(m@.take(ping_spawn_prefix().len() as int) =~= ping_spawn_prefix());
            }
            Result::Err(CommandError::CommandFailed(m))
        },
    }
}

} // verus!
