//! The parser: an input line is split on runs of whitespace into tokens; the
//! first token selects the command, the remaining tokens become its
//! arguments.  Parsing never fails: an empty line or an unrecognized verb
//! gives [`Command::Unknown`].
//!
//! Verb matching is exact (case-sensitive).  The `color` verb captures the
//! whole remainder of the line (its tokens re-joined with single spaces) as
//! one payload, so that several `key=value` settings can be given at once.

use vstd::prelude::*;
use vstd::string::StrSliceExecFns;
use vstd::string::StringExecFns;

use crate::models::{CmdView, Command, ov};
use crate::strutil::{is_space, is_space_char, strs_view};

verus! {

/// Length of the leading run of non-whitespace characters.
pub open spec fn word_len(s: Seq<char>) -> nat
    decreases s.len(),
{
    if s.len() == 0 || is_space_char(s[0]) {
        0
    } else {
        1 + word_len(s.drop_first())
    }
}

proof fn lemma_word_len_le(s: Seq<char>)
    ensures
        word_len(s) <= s.len(),
    decreases s.len(),
{
    if s.len() != 0 && !is_space_char(s[0]) {
        lemma_word_len_le(s.drop_first());
    }
}

/// The tokens of a line: the maximal runs of non-whitespace characters, in
/// order.  Leading, trailing and repeated whitespace contribute nothing.
pub open spec fn spec_tokens(s: Seq<char>) -> Seq<Seq<char>>
    decreases s.len(),
    via spec_tokens_decreases
{
    if s.len() == 0 {
        Seq::empty()
    } else if is_space_char(s[0]) {
        spec_tokens(s.drop_first())
    } else {
        seq![s.take(word_len(s) as int)] + spec_tokens(s.skip(word_len(s) as int))
    }
}

#[via_fn]
proof fn spec_tokens_decreases(s: Seq<char>) {
    if s.len() != 0 && !is_space_char(s[0]) {
        lemma_word_len_le(s);
    }
}

/// [`word_len`] is the first boundary: if the first `m` characters are not
/// whitespace and position `m` is the end or whitespace, the word length is
/// exactly `m`.
proof fn lemma_word_len_is(s: Seq<char>, m: int)
    requires
        0 <= m <= s.len(),
        forall|k: int| 0 <= k < m ==> !is_space_char(s[k]),
        m == s.len() || is_space_char(s[m]),
    ensures
        word_len(s) == m,
    decreases m,
{
    if m == 0 {
    } else {
        assert(!is_space_char(s[0]));
        lemma_word_len_is(s.drop_first(), m - 1);
    }
}

/// Skipping one whitespace character does not change the tokens.
proof fn lemma_tokens_skip_space(s: Seq<char>, i: int)
    requires
        0 <= i < s.len(),
        is_space_char(s[i]),
    ensures
        spec_tokens(s.skip(i)) == spec_tokens(s.skip(i + 1)),
{
    assert(s.skip(i).drop_first() =~= s.skip(i + 1));
}

/// The `i`-th token of a line, as the optional argument slot it fills:
/// a position beyond the last token is absent, never an empty string.
pub open spec fn opt_tok(toks: Seq<Seq<char>>, i: int) -> Option<Seq<char>> {
    if 0 <= i < toks.len() {
        Option::Some(toks[i])
    } else {
        Option::None
    }
}

/// Tokens re-joined with single spaces.
pub open spec fn join_tokens(toks: Seq<Seq<char>>) -> Seq<char>
    decreases toks.len(),
{
    if toks.len() == 0 {
        Seq::empty()
    } else if toks.len() == 1 {
        toks[0]
    } else {
        toks[0] + seq![' '] + join_tokens(toks.drop_first())
    }
}

proof fn lemma_join_push(toks: Seq<Seq<char>>, x: Seq<char>)
    requires
        toks.len() >= 1,
    ensures
        join_tokens(toks.push(x)) == join_tokens(toks) + seq![' '] + x,
    decreases toks.len(),
{
    if toks.len() == 1 {
        assert(toks.push(x).drop_first() =~= seq![x]);
        assert(join_tokens(seq![x]) == x);
        assert(join_tokens(toks.push(x)) =~= toks[0] + seq![' '] + x);
    } else {
        assert(toks.push(x).drop_first() =~= toks.drop_first().push(x));
        lemma_join_push(toks.drop_first(), x);
        assert(join_tokens(toks.push(x)) =~= join_tokens(toks) + seq![' '] + x);
    }
}

/// What [`parse_command`] returns for a given line.
pub open spec fn spec_parse(s: Seq<char>) -> CmdView {
    let toks = spec_tokens(s);
    if toks.len() == 0 {
        CmdView::Unknown
    } else {
        let verb = toks[0];
        if verb == "dir"@ {
            CmdView::Dir
        } else if verb == "help"@ {
            CmdView::Help
        } else if verb == "vol"@ {
            CmdView::Vol
        } else if verb == "path"@ {
            CmdView::Path(opt_tok(toks, 1), opt_tok(toks, 2))
        } else if verb == "tasklist"@ {
            CmdView::TaskList
        } else if verb == "notepad"@ {
            CmdView::Notepad
        } else if verb == "echo"@ {
            CmdView::Echo(opt_tok(toks, 1), opt_tok(toks, 2), opt_tok(toks, 3), opt_tok(toks, 4))
        } else if verb == "color"@ {
            if toks.len() <= 1 {
                CmdView::Color(Option::None)
            } else {
                CmdView::Color(Option::Some(join_tokens(toks.skip(1))))
            }
        } else if verb == "ping"@ {
            CmdView::Ping(opt_tok(toks, 1))
        } else if verb == "exit"@ || verb == "quit"@ || verb == "q"@ {
            CmdView::Exit
        } else {
            CmdView::Unknown
        }
    }
}

/// A line that is empty or all whitespace has no tokens, so it parses to
/// [`CmdView::Unknown`].
pub proof fn lemma_blank_parses_unknown(s: Seq<char>)
    requires
        forall|k: int| 0 <= k < s.len() ==> is_space_char(s[k]),
    ensures
        spec_parse(s) == CmdView::Unknown,
    decreases s.len(),
{
    if s.len() != 0 {
        lemma_blank_parses_unknown(s.drop_first());
        assert(spec_tokens(s) == spec_tokens(s.drop_first()));
    }
}

/// Argument positions beyond the line's last token are absent — `None`,
/// never an empty string — for every verb that takes arguments.
pub proof fn lemma_missing_positions_absent(s: Seq<char>)
    ensures
        spec_parse(s) matches CmdView::Echo(a1, a2, a3, a4) ==> {
            &&& spec_tokens(s).len() < 2 ==> a1 is None
            &&& spec_tokens(s).len() < 3 ==> a2 is None
            &&& spec_tokens(s).len() < 4 ==> a3 is None
            &&& spec_tokens(s).len() < 5 ==> a4 is None
        },
        spec_parse(s) matches CmdView::Path(p1, p2) ==> {
            &&& spec_tokens(s).len() < 2 ==> p1 is None
            &&& spec_tokens(s).len() < 3 ==> p2 is None
        },
        spec_parse(s) matches CmdView::Color(c1) ==> (spec_tokens(s).len() < 2 ==> c1 is None),
        spec_parse(s) matches CmdView::Ping(g1) ==> (spec_tokens(s).len() < 2 ==> g1 is None),
{
}

/// `exit`, `quit` and `q` all parse to [`CmdView::Exit`]; the same verb in
/// another casing is not a builtin and parses to [`CmdView::Unknown`].
pub proof fn lemma_exit_aliases()
    ensures
        spec_parse("exit"@) == CmdView::Exit,
        spec_parse("quit"@) == CmdView::Exit,
        spec_parse("q"@) == CmdView::Exit,
        spec_parse("Exit"@) == CmdView::Unknown,
{
    reveal_strlit("exit");
    reveal_strlit("quit");
    reveal_strlit("q");
    reveal_strlit("Exit");
    reveal_strlit("dir");
    reveal_strlit("help");
    reveal_strlit("vol");
    reveal_strlit("path");
    reveal_strlit("tasklist");
    reveal_strlit("notepad");
    reveal_strlit("echo");
    reveal_strlit("color");
    reveal_strlit("ping");
    lemma_whole_word_single_token("exit"@);
    lemma_whole_word_single_token("quit"@);
    lemma_whole_word_single_token("q"@);
    lemma_whole_word_single_token("Exit"@);
    assert("dir"@.len() == 3);
    assert("help"@[0] == 'h');
    assert("vol"@.len() == 3);
    assert("path"@[0] == 'p');
    assert("tasklist"@.len() == 8);
    assert("notepad"@.len() == 7);
    assert("echo"@[1] == 'c');
    assert("color"@.len() == 5);
    assert("ping"@[0] == 'p');
    assert("exit"@.len() == 4 && "exit"@[0] == 'e' && "exit"@[1] == 'x');
    assert("quit"@.len() == 4 && "quit"@[0] == 'q');
    assert("q"@.len() == 1);
    assert("Exit"@.len() == 4 && "Exit"@[0] == 'E');
    assert(spec_tokens("exit"@) == seq!["exit"@]);
    assert(spec_tokens("quit"@) == seq!["quit"@]);
    assert(spec_tokens("q"@) == seq!["q"@]);
    assert(spec_tokens("Exit"@) == seq!["Exit"@]);
}

/// A line made of one word and no whitespace is exactly one token: itself.
proof fn lemma_whole_word_single_token(s: Seq<char>)
    requires
        s.len() > 0,
        forall|k: int| 0 <= k < s.len() ==> !is_space_char(s[k]),
    ensures
        spec_tokens(s) == seq![s],
{
    lemma_word_len_is(s, s.len() as int);
    assert(s.take(s.len() as int) =~= s);
    assert(s.skip(s.len() as int) =~= Seq::<char>::empty());
    assert(spec_tokens(s) =~= seq![s]) by {
        reveal_with_fuel(spec_tokens, 2);
    }
}

/// Split a line into its whitespace-delimited tokens.
pub fn tokenize(input: &str) -> (tokens: Vec<String>)
    ensures
        strs_view(tokens@) == spec_tokens(input@),
{
    let n = input.unicode_len();
    let mut tokens: Vec<String> = Vec::new();
    let mut i: usize = 0;
    proof {
        assert(input@.skip(0) =~= input@);
        assert(strs_view(tokens@) =~= Seq::<Seq<char>>::empty());
        assert(strs_view(tokens@) + spec_tokens(input@) =~= spec_tokens(input@));
    }
    while i < n
        invariant
            n == input@.len(),
            i <= n,
            spec_tokens(input@) == strs_view(tokens@) + spec_tokens(input@.skip(i as int)),
        decreases n - i,
    {
        let c = input.get_char(i);
        if is_space(c) {
            proof {
                lemma_tokens_skip_space(input@, i as int);
            }
            i += 1;
        } else {
            let mut j: usize = i;
            loop
                invariant
                    n == input@.len(),
                    i <= j <= n,
                    forall|k: int| i <= k < j ==> !is_space_char(input@[k]),
                ensures
                    i <= j <= n,
                    forall|k: int| i <= k < j ==> !is_space_char(input@[k]),
                    j == n || is_space_char(input@[j as int]),
                decreases n - j,
            {
                if j >= n {
                    break;
                }
                let cj = input.get_char(j);
                if is_space(cj) {
                    break;
                }
                j += 1;
            }
            let tok = String::from_str(input.substring_char(i, j));
            proof {
                let t = input@.skip(i as int);
                assert(forall|k: int| 0 <= k < j - i ==> !is_space_char(t[k]));
                lemma_word_len_is(t, j - i);
                assert(t.take(j - i) =~= input@.subrange(i as int, j as int));
                assert(t.skip(j - i) =~= input@.skip(j as int));
                assert(spec_tokens(t) == seq![tok@] + spec_tokens(input@.skip(j as int)));
                assert(strs_view(tokens@.push(tok)) =~= strs_view(tokens@) + seq![tok@]);
                assert((strs_view(tokens@) + seq![tok@]) + spec_tokens(input@.skip(j as int))
                    =~= strs_view(tokens@) + (seq![tok@] + spec_tokens(input@.skip(j as int))));
            }
            tokens.push(tok);
            i = j;
        }
    }
    proof {
        assert(input@.skip(n as int) =~= Seq::<char>::empty());
        assert(strs_view(tokens@) + spec_tokens(input@.skip(n as int)) =~= strs_view(tokens@));
    }
    tokens
}

/// The token at position `i`, cloned into an argument slot.
fn opt_get(tokens: &Vec<String>, i: usize) -> (r: Option<String>)
    ensures
        ov(r) == opt_tok(strs_view(tokens@), i as int),
{
    if i < tokens.len() {
        Option::Some(tokens[i].clone())
    } else {
        Option::None
    }
}

/// Join `tokens[start..]` with single spaces.
pub fn join_from(tokens: &Vec<String>, start: usize) -> (r: String)
    requires
        start < tokens@.len(),
    ensures
        r@ == join_tokens(strs_view(tokens@).skip(start as int)),
{
    let ghost u = strs_view(tokens@).skip(start as int);
    let mut acc = String::new();
    let mut k: usize = start;
    proof {
        reveal_strlit(" ");
        assert(" "@ =~= seq![' ']);
        assert(u.take(0) =~= Seq::<Seq<char>>::empty());
    }
    while k < tokens.len()
        invariant
            start <= k <= tokens@.len(),
            u == strs_view(tokens@).skip(start as int),
            acc@ == join_tokens(u.take(k - start)),
        decreases tokens@.len() - k,
    {
        if k > start {
            acc.append(" ");
        }
        acc.append(tokens[k].as_str());
        proof {
            reveal_strlit(" ");
            let m = k - start;
            assert(strs_view(tokens@)[k as int] == tokens@[k as int]@);
            assert(u[m] == strs_view(tokens@)[k as int]);
            assert(u.take(m + 1) =~= u.take(m).push(u[m]));
            if m == 0 {
                assert(u.take(1) =~= seq![u[0]]);
                assert(acc@ =~= u[0]);
            } else {
                lemma_join_push(u.take(m), u[m]);
                assert(" "@ =~= seq![' ']);
                assert(acc@ =~= join_tokens(u.take(m)) + seq![' '] + u[m]);
            }
        }
        k += 1;
    }
    proof {
        assert(u.take(tokens@.len() - start) =~= u);
    }
    acc
}

/// Parse one input line into a [`Command`].
///
/// Never fails: unknown verbs, and the empty line, give
/// [`Command::Unknown`].  Verbs are matched exactly; `exit`, `quit` and `q`
/// all give [`Command::Exit`].  Missing argument positions are absent, not
/// empty strings.
pub fn parse_command(input: &str) -> (c: Command)
    ensures
        c@ == spec_parse(input@),
{
    let tokens = tokenize(input);
    if tokens.len() == 0 {
        return Command::Unknown;
    }
    let verb = tokens[0].as_str();
    if crate::strutil::str_eq(verb, "dir") {
        Command::Dir
    } else if crate::strutil::str_eq(verb, "help") {
        Command::Help
    } else if crate::strutil::str_eq(verb, "vol") {
        Command::Vol
    } else if crate::strutil::str_eq(verb, "path") {
        Command::Path(opt_get(&tokens, 1), opt_get(&tokens, 2))
    } else if crate::strutil::str_eq(verb, "tasklist") {
        Command::TaskList
    } else if crate::strutil::str_eq(verb, "notepad") {
        Command::Notepad
    } else if crate::strutil::str_eq(verb, "echo") {
        Command::Echo(
            opt_get(&tokens, 1),
            opt_get(&tokens, 2),
            opt_get(&tokens, 3),
            opt_get(&tokens, 4),
        )
    } else if crate::strutil::str_eq(verb, "color") {
        if tokens.len() <= 1 {
            Command::Color(Option::None)
        } else {
            Command::Color(Option::Some(join_from(&tokens, 1)))
        }
    } else if crate::strutil::str_eq(verb, "ping") {
        Command::Ping(opt_get(&tokens, 1))
    } else if crate::strutil::str_eq(verb, "exit") || crate::strutil::str_eq(verb, "quit")
        || crate::strutil::str_eq(verb, "q") {
        Command::Exit
    } else {
        Command::Unknown
    }
}

} // verus!
