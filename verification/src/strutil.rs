//! Small verified string utilities shared by the parser and the handlers:
//! whitespace classification, string equality, joining, decimal rendering.

use vstd::prelude::*;
use vstd::string::StrSliceExecFns;
use vstd::string::StringExecFns;

verus! {

/// The whitespace characters on which input lines are split: the ASCII
/// blank characters (space, tab, line feed, vertical tab, form feed,
/// carriage return).
pub open spec fn is_space_char(c: char) -> bool {
    c == ' ' || c == '\t' || c == '\n' || c == '\u{000b}' || c == '\u{000c}' || c == '\r'
}

/// Runtime test for [`is_space_char`].
pub fn is_space(c: char) -> (r: bool)
    ensures
        r == is_space_char(c),
{
    c == ' ' || c == '\t' || c == '\n' || c == '\u{000b}' || c == '\u{000c}' || c == '\r'
}

/// The view of each string in a vector, in order.
pub open spec fn strs_view(v: Seq<String>) -> Seq<Seq<char>> {
    v.map_values(|s: String| s@)
}

/// How many times `c` occurs in `s`.
pub open spec fn count_char(s: Seq<char>, c: char) -> nat
    decreases s.len(),
{
    if s.len() == 0 {
        0
    } else {
        (if s[0] == c {
            1nat
        } else {
            0nat
        }) + count_char(s.drop_first(), c)
    }
}

/// The position of the first occurrence of `c` in `s`, or `s.len()` when
/// `c` does not occur.
pub open spec fn index_of_char(s: Seq<char>, c: char) -> nat
    decreases s.len(),
{
    if s.len() == 0 {
        0
    } else if s[0] == c {
        0
    } else {
        1 + index_of_char(s.drop_first(), c)
    }
}

proof fn lemma_count_push(s: Seq<char>, x: char, c: char)
    ensures
        count_char(s.push(x), c) == count_char(s, c) + (if x == c {
            1nat
        } else {
            0nat
        }),
    decreases s.len(),
{
    if s.len() == 0 {
        assert(s.push(x).drop_first() =~= Seq::<char>::empty());
        assert(s.push(x)[0] == x);
        assert(count_char(Seq::<char>::empty(), c) == 0) by {
            reveal_with_fuel(count_char, 2);
        }
    } else {
        assert(s.push(x).drop_first() =~= s.drop_first().push(x));
        assert(s.push(x)[0] == s[0]);
        lemma_count_push(s.drop_first(), x, c);
    }
}

proof fn lemma_index_of_is(s: Seq<char>, c: char, m: int)
    requires
        0 <= m <= s.len(),
        forall|k: int| 0 <= k < m ==> s[k] != c,
        m == s.len() || s[m] == c,
    ensures
        index_of_char(s, c) == m,
    decreases m,
{
    if m > 0 {
        lemma_index_of_is(s.drop_first(), c, m - 1);
    }
}

/// Split `s` at its `=` sign: `Some((key, value))` when `s` holds exactly
/// one `=`, `None` otherwise.
pub fn split_once_eq(s: &str) -> (r: Option<(String, String)>)
    ensures
        r is Some <==> count_char(s@, '=') == 1,
        r matches Some(kv) ==> {
            &&& kv.0@ == s@.take(index_of_char(s@, '=') as int)
            &&& kv.1@ == s@.skip(index_of_char(s@, '=') as int + 1)
        },
{
    let n = s.unicode_len();
    let mut cnt: usize = 0;
    let mut idx: usize = n;
    let mut i: usize = 0;
    proof {
        assert(s@.take(0) =~= Seq::<char>::empty());
    }
    while i < n
        invariant
            n == s@.len(),
            i <= n,
            cnt <= i,
            cnt == count_char(s@.take(i as int), '='),
            cnt > 0 ==> idx < i && s@[idx as int] == '=' && (forall|k: int|
                0 <= k < idx ==> s@[k] != '='),
            cnt == 0 ==> idx == n && (forall|k: int| 0 <= k < i ==> s@[k] != '='),
        decreases n - i,
    {
        let c = s.get_char(i);
        proof {
            assert(s@.take(i + 1) =~= s@.take(i as int).push(s@[i as int]));
            lemma_count_push(s@.take(i as int), s@[i as int], '=');
        }
        if c == '=' {
            if cnt == 0 {
                idx = i;
            }
            cnt += 1;
        }
        i += 1;
    }
    proof {
        assert(s@.take(n as int) =~= s@);
    }
    if cnt == 1 {
        proof {
            lemma_index_of_is(s@, '=', idx as int);
        }
        let key = String::from_str(s.substring_char(0, idx));
        let value = String::from_str(s.substring_char(idx + 1, n));
        proof {
            assert(key@ =~= s@.take(idx as int));
            assert(value@ =~= s@.skip(idx as int + 1));
        }
        Option::Some((key, value))
    } else {
        Option::None
    }
}

/// The decimal digit `d` (at most 9) as a character.
pub open spec fn digit_char(d: nat) -> char {
    if d == 0 {
        '0'
    } else if d == 1 {
        '1'
    } else if d == 2 {
        '2'
    } else if d == 3 {
        '3'
    } else if d == 4 {
        '4'
    } else if d == 5 {
        '5'
    } else if d == 6 {
        '6'
    } else if d == 7 {
        '7'
    } else if d == 8 {
        '8'
    } else {
        '9'
    }
}

/// The decimal representation of `n`, most significant digit first, with
/// no leading zeros (`0` itself is the single digit `0`).
pub open spec fn dec_rep(n: nat) -> Seq<char>
    decreases n,
{
    if n < 10 {
        seq![digit_char(n)]
    } else {
        dec_rep(n / 10) + seq![digit_char(n % 10)]
    }
}

/// The decimal digit `d` as a one-character string.
fn digit_str(d: u128) -> (r: &'static str)
    requires
        d <= 9,
    ensures
        r@ == seq![digit_char(d as nat)],
{
    proof {
        reveal_strlit("0");
        reveal_strlit("1");
        reveal_strlit("2");
        reveal_strlit("3");
        reveal_strlit("4");
        reveal_strlit("5");
        reveal_strlit("6");
        reveal_strlit("7");
        reveal_strlit("8");
        reveal_strlit("9");
    }
    let r = match d {
        0 => "0",
        1 => "1",
        2 => "2",
        3 => "3",
        4 => "4",
        5 => "5",
        6 => "6",
        7 => "7",
        8 => "8",
        _ => "9",
    };
    proof {
        assert(r@ =~= seq![digit_char(d as nat)]);
    }
    r
}

/// Append the decimal representation of `n` to `s`.
pub fn push_dec(s: &mut String, n: u128)
    ensures
        final(s)@ == old(s)@ + dec_rep(n as nat),
    decreases n,
{
    if n < 10 {
        s.append(digit_str(n));
    } else {
        let d = n % 10;
        push_dec(s, n / 10);
        s.append(digit_str(d));
        proof {
            assert((old(s)@ + dec_rep((n / 10) as nat)) + seq![digit_char(d as nat)] =~= old(s)@
                + (dec_rep((n / 10) as nat) + seq![digit_char(d as nat)]));
        }
    }
}

/// The decimal representation of `n` as a string.
pub fn dec_string(n: u128) -> (r: String)
    ensures
        r@ == dec_rep(n as nat),
{
    let mut s = String::new();
    push_dec(&mut s, n);
    proof {
        assert(Seq::<char>::empty() + dec_rep(n as nat) =~= dec_rep(n as nat));
    }
    s
}

proof fn lemma_index_of_le(s: Seq<char>, c: char)
    ensures
        index_of_char(s, c) <= s.len(),
    decreases s.len(),
{
    if s.len() != 0 && s[0] != c {
        lemma_index_of_le(s.drop_first(), c);
    }
}

/// The lines of `s`: the segments between `\n` characters, a trailing
/// newline ending the last line rather than starting an empty one.
pub open spec fn split_lines(s: Seq<char>) -> Seq<Seq<char>>
    decreases s.len(),
    via split_lines_decreases
{
    if s.len() == 0 {
        Seq::empty()
    } else {
        let i = index_of_char(s, '\n');
        if i == s.len() {
            seq![s]
        } else {
            seq![s.take(i as int)] + split_lines(s.skip(i as int + 1))
        }
    }
}

#[via_fn]
proof fn split_lines_decreases(s: Seq<char>) {
    lemma_index_of_le(s, '\n');
}

/// Split a string into its lines.
pub fn lines_of(s: &str) -> (lines: Vec<String>)
    ensures
        strs_view(lines@) == split_lines(s@),
{
    let n = s.unicode_len();
    let mut lines: Vec<String> = Vec::new();
    let mut i: usize = 0;
    proof {
        assert(s@.skip(0) =~= s@);
        assert(strs_view(lines@) =~= Seq::<Seq<char>>::empty());
        assert(strs_view(lines@) + split_lines(s@) =~= split_lines(s@));
    }
    while i < n
        invariant
            n == s@.len(),
            i <= n,
            split_lines(s@) == strs_view(lines@) + split_lines(s@.skip(i as int)),
        decreases n - i,
    {
        let mut j: usize = i;
        loop
            invariant
                n == s@.len(),
                i <= j <= n,
                forall|k: int| i <= k < j ==> s@[k] != '\n',
            ensures
                i <= j <= n,
                forall|k: int| i <= k < j ==> s@[k] != '\n',
                j == n || s@[j as int] == '\n',
            decreases n - j,
        {
            if j >= n {
                break;
            }
            if s.get_char(j) == '\n' {
                break;
            }
            j += 1;
        }
        let line = String::from_str(s.substring_char(i, j));
        proof {
            let t = s@.skip(i as int);
            assert(forall|k: int| 0 <= k < j - i ==> t[k] != '\n');
            lemma_index_of_is(t, '\n', j - i);
            assert(t.take(j - i) =~= s@.subrange(i as int, j as int));
            if j < n {
                assert(t.skip(j - i + 1) =~= s@.skip(j + 1));
                assert(split_lines(t) == seq![line@] + split_lines(s@.skip(j + 1)));
            } else {
                assert(t =~= line@);
                assert(s@.skip(n as int) =~= Seq::<char>::empty());
                assert(split_lines(t) == seq![line@] + split_lines(s@.skip(n as int)));
            }
            assert(strs_view(lines@.push(line)) =~= strs_view(lines@) + seq![line@]);
            let rest = if j < n {
                s@.skip(j + 1)
            } else {
                s@.skip(n as int)
            };
            assert((strs_view(lines@) + seq![line@]) + split_lines(rest) =~= strs_view(lines@) + (
            seq![line@] + split_lines(rest)));
        }
        lines.push(line);
        if j < n {
            i = j + 1;
        } else {
            i = n;
        }
    }
    proof {
        assert(s@.skip(n as int) =~= Seq::<char>::empty());
        assert(strs_view(lines@) + split_lines(s@.skip(n as int)) =~= strs_view(lines@));
    }
    lines
}

/// Character-for-character string equality.
pub fn str_eq(a: &str, b: &str) -> (r: bool)
    ensures
        r == (a@ == b@),
{
    let n = a.unicode_len();
    let m = b.unicode_len();
    if n != m {
        proof {
            assert(a@.len() != b@.len());
        }
        return false;
    }
    let mut i: usize = 0;
    while i < n
        invariant
            n == a@.len(),
            n == b@.len(),
            i <= n,
            forall|k: int| 0 <= k < i ==> a@[k] == b@[k],
        decreases n - i,
    {
        if a.get_char(i) != b.get_char(i) {
            return false;
        }
        i += 1;
    }
    proof {
        assert(a@ =~= b@);
    }
    true
}

} // verus!
