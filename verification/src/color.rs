//! The `color` command: its payload is a whitespace-separated list of
//! `key=value` settings (`key` is `text` or `background`, `value` a palette
//! color name, matched without regard to ASCII case).  The handler turns the
//! payload into a list of terminal steps for the caller to apply; it touches
//! no terminal itself.

use vstd::prelude::*;
use vstd::string::StrSliceExecFns;
use vstd::string::StringExecFns;

use crate::models::CommandError;
use crate::parser::{spec_tokens, tokenize};
use crate::strutil::{count_char, index_of_char, split_once_eq, str_eq, strs_view};

verus! {

/// The closed palette of recognized color names.
#[derive(Clone, Copy, PartialEq, Eq, Structural, Debug)]
pub enum ColorName {
    Black,
    Red,
    Green,
    Blue,
    White,
    Yellow,
    Magenta,
    Cyan,
    Grey,
}

/// One effect of a `color` command, in the order the settings were given:
/// set the foreground, set the background (each followed by a screen clear
/// when applied), or warn about a setting whose key is not recognized.
pub enum ColorStep {
    Foreground(ColorName),
    Background(ColorName),
    Invalid(String),
}

/// Spec-level mirror of [`ColorStep`].
pub enum ColorStepView {
    Foreground(ColorName),
    Background(ColorName),
    Invalid(Seq<char>),
}

impl View for ColorStep {
    type V = ColorStepView;

    open spec fn view(&self) -> ColorStepView {
        match self {
            ColorStep::Foreground(c) => ColorStepView::Foreground(*c),
            ColorStep::Background(c) => ColorStepView::Background(*c),
            ColorStep::Invalid(s) => ColorStepView::Invalid(s@),
        }
    }
}

/// The view of each step in a sequence, in order.
pub open spec fn steps_view(v: Seq<ColorStep>) -> Seq<ColorStepView> {
    v.map_values(|s: ColorStep| s@)
}

/// An ASCII letter mapped to its lower-case form; anything else unchanged.
pub open spec fn lower_char(c: char) -> char {
    match c {
        'A' => 'a',
        'B' => 'b',
        'C' => 'c',
        'D' => 'd',
        'E' => 'e',
        'F' => 'f',
        'G' => 'g',
        'H' => 'h',
        'I' => 'i',
        'J' => 'j',
        'K' => 'k',
        'L' => 'l',
        'M' => 'm',
        'N' => 'n',
        'O' => 'o',
        'P' => 'p',
        'Q' => 'q',
        'R' => 'r',
        'S' => 's',
        'T' => 't',
        'U' => 'u',
        'V' => 'v',
        'W' => 'w',
        'X' => 'x',
        'Y' => 'y',
        'Z' => 'z',
        _ => c,
    }
}

/// Runtime form of [`lower_char`].
fn lower_char_exec(c: char) -> (r: char)
    ensures
        r == lower_char(c),
{
    match c {
        'A' => 'a',
        'B' => 'b',
        'C' => 'c',
        'D' => 'd',
        'E' => 'e',
        'F' => 'f',
        'G' => 'g',
        'H' => 'h',
        'I' => 'i',
        'J' => 'j',
        'K' => 'k',
        'L' => 'l',
        'M' => 'm',
        'N' => 'n',
        'O' => 'o',
        'P' => 'p',
        'Q' => 'q',
        'R' => 'r',
        'S' => 's',
        'T' => 't',
        'U' => 'u',
        'V' => 'v',
        'W' => 'w',
        'X' => 'x',
        'Y' => 'y',
        'Z' => 'z',
        _ => c,
    }
}

/// `s` with every ASCII letter lower-cased.
pub open spec fn lower_ascii(s: Seq<char>) -> Seq<char> {
    s.map_values(|c: char| lower_char(c))
}

/// Does `s` spell `t` apart from ASCII case?  (`t` is taken verbatim.)
fn eq_lower(s: &str, t: &str) -> (r: bool)
    ensures
        r == (lower_ascii(s@) == t@),
{
    let n = s.unicode_len();
    let m = t.unicode_len();
    if n != m {
        proof {
            assert(lower_ascii(s@).len() == s@.len());
        }
        return false;
    }
    let mut i: usize = 0;
    while i < n
        invariant
            n == s@.len(),
            n == t@.len(),
            i <= n,
            forall|k: int| 0 <= k < i ==> lower_char(s@[k]) == t@[k],
        decreases n - i,
    {
        if lower_char_exec(s.get_char(i)) != t.get_char(i) {
            proof {
                assert(lower_ascii(s@)[i as int] == lower_char(s@[i as int]));
            }
            return false;
        }
        i += 1;
    }
    proof {
        assert(lower_ascii(s@) =~= t@);
    }
    true
}

/// The palette color spelled by `s`, matched without regard to ASCII case;
/// `None` for anything outside the palette.
pub open spec fn spec_color_name(s: Seq<char>) -> Option<ColorName> {
    let l = lower_ascii(s);
    if l == "black"@ {
        Option::Some(ColorName::Black)
    } else if l == "red"@ {
        Option::Some(ColorName::Red)
    } else if l == "green"@ {
        Option::Some(ColorName::Green)
    } else if l == "blue"@ {
        Option::Some(ColorName::Blue)
    } else if l == "white"@ {
        Option::Some(ColorName::White)
    } else if l == "yellow"@ {
        Option::Some(ColorName::Yellow)
    } else if l == "magenta"@ {
        Option::Some(ColorName::Magenta)
    } else if l == "cyan"@ {
        Option::Some(ColorName::Cyan)
    } else if l == "grey"@ {
        Option::Some(ColorName::Grey)
    } else {
        Option::None
    }
}

/// Resolve a color name from the closed palette.
pub fn parse_color(color: &str) -> (r: Option<ColorName>)
    ensures
        r == spec_color_name(color@),
{
    if eq_lower(color, "black") {
        Option::Some(ColorName::Black)
    } else if eq_lower(color, "red") {
        Option::Some(ColorName::Red)
    } else if eq_lower(color, "green") {
        Option::Some(ColorName::Green)
    } else if eq_lower(color, "blue") {
        Option::Some(ColorName::Blue)
    } else if eq_lower(color, "white") {
        Option::Some(ColorName::White)
    } else if eq_lower(color, "yellow") {
        Option::Some(ColorName::Yellow)
    } else if eq_lower(color, "magenta") {
        Option::Some(ColorName::Magenta)
    } else if eq_lower(color, "cyan") {
        Option::Some(ColorName::Cyan)
    } else if eq_lower(color, "grey") {
        Option::Some(ColorName::Grey)
    } else {
        Option::None
    }
}

/// A setting is well-formed when it holds exactly one `=`.
pub open spec fn setting_well_formed(s: Seq<char>) -> bool {
    count_char(s, '=') == 1
}

/// The part of a well-formed setting before its `=`.
pub open spec fn setting_key(s: Seq<char>) -> Seq<char> {
    s.take(index_of_char(s, '=') as int)
}

/// The part of a well-formed setting after its `=`.
pub open spec fn setting_value(s: Seq<char>) -> Seq<char> {
    s.skip(index_of_char(s, '=') as int + 1)
}

/// The steps one well-formed setting contributes: a color change for a
/// recognized key whose value is in the palette, nothing for one whose
/// value is not (an unknown color is skipped, not an error), and a warning
/// for an unrecognized key.
pub open spec fn spec_setting_steps(s: Seq<char>) -> Seq<ColorStepView> {
    if setting_key(s) == "text"@ {
        match spec_color_name(setting_value(s)) {
            Option::Some(c) => seq![ColorStepView::Foreground(c)],
            Option::None => Seq::empty(),
        }
    } else if setting_key(s) == "background"@ {
        match spec_color_name(setting_value(s)) {
            Option::Some(c) => seq![ColorStepView::Background(c)],
            Option::None => Seq::empty(),
        }
    } else {
        seq![ColorStepView::Invalid(s)]
    }
}

/// The steps of a whole settings list, processed in order; a malformed
/// setting stops processing, so nothing after it contributes.
pub open spec fn spec_color_steps(settings: Seq<Seq<char>>) -> Seq<ColorStepView>
    decreases settings.len(),
{
    if settings.len() == 0 {
        Seq::empty()
    } else if !setting_well_formed(settings[0]) {
        Seq::empty()
    } else {
        spec_setting_steps(settings[0]) + spec_color_steps(settings.drop_first())
    }
}

/// Whether a settings list runs to completion without a malformed setting.
pub open spec fn spec_color_ok(settings: Seq<Seq<char>>) -> bool
    decreases settings.len(),
{
    if settings.len() == 0 {
        true
    } else {
        setting_well_formed(settings[0]) && spec_color_ok(settings.drop_first())
    }
}

/// A settings list is accepted exactly when every setting is well-formed.
pub proof fn lemma_color_ok_iff(settings: Seq<Seq<char>>)
    ensures
        spec_color_ok(settings) <==> (forall|k: int|
            0 <= k < settings.len() ==> setting_well_formed(settings[k])),
    decreases settings.len(),
{
    if settings.len() > 0 {
        lemma_color_ok_iff(settings.drop_first());
        assert(forall|k: int|
            1 <= k < settings.len() ==> settings[k] == settings.drop_first()[k - 1]);
    }
}

pub open spec fn color_usage() -> Seq<char> {
    "\nCorrect usage: color text=<text color> or color background=<background color>\n"@
}

/// Decide what a `color` command does.
///
/// The result is the list of terminal steps to apply, in order, and the
/// command's outcome.  An absent payload is `MissingArguments`.  A setting
/// without exactly one `=` is `InvalidArgument` and stops processing; the
/// steps of the settings before it still stand, as they would already have
/// been applied.
pub fn execute_color(arg: &Option<String>) -> (r: (Vec<ColorStep>, Result<(), CommandError>))
    ensures
        (*arg) is None ==> r.0@.len() == 0 && (r.1 matches Err(e) ==> e matches
            CommandError::MissingArguments(m) && m@ == color_usage()) && r.1 is Err,
        (*arg) matches Some(p) ==> {
            let settings = spec_tokens(p@);
            &&& steps_view(r.0@) == spec_color_steps(settings)
            &&& spec_color_ok(settings) ==> r.1 is Ok
            &&& !spec_color_ok(settings) ==> r.1 is Err && (r.1 matches Err(e) ==> e matches
                CommandError::InvalidArgument(m) && m@ == color_usage())
        },
{
    let payload = match arg {
        Option::Some(p) => p,
        Option::None => {
            return (
                Vec::new(),
                Result::Err(
                    CommandError::MissingArguments(
                        String::from_str(
                            "\nCorrect usage: color text=<text color> or color background=<background color>\n",
                        ),
                    ),
                ),
            );
        },
    };
    let settings = tokenize(payload.as_str());
    let ghost sv = strs_view(settings@);
    let mut steps: Vec<ColorStep> = Vec::new();
    let mut i: usize = 0;
    let mut malformed = false;
    proof {
        assert(steps_view(steps@) =~= Seq::<ColorStepView>::empty());
        assert(sv.skip(0) =~= sv);
        assert(steps_view(steps@) + spec_color_steps(sv) =~= spec_color_steps(sv));
    }
    while i < settings.len() && !malformed
        invariant
            sv == strs_view(settings@),
            i <= settings@.len(),
            spec_color_steps(sv) == steps_view(steps@) + spec_color_steps(sv.skip(i as int)),
            !malformed ==> forall|k: int| 0 <= k < i ==> setting_well_formed(sv[k]),
            malformed ==> !spec_color_ok(sv) && spec_color_steps(sv) == steps_view(steps@),
        decreases settings@.len() - i, (if malformed {
            0int
        } else {
            1int
        }),
    {
        let setting = &settings[i];
        proof {
            assert(sv[i as int] == settings@[i as int]@);
            assert(sv.skip(i as int)[0] == sv[i as int]);
            assert(sv.skip(i as int).drop_first() =~= sv.skip(i as int + 1));
        }
        match split_once_eq(setting.as_str()) {
            Option::None => {
                proof {
                    lemma_color_ok_iff(sv);
                    assert(spec_color_steps(sv.skip(i as int)) =~= Seq::<ColorStepView>::empty());
                    assert(steps_view(steps@) + Seq::<ColorStepView>::empty() =~= steps_view(
                        steps@,
                    ));
                }
                malformed = true;
            },
            Option::Some(kv) => {
                let (key, value) = kv;
                if str_eq(key.as_str(), "text") {
                    if let Option::Some(c) = parse_color(value.as_str()) {
                        let step = ColorStep::Foreground(c);
                        proof {
                            assert(steps_view(steps@.push(step)) =~= steps_view(steps@) + seq![
                                step@,
                            ]);
                            assert((steps_view(steps@) + seq![step@]) + spec_color_steps(
                                sv.skip(i as int + 1),
                            ) =~= steps_view(steps@) + (seq![step@] + spec_color_steps(
                                sv.skip(i as int + 1),
                            )));
                        }
                        steps.push(step);
                    } else {
                        proof {
                            assert(Seq::<ColorStepView>::empty() + spec_color_steps(
                                sv.skip(i as int + 1),
                            ) =~= spec_color_steps(sv.skip(i as int + 1)));
                        }
                    }
                } else if str_eq(key.as_str(), "background") {
                    if let Option::Some(c) = parse_color(value.as_str()) {
                        let step = ColorStep::Background(c);
                        proof {
                            assert(steps_view(steps@.push(step)) =~= steps_view(steps@) + seq![
                                step@,
                            ]);
                            assert((steps_view(steps@) + seq![step@]) + spec_color_steps(
                                sv.skip(i as int + 1),
                            ) =~= steps_view(steps@) + (seq![step@] + spec_color_steps(
                                sv.skip(i as int + 1),
                            )));
                        }
                        steps.push(step);
                    } else {
                        proof {
                            assert(Seq::<ColorStepView>::empty() + spec_color_steps(
                                sv.skip(i as int + 1),
                            ) =~= spec_color_steps(sv.skip(i as int + 1)));
                        }
                    }
                } else {
                    let step = ColorStep::Invalid(setting.clone());
                    proof {
                        assert(steps_view(steps@.push(step)) =~= steps_view(steps@) + seq![step@]);
                        assert((steps_view(steps@) + seq![step@]) + spec_color_steps(
                            sv.skip(i as int + 1),
                        ) =~= steps_view(steps@) + (seq![step@] + spec_color_steps(
                            sv.skip(i as int + 1),
                        )));
                    }
                    steps.push(step);
                }
                i += 1;
            },
        }
    }
    if malformed {
        (
            steps,
            Result::Err(
                CommandError::InvalidArgument(
                    String::from_str(
                        "\nCorrect usage: color text=<text color> or color background=<background color>\n",
                    ),
                ),
            ),
        )
    } else {
        proof {
            assert(i == sv.len());
            assert(sv.skip(i as int) =~= Seq::<Seq<char>>::empty());
            assert(steps_view(steps@) + Seq::<ColorStepView>::empty() =~= steps_view(steps@));
            lemma_color_ok_iff(sv);
        }
        (steps, Result::Ok(()))
    }
}

} // verus!
