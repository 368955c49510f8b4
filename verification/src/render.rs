//! Rendering of output lines: the decimal line-number prefix and the exact
//! text written for each input line.

use vstd::prelude::*;
use crate::views_of;

verus! {

/// The decimal digit character for `d` (`0 <= d <= 9`).
pub open spec fn digit_char(d: nat) -> char {
    if d == 0 {
        '0'
    } else if d == 1 {
        '1'
    } else if d == 2 {
        '2'
    } else if d == 3 {
        '3'
    } else if d == 4 {
        '4'
    } else if d == 5 {
        '5'
    } else if d == 6 {
        '6'
    } else if d == 7 {
        '7'
    } else if d == 8 {
        '8'
    } else {
        '9'
    }
}

/// The decimal rendering of `n`: most significant digit first, no sign,
/// no padding, and a single `'0'` for zero.
pub open spec fn spec_digits(n: nat) -> Seq<char>
    decreases n,
{
    if n < 10 {
        seq![digit_char(n)]
    } else {
        spec_digits(n / 10).push(digit_char(n % 10))
    }
}

/// The one-character string for a decimal digit.
fn digit_str(d: u64) -> (r: &'static str)
    requires
        d < 10,
    ensures
        r@ == seq![digit_char(d as nat)],
{
    if d == 0 {
        proof {
            reveal_strlit("0");
            assert("0"@ =~= seq!['0']);
        }
        "0"
    } else if d == 1 {
        proof {
            reveal_strlit("1");
            assert("1"@ =~= seq!['1']);
        }
        "1"
    } else if d == 2 {
        proof {
            reveal_strlit("2");
            assert("2"@ =~= seq!['2']);
        }
        "2"
    } else if d == 3 {
        proof {
            reveal_strlit("3");
            assert("3"@ =~= seq!['3']);
        }
        "3"
    } else if d == 4 {
        proof {
            reveal_strlit("4");
            assert("4"@ =~= seq!['4']);
        }
        "4"
    } else if d == 5 {
        proof {
            reveal_strlit("5");
            assert("5"@ =~= seq!['5']);
        }
        "5"
    } else if d == 6 {
        proof {
            reveal_strlit("6");
            assert("6"@ =~= seq!['6']);
        }
        "6"
    } else if d == 7 {
        proof {
            reveal_strlit("7");
            assert("7"@ =~= seq!['7']);
        }
        "7"
    } else if d == 8 {
        proof {
            reveal_strlit("8");
            assert("8"@ =~= seq!['8']);
        }
        "8"
    } else {
        proof {
            reveal_strlit("9");
            assert("9"@ =~= seq!['9']);
        }
        "9"
    }
}

/// The decimal rendering of `n` as a string.
pub fn u64_to_string(n: u64) -> (r: String)
    ensures
        r@ == spec_digits(n as nat),
    decreases n,
{
    if n < 10 {
        String::from_str(digit_str(n))
    } else {
        let mut r = u64_to_string(n / 10);
        r.append(digit_str(n % 10));
        proof {
            assert(spec_digits((n / 10) as nat) + seq![digit_char((n % 10) as nat)] =~= spec_digits(
                (n / 10) as nat,
            ).push(digit_char((n % 10) as nat)));
        }
        r
    }
}

/// What one output line holds: the line itself, or, with numbering on, the
/// decimal line number, one space, then the line.
pub open spec fn rendered_line(show_lines: bool, num: nat, line: Seq<char>) -> Seq<char> {
    if show_lines {
        spec_digits(num) + seq![' '] + line
    } else {
        line
    }
}

/// All rendered lines of one source, in order, numbered from 1.
pub open spec fn rendered_lines(show_lines: bool, lines: Seq<Seq<char>>) -> Seq<Seq<char>> {
    Seq::new(lines.len(), |i: int| rendered_line(show_lines, (i + 1) as nat, lines[i]))
}

/// The text written to the output for a sequence of lines: each line
/// followed by one newline.
pub open spec fn join_lines(lines: Seq<Seq<char>>) -> Seq<char>
    decreases lines.len(),
{
    if lines.len() == 0 {
        Seq::empty()
    } else {
        join_lines(lines.drop_last()) + lines.last() + seq!['\n']
    }
}

/// Renders one output line for the line numbered `num` (1-based within its
/// source).
pub fn format_line(show_lines: bool, num: u64, line: &str) -> (r: String)
    ensures
        r@ == rendered_line(show_lines, num as nat, line@),
{
    if show_lines {
        let mut r = u64_to_string(num);
        proof {
            reveal_strlit(" ");
            assert(" "@ =~= seq![' ']);
        }
        r.append(" ");
        r.append(line);
        proof {
            assert(spec_digits(num as nat) + seq![' '] + line@ =~= (spec_digits(num as nat)
                + seq![' ']) + line@);
        }
        r
    } else {
        line.to_owned()
    }
}

/// Renders every line of one source, numbered from 1 when `show_lines` is
/// set. The numbering is local to the source: a fresh call starts at 1.
pub fn emit_lines(show_lines: bool, lines: &Vec<String>) -> (r: Vec<String>)
    ensures
        views_of(r@) == rendered_lines(show_lines, views_of(lines@)),
{
    let mut out: Vec<String> = Vec::new();
    let n = lines.len();
    for idx in 0..n
        invariant
            n == lines@.len(),
            out@.len() == idx,
            forall|i: int|
                0 <= i < idx ==> #[trigger] out@[i]@ == rendered_line(
                    show_lines,
                    (i + 1) as nat,
                    lines@[i]@,
                ),
    {
        let num = (idx as u64) + 1;
        let line = format_line(show_lines, num, lines[idx].as_str());
        out.push(line);
    }
    proof {
        assert(views_of(out@) =~= rendered_lines(show_lines, views_of(lines@)));
    }
    out
}

/// The whole output of a run: the rendered lines of each source, in the
/// order the sources were given, each line followed by one newline. The
/// line numbers start again at 1 with every source.
pub open spec fn rendered_output(show_lines: bool, sources: Seq<Seq<Seq<char>>>) -> Seq<char>
    decreases sources.len(),
{
    if sources.len() == 0 {
        Seq::empty()
    } else {
        rendered_output(show_lines, sources.drop_last()) + join_lines(
            rendered_lines(show_lines, sources.last()),
        )
    }
}

/// The contents of the sources, concatenated in the order given.
pub open spec fn joined_sources(sources: Seq<Seq<Seq<char>>>) -> Seq<char>
    decreases sources.len(),
{
    if sources.len() == 0 {
        Seq::empty()
    } else {
        joined_sources(sources.drop_last()) + join_lines(sources.last())
    }
}

/// With numbering off, a source passes through unchanged: every rendered
/// line is the source line itself, so the joined output equals the joined
/// input.
pub proof fn lemma_round_trip(lines: Seq<Seq<char>>)
    ensures
        rendered_lines(false, lines) == lines,
        join_lines(rendered_lines(false, lines)) == join_lines(lines),
{
    assert(rendered_lines(false, lines) =~= lines);
}

/// With numbering off, the run is a plain concatenation: the output over
/// any list of sources equals their contents in the order given, with no
/// prefix added or removed.
pub proof fn lemma_output_is_concatenation(sources: Seq<Seq<Seq<char>>>)
    ensures
        rendered_output(false, sources) == joined_sources(sources),
    decreases sources.len(),
{
    if sources.len() > 0 {
        lemma_output_is_concatenation(sources.drop_last());
        lemma_round_trip(sources.last());
    }
}

/// With numbering on, output line `i` (0-based here, numbered `i + 1`) is
/// the decimal of `i + 1`, one space, then source line `i`.
pub proof fn lemma_numbered_line(lines: Seq<Seq<char>>, i: int)
    requires
        0 <= i < lines.len(),
    ensures
        rendered_lines(true, lines)[i] == spec_digits((i + 1) as nat) + seq![' '] + lines[i],
{
}

/// An empty source renders to an empty output, with or without numbering.
pub proof fn lemma_empty_output(show_lines: bool)
    ensures
        rendered_lines(show_lines, Seq::empty()) == Seq::<Seq<char>>::empty(),
        join_lines(rendered_lines(show_lines, Seq::empty())) == Seq::<char>::empty(),
{
    assert(rendered_lines(show_lines, Seq::<Seq<char>>::empty()) =~= Seq::<Seq<char>>::empty());
}

} // verus!
