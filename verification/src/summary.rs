//! The run summary: the number of entries processed and the single summary
//! line emitted at the end of a run, built character-for-character.

use vstd::prelude::*;

verus! {

/// The decimal digit character for `d` (`d < 10`).
pub open spec fn digit_char(d: nat) -> char {
    if d == 0 {
        '0'
    } else if d == 1 {
        '1'
    } else if d == 2 {
        '2'
    } else if d == 3 {
        '3'
    } else if d == 4 {
        '4'
    } else if d == 5 {
        '5'
    } else if d == 6 {
        '6'
    } else if d == 7 {
        '7'
    } else if d == 8 {
        '8'
    } else {
        '9'
    }
}

/// The decimal representation of `n`, most significant digit first, without
/// leading zeros (`0` itself is `"0"`).
pub open spec fn dec_chars(n: nat) -> Seq<char>
    decreases n,
{
    if n < 10 {
        seq![digit_char(n)]
    } else {
        dec_chars(n / 10).push(digit_char(n % 10))
    }
}

/// The one-character string of a single decimal digit.
fn digit_str(d: usize) -> (r: &'static str)
    requires
        d < 10,
    ensures
        r@ == seq![digit_char(d as nat)],
{
    let r: &'static str = if d == 0 {
        "0"
    } else if d == 1 {
        "1"
    } else if d == 2 {
        "2"
    } else if d == 3 {
        "3"
    } else if d == 4 {
        "4"
    } else if d == 5 {
        "5"
    } else if d == 6 {
        "6"
    } else if d == 7 {
        "7"
    } else if d == 8 {
        "8"
    } else {
        "9"
    };
    proof {
        reveal_strlit("0");
        reveal_strlit("1");
        reveal_strlit("2");
        reveal_strlit("3");
        reveal_strlit("4");
        reveal_strlit("5");
        reveal_strlit("6");
        reveal_strlit("7");
        reveal_strlit("8");
        reveal_strlit("9");
        assert(r@ =~= seq![digit_char(d as nat)]);
    }
    r
}

/// Format a count in decimal.
pub fn format_count(n: usize) -> (r: String)
    ensures
        r@ == dec_chars(n as nat),
    decreases n,
{
    if n < 10 {
        String::from_str(digit_str(n))
    } else {
        let mut s = format_count(n / 10);
        s.append(digit_str(n % 10));
        proof {
            assert(dec_chars((n / 10) as nat).push(digit_char((n % 10) as nat)) =~= dec_chars(
                (n / 10) as nat,
            ) + seq![digit_char((n % 10) as nat)]);
        }
        s
    }
}

/// The verb of the summary line when an output root was given.
pub open spec fn verb_chars(copy_mode: bool) -> Seq<char> {
    if copy_mode {
        "copied"@
    } else {
        "linked"@
    }
}

/// The view of an optional borrowed string.
pub open spec fn opt_str_view(o: Option<&String>) -> Option<Seq<char>> {
    match o {
        Option::Some(s) => Option::Some(s@),
        Option::None => Option::None,
    }
}

/// The single summary line of a run: the count of entries processed, the
/// verb of the mode, the destination when one was given, and the elapsed
/// time of the whole operation.
pub open spec fn summary_chars(
    count: nat,
    copy_mode: bool,
    output: Option<Seq<char>>,
    elapsed: Seq<char>,
) -> Seq<char> {
    match output {
        Option::Some(o) => dec_chars(count) + " files "@ + verb_chars(copy_mode) + " to '"@ + o
            + "' in "@ + elapsed + "."@,
        Option::None => dec_chars(count) + " files matched in "@ + elapsed + "."@,
    }
}

/// Build the summary line emitted at the end of a run.
pub fn summary_line(count: usize, copy_mode: bool, output: Option<&String>, elapsed: &str) -> (r:
    String)
    ensures
        r@ == summary_chars(count as nat, copy_mode, opt_str_view(output), elapsed@),
{
    let mut s = format_count(count);
    match output {
        Option::Some(o) => {
            s.append(" files ");
            if copy_mode {
                s.append("copied");
            } else {
                s.append("linked");
            }
            s.append(" to '");
            s.append(o.as_str());
            s.append("' in ");
            s.append(elapsed);
            s.append(".");
        },
        Option::None => {
            s.append(" files matched in ");
            s.append(elapsed);
            s.append(".");
        },
    }
    s
}

} // verus!
