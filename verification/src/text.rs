//! Small verified text helpers: decimal rendering of integers and joining
//! strings with a separator, used to build diagnostic messages.

use vstd::prelude::*;
use vstd::string::StringExecFns;

verus! {

/// The character for one decimal digit.
pub open spec fn spec_digit_char(d: int) -> char {
    if d == 0 {
        '0'
    } else if d == 1 {
        '1'
    } else if d == 2 {
        '2'
    } else if d == 3 {
        '3'
    } else if d == 4 {
        '4'
    } else if d == 5 {
        '5'
    } else if d == 6 {
        '6'
    } else if d == 7 {
        '7'
    } else if d == 8 {
        '8'
    } else {
        '9'
    }
}

/// Decimal representation of a non-negative integer, without sign or
/// leading zeros (a single `'0'` for zero).
pub open spec fn spec_dec(n: int) -> Seq<char>
    recommends
        n >= 0,
    decreases n,
{
    if n < 10 {
        seq![spec_digit_char(n)]
    } else {
        spec_dec(n / 10) + seq![spec_digit_char(n % 10)]
    }
}

/// Decimal representation of a signed integer: a leading `'-'` for
/// negative values, the plain digits otherwise.
pub open spec fn spec_dec_signed(n: int) -> Seq<char> {
    if n >= 0 {
        spec_dec(n)
    } else {
        seq!['-'] + spec_dec(-n)
    }
}

/// The views of a sequence of strings.
pub open spec fn views_of(parts: Seq<String>) -> Seq<Seq<char>> {
    parts.map_values(|s: String| s@)
}

/// The parts from index `i` on, joined by the separator.
pub open spec fn spec_join_from(parts: Seq<Seq<char>>, i: int, sep: Seq<char>) -> Seq<char>
    decreases parts.len() - i,
{
    if i < 0 || i >= parts.len() {
        Seq::empty()
    } else if i == parts.len() - 1 {
        parts[i]
    } else {
        parts[i] + sep + spec_join_from(parts, i + 1, sep)
    }
}

/// All parts joined by the separator.
pub open spec fn spec_join(parts: Seq<Seq<char>>, sep: Seq<char>) -> Seq<char> {
    spec_join_from(parts, 0, sep)
}

/// Relies on String::push: appends the given character to the end of the
/// string.
#[verifier::external_body]
fn push_char(s: &mut String, c: char)
    ensures
        final(s)@ == old(s)@ + seq![c],
{
    s.push(c)
}

/// The character for one decimal digit.
fn digit_char(d: u64) -> (r: char)
    requires
        d < 10,
    ensures
        r == spec_digit_char(d as int),
{
    if d == 0 {
        '0'
    } else if d == 1 {
        '1'
    } else if d == 2 {
        '2'
    } else if d == 3 {
        '3'
    } else if d == 4 {
        '4'
    } else if d == 5 {
        '5'
    } else if d == 6 {
        '6'
    } else if d == 7 {
        '7'
    } else if d == 8 {
        '8'
    } else {
        '9'
    }
}

/// Appends the decimal representation of `n` to `out`.
fn push_decimal(n: u64, out: &mut String)
    ensures
        final(out)@ == old(out)@ + spec_dec(n as int),
    decreases n,
{
    if n < 10 {
        push_char(out, digit_char(n));
    } else {
        push_decimal(n / 10, out);
        push_char(out, digit_char(n % 10));
        proof {
            assert(out@ =~= old(out)@ + spec_dec(n as int));
        }
    }
}

/// Renders an unsigned integer in decimal.
pub fn u64_to_string(n: u64) -> (r: String)
    ensures
        r@ == spec_dec(n as int),
{
    let mut out: String = String::new();
    push_decimal(n, &mut out);
    proof {
        assert(out@ =~= spec_dec(n as int));
    }
    out
}

/// Renders a signed integer in decimal, with a leading minus sign when
/// negative.
pub fn i64_to_string(n: i64) -> (r: String)
    ensures
        r@ == spec_dec_signed(n as int),
{
    if n >= 0 {
        u64_to_string(n as u64)
    } else {
        let mut out: String = String::new();
        push_char(&mut out, '-');
        let magnitude: u64 = ((-(n + 1)) as u64) + 1;
        push_decimal(magnitude, &mut out);
        proof {
            assert(out@ =~= spec_dec_signed(n as int));
        }
        out
    }
}

/// Appends the parts from index `i` on, joined by the separator, to `out`.
fn join_into(parts: &Vec<String>, i: usize, sep: &str, out: &mut String)
    requires
        i <= parts@.len(),
    ensures
        final(out)@ == old(out)@ + spec_join_from(views_of(parts@), i as int, sep@),
    decreases parts@.len() - i,
{
    if i < parts.len() {
        out.append(parts[i].as_str());
        if i + 1 < parts.len() {
            out.append(sep);
            join_into(parts, i + 1, sep, out);
        }
    }
    proof {
        assert(out@ =~= old(out)@ + spec_join_from(views_of(parts@), i as int, sep@));
    }
}

/// Joins the strings with the separator, in order, with no leading or
/// trailing separator.
pub fn join_strings(parts: &Vec<String>, sep: &str) -> (r: String)
    ensures
        r@ == spec_join(views_of(parts@), sep@),
{
    let mut out: String = String::new();
    join_into(parts, 0, sep, &mut out);
    proof {
        assert(out@ =~= spec_join(views_of(parts@), sep@));
    }
    out
}

} // verus!
