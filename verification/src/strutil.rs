//! Small string-building helpers shared by the rendering code: appending a
//! character to a `String`, rendering unsigned numbers in decimal, and
//! rendering `bool` and `Option<usize>` values the way the shell output needs
//! them.

use vstd::prelude::*;

verus! {

/// Relies on `String::push`: appends exactly one character at the end.
#[verifier::external_body]
pub(crate) fn string_push(s: &mut String, c: char)
    ensures
        final(s)@ == old(s)@.push(c),
{
    s.push(c);
}

/// The decimal digit character for `d`.
pub open spec fn digit_char(d: nat) -> char {
    if d == 0 {
        '0'
    } else if d == 1 {
        '1'
    } else if d == 2 {
        '2'
    } else if d == 3 {
        '3'
    } else if d == 4 {
        '4'
    } else if d == 5 {
        '5'
    } else if d == 6 {
        '6'
    } else if d == 7 {
        '7'
    } else if d == 8 {
        '8'
    } else {
        '9'
    }
}

/// The usual decimal rendering of `n`, without a sign and without leading
/// zeros (except for `n == 0`, which is rendered as `"0"`).
pub open spec fn digits_of(n: nat) -> Seq<char>
    decreases n,
{
    if n < 10 {
        seq![digit_char(n)]
    } else {
        digits_of(n / 10).push(digit_char(n % 10))
    }
}

fn exec_digit_char(d: usize) -> (c: char)
    requires
        d < 10,
    ensures
        c == digit_char(d as nat),
{
    if d == 0 {
        '0'
    } else if d == 1 {
        '1'
    } else if d == 2 {
        '2'
    } else if d == 3 {
        '3'
    } else if d == 4 {
        '4'
    } else if d == 5 {
        '5'
    } else if d == 6 {
        '6'
    } else if d == 7 {
        '7'
    } else if d == 8 {
        '8'
    } else {
        '9'
    }
}

/// Render `n` in decimal.
pub fn usize_to_string(n: usize) -> (r: String)
    ensures
        r@ == digits_of(n as nat),
    decreases n,
{
    if n < 10 {
        let mut s = String::new();
        string_push(&mut s, exec_digit_char(n));
        proof {
            assert(s@ =~= digits_of(n as nat));
        }
        s
    } else {
        let mut s = usize_to_string(n / 10);
        string_push(&mut s, exec_digit_char(n % 10));
        s
    }
}

/// The rendering of a `bool` through its natural display form.
pub open spec fn bool_chars(b: bool) -> Seq<char> {
    if b {
        "true"@
    } else {
        "false"@
    }
}

/// Render a `bool` as `"true"` or `"false"`.
pub fn bool_str(b: bool) -> (r: &'static str)
    ensures
        r@ == bool_chars(b),
{
    if b {
        "true"
    } else {
        "false"
    }
}

/// The rendering of an optional count: the number in decimal, or nothing.
pub open spec fn opt_digits(n: Option<usize>) -> Seq<char> {
    match n {
        Some(v) => digits_of(v as nat),
        None => Seq::<char>::empty(),
    }
}

/// Render an optional count for display; `None` becomes the empty string.
pub fn display_option(n: Option<usize>) -> (r: String)
    ensures
        r@ == opt_digits(n),
{
    match n {
        Some(v) => usize_to_string(v),
        None => String::new(),
    }
}

} // verus!
