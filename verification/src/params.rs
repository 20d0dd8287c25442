//! Parameters that configure a run of the tool, and the parsing of the
//! timeout value.
//!
//! A timeout is given as a bare number of seconds, as `"none"`, `"0"` or an
//! empty string for no timeout, or as a duration word such as `"200ms"`; the
//! last form is read by an outside parser behind a trusted wrapper.

use vstd::prelude::*;
use vstd::string::StrSliceExecFns;

verus! {

/// A span of time: whole seconds and the nanoseconds below one second.
#[derive(Debug, PartialEq, Eq, Structural, Clone, Copy)]
pub struct DurationValue {
    pub secs: u64,
    pub nanos: u32,
}

/// Parameters that configure a run of the tool.
#[derive(Debug)]
pub struct Params {
    /// The repositories to summarize.
    pub repositories: Vec<String>,
    /// Prefix for each shell var line (e.g. `"local "`).
    pub prefix: Option<String>,
    /// Print timing information on the diagnostic stream.
    pub verbose: bool,
    /// How long the run may take; zero means no timeout.
    pub timeout: DurationValue,
}

/// A whitespace character, as trimming removes it: the Unicode White_Space
/// set.
pub open spec fn is_space(c: char) -> bool {
    ||| ('\u{0009}' <= c && c <= '\u{000D}')
    ||| c == ' '
    ||| c == '\u{0085}'
    ||| c == '\u{00A0}'
    ||| c == '\u{1680}'
    ||| ('\u{2000}' <= c && c <= '\u{200A}')
    ||| c == '\u{2028}'
    ||| c == '\u{2029}'
    ||| c == '\u{202F}'
    ||| c == '\u{205F}'
    ||| c == '\u{3000}'
}

/// `s` with leading whitespace removed.
pub open spec fn trim_front(s: Seq<char>) -> Seq<char>
    decreases s.len(),
{
    if s.len() > 0 && is_space(s[0]) {
        trim_front(s.drop_first())
    } else {
        s
    }
}

/// `s` with trailing whitespace removed.
pub open spec fn trim_back(s: Seq<char>) -> Seq<char>
    decreases s.len(),
{
    if s.len() > 0 && is_space(s.last()) {
        trim_back(s.drop_last())
    } else {
        s
    }
}

/// `s` with leading and trailing whitespace removed.
pub open spec fn trimmed(s: Seq<char>) -> Seq<char> {
    trim_back(trim_front(s))
}

/// A spelling of the word `none`, in any mix of ASCII case.
pub open spec fn is_none_word(s: Seq<char>) -> bool {
    s.len() == 4 && (s[0] == 'n' || s[0] == 'N') && (s[1] == 'o' || s[1] == 'O') && (s[2] == 'n'
        || s[2] == 'N') && (s[3] == 'e' || s[3] == 'E')
}

/// An ASCII decimal digit.
pub open spec fn is_digit(c: char) -> bool {
    '0' <= c && c <= '9'
}

/// A nonempty string of ASCII decimal digits.
pub open spec fn all_digits(s: Seq<char>) -> bool {
    s.len() > 0 && forall|i: int| 0 <= i < s.len() ==> is_digit(#[trigger] s[i])
}

/// The numeric value of a digit character.
pub open spec fn digit_val(c: char) -> int {
    c as u32 - 48
}

/// The number a string of decimal digits denotes.
pub open spec fn dec_value(s: Seq<char>) -> int
    decreases s.len(),
{
    if s.len() == 0 {
        0
    } else {
        dec_value(s.drop_last()) * 10 + digit_val(s.last())
    }
}

/// What the outside duration parser returns for a given input: seconds and
/// sub-second nanoseconds, or nothing when the input is not a duration it
/// accepts.
pub uninterp spec fn parsed_duration(s: Seq<char>) -> Option<(u64, u32)>;

/// Relies on `duration_str::parse`: a pure parser, so its result is a
/// function of the input string alone, and the sub-second part of a
/// `std::time::Duration` is below one second.
#[verifier::external_body]
fn parse_duration_str(input: &str) -> (r: Result<DurationValue, String>)
    ensures
        match r {
            Ok(d) => parsed_duration(input@) == Some((d.secs, d.nanos)) && d.nanos < 1000000000,
            Err(_) => parsed_duration(input@) is None,
        },
{
    match duration_str::parse(input) {
        Ok(d) => Ok(DurationValue { secs: d.as_secs(), nanos: d.subsec_nanos() }),
        Err(e) => Err(e),
    }
}

proof fn lemma_trim_front_skip(s: Seq<char>, j: int)
    requires
        0 <= j <= s.len(),
        forall|k: int| 0 <= k < j ==> is_space(#[trigger] s[k]),
        j == s.len() || !is_space(s[j]),
    ensures
        trim_front(s) == s.skip(j),
    decreases j,
{
    if j == 0 {
        assert(s.skip(0) =~= s);
    } else {
        assert(is_space(s[0]));
        let d = s.drop_first();
        assert(forall|k: int| 0 <= k < j - 1 ==> is_space(#[trigger] d[k]));
        lemma_trim_front_skip(d, j - 1);
        assert(d.skip(j - 1) =~= s.skip(j));
    }
}

proof fn lemma_trim_back_take(s: Seq<char>, e: int)
    requires
        0 <= e <= s.len(),
        forall|k: int| e <= k < s.len() ==> is_space(#[trigger] s[k]),
        e == 0 || !is_space(s[e - 1]),
    ensures
        trim_back(s) == s.take(e),
    decreases s.len() - e,
{
    if e == s.len() {
        assert(s.take(e) =~= s);
    } else {
        assert(is_space(s.last()));
        let d = s.drop_last();
        assert(forall|k: int| e <= k < d.len() ==> is_space(#[trigger] d[k]));
        lemma_trim_back_take(d, e);
        assert(d.take(e) =~= s.take(e));
    }
}

proof fn lemma_dec_value_step(s: Seq<char>, j: int)
    requires
        0 <= j < s.len(),
    ensures
        dec_value(s.take(j + 1)) == dec_value(s.take(j)) * 10 + digit_val(s[j]),
{
    let t = s.take(j + 1);
    assert(t.drop_last() =~= s.take(j));
    assert(t.last() == s[j]);
}

proof fn lemma_dec_value_nonneg(s: Seq<char>)
    requires
        forall|i: int| 0 <= i < s.len() ==> is_digit(#[trigger] s[i]),
    ensures
        dec_value(s) >= 0,
    decreases s.len(),
{
    if s.len() > 0 {
        let d = s.drop_last();
        assert(forall|i: int| 0 <= i < d.len() ==> is_digit(#[trigger] d[i]));
        lemma_dec_value_nonneg(d);
        assert(is_digit(s.last()));
        assert(digit_val(s.last()) >= 0);
        assert(dec_value(d) * 10 >= 0) by (nonlinear_arith)
            requires
                dec_value(d) >= 0,
        ;
    }
}

/// The value of a digit string only grows as more digits are read.
proof fn lemma_dec_value_prefix_le(s: Seq<char>, j: int)
    requires
        forall|i: int| 0 <= i < s.len() ==> is_digit(#[trigger] s[i]),
        0 <= j <= s.len(),
    ensures
        dec_value(s.take(j)) <= dec_value(s),
    decreases s.len() - j,
{
    if j == s.len() {
        assert(s.take(j) =~= s);
    } else {
        lemma_dec_value_step(s, j);
        let a = dec_value(s.take(j));
        assert(forall|i: int| 0 <= i < s.take(j).len() ==> is_digit(#[trigger] s.take(j)[i]));
        lemma_dec_value_nonneg(s.take(j));
        assert(a <= a * 10) by (nonlinear_arith)
            requires
                a >= 0,
        ;
        assert(dec_value(s.take(j)) <= dec_value(s.take(j + 1)));
        lemma_dec_value_prefix_le(s, j + 1);
    }
}

/// Parse a timeout parameter.
///
/// The input is trimmed of whitespace; an empty string, `"0"` or any
/// casing of `"none"` means no timeout, a leading `-` is rejected, a string
/// of bare digits is a number of seconds, and anything else is handed to
/// the duration parser.
pub fn parse_duration(input: &str) -> (r: Result<DurationValue, String>)
    ensures
        ({
            let t = trimmed(input@);
            let zero_case = t.len() == 0 || t == "0"@ || is_none_word(t);
            &&& zero_case ==> r == Ok::<DurationValue, String>(
                DurationValue { secs: 0, nanos: 0 },
            )
            &&& !zero_case && t.len() > 0 && t[0] == '-' ==> (r matches Err(m) && m@
                == "duration cannot be negative"@)
            &&& !zero_case && t[0] != '-' && all_digits(t) ==> (if dec_value(t) <= u64::MAX {
                r == Ok::<DurationValue, String>(
                    DurationValue { secs: dec_value(t) as u64, nanos: 0 },
                )
            } else {
                r matches Err(m) && m@ == "seconds value too large"@
            })
            &&& !zero_case && t[0] != '-' && !all_digits(t) ==> (match parsed_duration(t) {
                Some(d) => r == Ok::<DurationValue, String>(
                    DurationValue { secs: d.0, nanos: d.1 },
                ),
                None => r is Err,
            })
        }),
{
    let n = input.unicode_len();
    let mut start: usize = 0;
    while start < n && is_space_exec(input.get_char(start))
        invariant
            n == input@.len(),
            0 <= start <= n,
            forall|k: int| 0 <= k < start ==> is_space(#[trigger] input@[k]),
        decreases n - start,
    {
        start = start + 1;
    }
    let mut end: usize = n;
    while end > start && is_space_exec(input.get_char(end - 1))
        invariant
            n == input@.len(),
            start <= end <= n,
            forall|k: int| end <= k < n ==> is_space(#[trigger] input@[k]),
        decreases end,
    {
        end = end - 1;
    }
    let t = input.substring_char(start, end);
    proof {
        lemma_trim_front_skip(input@, start as int);
        let f = input@.skip(start as int);
        assert(forall|k: int|
            end - start <= k < f.len() ==> is_space(#[trigger] f[k]));
        lemma_trim_back_take(f, end - start);
        assert(f.take(end - start) =~= input@.subrange(start as int, end as int));
        assert(t@ == trimmed(input@));
    }
    let tn = t.unicode_len();
    if tn == 0 {
        return Ok(DurationValue { secs: 0, nanos: 0 });
    }
    proof {
        reveal_strlit("0");
    }
    if tn == 1 && t.get_char(0) == '0' {
        proof {
            assert(t@ =~= "0"@);
        }
        return Ok(DurationValue { secs: 0, nanos: 0 });
    }
    let c0 = t.get_char(0);
    if tn == 4 {
        let c1 = t.get_char(1);
        let c2 = t.get_char(2);
        let c3 = t.get_char(3);
        if (c0 == 'n' || c0 == 'N') && (c1 == 'o' || c1 == 'O') && (c2 == 'n' || c2 == 'N') && (c3
            == 'e' || c3 == 'E') {
            return Ok(DurationValue { secs: 0, nanos: 0 });
        }
    }
    if c0 == '-' {
        return Err(String::from_str("duration cannot be negative"));
    }
    let mut digits = true;
    let mut i: usize = 0;
    while i < tn
        invariant
            tn == t@.len(),
            0 <= i <= tn,
            digits == forall|k: int| 0 <= k < i ==> is_digit(#[trigger] t@[k]),
        decreases tn - i,
    {
        let c = t.get_char(i);
        if !('0' <= c && c <= '9') {
            digits = false;
            proof {
                assert(!is_digit(t@[i as int]));
            }
        }
        proof {
            if digits {
                assert(forall|k: int| 0 <= k < i + 1 ==> is_digit(#[trigger] t@[k]));
            } else {
                assert(exists|k: int| 0 <= k < i + 1 && !is_digit(#[trigger] t@[k]));
            }
        }
        i = i + 1;
    }
    if digits {
        let mut v: u64 = 0;
        let mut j: usize = 0;
        while j < tn
            invariant
                tn == t@.len(),
                tn > 0,
                0 <= j <= tn,
                all_digits(t@),
                v == dec_value(t@.take(j as int)),
                t@ == trimmed(input@),
                !(t@.len() == 0 || t@ == "0"@ || is_none_word(t@)),
                t@[0] != '-',
            decreases tn - j,
        {
            let c = t.get_char(j);
            proof {
                assert(is_digit(t@[j as int]));
            }
            let d: u64 = (c as u32 - 48) as u64;
            if v > u64::MAX / 10 || (v == u64::MAX / 10 && d > u64::MAX % 10) {
                proof {
                    lemma_dec_value_step(t@, j as int);
                    assert(dec_value(t@.take(j + 1)) == v * 10 + d);
                    assert(v * 10 + d > u64::MAX) by (nonlinear_arith)
                        requires
                            v > u64::MAX / 10 || (v == u64::MAX / 10 && d > u64::MAX % 10),
                            d >= 0,
                            v >= 0,
                    ;
                    lemma_dec_value_prefix_le(t@, j + 1);
                    assert(dec_value(t@) > u64::MAX);
                }
                return Err(String::from_str("seconds value too large"));
            }
            proof {
                lemma_dec_value_step(t@, j as int);
                assert(v * 10 + d <= u64::MAX) by (nonlinear_arith)
                    requires
                        v <= u64::MAX / 10,
                        v == u64::MAX / 10 ==> d <= u64::MAX % 10,
                        0 <= d < 10,
                        v >= 0,
                ;
            }
            v = v * 10 + d;
            j = j + 1;
        }
        proof {
            assert(t@.take(tn as int) =~= t@);
        }
        Ok(DurationValue { secs: v, nanos: 0 })
    } else {
        match parse_duration_str(t) {
            Ok(d) => Ok(d),
            Err(m) => Err(m),
        }
    }
}

/// Whether a character is whitespace, as [`parse_duration`] trims it.
fn is_space_exec(c: char) -> (r: bool)
    ensures
        r == is_space(c),
{
    ('\u{0009}' <= c && c <= '\u{000D}') || c == ' ' || c == '\u{0085}' || c == '\u{00A0}' || c
        == '\u{1680}' || ('\u{2000}' <= c && c <= '\u{200A}') || c == '\u{2028}' || c == '\u{2029}'
        || c == '\u{202F}' || c == '\u{205F}' || c == '\u{3000}'
}

} // verus!
