//! Shell quoting of variable values.
//!
//! A value is rendered so that a POSIX shell reading the output (via `eval`
//! or `source`) sees exactly the original characters: values made only of
//! ordinary characters pass through unchanged, values containing a newline
//! but no single quote are wrapped in single quotes, and everything else is
//! wrapped in single quotes with each embedded single quote escaped as
//! `'\''`.
//!
//! [`lemma_shell_quote_round_trip`] proves the round trip: unquoting the
//! quoted form of any string by POSIX single-quote/backslash rules gives the
//! original string back.

use crate::strutil::string_push;
use vstd::prelude::*;
use vstd::string::StrSliceExecFns;
use vstd::string::StringExecFns;

verus! {

/// A character the shell could interpret: quoting is needed whenever a value
/// contains one of these.
pub open spec fn is_special_char(c: char) -> bool {
    ||| c == '\n'
    ||| c == '\''
    ||| c == '|'
    ||| c == '&'
    ||| c == ';'
    ||| c == '<'
    ||| c == '>'
    ||| c == '('
    ||| c == ')'
    ||| c == '$'
    ||| c == '`'
    ||| c == '\\'
    ||| c == '"'
    ||| c == ' '
    ||| c == '\t'
    ||| c == '*'
    ||| c == '?'
    ||| c == '['
    ||| c == '#'
    ||| c == '~'
    ||| c == '='
    ||| c == '%'
}

pub open spec fn has_special(s: Seq<char>) -> bool {
    exists|i: int| 0 <= i < s.len() && is_special_char(s[i])
}

pub open spec fn has_char(s: Seq<char>, c: char) -> bool {
    exists|i: int| 0 <= i < s.len() && s[i] == c
}

/// `s` with every single quote replaced by the four characters `'\''`.
pub open spec fn escaped_chars(s: Seq<char>) -> Seq<char>
    decreases s.len(),
{
    if s.len() == 0 {
        Seq::<char>::empty()
    } else if s[0] == '\'' {
        seq!['\'', '\\', '\'', '\''] + escaped_chars(s.drop_first())
    } else {
        seq![s[0]] + escaped_chars(s.drop_first())
    }
}

/// The quoted form of a value: unchanged when nothing needs quoting, wrapped
/// in single quotes when it contains a newline but no single quote, and
/// otherwise wrapped in single quotes with embedded single quotes escaped.
pub open spec fn quoted(s: Seq<char>) -> Seq<char> {
    if s.len() == 0 {
        seq!['\'', '\'']
    } else if !has_special(s) {
        s
    } else if has_char(s, '\n') && !has_char(s, '\'') {
        seq!['\''] + s + seq!['\'']
    } else {
        seq!['\''] + escaped_chars(s) + seq!['\'']
    }
}

/// One step of a POSIX-style unquoting reader. Outside single quotes, a
/// backslash makes the next character literal, a single quote opens a quoted
/// run, and any other character the shell would interpret is refused; inside
/// single quotes every character but the closing quote is literal. A
/// backslash-newline pair (line continuation) and an unterminated quote are
/// refused.
pub open spec fn unquote_from(s: Seq<char>, in_quote: bool) -> Option<Seq<char>>
    decreases s.len(),
{
    if s.len() == 0 {
        if in_quote {
            None
        } else {
            Some(Seq::<char>::empty())
        }
    } else if in_quote {
        if s[0] == '\'' {
            unquote_from(s.drop_first(), false)
        } else {
            prepend_char(s[0], unquote_from(s.drop_first(), true))
        }
    } else if s[0] == '\'' {
        unquote_from(s.drop_first(), true)
    } else if s[0] == '\\' {
        if s.len() >= 2 && s[1] != '\n' {
            prepend_char(s[1], unquote_from(s.skip(2), false))
        } else {
            None
        }
    } else if is_special_char(s[0]) {
        None
    } else {
        prepend_char(s[0], unquote_from(s.drop_first(), false))
    }
}

pub open spec fn prepend_char(c: char, r: Option<Seq<char>>) -> Option<Seq<char>> {
    match r {
        Some(t) => Some(seq![c] + t),
        None => None,
    }
}

/// Read one shell word back from its quoted rendering.
pub open spec fn shell_unquote(s: Seq<char>) -> Option<Seq<char>> {
    unquote_from(s, false)
}

/// Unquoting a run of ordinary characters followed by `rest` reads the run
/// literally.
proof fn lemma_unquote_plain_run(s: Seq<char>, rest: Seq<char>)
    requires
        forall|i: int| 0 <= i < s.len() ==> !is_special_char(#[trigger] s[i]),
    ensures
        unquote_from(s + rest, false) == match unquote_from(rest, false) {
            Some(t) => Some(s + t),
            None => None::<Seq<char>>,
        },
    decreases s.len(),
{
    if s.len() == 0 {
        assert(s + rest =~= rest);
        match unquote_from(rest, false) {
            Some(t) => {
                assert(s + t =~= t);
            },
            None => {},
        }
    } else {
        let w = s + rest;
        assert(w[0] == s[0]);
        assert(!is_special_char(s[0]));
        assert(w.drop_first() =~= s.drop_first() + rest);
        lemma_unquote_plain_run(s.drop_first(), rest);
        match unquote_from(rest, false) {
            Some(t) => {
                assert(seq![s[0]] + (s.drop_first() + t) =~= s + t);
            },
            None => {},
        }
    }
}

/// Unquoting a quote-free run inside single quotes, up to the closing quote,
/// reads the run literally.
proof fn lemma_unquote_quoted_run(s: Seq<char>, rest: Seq<char>)
    requires
        forall|i: int| 0 <= i < s.len() ==> #[trigger] s[i] != '\'',
    ensures
        unquote_from(s + seq!['\''] + rest, true) == match unquote_from(rest, false) {
            Some(t) => Some(s + t),
            None => None::<Seq<char>>,
        },
    decreases s.len(),
{
    if s.len() == 0 {
        let w = s + seq!['\''] + rest;
        assert(w[0] == '\'');
        assert(w.drop_first() =~= rest);
        match unquote_from(rest, false) {
            Some(t) => {
                assert(s + t =~= t);
            },
            None => {},
        }
    } else {
        let w = s + seq!['\''] + rest;
        assert(w[0] == s[0]);
        assert(s[0] != '\'');
        assert(w.drop_first() =~= s.drop_first() + seq!['\''] + rest);
        lemma_unquote_quoted_run(s.drop_first(), rest);
        match unquote_from(rest, false) {
            Some(t) => {
                assert(seq![s[0]] + (s.drop_first() + t) =~= s + t);
            },
            None => {},
        }
    }
}

/// Unquoting the escaped form of `s` inside single quotes, up to the closing
/// quote, reads `s` back literally.
proof fn lemma_unquote_escaped(s: Seq<char>)
    ensures
        unquote_from(escaped_chars(s) + seq!['\''], true) == Some(s),
    decreases s.len(),
{
    if s.len() == 0 {
        let w = escaped_chars(s) + seq!['\''];
        assert(w =~= seq!['\'']);
        assert(w[0] == '\'');
        assert(w.drop_first() =~= Seq::<char>::empty());
        assert(unquote_from(w, true) == unquote_from(w.drop_first(), false));
        assert(unquote_from(Seq::<char>::empty(), false) == Some(Seq::<char>::empty()));
        assert(Some(Seq::<char>::empty()) == Some(s));
    } else {
        lemma_unquote_escaped(s.drop_first());
        let tail = escaped_chars(s.drop_first()) + seq!['\''];
        if s[0] == '\'' {
            let w = escaped_chars(s) + seq!['\''];
            assert(escaped_chars(s) == seq!['\'', '\\', '\'', '\''] + escaped_chars(
                s.drop_first(),
            ));
            assert(w =~= seq!['\'', '\\', '\'', '\''] + tail);
            // Step 1: the quote closes the quoted run.
            assert(w[0] == '\'');
            let w1 = w.drop_first();
            assert(w1 =~= seq!['\\', '\'', '\''] + tail);
            // Step 2: the backslash escapes the quote that follows.
            assert(w1[0] == '\\');
            assert(w1.len() >= 2 && w1[1] == '\'');
            let w2 = w1.skip(2);
            assert(w2 =~= seq!['\''] + tail);
            // Step 3: the quote reopens the quoted run.
            assert(w2[0] == '\'');
            assert(w2.drop_first() =~= tail);
            assert(unquote_from(w, true) == unquote_from(w1, false));
            assert(unquote_from(w1, false) == prepend_char('\'', unquote_from(w2, false)));
            assert(unquote_from(w2, false) == unquote_from(tail, true));
            assert(unquote_from(tail, true) == Some(s.drop_first()));
            assert(seq!['\''] + s.drop_first() =~= s);
        } else {
            let w = escaped_chars(s) + seq!['\''];
            assert(escaped_chars(s) == seq![s[0]] + escaped_chars(s.drop_first()));
            assert(w[0] == s[0]);
            assert(w.drop_first() =~= tail);
            assert(unquote_from(w, true) == prepend_char(s[0], unquote_from(tail, true)));
            assert(unquote_from(tail, true) == Some(s.drop_first()));
            assert(seq![s[0]] + s.drop_first() =~= s);
        }
    }
}

/// Law: quoting round-trips. For every string (in particular one containing
/// a single quote, backtick, dollar sign, or newline), unquoting the quoted
/// form by POSIX shell rules yields exactly the original string.
pub proof fn lemma_shell_quote_round_trip(s: Seq<char>)
    ensures
        shell_unquote(quoted(s)) == Some(s),
{
    if s.len() == 0 {
        let w = quoted(s);
        assert(w[0] == '\'');
        assert(w.drop_first() =~= seq!['\'']);
        assert(w.drop_first()[0] == '\'');
        assert(w.drop_first().drop_first() =~= Seq::<char>::empty());
    } else if !has_special(s) {
        assert(forall|i: int| 0 <= i < s.len() ==> !is_special_char(#[trigger] s[i]));
        lemma_unquote_plain_run(s, Seq::<char>::empty());
        assert(s + Seq::<char>::empty() =~= s);
    } else if has_char(s, '\n') && !has_char(s, '\'') {
        let w = quoted(s);
        assert(w =~= seq!['\''] + (s + seq!['\'']));
        assert(w[0] == '\'');
        assert(w.drop_first() =~= s + seq!['\''] + Seq::<char>::empty());
        assert(forall|i: int| 0 <= i < s.len() ==> #[trigger] s[i] != '\'');
        lemma_unquote_quoted_run(s, Seq::<char>::empty());
        assert(s + Seq::<char>::empty() =~= s);
    } else {
        let w = quoted(s);
        assert(w =~= seq!['\''] + (escaped_chars(s) + seq!['\'']));
        assert(w[0] == '\'');
        assert(w.drop_first() =~= escaped_chars(s) + seq!['\'']);
        lemma_unquote_escaped(s);
    }
}

/// Appending a character to a string extends its escaped form by that
/// character's escape.
proof fn lemma_escaped_push(s: Seq<char>, c: char)
    ensures
        escaped_chars(s.push(c)) == escaped_chars(s) + (if c == '\'' {
            seq!['\'', '\\', '\'', '\'']
        } else {
            seq![c]
        }),
    decreases s.len(),
{
    let w = s.push(c);
    if s.len() == 0 {
        assert(w.len() == 1);
        assert(w[0] == c);
        assert(w.drop_first() =~= Seq::<char>::empty());
        assert(escaped_chars(Seq::<char>::empty()) == Seq::<char>::empty());
        assert(escaped_chars(w.drop_first()) == Seq::<char>::empty());
        if c == '\'' {
            assert(escaped_chars(w) == seq!['\'', '\\', '\'', '\''] + escaped_chars(
                w.drop_first(),
            ));
            assert(escaped_chars(w) =~= seq!['\'', '\\', '\'', '\'']);
            assert(escaped_chars(s) + seq!['\'', '\\', '\'', '\''] =~= seq![
                '\'',
                '\\',
                '\'',
                '\'',
            ]);
        } else {
            assert(escaped_chars(w) == seq![c] + escaped_chars(w.drop_first()));
            assert(escaped_chars(w) =~= seq![c]);
            assert(escaped_chars(s) + seq![c] =~= seq![c]);
        }
    } else {
        assert(w[0] == s[0]);
        assert(w.drop_first() =~= s.drop_first().push(c));
        lemma_escaped_push(s.drop_first(), c);
        if c == '\'' {
            if s[0] == '\'' {
                assert(escaped_chars(w) == seq!['\'', '\\', '\'', '\''] + escaped_chars(
                    s.drop_first().push(c),
                ));
                assert(seq!['\'', '\\', '\'', '\''] + (escaped_chars(s.drop_first()) + seq![
                    '\'',
                    '\\',
                    '\'',
                    '\'',
                ]) =~= escaped_chars(s) + seq!['\'', '\\', '\'', '\'']);
            } else {
                assert(seq![s[0]] + (escaped_chars(s.drop_first()) + seq!['\'', '\\', '\'', '\''])
                    =~= escaped_chars(s) + seq!['\'', '\\', '\'', '\'']);
            }
        } else {
            if s[0] == '\'' {
                assert(seq!['\'', '\\', '\'', '\''] + (escaped_chars(s.drop_first()) + seq![c])
                    =~= escaped_chars(s) + seq![c]);
            } else {
                assert(seq![s[0]] + (escaped_chars(s.drop_first()) + seq![c]) =~= escaped_chars(s)
                    + seq![c]);
            }
        }
    }
}

/// Quote `value` for safe shell insertion.
pub fn shell_quote(value: &str) -> (r: String)
    ensures
        r@ == quoted(value@),
{
    let n = value.unicode_len();
    let mut special = false;
    let mut newline = false;
    let mut single_quote = false;
    let mut i: usize = 0;
    while i < n
        invariant
            n == value@.len(),
            0 <= i <= n,
            special == has_special(value@.take(i as int)),
            newline == has_char(value@.take(i as int), '\n'),
            single_quote == has_char(value@.take(i as int), '\''),
        decreases n - i,
    {
        let c = value.get_char(i);
        proof {
            assert(value@.take(i + 1) =~= value@.take(i as int).push(value@[i as int]));
        }
        if c == '\n' {
            newline = true;
            special = true;
        } else if c == '\'' {
            single_quote = true;
            special = true;
        } else if c == '|' || c == '&' || c == ';' || c == '<' || c == '>' || c == '(' || c == ')'
            || c == '$' || c == '`' || c == '\\' || c == '"' || c == ' ' || c == '\t' || c == '*'
            || c == '?' || c == '[' || c == '#' || c == '~' || c == '=' || c == '%' {
            special = true;
        }
        proof {
            let t = value@.take(i + 1);
            let p = value@.take(i as int);
            assert(t.drop_last() =~= p);
            assert(t.last() == value@[i as int]);
            if has_special(p) {
                let k = choose|k: int| 0 <= k < p.len() && is_special_char(p[k]);
                assert(t[k] == p[k]);
                assert(has_special(t));
            }
            if is_special_char(value@[i as int]) {
                assert(t[i as int] == value@[i as int]);
                assert(has_special(t));
            }
            if has_special(t) && !has_special(p) && !is_special_char(value@[i as int]) {
                let k = choose|k: int| 0 <= k < t.len() && is_special_char(t[k]);
                assert(false);
            }
            if has_char(p, '\n') {
                let k = choose|k: int| 0 <= k < p.len() && p[k] == '\n';
                assert(t[k] == '\n');
            }
            if has_char(t, '\n') && !has_char(p, '\n') && value@[i as int] != '\n' {
                let k = choose|k: int| 0 <= k < t.len() && t[k] == '\n';
                assert(false);
            }
            if has_char(p, '\'') {
                let k = choose|k: int| 0 <= k < p.len() && p[k] == '\'';
                assert(t[k] == '\'');
            }
            if has_char(t, '\'') && !has_char(p, '\'') && value@[i as int] != '\'' {
                let k = choose|k: int| 0 <= k < t.len() && t[k] == '\'';
                assert(false);
            }
        }
        i = i + 1;
    }
    proof {
        assert(value@.take(n as int) =~= value@);
    }
    if n == 0 {
        let r = String::from_str("''");
        proof {
            reveal_strlit("''");
            assert(r@ =~= quoted(value@));
        }
        r
    } else if !special {
        value.to_owned()
    } else if newline && !single_quote {
        let mut r = String::from_str("'");
        r.append(value);
        r.append("'");
        proof {
            reveal_strlit("'");
            assert(r@ =~= quoted(value@));
        }
        r
    } else {
        let mut r = String::new();
        string_push(&mut r, '\'');
        proof {
            assert(value@.take(0) =~= Seq::<char>::empty());
            assert(r@ =~= seq!['\''] + escaped_chars(value@.take(0)));
        }
        let mut j: usize = 0;
        while j < n
            invariant
                n == value@.len(),
                0 <= j <= n,
                r@ == seq!['\''] + escaped_chars(value@.take(j as int)),
            decreases n - j,
        {
            let c = value.get_char(j);
            if c == '\'' {
                string_push(&mut r, '\'');
                string_push(&mut r, '\\');
                string_push(&mut r, '\'');
                string_push(&mut r, '\'');
            } else {
                string_push(&mut r, c);
            }
            proof {
                assert(value@.take(j + 1) =~= value@.take(j as int).push(value@[j as int]));
                lemma_escaped_push(value@.take(j as int), value@[j as int]);
                assert(r@ =~= seq!['\''] + escaped_chars(value@.take(j + 1)));
            }
            j = j + 1;
        }
        string_push(&mut r, '\'');
        proof {
            assert(value@.take(n as int) =~= value@);
            assert(r@ =~= seq!['\''] + escaped_chars(value@) + seq!['\'']);
            assert(r@ =~= quoted(value@));
        }
        r
    }
}

/// Quote a value that already carries a diagnostic (debug-style) rendering
/// for safe shell insertion; the quoting itself is exactly [`shell_quote`].
pub fn shell_quote_debug(value: &str) -> (r: String)
    ensures
        r@ == quoted(value@),
{
    shell_quote(value)
}

} // verus!
