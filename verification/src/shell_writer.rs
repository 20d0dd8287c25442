//! Writing `key=value` lines for a shell to read.
//!
//! A [`ShellWriter`] carries the prefix that is prepended to every variable
//! name; the output itself goes to an explicit `String` sink handed to each
//! call, so that writers derived with [`ShellWriter::group`] append to the
//! same stream in call order.

use crate::shell_quote::quoted;
use crate::shell_quote::shell_quote;
use crate::strutil::digits_of;
use crate::strutil::usize_to_string;
use vstd::prelude::*;
use vstd::string::StringExecFns;

verus! {

/// The rendering of one `prefix` + `name` `=` quoted-`value` line, newline
/// included.
pub open spec fn var_line(prefix: Seq<char>, name: Seq<char>, value: Seq<char>) -> Seq<char> {
    prefix + name + seq!['='] + quoted(value) + seq!['\n']
}

/// A writer of `var=value` pairs, carrying the prefix prepended to every
/// variable name (e.g. `"head_"`, or `""`).
#[derive(Debug, Clone)]
pub struct ShellWriter {
    prefix: String,
}

impl ShellWriter {
    /// The prefix this writer prepends to every variable name.
    pub closed spec fn prefix_spec(&self) -> Seq<char> {
        self.prefix@
    }

    /// Create a writer with the given prefix. The prefix will be prepended
    /// any time a var is written, e.g. `prefixvar=value`.
    pub fn new(prefix: &str) -> (r: Self)
        ensures
            r.prefix_spec() == prefix@,
    {
        ShellWriter { prefix: prefix.to_owned() }
    }

    /// Write `var=value` to `out`. The value is quoted for safe shell
    /// insertion; `var` is assumed to be a valid shell variable name.
    pub fn write_var(&self, out: &mut String, var: &str, value: &str)
        ensures
            final(out)@ == old(out)@ + var_line(self.prefix_spec(), var@, value@),
    {
        out.append(self.prefix.as_str());
        out.append(var);
        out.append("=");
        let q = shell_quote(value);
        out.append(q.as_str());
        out.append("\n");
        proof {
            reveal_strlit("=");
            reveal_strlit("\n");
            assert("="@ =~= seq!['=']);
            assert("\n"@ =~= seq!['\n']);
            assert(final(out)@ =~= old(out)@ + var_line(self.prefix_spec(), var@, value@));
        }
    }

    /// Write `var=value` to `out` for a value that already carries a
    /// diagnostic (debug-style) rendering, such as an error detail or a
    /// repository state name. The value is quoted exactly as
    /// [`Self::write_var`] quotes it.
    pub fn write_var_debug(&self, out: &mut String, var: &str, value: &str)
        ensures
            final(out)@ == old(out)@ + var_line(self.prefix_spec(), var@, value@),
    {
        self.write_var(out, var, value);
    }

    /// Write an object with the [`ShellVars`] trait. Mostly used with
    /// [`Self::group`] and [`Self::group_n`].
    pub fn write_vars<T: ShellVars>(&self, out: &mut String, vars: &T)
        ensures
            final(out)@ == old(out)@ + vars.shell_repr(self.prefix_spec()),
    {
        vars.write_to_shell(self, out);
    }

    /// Derive a writer for a named group: its prefix is this writer's prefix
    /// followed by `group` and an underscore, so it writes
    /// `prefixgroup_var=value` lines.
    pub fn group(&self, group: &str) -> (r: Self)
        ensures
            r.prefix_spec() == self.prefix_spec() + group@ + seq!['_'],
    {
        let mut prefix = self.prefix.clone();
        prefix.append(group);
        prefix.append("_");
        proof {
            reveal_strlit("_");
            assert("_"@ =~= seq!['_']);
            assert(prefix@ =~= self.prefix_spec() + group@ + seq!['_']);
        }
        ShellWriter { prefix }
    }

    /// Derive a writer for a numbered group, writing `prefixgroupN_var=value`
    /// lines.
    pub fn group_n(&self, group: &str, n: usize) -> (r: Self)
        ensures
            r.prefix_spec() == self.prefix_spec() + group@ + digits_of(n as nat) + seq!['_'],
    {
        let mut prefix = self.prefix.clone();
        prefix.append(group);
        let num = usize_to_string(n);
        prefix.append(num.as_str());
        prefix.append("_");
        proof {
            reveal_strlit("_");
            assert("_"@ =~= seq!['_']);
            assert(prefix@ =~= self.prefix_spec() + group@ + digits_of(n as nat) + seq!['_']);
        }
        ShellWriter { prefix }
    }
}

/// Write one `prefixkey=value` line to `out`, with the value quoted for
/// safe shell insertion.
pub fn write_key_value(out: &mut String, prefix: &str, key: &str, value: &str)
    ensures
        final(out)@ == old(out)@ + var_line(prefix@, key@, value@),
{
    out.append(prefix);
    out.append(key);
    out.append("=");
    let q = shell_quote(value);
    out.append(q.as_str());
    out.append("\n");
    proof {
        reveal_strlit("=");
        reveal_strlit("\n");
        assert("="@ =~= seq!['=']);
        assert("\n"@ =~= seq!['\n']);
        assert(final(out)@ =~= old(out)@ + var_line(prefix@, key@, value@));
    }
}

/// An object that can be written as a group of shell variables.
pub trait ShellVars {
    /// The exact text this object contributes to the output when written
    /// under the given prefix.
    spec fn shell_repr(&self, prefix: Seq<char>) -> Seq<char>;

    /// Write `self` to `out` through the writer `w`.
    fn write_to_shell(&self, w: &ShellWriter, out: &mut String)
        ensures
            final(out)@ == old(out)@ + self.shell_repr(w.prefix_spec()),
    ;
}

} // verus!
