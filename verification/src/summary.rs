//! The data model of a repository summary — the `HEAD` reference trail, the
//! resolved hash, the upstream divergence, and the change counters — together
//! with the exact rendering of each piece as shell variables.

use crate::shell_writer::var_line;
use crate::shell_writer::ShellVars;
use crate::shell_writer::ShellWriter;
use crate::strutil::digits_of;
use crate::strutil::display_option;
use crate::strutil::opt_digits;
use crate::strutil::usize_to_string;
use vstd::prelude::*;
use vstd::string::StrSliceExecFns;

verus! {

/// A reference in a git repository: one hop in the `HEAD` trail.
#[derive(Debug)]
pub struct Reference {
    /// The name of the reference, e.g. `"refs/heads/my_branch"`.
    pub name: String,
    /// The kind of reference, e.g. `"symbolic"` or `"direct"`.
    pub kind: String,
    /// An error encountered when trying to resolve the reference, or `""`.
    pub error: String,
}

/// The mathematical content of a [`Reference`]: its three fields as
/// character sequences.
pub struct RefView {
    pub name: Seq<char>,
    pub kind: Seq<char>,
    pub error: Seq<char>,
}

impl View for Reference {
    type V = RefView;

    open spec fn view(&self) -> RefView {
        RefView { name: self.name@, kind: self.kind@, error: self.error@ }
    }
}

impl DeepView for Reference {
    type V = RefView;

    open spec fn deep_view(&self) -> RefView {
        self.view()
    }
}

/// The short name of a reference: `name` with a leading `refs/heads/` or
/// `refs/tags/` stripped, else `name` unchanged.
pub open spec fn short_spec(name: Seq<char>) -> Seq<char> {
    if name.len() >= 11 && name.take(11) == "refs/heads/"@ {
        name.skip(11)
    } else if name.len() >= 10 && name.take(10) == "refs/tags/"@ {
        name.skip(10)
    } else {
        name
    }
}

/// Whether `p` is a prefix of `s`.
fn str_has_prefix(s: &str, p: &str) -> (r: bool)
    ensures
        r == (s@.len() >= p@.len() && s@.take(p@.len() as int) == p@),
{
    let pn = p.unicode_len();
    let sn = s.unicode_len();
    if sn < pn {
        return false;
    }
    let mut i: usize = 0;
    while i < pn
        invariant
            pn == p@.len(),
            sn == s@.len(),
            pn <= sn,
            0 <= i <= pn,
            forall|j: int| 0 <= j < i ==> s@[j] == p@[j],
        decreases pn - i,
    {
        if s.get_char(i) != p.get_char(i) {
            proof {
                assert(s@.take(pn as int)[i as int] != p@[i as int]);
            }
            return false;
        }
        i = i + 1;
    }
    proof {
        assert(s@.take(pn as int) =~= p@);
    }
    true
}

impl Reference {
    /// Create a new reference without an error.
    pub fn new(name: &str, kind: &str) -> (r: Self)
        ensures
            r@.name == name@,
            r@.kind == kind@,
            r@.error == Seq::<char>::empty(),
    {
        Reference { name: name.to_owned(), kind: kind.to_owned(), error: String::new() }
    }

    /// Create a new reference with an error detail.
    pub fn new_with_error(name: &str, kind: &str, error: &str) -> (r: Self)
        ensures
            r@.name == name@,
            r@.kind == kind@,
            r@.error == error@,
    {
        Reference { name: name.to_owned(), kind: kind.to_owned(), error: error.to_owned() }
    }

    /// Create a new symbolic reference.
    pub fn symbolic(name: &str) -> (r: Self)
        ensures
            r@.name == name@,
            r@.kind == "symbolic"@,
            r@.error == Seq::<char>::empty(),
    {
        Self::new(name, "symbolic")
    }

    /// Create a new direct reference.
    pub fn direct(name: &str) -> (r: Self)
        ensures
            r@.name == name@,
            r@.kind == "direct"@,
            r@.error == Seq::<char>::empty(),
    {
        Self::new(name, "direct")
    }

    /// Get the short name of a reference if it's a tag or branch. Otherwise,
    /// get the full name.
    pub fn short(&self) -> (r: &str)
        ensures
            r@ == short_spec(self@.name),
    {
        let s = self.name.as_str();
        let n = s.unicode_len();
        proof {
            reveal_strlit("refs/heads/");
            reveal_strlit("refs/tags/");
        }
        if str_has_prefix(s, "refs/heads/") {
            let r = s.substring_char(11, n);
            proof {
                assert(r@ =~= self.name@.skip(11));
            }
            r
        } else if str_has_prefix(s, "refs/tags/") {
            let r = s.substring_char(10, n);
            proof {
                assert(r@ =~= self.name@.skip(10));
            }
            r
        } else {
            s
        }
    }
}

/// The lines a reference contributes under a group prefix: its name, short
/// name, kind and error.
pub open spec fn reference_repr(r: RefView, prefix: Seq<char>) -> Seq<char> {
    var_line(prefix, "name"@, r.name) + var_line(prefix, "short"@, short_spec(r.name)) + var_line(
        prefix,
        "kind"@,
        r.kind,
    ) + var_line(prefix, "error"@, r.error)
}

impl ShellVars for Reference {
    open spec fn shell_repr(&self, prefix: Seq<char>) -> Seq<char> {
        reference_repr(self@, prefix)
    }

    fn write_to_shell(&self, w: &ShellWriter, out: &mut String) {
        w.write_var(out, "name", self.name.as_str());
        let short = self.short();
        w.write_var(out, "short", short);
        w.write_var(out, "kind", self.kind.as_str());
        w.write_var(out, "error", self.error.as_str());
        proof {
            assert(final(out)@ =~= old(out)@ + reference_repr(self@, w.prefix_spec()));
        }
    }
}

/// The trail of a `HEAD` reference.
#[derive(Debug)]
pub struct Head {
    /// The trail of references leading to the actual underlying commit,
    /// beginning with the hop for the literal `HEAD` lookup itself.
    pub trail: Vec<Reference>,
    /// The hash of the commit, or `""` when no direct reference was reached.
    pub hash: String,
    /// How many commits we are ahead of upstream; `None` means there is no
    /// upstream or no comparable branch in it.
    pub ahead_of_upstream: Option<usize>,
    /// How many commits we are behind upstream; `None` means there is no
    /// upstream or no comparable branch in it.
    pub behind_upstream: Option<usize>,
    /// An error encountered trying to calculate differences with upstream.
    pub upstream_error: String,
}

/// The mathematical content of a [`Head`].
pub struct HeadView {
    pub trail: Seq<RefView>,
    pub hash: Seq<char>,
    pub ahead: Option<usize>,
    pub behind: Option<usize>,
    pub upstream_error: Seq<char>,
}

impl View for Head {
    type V = HeadView;

    open spec fn view(&self) -> HeadView {
        HeadView {
            trail: self.trail.deep_view(),
            hash: self.hash@,
            ahead: self.ahead_of_upstream,
            behind: self.behind_upstream,
            upstream_error: self.upstream_error@,
        }
    }
}

/// The number of hops a trail contributes to the output: everything after
/// the synthetic initial `HEAD` hop.
pub open spec fn ref_count(trail: Seq<RefView>) -> nat {
    if trail.len() >= 1 {
        (trail.len() - 1) as nat
    } else {
        0
    }
}

/// The group prefix of the numbered hop `i`.
pub open spec fn hop_prefix(prefix: Seq<char>, i: nat) -> Seq<char> {
    prefix + "ref"@ + digits_of(i) + seq!['_']
}

/// The lines of hops `i..` of a trail, each under its numbered group prefix.
/// Hop 0, the synthetic initial `HEAD` hop, is never rendered.
pub open spec fn hops_repr(trail: Seq<RefView>, prefix: Seq<char>, i: int) -> Seq<char>
    decreases trail.len() - i,
{
    if 1 <= i < trail.len() {
        reference_repr(trail[i], hop_prefix(prefix, i as nat)) + hops_repr(trail, prefix, i + 1)
    } else {
        Seq::<char>::empty()
    }
}

/// The full block of lines a head contributes under a group prefix.
pub open spec fn head_repr(h: HeadView, prefix: Seq<char>) -> Seq<char> {
    var_line(prefix, "ref_length"@, digits_of(ref_count(h.trail))) + hops_repr(h.trail, prefix, 1)
        + var_line(prefix, "hash"@, h.hash) + var_line(prefix, "ahead"@, opt_digits(h.ahead))
        + var_line(prefix, "behind"@, opt_digits(h.behind)) + var_line(
        prefix,
        "upstream_error"@,
        h.upstream_error,
    )
}

impl ShellVars for Head {
    open spec fn shell_repr(&self, prefix: Seq<char>) -> Seq<char> {
        head_repr(self@, prefix)
    }

    fn write_to_shell(&self, w: &ShellWriter, out: &mut String) {
        let ghost pre = out@;
        let ghost v = self@;
        let ghost p = w.prefix_spec();
        let len = self.trail.len();
        let m = if len >= 1 {
            len - 1
        } else {
            0
        };
        let num = usize_to_string(m);
        w.write_var(out, "ref_length", num.as_str());
        proof {
            assert(m as nat == ref_count(v.trail));
        }
        let ghost base = out@;
        let mut i: usize = 1;
        while i < len
            invariant
                len == self.trail@.len(),
                v == self@,
                p == w.prefix_spec(),
                1 <= i,
                i <= (if len >= 1 {
                    len as int
                } else {
                    1
                }),
                out@ + hops_repr(v.trail, p, i as int) == base + hops_repr(v.trail, p, 1),
            decreases len - i,
        {
            let gw = w.group_n("ref", i);
            let ghost before = out@;
            gw.write_vars(out, &self.trail[i]);
            proof {
                assert(self.trail@[i as int]@ == v.trail[i as int]);
                assert(gw.prefix_spec() == hop_prefix(p, i as nat));
                assert(out@ == before + reference_repr(v.trail[i as int], hop_prefix(p, i as nat)));
                assert(hops_repr(v.trail, p, i as int) == reference_repr(
                    v.trail[i as int],
                    hop_prefix(p, i as nat),
                ) + hops_repr(v.trail, p, i + 1));
                assert(out@ + hops_repr(v.trail, p, i + 1) =~= before + hops_repr(
                    v.trail,
                    p,
                    i as int,
                ));
            }
            i = i + 1;
        }
        proof {
            assert(hops_repr(v.trail, p, i as int) == Seq::<char>::empty());
            assert(out@ + Seq::<char>::empty() =~= out@);
            assert(out@ == base + hops_repr(v.trail, p, 1));
        }
        w.write_var(out, "hash", self.hash.as_str());
        let ahead = display_option(self.ahead_of_upstream);
        w.write_var(out, "ahead", ahead.as_str());
        let behind = display_option(self.behind_upstream);
        w.write_var(out, "behind", behind.as_str());
        w.write_var(out, "upstream_error", self.upstream_error.as_str());
        proof {
            assert(final(out)@ =~= pre + head_repr(v, p));
        }
    }
}

/// Counts of changes in the working tree and index (staged area).
#[derive(Debug, PartialEq, Eq, Structural, Clone, Copy)]
pub struct ChangeCounters {
    /// The number of untracked files (not in the index).
    pub untracked: usize,
    /// The number of files that have been modified, but haven't been staged.
    pub unstaged: usize,
    /// The number of files that have been staged.
    pub staged: usize,
    /// The number of files with conflicts.
    pub conflicted: usize,
}

impl Default for ChangeCounters {
    /// All counters zero.
    fn default() -> (r: Self)
        ensures
            r == (ChangeCounters { untracked: 0, unstaged: 0, staged: 0, conflicted: 0 }),
    {
        ChangeCounters { untracked: 0, unstaged: 0, staged: 0, conflicted: 0 }
    }
}

impl From<[usize; 4]> for ChangeCounters {
    fn from(array: [usize; 4]) -> (r: Self) {
        ChangeCounters {
            untracked: array[0],
            unstaged: array[1],
            staged: array[2],
            conflicted: array[3],
        }
    }
}

impl vstd::std_specs::convert::FromSpecImpl<[usize; 4]> for ChangeCounters {
    open spec fn obeys_from_spec() -> bool {
        true
    }

    open spec fn from_spec(array: [usize; 4]) -> Self {
        ChangeCounters {
            untracked: array@[0],
            unstaged: array@[1],
            staged: array@[2],
            conflicted: array@[3],
        }
    }
}

/// The four counter lines a [`ChangeCounters`] contributes under a prefix.
pub open spec fn counters_repr(c: ChangeCounters, prefix: Seq<char>) -> Seq<char> {
    var_line(prefix, "untracked_count"@, digits_of(c.untracked as nat)) + var_line(
        prefix,
        "unstaged_count"@,
        digits_of(c.unstaged as nat),
    ) + var_line(prefix, "staged_count"@, digits_of(c.staged as nat)) + var_line(
        prefix,
        "conflicted_count"@,
        digits_of(c.conflicted as nat),
    )
}

/// Everything gathered from a repository before any output is written.
pub struct SummaryFacts {
    pub state: Seq<char>,
    pub workdir: Seq<char>,
    pub empty: bool,
    pub bare: bool,
    pub head: HeadView,
    pub counters: ChangeCounters,
}

/// The full block of lines one successfully summarized repository
/// contributes: its state, working directory, emptiness and bareness, the
/// head block under the `head_` group, and the change counters.
pub open spec fn summary_repr(f: SummaryFacts, prefix: Seq<char>) -> Seq<char> {
    var_line(prefix, "repo_state"@, f.state) + var_line(prefix, "repo_workdir"@, f.workdir)
        + var_line(prefix, "repo_empty"@, crate::strutil::bool_chars(f.empty)) + var_line(
        prefix,
        "repo_bare"@,
        crate::strutil::bool_chars(f.bare),
    ) + head_repr(f.head, prefix + "head"@ + seq!['_']) + counters_repr(f.counters, prefix)
}

/// The block written when a path is not a git repository.
pub open spec fn notfound_repr(prefix: Seq<char>) -> Seq<char> {
    var_line(prefix, "repo_state"@, "NotFound"@)
}

/// The block written when opening or summarizing a repository failed, with
/// the failure's diagnostic rendering.
pub open spec fn error_repr(prefix: Seq<char>, detail: Seq<char>) -> Seq<char> {
    var_line(prefix, "repo_state"@, "Error"@) + var_line(prefix, "repo_error"@, detail)
}

/// The concatenation of a sequence of line blocks.
pub open spec fn flatten_blocks(blocks: Seq<Seq<char>>) -> Seq<char>
    decreases blocks.len(),
{
    if blocks.len() == 0 {
        Seq::<char>::empty()
    } else {
        blocks[0] + flatten_blocks(blocks.drop_first())
    }
}

/// The per-hop blocks a trail emits: one for each entry after the synthetic
/// initial `HEAD` hop, numbered from 1.
pub open spec fn hop_blocks(trail: Seq<RefView>, prefix: Seq<char>) -> Seq<Seq<char>> {
    Seq::new(ref_count(trail), |j: int| reference_repr(trail[j + 1], hop_prefix(prefix, (j + 1) as nat)))
}

proof fn lemma_hops_repr_flatten(trail: Seq<RefView>, prefix: Seq<char>, i: int)
    requires
        1 <= i <= trail.len() || i == 1,
    ensures
        hops_repr(trail, prefix, i) == flatten_blocks(hop_blocks(trail, prefix).skip(i - 1)),
    decreases trail.len() - i,
{
    let blocks = hop_blocks(trail, prefix);
    if 1 <= i < trail.len() {
        lemma_hops_repr_flatten(trail, prefix, i + 1);
        assert(blocks.skip(i - 1).len() > 0);
        assert(blocks.skip(i - 1)[0] == reference_repr(trail[i], hop_prefix(prefix, i as nat)));
        assert(blocks.skip(i - 1).drop_first() =~= blocks.skip(i));
    } else {
        assert(blocks.skip(i - 1) =~= Seq::<Seq<char>>::empty());
    }
}

/// Law: for every head, the `ref_length` value emitted equals the number of
/// reference entries actually emitted after it — the trail's length minus
/// the synthetic initial `HEAD` hop, and never negative. The head block is
/// exactly the `ref_length` line, those `ref_count` numbered hop blocks in
/// order, and the hash, ahead, behind and upstream error lines.
pub proof fn lemma_head_ref_length(h: HeadView, prefix: Seq<char>)
    ensures
        hop_blocks(h.trail, prefix).len() == ref_count(h.trail),
        h.trail.len() >= 1 ==> hop_blocks(h.trail, prefix).len() == h.trail.len() - 1,
        head_repr(h, prefix) == var_line(prefix, "ref_length"@, digits_of(ref_count(h.trail)))
            + flatten_blocks(hop_blocks(h.trail, prefix)) + var_line(prefix, "hash"@, h.hash)
            + var_line(prefix, "ahead"@, opt_digits(h.ahead)) + var_line(
            prefix,
            "behind"@,
            opt_digits(h.behind),
        ) + var_line(prefix, "upstream_error"@, h.upstream_error),
{
    lemma_hops_repr_flatten(h.trail, prefix, 1);
    assert(hop_blocks(h.trail, prefix).skip(0) =~= hop_blocks(h.trail, prefix));
}

/// Law: the rendering of a summary is a function of the gathered facts
/// alone. Summarizing an unmodified repository twice gathers equal facts, so
/// it produces byte-identical output.
pub proof fn lemma_summary_deterministic(f1: SummaryFacts, f2: SummaryFacts, prefix: Seq<char>)
    requires
        f1 == f2,
    ensures
        summary_repr(f1, prefix) == summary_repr(f2, prefix),
{
}

/// Law: two heads whose mathematical content is equal render identically,
/// whatever the strings and vectors that hold that content.
pub proof fn lemma_head_render_deterministic(h1: Head, h2: Head, prefix: Seq<char>)
    requires
        h1@ == h2@,
    ensures
        head_repr(h1@, prefix) == head_repr(h2@, prefix),
{
}

impl ShellVars for ChangeCounters {
    open spec fn shell_repr(&self, prefix: Seq<char>) -> Seq<char> {
        counters_repr(*self, prefix)
    }

    fn write_to_shell(&self, w: &ShellWriter, out: &mut String) {
        let untracked = usize_to_string(self.untracked);
        w.write_var(out, "untracked_count", untracked.as_str());
        let unstaged = usize_to_string(self.unstaged);
        w.write_var(out, "unstaged_count", unstaged.as_str());
        let staged = usize_to_string(self.staged);
        w.write_var(out, "staged_count", staged.as_str());
        let conflicted = usize_to_string(self.conflicted);
        w.write_var(out, "conflicted_count", conflicted.as_str());
        proof {
            assert(final(out)@ =~= old(out)@ + counters_repr(*self, w.prefix_spec()));
        }
    }
}

} // verus!
