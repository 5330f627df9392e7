//! The help-line formatter: renders one full help-table row for an
//! argument, with the columns aligned to the longest sibling rendering and
//! the help text wrapped to the terminal width when one is known.

use vstd::prelude::*;

use crate::arg::{Arg, append_wrapped, push_char};
use crate::kind::ArgKind;
use crate::model::{
    ArgModel, angled, entry_names, space_joined, usage_render, renderable, wrapped_names,
};
use crate::settings::ArgSettings;
use crate::vmap::{vm_entries, vm_values};
use vstd::string::{StrSliceExecFns, StringExecFns};

verus! {

/// Renders one help-table row per argument. The caller supplies the layout:
/// the indentation unit, the width of the longest sibling trigger+value
/// rendering, the display modes, and the terminal width when one is known.
pub struct HelpWriter {
    /// Indentation unit written at the start of a row.
    pub tab: &'static str,
    /// Column width of the longest sibling trigger+value rendering.
    pub l: usize,
    /// Help text starts on the following line for every argument.
    pub nlh: bool,
    /// Leave the possible-value annotation out.
    pub skip_pv: bool,
    /// Width of the terminal, when one is known; help text that would
    /// overrun it is wrapped.
    pub term_w: Option<usize>,
}

/// `n` spaces (none when `n` is negative).
pub open spec fn spaces(n: int) -> Seq<char> {
    Seq::new(
        if n <= 0 {
            0nat
        } else {
            n as nat
        },
        |i: int| ' ',
    )
}

/// Whether the help text of this argument goes onto its own line.
pub open spec fn on_next_line(hw: HelpWriter, m: ArgModel) -> bool {
    hw.nlh || m.is(ArgSettings::NextLineHelp)
}

/// The short-trigger column: the indentation unit, then `-s`, or a second
/// indentation unit when no short trigger is set.
pub open spec fn hw_short(hw: HelpWriter, m: ArgModel) -> Seq<char> {
    hw.tab@ + match m.short {
        Some(c) => ("-")@ + seq![c],
        None => hw.tab@,
    }
}

/// The long-trigger column of a flag: `, --long` (the comma only after a
/// short trigger), then one space.
pub open spec fn hw_long_flag(hw: HelpWriter, m: ArgModel) -> Seq<char> {
    (match m.long {
        Some(lg) => (if m.short is Some {
            (", ")@
        } else {
            Seq::<char>::empty()
        }) + ("--")@ + lg,
        None => Seq::<char>::empty(),
    }) + (" ")@
}

/// The long-trigger column of an option: `, --long` padded out to the value
/// column, or bare padding when no long trigger is set; no padding when the
/// help goes onto its own line.
pub open spec fn hw_long_opt(hw: HelpWriter, m: ArgModel) -> Seq<char> {
    match m.long {
        Some(lg) => (if m.short is Some {
            (", ")@
        } else {
            Seq::<char>::empty()
        }) + ("--")@ + lg + if !hw.nlh || !m.is(ArgSettings::NextLineHelp) {
            spaces(hw.l + 4 - (lg.len() + 2))
        } else {
            Seq::<char>::empty()
        },
        None => if !hw.nlh || !m.is(ArgSettings::NextLineHelp) {
            spaces(hw.l + 6)
        } else {
            Seq::<char>::empty()
        },
    }
}

/// The argument's own name in angle brackets, `n` times over, attached
/// without separators.
pub open spec fn repeated_tight(name: Seq<char>, n: nat) -> Seq<char>
    decreases n,
{
    if n == 0 {
        Seq::empty()
    } else {
        repeated_tight(name, (n - 1) as nat) + angled(name)
    }
}

/// The value column: the configured value names space-joined in angle
/// brackets (with `...` when `Multiple` is set and exactly one name exists),
/// or the argument's own name repeated by the exact arity, or once, with
/// `...` when `Multiple` is set.
pub open spec fn hw_val(m: ArgModel) -> Seq<char> {
    match m.val_names {
        Some(es) => space_joined(wrapped_names(entry_names(es), true)) + if m.is(
            ArgSettings::Multiple,
        ) && es.len() == 1 {
            ("...")@
        } else {
            Seq::<char>::empty()
        },
        None => match m.num_vals {
            Some(num) => repeated_tight(m.name, num as nat),
            None => angled(m.name) + if m.is(ArgSettings::Multiple) {
                ("...")@
            } else {
                Seq::<char>::empty()
            },
        },
    }
}

/// The parts joined by `, `.
pub open spec fn comma_joined(parts: Seq<Seq<char>>) -> Seq<char>
    decreases parts.len(),
{
    if parts.len() == 0 {
        Seq::empty()
    } else if parts.len() == 1 {
        parts.last()
    } else {
        comma_joined(parts.drop_last()) + (", ")@ + parts.last()
    }
}

/// The annotations after the help text: the default value, then the
/// possible values unless suppressed, each in brackets.
pub open spec fn hw_spec_vals(hw: HelpWriter, m: ArgModel) -> Seq<char> {
    (match m.default_val {
        Some(d) => (" [default: ")@ + d + ("]")@,
        None => Seq::<char>::empty(),
    }) + if !hw.skip_pv && m.possible_vals is Some {
        (" [values: ")@ + comma_joined(m.possible_vals->0) + ("]")@
    } else {
        Seq::<char>::empty()
    }
}

impl HelpWriter {
    /// Appends the short-trigger column.
    fn append_short(&self, a: &Arg, out: &mut String)
        ensures
            final(out)@ == old(out)@ + hw_short(*self, a@),
    {
        out.append(self.tab);
        match a.short {
            Some(c) => {
                out.append("-");
                push_char(out, c);
            },
            None => {
                out.append(self.tab);
            },
        }
        proof {
            assert(out@ =~= old(out)@ + hw_short(*self, a@));
        }
    }

    /// Appends the long-trigger column of a flag.
    fn append_long_flag(&self, a: &Arg, out: &mut String)
        ensures
            final(out)@ == old(out)@ + hw_long_flag(*self, a@),
    {
        match &a.long {
            Some(lg) => {
                if a.short.is_some() {
                    out.append(", ");
                }
                out.append("--");
                out.append(lg.as_str());
            },
            None => {},
        }
        out.append(" ");
        proof {
            assert(out@ =~= old(out)@ + hw_long_flag(*self, a@));
        }
    }

    /// Appends the long-trigger column of an option.
    fn append_long_opt(&self, a: &Arg, out: &mut String)
        requires
            self.l + 12 <= usize::MAX,
            a@.long matches Some(lg) ==> lg.len() + 2 <= self.l + 4,
        ensures
            final(out)@ == old(out)@ + hw_long_opt(*self, a@),
    {
        match &a.long {
            Some(lg) => {
                if a.short.is_some() {
                    out.append(", ");
                }
                out.append("--");
                out.append(lg.as_str());
                if !self.nlh || !a.settings.is_set(ArgSettings::NextLineHelp) {
                    let llen = lg.as_str().unicode_len();
                    append_spaces(out, self.l + 4 - (llen + 2));
                }
            },
            None => {
                if !self.nlh || !a.settings.is_set(ArgSettings::NextLineHelp) {
                    append_spaces(out, self.l + 6);
                }
            },
        }
        proof {
            assert(out@ =~= old(out)@ + hw_long_opt(*self, a@));
        }
    }

    /// Appends the value column.
    fn append_val(&self, a: &Arg, out: &mut String)
        ensures
            final(out)@ == old(out)@ + hw_val(a@),
    {
        match &a.val_names {
            Some(vm) => {
                let ghost es = vm_entries(*vm);
                let ghost parts = wrapped_names(entry_names(es), true);
                let names = vm_values(vm);
                let n = names.len();
                let mut i: usize = 0;
                while i < n
                    invariant
                        n == names@.len(),
                        names@.len() == es.len(),
                        parts == wrapped_names(entry_names(es), true),
                        forall|j: int| 0 <= j < n ==> names@[j]@ == es[j].1,
                        0 <= i <= n,
                        out@ == old(out)@ + space_joined(parts.take(i as int)),
                    decreases n - i,
                {
                    if i > 0 {
                        out.append(" ");
                    }
                    append_wrapped(out, names[i].as_str(), true);
                    i = i + 1;
                    proof {
                        let taken = parts.take(i as int);
                        assert(taken.drop_last() =~= parts.take(i as int - 1));
                        assert(taken.last() == parts[i as int - 1]);
                        assert(out@ =~= old(out)@ + space_joined(taken));
                    }
                }
                proof {
                    assert(parts.take(n as int) =~= parts);
                }
                if a.settings.is_set(ArgSettings::Multiple) && n == 1 {
                    out.append("...");
                }
            },
            None => {
                match a.num_vals {
                    Some(num) => {
                        let mut i: u64 = 0;
                        proof {
                            assert(old(out)@ + repeated_tight(a@.name, 0nat) =~= old(out)@);
                        }
                        while i < num
                            invariant
                                0 <= i <= num,
                                out@ == old(out)@ + repeated_tight(a@.name, i as nat),
                            decreases num - i,
                        {
                            out.append("<");
                            out.append(a.name.as_str());
                            out.append(">");
                            i = i + 1;
                            proof {
                                assert(repeated_tight(a@.name, i as nat) == repeated_tight(
                                    a@.name,
                                    (i - 1) as nat,
                                ) + angled(a@.name));
                                assert(out@ =~= old(out)@ + repeated_tight(a@.name, i as nat));
                            }
                        }
                    },
                    None => {
                        out.append("<");
                        out.append(a.name.as_str());
                        out.append(">");
                        if a.settings.is_set(ArgSettings::Multiple) {
                            out.append("...");
                        }
                        proof {
                            assert(out@ =~= old(out)@ + hw_val(a@));
                        }
                    },
                }
            },
        }
    }

    /// Appends the default-value and possible-value annotations.
    fn append_spec_vals(&self, a: &Arg, out: &mut String)
        ensures
            final(out)@ == old(out)@ + hw_spec_vals(*self, a@),
    {
        match &a.default_val {
            Some(d) => {
                out.append(" [default: ");
                out.append(d.as_str());
                out.append("]");
            },
            None => {},
        }
        let ghost mid = out@;
        proof {
            assert(mid =~= old(out)@ + (match a@.default_val {
                Some(d) => (" [default: ")@ + d + ("]")@,
                None => Seq::<char>::empty(),
            }));
        }
        if !self.skip_pv {
            match &a.possible_vals {
                Some(pv) => {
                    out.append(" [values: ");
                    let ghost parts = pv.deep_view();
                    let n = pv.len();
                    let mut i: usize = 0;
                    let ghost start = out@;
                    while i < n
                        invariant
                            n == pv@.len(),
                            parts == pv.deep_view(),
                            0 <= i <= n,
                            out@ == start + comma_joined(parts.take(i as int)),
                        decreases n - i,
                    {
                        if i > 0 {
                            out.append(", ");
                        }
                        out.append(pv[i].as_str());
                        i = i + 1;
                        proof {
                            let taken = parts.take(i as int);
                            assert(taken.drop_last() =~= parts.take(i as int - 1));
                            assert(taken.last() == parts[i as int - 1]);
                            assert(out@ =~= start + comma_joined(taken));
                        }
                    }
                    proof {
                        assert(parts.take(n as int) =~= parts);
                    }
                    out.append("]");
                },
                None => {},
            }
        }
        proof {
            assert(out@ =~= old(out)@ + hw_spec_vals(*self, a@));
        }
    }
}

/// Whether an explicit line-break marker `{n}` starts at position `j`.
pub open spec fn mark_at(s: Seq<char>, j: int) -> bool {
    &&& 0 <= j
    &&& j + 3 <= s.len()
    &&& s[j] == '{'
    &&& s[j + 1] == 'n'
    &&& s[j + 2] == '}'
}

/// The position of the first line-break marker in `s`, or `-1` when there
/// is none.
pub open spec fn find_mark(s: Seq<char>) -> int
    decreases s.len(),
{
    if s.len() < 3 {
        -1
    } else if s[0] == '{' && s[1] == 'n' && s[2] == '}' {
        0
    } else if find_mark(s.drop_first()) == -1 {
        -1
    } else {
        find_mark(s.drop_first()) + 1
    }
}

/// `find_mark` finds exactly the first marker: `-1` means no marker starts
/// anywhere, and a non-negative result is the least marker position.
proof fn lemma_find_mark_spec(s: Seq<char>)
    ensures
        find_mark(s) == -1 ==> forall|j: int| !mark_at(s, j),
        find_mark(s) != -1 ==> mark_at(s, find_mark(s)) && (forall|j: int|
            0 <= j < find_mark(s) ==> !mark_at(s, j)),
    decreases s.len(),
{
    if s.len() < 3 {
        assert forall|j: int| !mark_at(s, j) by {}
    } else if s[0] == '{' && s[1] == 'n' && s[2] == '}' {
        assert(mark_at(s, 0));
    } else {
        let t = s.drop_first();
        lemma_find_mark_spec(t);
        assert(!mark_at(s, 0));
        assert forall|j: int| 1 <= j implies mark_at(s, j) == mark_at(t, j - 1) by {
            if 1 <= j && j + 3 <= s.len() {
                assert(t[j - 1] == s[j] && t[j] == s[j + 1] && t[j + 1] == s[j + 2]);
            }
        }
        if find_mark(t) == -1 {
            assert forall|j: int| !mark_at(s, j) by {
                if j >= 1 {
                    assert(!mark_at(t, j - 1));
                }
            }
        } else {
            assert(mark_at(s, find_mark(t) + 1));
        }
    }
}

/// `s` with a line-break marker inserted at position `idx`.
pub open spec fn insert_at(s: Seq<char>, idx: int) -> Seq<char> {
    s.take(idx) + ("{n}")@ + s.skip(idx)
}

/// The number of chunks a text of `len` characters breaks into at `avail`
/// characters per line.
pub open spec fn num_parts_of(len: int, avail: int) -> int {
    len / avail + if len % avail != 0 {
        1int
    } else {
        0int
    }
}

/// The text after the first `j` marker insertions, each at `i * avail` into
/// the buffer as it then stands.
pub open spec fn marks_upto(h: Seq<char>, avail: int, j: int) -> Seq<char>
    decreases j,
{
    if j <= 0 {
        h
    } else {
        insert_at(marks_upto(h, avail, j - 1), j * avail)
    }
}

/// The text with a line-break marker inserted before each chunk after the
/// first.
pub open spec fn marked(h: Seq<char>, avail: int) -> Seq<char> {
    marks_upto(h, avail, num_parts_of(h.len() as int, avail) - 1)
}

/// Every marker insertion point falls inside the text as it was before any
/// insertion.
proof fn lemma_mark_index_bound(len: int, avail: int, j: int)
    requires
        1 <= avail,
        1 <= j,
        j <= num_parts_of(len, avail) - 1,
    ensures
        j * avail < len,
{
    let q = len / avail;
    let r = len % avail;
    vstd::arithmetic::div_mod::lemma_fundamental_div_mod(len, avail);
    if r == 0 {
        vstd::arithmetic::mul::lemma_mul_inequality(j, q - 1, avail);
        assert((q - 1) * avail == q * avail - avail) by (nonlinear_arith);
    } else {
        vstd::arithmetic::div_mod::lemma_mod_pos_bound(len, avail);
        vstd::arithmetic::mul::lemma_mul_inequality(j, q, avail);
    }
}

/// The text grows by three characters per insertion.
proof fn lemma_marks_upto_len(h: Seq<char>, avail: int, j: int)
    requires
        0 <= j,
        1 <= avail,
        j <= num_parts_of(h.len() as int, avail) - 1,
    ensures
        marks_upto(h, avail, j).len() == h.len() + 3 * j,
    decreases j,
{
    if j > 0 {
        lemma_marks_upto_len(h, avail, j - 1);
        lemma_mark_index_bound(h.len() as int, avail, j);
        reveal_strlit("{n}");
        assert(marks_upto(h, avail, j - 1).take(j * avail).len() == j * avail);
    }
}

/// The text split at its line-break markers and rejoined, each later part
/// on a fresh line behind the indentation.
pub open spec fn render_split(s: Seq<char>, indent: Seq<char>) -> Seq<char>
    decreases s.len(),
{
    let f = find_mark(s);
    if 0 <= f && f + 3 <= s.len() {
        s.take(f) + ("\n")@ + indent + render_split(s.skip(f + 3), indent)
    } else {
        s
    }
}

/// The position of the first line-break marker, when the text has one.
fn find_mark_exec(s: &str) -> (r: Option<usize>)
    ensures
        match r {
            Some(i) => find_mark(s@) == i as int,
            None => find_mark(s@) == -1,
        },
{
    proof {
        lemma_find_mark_spec(s@);
    }
    let n = s.unicode_len();
    if n < 3 {
        return None;
    }
    let mut i: usize = 0;
    while i < n - 2
        invariant
            n as int == s@.len(),
            3 <= n,
            0 <= i <= n - 2,
            forall|j: int| 0 <= j < i ==> !mark_at(s@, j),
        decreases n - i,
    {
        let a = s.get_char(i);
        let b = s.get_char(i + 1);
        let c = s.get_char(i + 2);
        if a == '{' && b == 'n' && c == '}' {
            proof {
                assert(mark_at(s@, i as int));
                lemma_find_mark_spec(s@);
                let f = find_mark(s@);
                if f == -1 {
                    assert(!mark_at(s@, i as int));
                } else {
                    if f < i {
                        assert(!mark_at(s@, f));
                    }
                    if f > i {
                        assert(!mark_at(s@, i as int));
                    }
                }
            }
            return Some(i);
        }
        i = i + 1;
    }
    proof {
        lemma_find_mark_spec(s@);
        let f = find_mark(s@);
        if f != -1 {
            assert(mark_at(s@, f));
            assert(!mark_at(s@, f));
        }
    }
    None
}

/// Appends the text with each part after a line-break marker on a fresh
/// line behind the indentation.
fn append_split(out: &mut String, text: &str, indent: &str)
    ensures
        final(out)@ == old(out)@ + render_split(text@, indent@),
    decreases text@.len(),
{
    match find_mark_exec(text) {
        Some(f) => {
            proof {
                lemma_find_mark_spec(text@);
            }
            let n = text.unicode_len();
            let head = text.substring_char(0, f);
            out.append(head);
            out.append("\n");
            out.append(indent);
            let tail = text.substring_char(f + 3, n);
            proof {
                assert(tail@ =~= text@.skip(f + 3));
                assert(head@ =~= text@.take(f as int));
            }
            append_split(out, tail, indent);
            proof {
                assert(out@ =~= old(out)@ + render_split(text@, indent@));
            }
        },
        None => {
            out.append(text);
        },
    }
}

/// The text with a line-break marker inserted before each chunk of `avail`
/// characters after the first.
fn wrap_text(h: &str, avail: usize) -> (r: String)
    requires
        1 <= avail,
        h@.len() * 4 <= usize::MAX,
    ensures
        r@ == marked(h@, avail as int),
{
    let len = h.unicode_len();
    let mut np: usize = len / avail;
    if len % avail != 0 {
        np = np + 1;
    }
    let mut cur: String = h.to_owned();
    let mut j: usize = 1;
    while j < np
        invariant
            1 <= avail,
            np as int == num_parts_of(h@.len() as int, avail as int),
            len as int == h@.len(),
            h@.len() * 4 <= usize::MAX,
            1 <= j,
            np >= 1 ==> j <= np,
            np < 1 ==> j == 1,
            cur@ == marks_upto(h@, avail as int, j as int - 1),
        decreases np - j,
    {
        proof {
            lemma_mark_index_bound(len as int, avail as int, j as int);
            lemma_marks_upto_len(h@, avail as int, j as int - 1);
            assert((j as int) * (avail as int) <= len);
        }
        let idx = j * avail;
        let clen = cur.as_str().unicode_len();
        let left = cur.as_str().substring_char(0, idx);
        let mut next = left.to_owned();
        next.append("{n}");
        let right = cur.as_str().substring_char(idx, clen);
        next.append(right);
        proof {
            assert(next@ =~= insert_at(cur@, (j as int) * (avail as int)));
        }
        cur = next;
        j = j + 1;
    }
    proof {
        if np <= 1 {
            assert(cur@ == marks_upto(h@, avail as int, np as int - 1));
        }
    }
    cur
}

/// The help-text column: moved onto a fresh double-indented line when the
/// next-line mode is active; broken into chunks of the remaining width when
/// a terminal width is known and would be overrun; explicit `{n}` markers
/// always honored by a newline and re-indentation.
#[verifier::opaque]
pub open spec fn hw_help(hw: HelpWriter, m: ArgModel) -> Seq<char>
    recommends
        m.help is Some,
{
    let h = m.help->0;
    let nl = on_next_line(hw, m);
    let spcs: int = if nl {
        8
    } else {
        hw.l + 12
    };
    let prefix = if nl {
        ("\n")@ + hw.tab@ + hw.tab@
    } else {
        Seq::<char>::empty()
    };
    let indent = if nl {
        hw.tab@ + hw.tab@
    } else {
        spaces(hw.l + 12)
    };
    let wrap = match hw.term_w {
        Some(w) => spcs + h.len() >= w && spcs < w,
        None => false,
    };
    let text = if wrap {
        marked(h, hw.term_w->0 - spcs)
    } else {
        h
    };
    prefix + render_split(text, indent)
}

impl HelpWriter {
    /// Appends the help-text column, wrapped and re-indented as the modes
    /// and the terminal width ask.
    fn append_help(&self, a: &Arg, out: &mut String)
        requires
            a@.help is Some,
            self.l + 12 <= usize::MAX,
            self.l + 12 + a@.help->0.len() <= usize::MAX,
            a@.help->0.len() * 4 <= usize::MAX,
        ensures
            final(out)@ == old(out)@ + hw_help(*self, a@),
    {
        let nl = self.nlh || a.settings.is_set(ArgSettings::NextLineHelp);
        let spcs: usize = if nl {
            8
        } else {
            self.l + 12
        };
        let h = a.help.as_ref().unwrap();
        let hlen = h.as_str().unicode_len();
        if nl {
            out.append("\n");
            out.append(self.tab);
            out.append(self.tab);
        }
        let mut indent = String::new();
        if nl {
            indent.append(self.tab);
            indent.append(self.tab);
        } else {
            append_spaces(&mut indent, self.l + 12);
            proof {
                assert(indent@ =~= spaces(self.l + 12));
            }
        }
        let wrap = match self.term_w {
            Some(w) => spcs + hlen >= w && spcs < w,
            None => false,
        };
        if wrap {
            let w = self.term_w.unwrap();
            let avail = w - spcs;
            let marked_text = wrap_text(h.as_str(), avail);
            append_split(out, marked_text.as_str(), indent.as_str());
        } else {
            append_split(out, h.as_str(), indent.as_str());
        }
        proof {
            reveal(hw_help);
            assert(out@ =~= old(out)@ + hw_help(*self, a@));
        }
    }
}

/// The padding between the value column and the help column of an option
/// or positional row; none when help goes onto its own line.
pub open spec fn hw_pad(hw: HelpWriter, m: ArgModel) -> Seq<char> {
    if !(hw.nlh || m.is(ArgSettings::NextLineHelp)) {
        let bound: int = if m.kind == ArgKind::Opt && m.long is None {
            hw.l + 8
        } else {
            hw.l + 4
        };
        spaces(bound - usage_render(m).len())
    } else {
        Seq::<char>::empty()
    }
}

/// One full help-table row for the argument, by kind: the trigger columns
/// (or the indentation for a positional), the value column, alignment
/// padding, then the help text and its annotations.
pub open spec fn hw_row(hw: HelpWriter, m: ArgModel) -> Seq<char> {
    match m.kind {
        ArgKind::Flag => hw_short(hw, m) + hw_long_flag(hw, m) + if m.help is Some {
            hw_help(hw, m)
        } else {
            Seq::<char>::empty()
        },
        ArgKind::Opt => hw_short(hw, m) + hw_long_opt(hw, m) + hw_val(m) + hw_pad(hw, m)
            + if m.help is Some {
            hw_help(hw, m) + hw_spec_vals(hw, m)
        } else {
            Seq::<char>::empty()
        },
        ArgKind::Pos => hw.tab@ + hw_val(m) + hw_pad(hw, m) + if m.help is Some {
            hw_help(hw, m) + hw_spec_vals(hw, m)
        } else {
            Seq::<char>::empty()
        },
    }
}

/// The row can be written without panicking: the argument renders, the
/// column width holds the renderings it must align, and the lengths fit the
/// platform.
pub open spec fn row_fits(hw: HelpWriter, m: ArgModel) -> bool {
    &&& renderable(m)
    &&& hw.l + 12 <= usize::MAX
    &&& (m.help matches Some(t) ==> hw.l + 12 + t.len() <= usize::MAX && t.len() * 4
        <= usize::MAX)
    &&& (m.kind == ArgKind::Opt ==> (m.long matches Some(lg) ==> lg.len() + 2 <= hw.l + 4))
    &&& (m.kind != ArgKind::Flag && !(hw.nlh || m.is(ArgSettings::NextLineHelp))
        ==> usage_render(m).len() <= if m.kind == ArgKind::Opt && m.long is None {
        hw.l + 8
    } else {
        hw.l + 4
    })
}

impl HelpWriter {
    /// Appends the full help row of the argument.
    #[verifier::rlimit(60)]
    fn write_help(&self, a: &Arg, out: &mut String)
        requires
            row_fits(*self, a@),
        ensures
            final(out)@ == old(out)@ + hw_row(*self, a@),
    {
        match a.kind {
            ArgKind::Flag => {
                self.append_short(a, out);
                self.append_long_flag(a, out);
                if a.help.is_some() {
                    self.append_help(a, out);
                }
            },
            ArgKind::Opt => {
                self.append_short(a, out);
                self.append_long_opt(a, out);
                self.append_val(a, out);
                if !(self.nlh || a.settings.is_set(ArgSettings::NextLineHelp)) {
                    let us = a.to_string();
                    let ulen = us.as_str().unicode_len();
                    let bound = if a.long.is_some() {
                        self.l + 4
                    } else {
                        self.l + 8
                    };
                    append_spaces(out, bound - ulen);
                }
                if a.help.is_some() {
                    self.append_help(a, out);
                    self.append_spec_vals(a, out);
                }
            },
            ArgKind::Pos => {
                out.append(self.tab);
                self.append_val(a, out);
                if !(self.nlh || a.settings.is_set(ArgSettings::NextLineHelp)) {
                    let us = a.to_string();
                    let ulen = us.as_str().unicode_len();
                    append_spaces(out, self.l + 4 - ulen);
                }
                if a.help.is_some() {
                    self.append_help(a, out);
                    self.append_spec_vals(a, out);
                }
            },
        }
        proof {
            assert(out@ =~= old(out)@ + hw_row(*self, a@));
        }
    }

    /// Renders the full help row of the argument.
    pub fn write(&self, a: &Arg) -> (r: String)
        requires
            row_fits(*self, a@),
        ensures
            r@ == hw_row(*self, a@),
    {
        let mut s = String::new();
        self.write_help(a, &mut s);
        s
    }

    /// Renders the full help row of the argument, ended by a newline.
    pub fn writeln(&self, a: &Arg) -> (r: String)
        requires
            row_fits(*self, a@),
        ensures
            r@ == hw_row(*self, a@) + ("\n")@,
    {
        let mut s = self.write(a);
        s.append("\n");
        s
    }
}

/// Appends `n` spaces.
fn append_spaces(out: &mut String, n: usize)
    ensures
        final(out)@ == old(out)@ + spaces(n as int),
{
    let mut i: usize = 0;
    proof {
        assert(old(out)@ + spaces(0) =~= old(out)@);
    }
    while i < n
        invariant
            0 <= i <= n,
            out@ == old(out)@ + spaces(i as int),
        decreases n - i,
    {
        push_char(out, ' ');
        i = i + 1;
        proof {
            assert(spaces(i as int) =~= spaces(i as int - 1).push(' '));
            assert(out@ =~= old(out)@ + spaces(i as int));
        }
    }
}

} // verus!
