//! The argument descriptor and its builder-style setters.

use std::rc::Rc;

use vstd::prelude::*;

use crate::kind::ArgKind;
use crate::model::{
    ArgModel, angled, appended, bracketed, dense_entries, entry_names, enum_from, first_non_dash,
    opt_vals_render, or_empty, pos_render, renderable, repeated_angled, space_joined,
    spaced_angled, strip_dashes, strs_deep, trigger_render, usage_render, wrapped_names,
};
use vstd::string::{StrSliceExecFns, StringExecFns};
use crate::settings::{ArgFlags, ArgSettings};
use crate::vmap::{vm_entries, vm_new, vm_len, vm_insert_top, vm_values, vm_clone};

verus! {

/// A user-supplied predicate over one candidate value, invoked once per value
/// at match time. Several clones of one argument share the same predicate.
pub trait Validate {
    /// Accept the value, or return a human-readable failure message.
    fn validate(&self, val: &str) -> Result<(), String>;
}

/// Relies on std::rc::Rc::clone through Option::clone: the clone is a handle
/// to the same shared predicate, so the same value comes back.
#[verifier::external_body]
pub(crate) fn clone_validator(o: &Option<Rc<dyn Validate>>) -> (r: Option<Rc<dyn Validate>>)
    ensures
        r == *o,
{
    o.clone()
}

/// Stripping leading dashes keeps exactly the suffix that starts at the
/// first non-dash position.
proof fn lemma_strip_dashes_skip(s: Seq<char>, i: int)
    requires
        0 <= i <= s.len(),
        forall|j: int| 0 <= j < i ==> s[j] == '-',
        i < s.len() ==> s[i] != '-',
    ensures
        strip_dashes(s) == s.subrange(i, s.len() as int),
    decreases i,
{
    if i == 0 {
        assert(s.subrange(0, s.len() as int) =~= s);
    } else {
        let t = s.drop_first();
        assert(s[0] == '-');
        assert forall|j: int| 0 <= j < i - 1 implies t[j] == '-' by {
            assert(s[j + 1] == '-');
        }
        assert(i - 1 < t.len() ==> t[i - 1] == s[i]);
        lemma_strip_dashes_skip(t, i - 1);
        assert(t.subrange(i - 1, t.len() as int) =~= s.subrange(i, s.len() as int));
    }
}

/// The position of the first character of `s` that is not `-`, or the length
/// when every character is.
fn first_non_dash_index(s: &str) -> (i: usize)
    ensures
        (i as int) <= s@.len(),
        strip_dashes(s@) == s@.subrange(i as int, s@.len() as int),
        (i as int) < s@.len() ==> s@[i as int] != '-',
{
    let n = s.unicode_len();
    let mut i: usize = 0;
    while i < n && s.get_char(i) == '-'
        invariant
            n as int == s@.len(),
            0 <= i <= n,
            forall|j: int| 0 <= j < i ==> s@[j] == '-',
        decreases n - i,
    {
        i = i + 1;
    }
    proof {
        lemma_strip_dashes_skip(s@, i as int);
    }
    i
}

/// Appends one name to an optional list, creating the list when absent.
fn push_to(list: Option<Vec<String>>, name: &str) -> (r: Option<Vec<String>>)
    ensures
        opt_strs_view(r) == appended(opt_strs_view(list), seq![name@]),
{
    let owned = name.to_owned();
    match list {
        Some(mut v) => {
            let ghost base = v.deep_view();
            v.push(owned);
            proof {
                assert(v.deep_view() =~= base + seq![name@]);
            }
            Some(v)
        },
        None => {
            let mut v: Vec<String> = Vec::new();
            v.push(owned);
            proof {
                assert(v.deep_view() =~= seq![name@]);
            }
            Some(v)
        },
    }
}

/// Appends each of the names, in order, to an optional list, creating the
/// list when absent.
fn extend_to(list: Option<Vec<String>>, names: &[&str]) -> (r: Option<Vec<String>>)
    ensures
        opt_strs_view(r) == appended(opt_strs_view(list), strs_deep(names@)),
{
    let ghost olist = opt_strs_view(list);
    let mut v: Vec<String> = match list {
        Some(v0) => v0,
        None => Vec::new(),
    };
    let ghost base = v.deep_view();
    let n = names.len();
    let mut k: usize = 0;
    proof {
        assert(base + strs_deep(names@.take(0)) =~= base);
    }
    while k < n
        invariant
            n == names@.len(),
            0 <= k <= n,
            v.deep_view() == base + strs_deep(names@.take(k as int)),
        decreases n - k,
    {
        let ghost pre = v.deep_view();
        v.push(names[k].to_owned());
        k = k + 1;
        proof {
            assert(strs_deep(names@.take(k as int)) =~= strs_deep(
                names@.take(k as int - 1),
            ).push(names@[k as int - 1]@));
            assert(v.deep_view() =~= pre.push(names@[k as int - 1]@));
            assert(v.deep_view() =~= base + strs_deep(names@.take(k as int)));
        }
    }
    proof {
        assert(names@.take(n as int) =~= names@);
        if olist is None {
            assert(base + strs_deep(names@) =~= strs_deep(names@));
        }
    }
    Some(v)
}

/// Relies on String::push: it appends exactly the one character.
#[verifier::external_body]
pub(crate) fn push_char(s: &mut String, c: char)
    ensures
        final(s)@ == old(s)@ + seq![c],
{
    s.push(c);
}

/// Appends ` <name>` to the buffer.
pub(crate) fn append_spaced_angled(s: &mut String, name: &str)
    ensures
        final(s)@ == old(s)@ + (" ")@ + angled(name@),
{
    s.append(" ");
    s.append("<");
    s.append(name);
    s.append(">");
    proof {
        assert(s@ =~= old(s)@ + (" ")@ + angled(name@));
    }
}

/// Appends the name in the positional convention: `<name>` when required,
/// `[name]` otherwise.
pub(crate) fn append_wrapped(s: &mut String, name: &str, req: bool)
    ensures
        final(s)@ == old(s)@ + if req {
            angled(name@)
        } else {
            bracketed(name@)
        },
{
    if req {
        s.append("<");
        s.append(name);
        s.append(">");
        proof {
            assert(s@ =~= old(s)@ + angled(name@));
        }
    } else {
        s.append("[");
        s.append(name);
        s.append("]");
        proof {
            assert(s@ =~= old(s)@ + bracketed(name@));
        }
    }
}

/// Clones an optional owned string; the same value comes back.
pub(crate) fn clone_opt_string(o: &Option<String>) -> (r: Option<String>)
    ensures
        r == *o,
{
    match o {
        Some(s) => Some(s.clone()),
        None => None,
    }
}

/// Clones a list of owned strings element by element.
pub(crate) fn clone_strings(v: &Vec<String>) -> (r: Vec<String>)
    ensures
        r@ == v@,
{
    let mut r: Vec<String> = Vec::new();
    let n = v.len();
    let mut i: usize = 0;
    while i < n
        invariant
            n == v@.len(),
            0 <= i <= n,
            r@ == v@.take(i as int),
        decreases n - i,
    {
        r.push(v[i].clone());
        i = i + 1;
        proof {
            assert(v@.take(i as int) =~= v@.take(i as int - 1).push(v@[i as int - 1]));
        }
    }
    proof {
        assert(v@.take(n as int) =~= v@);
    }
    r
}

/// Clones an optional list of owned strings; the view is kept.
pub(crate) fn clone_opt_strings(o: &Option<Vec<String>>) -> (r: Option<Vec<String>>)
    ensures
        opt_strs_view(r) == opt_strs_view(*o),
{
    match o {
        Some(v) => Some(clone_strings(v)),
        None => None,
    }
}

/// Clones the optional value-name map; the same value comes back.
pub(crate) fn clone_opt_vm(o: &Option<vec_map::VecMap<String>>) -> (r: Option<vec_map::VecMap<String>>)
    ensures
        r == *o,
{
    match o {
        Some(m) => Some(vm_clone(m)),
        None => None,
    }
}

/// The view of an optional owned string.
pub open spec fn opt_str_view(o: Option<String>) -> Option<Seq<char>> {
    match o {
        Some(s) => Some(s@),
        None => None,
    }
}

/// The view of an optional list of owned strings.
pub open spec fn opt_strs_view(o: Option<Vec<String>>) -> Option<Seq<Seq<char>>> {
    match o {
        Some(v) => Some(v.deep_view()),
        None => None,
    }
}

/// The view of the optional value-name map.
pub open spec fn opt_vm_view(o: Option<vec_map::VecMap<String>>) -> Option<Seq<(int, Seq<char>)>> {
    match o {
        Some(m) => Some(vm_entries(m)),
        None => None,
    }
}

/// The abstract representation of a command line argument: its identity, its
/// matching triggers, its value-arity constraints, its relations to other
/// arguments, and its presentation data.
pub struct Arg {
    /// Unique identifier of the argument.
    pub name: String,
    /// Trigger character after a single `-`.
    pub short: Option<char>,
    /// Trigger word after `--`.
    pub long: Option<String>,
    /// Help text shown beside the argument.
    pub help: Option<String>,
    /// One-based position of a positional argument.
    pub index: Option<u64>,
    /// Names of arguments that must be absent when this one is present.
    pub blacklist: Option<Vec<String>>,
    /// The closed set of acceptable values, in declaration order.
    pub possible_vals: Option<Vec<String>>,
    /// Names of arguments that must be present when this one is present.
    pub requires_list: Option<Vec<String>>,
    /// The named group this argument belongs to.
    pub group: Option<String>,
    /// Cosmetic value names, keyed by value slot.
    pub val_names: Option<vec_map::VecMap<String>>,
    /// Exact number of values the argument consumes.
    pub num_vals: Option<u64>,
    /// Upper bound on the number of values.
    pub max_vals: Option<u64>,
    /// Lower bound on the number of values.
    pub min_vals: Option<u64>,
    /// User-supplied value predicate, shared between clones.
    pub validator: Option<Rc<dyn Validate>>,
    /// Names of arguments this one mutually cancels with.
    pub overrides_list: Option<Vec<String>>,
    /// The behavior switches.
    pub settings: ArgFlags,
    /// Character that splits one supplied token into several values.
    pub val_delim: Option<char>,
    /// Value substituted when the argument is absent at runtime.
    pub default_val: Option<String>,
    /// How the argument is invoked.
    pub kind: ArgKind,
}

impl View for Arg {
    type V = ArgModel;

    open spec fn view(&self) -> ArgModel {
        ArgModel {
            name: self.name@,
            short: self.short,
            long: opt_str_view(self.long),
            help: opt_str_view(self.help),
            index: self.index,
            blacklist: opt_strs_view(self.blacklist),
            possible_vals: opt_strs_view(self.possible_vals),
            requires_list: opt_strs_view(self.requires_list),
            group: opt_str_view(self.group),
            val_names: opt_vm_view(self.val_names),
            num_vals: self.num_vals,
            max_vals: self.max_vals,
            min_vals: self.min_vals,
            has_validator: self.validator is Some,
            overrides_list: opt_strs_view(self.overrides_list),
            settings: self.settings,
            val_delim: self.val_delim,
            default_val: opt_str_view(self.default_val),
            kind: self.kind,
        }
    }
}

impl Default for Arg {
    /// An argument with no name yet: every field empty but the delimiter,
    /// which starts as `,`, and the default switches.
    fn default() -> (r: Self)
        ensures
            r@ == ArgModel::fresh(Seq::<char>::empty()),
    {
        Arg {
            name: String::new(),
            short: None,
            long: None,
            help: None,
            index: None,
            blacklist: None,
            possible_vals: None,
            requires_list: None,
            group: None,
            val_names: None,
            num_vals: None,
            max_vals: None,
            min_vals: None,
            validator: None,
            overrides_list: None,
            settings: ArgFlags::new(),
            val_delim: Some(','),
            default_val: None,
            kind: ArgKind::Flag,
        }
    }
}

impl From<&Arg> for Arg {
    /// A copy of the argument, sharing its validator predicate.
    fn from(a: &Arg) -> Self {
        a.clone()
    }
}

impl vstd::std_specs::convert::FromSpecImpl<&Arg> for Arg {
    /// The copy cannot be pinned down to an exact spec value, because
    /// cloning the owned lists yields fresh vectors; `Clone::clone` carries
    /// the model-level contract instead.
    open spec fn obeys_from_spec() -> bool {
        false
    }

    open spec fn from_spec(v: &Arg) -> Arg {
        *v
    }
}

/// The usage form of an argument depends on its model alone: two arguments
/// whose models agree render identically, however each was assembled —
/// through chained setters or by filling the fields directly.
pub proof fn lemma_usage_depends_on_model(a: &Arg, b: &Arg)
    requires
        a@ == b@,
    ensures
        usage_render(a@) == usage_render(b@),
{
}

impl Clone for Arg {
    /// The clone carries the same model; the validator predicate is shared
    /// between the clones, not copied.
    fn clone(&self) -> (r: Self)
        ensures
            r@ == self@,
    {
        Arg {
            name: self.name.clone(),
            short: self.short,
            long: clone_opt_string(&self.long),
            help: clone_opt_string(&self.help),
            index: self.index,
            blacklist: clone_opt_strings(&self.blacklist),
            possible_vals: clone_opt_strings(&self.possible_vals),
            requires_list: clone_opt_strings(&self.requires_list),
            group: clone_opt_string(&self.group),
            val_names: clone_opt_vm(&self.val_names),
            num_vals: self.num_vals,
            max_vals: self.max_vals,
            min_vals: self.min_vals,
            validator: clone_validator(&self.validator),
            overrides_list: clone_opt_strings(&self.overrides_list),
            settings: self.settings,
            val_delim: self.val_delim,
            default_val: clone_opt_string(&self.default_val),
            kind: self.kind,
        }
    }
}

impl Arg {
    /// Creates a new argument under the given unique name.
    pub fn with_name(n: &str) -> (r: Self)
        ensures
            r@ == ArgModel::fresh(n@),
    {
        let mut a = Arg::default();
        a.name = n.to_owned();
        a
    }

    /// Whether switch `s` is active on this argument.
    pub fn is_set(&self, s: ArgSettings) -> (r: bool)
        ensures
            r == self@.is(s),
    {
        self.settings.is_set(s)
    }

    /// The argument with switch `s` turned on.
    pub fn set(self, s: ArgSettings) -> (a: Self)
        ensures
            a@ == (ArgModel { settings: self@.settings.spec_set(s), ..self@ }),
    {
        let mut a = self;
        a.setb(s);
        a
    }

    /// The argument with switch `s` turned off.
    pub fn unset(self, s: ArgSettings) -> (a: Self)
        ensures
            a@ == (ArgModel { settings: self@.settings.spec_unset(s), ..self@ }),
    {
        let mut a = self;
        a.unsetb(s);
        a
    }

    /// Turn switch `s` on in place.
    pub fn setb(&mut self, s: ArgSettings)
        ensures
            final(self)@ == (ArgModel { settings: old(self)@.settings.spec_set(s), ..old(self)@ }),
    {
        self.settings.set(s);
    }

    /// Turn switch `s` off in place.
    pub fn unsetb(&mut self, s: ArgSettings)
        ensures
            final(self)@ == (ArgModel {
                settings: old(self)@.settings.spec_unset(s),
                ..old(self)@
            }),
    {
        self.settings.unset(s);
    }

    /// Sets the short trigger of the argument: leading `-` characters are
    /// stripped and the first remaining character is taken.
    pub fn short(self, s: &str) -> (a: Self)
        ensures
            a@ == (ArgModel { short: first_non_dash(s@), ..self@ }),
    {
        let mut a = self;
        let n = s.unicode_len();
        let i = first_non_dash_index(s);
        if i < n {
            let c = s.get_char(i);
            proof {
                assert(strip_dashes(s@)[0] == c);
            }
            a.short = Some(c);
        } else {
            a.short = None;
        }
        a
    }

    /// Sets the long trigger of the argument: leading `-` characters are
    /// stripped, inner ones are kept.
    pub fn long(self, l: &str) -> (a: Self)
        ensures
            a@ == (ArgModel { long: Some(strip_dashes(l@)), ..self@ }),
    {
        let mut a = self;
        let n = l.unicode_len();
        let i = first_non_dash_index(l);
        let stripped = l.substring_char(i, n);
        a.long = Some(stripped.to_owned());
        a
    }

    /// Adds one name to the set of arguments that must be absent when this
    /// one is present.
    pub fn conflicts_with(self, name: &str) -> (a: Self)
        ensures
            a@ == (ArgModel { blacklist: appended(self@.blacklist, seq![name@]), ..self@ }),
    {
        let mut a = self;
        let lst = a.blacklist.take();
        a.blacklist = push_to(lst, name);
        a
    }

    /// Adds each of the names to the set of arguments that must be absent
    /// when this one is present.
    pub fn conflicts_with_all(self, names: &[&str]) -> (a: Self)
        ensures
            a@ == (ArgModel { blacklist: appended(self@.blacklist, strs_deep(names@)), ..self@ }),
    {
        let mut a = self;
        let lst = a.blacklist.take();
        a.blacklist = extend_to(lst, names);
        a
    }

    /// Adds one name to the set of arguments this one mutually cancels with.
    pub fn overrides_with(self, name: &str) -> (a: Self)
        ensures
            a@ == (ArgModel {
                overrides_list: appended(self@.overrides_list, seq![name@]),
                ..self@
            }),
    {
        let mut a = self;
        let lst = a.overrides_list.take();
        a.overrides_list = push_to(lst, name);
        a
    }

    /// Adds each of the names to the set of arguments this one mutually
    /// cancels with.
    pub fn overrides_with_all(self, names: &[&str]) -> (a: Self)
        ensures
            a@ == (ArgModel {
                overrides_list: appended(self@.overrides_list, strs_deep(names@)),
                ..self@
            }),
    {
        let mut a = self;
        let lst = a.overrides_list.take();
        a.overrides_list = extend_to(lst, names);
        a
    }

    /// Adds one name to the set of arguments that must be present when this
    /// one is present.
    pub fn requires_arg(self, name: &str) -> (a: Self)
        ensures
            a@ == (ArgModel {
                requires_list: appended(self@.requires_list, seq![name@]),
                ..self@
            }),
    {
        let mut a = self;
        let lst = a.requires_list.take();
        a.requires_list = push_to(lst, name);
        a
    }

    /// Adds each of the names to the set of arguments that must be present
    /// when this one is present.
    pub fn requires_all(self, names: &[&str]) -> (a: Self)
        ensures
            a@ == (ArgModel {
                requires_list: appended(self@.requires_list, strs_deep(names@)),
                ..self@
            }),
    {
        let mut a = self;
        let lst = a.requires_list.take();
        a.requires_list = extend_to(lst, names);
        a
    }

    /// Adds one acceptable value to the closed value set, which implies that
    /// the argument takes a value.
    pub fn possible_value(self, name: &str) -> (a: Self)
        ensures
            a@ == (ArgModel {
                possible_vals: appended(self@.possible_vals, seq![name@]),
                ..self@
            }).with_takes_value(true),
    {
        let mut a = self;
        let lst = a.possible_vals.take();
        a.possible_vals = push_to(lst, name);
        a.takes_value(true)
    }

    /// Adds each of the names to the closed value set, which implies that
    /// the argument takes a value.
    pub fn possible_values(self, names: &[&str]) -> (a: Self)
        ensures
            a@ == (ArgModel {
                possible_vals: appended(self@.possible_vals, strs_deep(names@)),
                ..self@
            }).with_takes_value(true),
    {
        let mut a = self;
        let lst = a.possible_vals.take();
        a.possible_vals = extend_to(lst, names);
        a.takes_value(true)
    }

    /// Appends one cosmetic value name at the next free slot, which implies
    /// that the argument takes a value; once more than one name is present,
    /// the exact arity follows the name count.
    pub fn value_name(self, name: &str) -> (a: Self)
        requires
            self@.val_names_dense(),
            or_empty(self@.val_names).len() < usize::MAX,
        ensures
            a@ == (ArgModel {
                val_names: Some(
                    or_empty(self@.val_names).push(
                        (or_empty(self@.val_names).len() as int, name@),
                    ),
                ),
                num_vals: if or_empty(self@.val_names).len() + 1 > 1 {
                    Some((or_empty(self@.val_names).len() + 1) as u64)
                } else {
                    self@.num_vals
                },
                ..self@
            }).with_takes_value(true),
    {
        let mut a = self;
        let mut vm = match a.val_names.take() {
            Some(m) => m,
            None => vm_new(),
        };
        let l = vm_len(&vm);
        proof {
            assert forall|i: int| 0 <= i < vm_entries(vm).len() implies vm_entries(vm)[i].0 < (
            l as int) by {
                assert(vm_entries(vm)[i].0 == i);
            }
        }
        vm_insert_top(&mut vm, l, name.to_owned());
        let l2 = vm_len(&vm);
        a.val_names = Some(vm);
        if l2 > 1 {
            a.num_vals = Some(l2 as u64);
        }
        a.takes_value(true)
    }

    /// Appends the cosmetic value names in order, which implies that the
    /// argument takes a value; handing in more than one name fixes the exact
    /// arity to that count.
    pub fn value_names(self, names: &[&str]) -> (a: Self)
        requires
            self@.val_names_dense(),
            or_empty(self@.val_names).len() + names@.len() <= usize::MAX,
        ensures
            a@ == (ArgModel {
                val_names: Some(
                    or_empty(self@.val_names) + enum_from(
                        strs_deep(names@),
                        or_empty(self@.val_names).len() as int,
                    ),
                ),
                num_vals: if names@.len() > 1 {
                    Some(names@.len() as u64)
                } else {
                    self@.num_vals
                },
                ..self@
            }).with_takes_value(true),
    {
        let mut a = self;
        let mut vm = match a.val_names.take() {
            Some(m) => m,
            None => vm_new(),
        };
        let mut l = vm_len(&vm);
        let ghost base = vm_entries(vm);
        let ghost start = base.len() as int;
        let n = names.len();
        let mut k: usize = 0;
        proof {
            assert(base + enum_from(strs_deep(names@.take(0)), start) =~= base);
        }
        while k < n
            invariant
                n == names@.len(),
                0 <= k <= n,
                l as int == start + k,
                start == base.len(),
                start + n <= usize::MAX,
                dense_entries(base),
                vm_entries(vm) == base + enum_from(strs_deep(names@.take(k as int)), start),
            decreases n - k,
        {
            proof {
                let es = vm_entries(vm);
                let ext = enum_from(strs_deep(names@.take(k as int)), start);
                assert(strs_deep(names@.take(k as int)).len() == k as int);
                assert(es == base + ext);
                assert(es.len() == base.len() + ext.len());
                assert(es.len() == start + k);
                assert forall|i: int| 0 <= i < es.len() implies es[i].0 < (l as int) by {
                    if i < start {
                        assert(es[i] == base[i]);
                    } else {
                        assert(es[i] == ext[i - start]);
                        assert(ext[i - start].0 == start + (i - start));
                    }
                }
            }
            vm_insert_top(&mut vm, l, names[k].to_owned());
            l = l + 1;
            k = k + 1;
            proof {
                assert(strs_deep(names@.take(k as int)) =~= strs_deep(
                    names@.take(k as int - 1),
                ).push(names@[k as int - 1]@));
                assert(enum_from(strs_deep(names@.take(k as int)), start) =~= enum_from(
                    strs_deep(names@.take(k as int - 1)),
                    start,
                ).push((start + k - 1, names@[k as int - 1]@)));
                assert(vm_entries(vm) =~= base + enum_from(
                    strs_deep(names@.take(k as int)),
                    start,
                ));
            }
        }
        proof {
            assert(names@.take(n as int) =~= names@);
        }
        a.val_names = Some(vm);
        if n > 1 {
            a.num_vals = Some(n as u64);
        }
        a.takes_value(true)
    }

    /// Sets the delimiter character that splits one supplied token into
    /// several values, which implies that the argument takes a value.
    pub fn value_delimiter(self, d: &str) -> (a: Self)
        requires
            d@.len() > 0,
        ensures
            a@ == (ArgModel {
                val_delim: Some(d@[0]),
                settings: self@.settings.spec_set(ArgSettings::UseValueDelimiter),
                ..self@
            }).with_takes_value(true),
    {
        let mut a = self;
        a.setb(ArgSettings::UseValueDelimiter);
        let c = d.get_char(0);
        a.val_delim = Some(c);
        a.takes_value(true)
    }

    /// Sets the help text of the argument.
    pub fn help(self, h: &str) -> (a: Self)
        ensures
            a@ == (ArgModel { help: Some(h@), ..self@ }),
    {
        let mut a = self;
        a.help = Some(h.to_owned());
        a
    }

    /// Sets or unsets `Required`: the argument must be present at runtime.
    pub fn required(self, r: bool) -> (a: Self)
        ensures
            a@ == (ArgModel {
                settings: if r {
                    self@.settings.spec_set(ArgSettings::Required)
                } else {
                    self@.settings.spec_unset(ArgSettings::Required)
                },
                ..self@
            }),
    {
        if r {
            self.set(ArgSettings::Required)
        } else {
            self.unset(ArgSettings::Required)
        }
    }

    /// Sets or unsets whether the argument takes a value, recomputing the
    /// kind: taking a value makes it `Pos` when indexed and `Opt` otherwise;
    /// taking none makes it a `Flag`.
    pub fn takes_value(self, tv: bool) -> (a: Self)
        ensures
            a@ == self@.with_takes_value(tv),
    {
        let mut a = self;
        if tv {
            a.kind = if a.index.is_some() {
                ArgKind::Pos
            } else {
                ArgKind::Opt
            };
            a.set(ArgSettings::TakesValue)
        } else {
            a.kind = ArgKind::Flag;
            a.unset(ArgSettings::TakesValue)
        }
    }

    /// Declares the argument positional at the given one-based index.
    pub fn index(self, idx: u64) -> (a: Self)
        ensures
            a@ == (ArgModel { index: Some(idx), kind: ArgKind::Pos, ..self@ }),
    {
        let mut a = self;
        a.index = Some(idx);
        a.kind = ArgKind::Pos;
        a
    }

    /// Sets or unsets `Multiple`: the argument may occur, or take values,
    /// more than once.
    pub fn multiple(self, multi: bool) -> (a: Self)
        ensures
            a@ == (ArgModel {
                settings: if multi {
                    self@.settings.spec_set(ArgSettings::Multiple)
                } else {
                    self@.settings.spec_unset(ArgSettings::Multiple)
                },
                ..self@
            }),
    {
        if multi {
            self.set(ArgSettings::Multiple)
        } else {
            self.unset(ArgSettings::Multiple)
        }
    }

    /// Sets or unsets `Global`: the argument propagates to subcommands.
    pub fn global(self, g: bool) -> (a: Self)
        ensures
            a@ == (ArgModel {
                settings: if g {
                    self@.settings.spec_set(ArgSettings::Global)
                } else {
                    self@.settings.spec_unset(ArgSettings::Global)
                },
                ..self@
            }),
    {
        if g {
            self.set(ArgSettings::Global)
        } else {
            self.unset(ArgSettings::Global)
        }
    }

    /// Sets or unsets `Hidden`: the argument is left out of help text.
    pub fn hidden(self, h: bool) -> (a: Self)
        ensures
            a@ == (ArgModel {
                settings: if h {
                    self@.settings.spec_set(ArgSettings::Hidden)
                } else {
                    self@.settings.spec_unset(ArgSettings::Hidden)
                },
                ..self@
            }),
    {
        if h {
            self.set(ArgSettings::Hidden)
        } else {
            self.unset(ArgSettings::Hidden)
        }
    }

    /// Allows or disallows empty values such as `--option ""`. Disallowing
    /// them only makes sense for an argument that takes a value, so that is
    /// forced on.
    pub fn empty_values(self, ev: bool) -> (a: Self)
        ensures
            a@ == if ev {
                (ArgModel { settings: self@.settings.spec_set(ArgSettings::EmptyValues), ..self@ })
            } else {
                (ArgModel {
                    settings: self@.settings.spec_unset(ArgSettings::EmptyValues),
                    ..self@
                }).with_takes_value(true)
            },
    {
        let mut a = self;
        if ev {
            a.set(ArgSettings::EmptyValues)
        } else {
            a.unsetb(ArgSettings::EmptyValues);
            a.takes_value(true)
        }
    }

    /// Sets the argument's group membership.
    pub fn group(self, name: &str) -> (a: Self)
        ensures
            a@ == (ArgModel { group: Some(name@), ..self@ }),
    {
        let mut a = self;
        a.group = Some(name.to_owned());
        a
    }

    /// Sets the exact number of values the argument consumes, which implies
    /// that it takes a value.
    pub fn number_of_values(self, qty: u64) -> (a: Self)
        ensures
            a@ == (ArgModel { num_vals: Some(qty), ..self@ }).with_takes_value(true),
    {
        let mut a = self;
        a.num_vals = Some(qty);
        a.takes_value(true)
    }

    /// Sets an upper bound on the number of values, which implies that the
    /// argument takes a value.
    pub fn max_values(self, qty: u64) -> (a: Self)
        ensures
            a@ == (ArgModel { max_vals: Some(qty), ..self@ }).with_takes_value(true),
    {
        let mut a = self;
        a.max_vals = Some(qty);
        a.takes_value(true)
    }

    /// Sets a lower bound on the number of values, which implies that the
    /// argument takes a value.
    pub fn min_values(self, qty: u64) -> (a: Self)
        ensures
            a@ == (ArgModel { min_vals: Some(qty), ..self@ }).with_takes_value(true),
    {
        let mut a = self;
        a.min_vals = Some(qty);
        a.takes_value(true)
    }

    /// Attaches a value predicate (or detaches it, given `None`), which
    /// implies that the argument takes a value. The predicate is shared by
    /// every clone of this argument.
    pub fn validator(self, f: Option<Rc<dyn Validate>>) -> (a: Self)
        ensures
            a@ == (ArgModel { has_validator: f is Some, ..self@ }).with_takes_value(true),
    {
        let mut a = self;
        a.validator = f;
        a.takes_value(true)
    }

    /// Turns delimiter splitting on, restoring the default `,` delimiter and
    /// forcing value taking, or turns it off and clears the delimiter.
    pub fn use_delimiter(self, d: bool) -> (a: Self)
        ensures
            a@ == if d {
                (ArgModel {
                    val_delim: Some(','),
                    settings: self@.settings.spec_set(ArgSettings::UseValueDelimiter),
                    ..self@
                }).with_takes_value(true)
            } else {
                (ArgModel {
                    val_delim: None,
                    settings: self@.settings.spec_unset(ArgSettings::UseValueDelimiter),
                    ..self@
                })
            },
    {
        let mut a = self;
        if d {
            a.val_delim = Some(',');
            a.setb(ArgSettings::UseValueDelimiter);
            a.takes_value(true)
        } else {
            a.val_delim = None;
            a.unset(ArgSettings::UseValueDelimiter)
        }
    }

    /// Sets the default value substituted when the argument is absent at
    /// runtime, which implies that it takes a value.
    pub fn default_value(self, val: &str) -> (a: Self)
        ensures
            a@ == (ArgModel { default_val: Some(val@), ..self@ }).with_takes_value(true),
    {
        let mut a = self;
        a.default_val = Some(val.to_owned());
        a.takes_value(true)
    }

    /// Sets or unsets `NextLineHelp`: help text starts on the following line.
    pub fn next_line_help(self, nlh: bool) -> (a: Self)
        ensures
            a@ == (ArgModel {
                settings: if nlh {
                    self@.settings.spec_set(ArgSettings::NextLineHelp)
                } else {
                    self@.settings.spec_unset(ArgSettings::NextLineHelp)
                },
                ..self@
            }),
    {
        let mut a = self;
        if nlh {
            a.setb(ArgSettings::NextLineHelp);
        } else {
            a.unsetb(ArgSettings::NextLineHelp);
        }
        a
    }

    /// The trigger of a flag or option: `--long`, or `-s` when no long
    /// trigger is set.
    pub(crate) fn render_trigger(&self) -> (r: String)
        requires
            self@.long is Some || self@.short is Some,
        ensures
            r@ == trigger_render(self@),
    {
        let mut s = String::new();
        match &self.long {
            Some(l) => {
                s.append("--");
                s.append(l.as_str());
            },
            None => {
                s.append("-");
                let c = self.short.unwrap();
                push_char(&mut s, c);
            },
        }
        proof {
            assert(s@ =~= trigger_render(self@));
        }
        s
    }

    /// Appends the value part of an option's usage form.
    pub(crate) fn append_opt_vals(&self, s: &mut String)
        ensures
            final(s)@ == old(s)@ + opt_vals_render(self@),
    {
        match &self.val_names {
            Some(vm) => {
                let ghost es = vm_entries(*vm);
                let names = vm_values(vm);
                let n = names.len();
                let mut i: usize = 0;
                proof {
                    assert(old(s)@ + spaced_angled(entry_names(es).take(0)) =~= old(s)@);
                }
                while i < n
                    invariant
                        n == names@.len(),
                        names@.len() == es.len(),
                        forall|j: int| 0 <= j < n ==> names@[j]@ == es[j].1,
                        0 <= i <= n,
                        s@ == old(s)@ + spaced_angled(entry_names(es).take(i as int)),
                    decreases n - i,
                {
                    append_spaced_angled(s, names[i].as_str());
                    i = i + 1;
                    proof {
                        let cur = entry_names(es).take(i as int);
                        assert(cur.drop_last() =~= entry_names(es).take(i as int - 1));
                        assert(cur.last() == es[i as int - 1].1);
                        assert(s@ =~= old(s)@ + spaced_angled(cur));
                    }
                }
                proof {
                    assert(entry_names(es).take(n as int) =~= entry_names(es));
                }
                if self.settings.is_set(ArgSettings::Multiple) && n == 1 {
                    s.append("...");
                }
            },
            None => {
                let num: u64 = match self.num_vals {
                    Some(q) => q,
                    None => 1,
                };
                let mut i: u64 = 0;
                proof {
                    assert(old(s)@ + repeated_angled(self@.name, 0nat) =~= old(s)@);
                }
                while i < num
                    invariant
                        0 <= i <= num,
                        s@ == old(s)@ + repeated_angled(self@.name, i as nat),
                    decreases num - i,
                {
                    append_spaced_angled(s, self.name.as_str());
                    i = i + 1;
                    proof {
                        assert(repeated_angled(self@.name, i as nat) == repeated_angled(
                            self@.name,
                            (i - 1) as nat,
                        ) + (" ")@ + angled(self@.name));
                        assert(s@ =~= old(s)@ + repeated_angled(self@.name, i as nat));
                    }
                }
                if self.settings.is_set(ArgSettings::Multiple) && num == 1 {
                    s.append("...");
                }
            },
        }
    }

    /// The usage form of a positional argument.
    pub(crate) fn render_pos(&self) -> (r: String)
        ensures
            r@ == pos_render(self@),
    {
        let req = self.settings.is_set(ArgSettings::Required);
        let mut s = String::new();
        match &self.val_names {
            Some(vm) => {
                let ghost es = vm_entries(*vm);
                let ghost parts = wrapped_names(entry_names(es), req);
                let names = vm_values(vm);
                let n = names.len();
                let mut i: usize = 0;
                while i < n
                    invariant
                        n == names@.len(),
                        names@.len() == es.len(),
                        parts == wrapped_names(entry_names(es), req),
                        forall|j: int| 0 <= j < n ==> names@[j]@ == es[j].1,
                        0 <= i <= n,
                        s@ == space_joined(parts.take(i as int)),
                    decreases n - i,
                {
                    if i > 0 {
                        s.append(" ");
                    }
                    append_wrapped(&mut s, names[i].as_str(), req);
                    i = i + 1;
                    proof {
                        let taken = parts.take(i as int);
                        assert(taken.drop_last() =~= parts.take(i as int - 1));
                        assert(taken.last() == parts[i as int - 1]);
                        assert(s@ =~= space_joined(taken));
                    }
                }
                proof {
                    assert(parts.take(n as int) =~= parts);
                }
            },
            None => {
                append_wrapped(&mut s, self.name.as_str(), req);
                if self.settings.is_set(ArgSettings::Multiple) {
                    s.append("...");
                }
            },
        }
        proof {
            assert(s@ =~= pos_render(self@));
        }
        s
    }

    /// Renders the short usage-notation form of the argument: the trigger
    /// for a flag, the trigger and its value slots for an option, and the
    /// required/optional bracketed names for a positional.
    pub fn to_string(&self) -> (r: String)
        requires
            renderable(self@),
        ensures
            r@ == usage_render(self@),
    {
        match self.kind {
            ArgKind::Flag => self.render_trigger(),
            ArgKind::Opt => {
                let mut s = self.render_trigger();
                self.append_opt_vals(&mut s);
                s
            },
            ArgKind::Pos => self.render_pos(),
        }
    }
}

} // verus!
