//! The mathematical model of one argument, and the specification of its
//! usage-notation rendering.

use vstd::prelude::*;

use crate::kind::ArgKind;
use crate::settings::{ArgFlags, ArgSettings};

verus! {

/// Everything the library knows about one declared argument, as plain
/// mathematical values. The contracts of the executable types speak in terms
/// of this model.
pub ghost struct ArgModel {
    /// Unique identifier of the argument.
    pub name: Seq<char>,
    /// Trigger character after a single `-`.
    pub short: Option<char>,
    /// Trigger word after `--`.
    pub long: Option<Seq<char>>,
    /// Help text shown beside the argument.
    pub help: Option<Seq<char>>,
    /// One-based position of a positional argument.
    pub index: Option<u64>,
    /// Names of arguments that must be absent when this one is present.
    pub blacklist: Option<Seq<Seq<char>>>,
    /// The closed set of acceptable values, in declaration order.
    pub possible_vals: Option<Seq<Seq<char>>>,
    /// Names of arguments that must be present when this one is present.
    pub requires_list: Option<Seq<Seq<char>>>,
    /// The named group this argument belongs to.
    pub group: Option<Seq<char>>,
    /// Cosmetic value names: key/name pairs in ascending key order.
    pub val_names: Option<Seq<(int, Seq<char>)>>,
    /// Exact number of values the argument consumes.
    pub num_vals: Option<u64>,
    /// Upper bound on the number of values.
    pub max_vals: Option<u64>,
    /// Lower bound on the number of values.
    pub min_vals: Option<u64>,
    /// Whether a user-supplied value predicate is attached.
    pub has_validator: bool,
    /// Names of arguments this one mutually cancels with.
    pub overrides_list: Option<Seq<Seq<char>>>,
    /// The behavior switches.
    pub settings: ArgFlags,
    /// Character that splits one supplied token into several values.
    pub val_delim: Option<char>,
    /// Value substituted when the argument is absent at runtime.
    pub default_val: Option<Seq<char>>,
    /// How the argument is invoked.
    pub kind: ArgKind,
}

impl ArgModel {
    /// The model a freshly constructed argument starts from: only the name is
    /// set, the delimiter is `,`, and the default switches are active.
    pub open spec fn fresh(name: Seq<char>) -> ArgModel {
        ArgModel {
            name: name,
            short: None,
            long: None,
            help: None,
            index: None,
            blacklist: None,
            possible_vals: None,
            requires_list: None,
            group: None,
            val_names: None,
            num_vals: None,
            max_vals: None,
            min_vals: None,
            has_validator: false,
            overrides_list: None,
            settings: ArgFlags::spec_default(),
            val_delim: Some(','),
            default_val: None,
            kind: ArgKind::Flag,
        }
    }

    /// Whether a switch is active.
    pub open spec fn is(self, s: ArgSettings) -> bool {
        self.settings.spec_is_set(s)
    }

    /// The model after `takes_value(tv)`: the `TakesValue` switch follows
    /// `tv`, and the kind is recomputed, to `Pos` or `Opt` by the presence of
    /// an index when a value is taken, and to `Flag` when none is.
    pub open spec fn with_takes_value(self, tv: bool) -> ArgModel {
        if tv {
            ArgModel {
                kind: if self.index is Some {
                    ArgKind::Pos
                } else {
                    ArgKind::Opt
                },
                settings: self.settings.spec_set(ArgSettings::TakesValue),
                ..self
            }
        } else {
            ArgModel {
                kind: ArgKind::Flag,
                settings: self.settings.spec_unset(ArgSettings::TakesValue),
                ..self
            }
        }
    }

    /// The kind is `Pos` exactly when an index has been set.
    pub open spec fn kind_matches_index(self) -> bool {
        (self.kind == ArgKind::Pos) <==> (self.index is Some)
    }

    /// The value names, if any, sit densely at keys `0, 1, 2, …`. Every
    /// argument the builder produces satisfies this.
    pub open spec fn val_names_dense(self) -> bool {
        self.val_names matches Some(es) ==> dense_entries(es)
    }
}

/// Entry `i` carries key `i`: the keys are exactly the slot numbers.
pub open spec fn dense_entries(es: Seq<(int, Seq<char>)>) -> bool {
    forall|i: int| 0 <= i < es.len() ==> (#[trigger] es[i]).0 == i
}

/// The names appended to an optional list; an absent list counts as empty.
pub open spec fn appended(o: Option<Seq<Seq<char>>>, xs: Seq<Seq<char>>) -> Option<
    Seq<Seq<char>>,
> {
    match o {
        Some(s) => Some(s + xs),
        None => Some(xs),
    }
}

/// The entries of an optional value-name map; an absent map counts as empty.
pub open spec fn or_empty(o: Option<Seq<(int, Seq<char>)>>) -> Seq<(int, Seq<char>)> {
    match o {
        Some(es) => es,
        None => Seq::empty(),
    }
}

/// The names keyed consecutively from `start` on.
pub open spec fn enum_from(names: Seq<Seq<char>>, start: int) -> Seq<(int, Seq<char>)> {
    Seq::new(names.len(), |i: int| (start + i, names[i]))
}

/// The views of a list of string slices.
pub open spec fn strs_deep(s: Seq<&str>) -> Seq<Seq<char>> {
    s.map_values(|x: &str| x@)
}

/// The leading characters of `s` that are `-`, stripped.
pub open spec fn strip_dashes(s: Seq<char>) -> Seq<char>
    decreases s.len(),
{
    if s.len() > 0 && s[0] == '-' {
        strip_dashes(s.drop_first())
    } else {
        s
    }
}

/// The first character of `s` once leading dashes are stripped, if any.
pub open spec fn first_non_dash(s: Seq<char>) -> Option<char> {
    if strip_dashes(s).len() == 0 {
        None
    } else {
        Some(strip_dashes(s)[0])
    }
}

/// `name` wrapped in angle brackets: `<name>`.
pub open spec fn angled(name: Seq<char>) -> Seq<char> {
    ("<")@ + name + (">")@
}

/// `name` wrapped in square brackets: `[name]`.
pub open spec fn bracketed(name: Seq<char>) -> Seq<char> {
    ("[")@ + name + ("]")@
}

/// The names of the entries, keys dropped, order kept.
pub open spec fn entry_names(es: Seq<(int, Seq<char>)>) -> Seq<Seq<char>> {
    es.map_values(|e: (int, Seq<char>)| e.1)
}

/// Each name angled and preceded by one space: ` <a> <b>`.
pub open spec fn spaced_angled(names: Seq<Seq<char>>) -> Seq<char>
    decreases names.len(),
{
    if names.len() == 0 {
        Seq::empty()
    } else {
        spaced_angled(names.drop_last()) + (" ")@ + angled(names.last())
    }
}

/// `name` angled and preceded by one space, `n` times over.
pub open spec fn repeated_angled(name: Seq<char>, n: nat) -> Seq<char>
    decreases n,
{
    if n == 0 {
        Seq::empty()
    } else {
        repeated_angled(name, (n - 1) as nat) + (" ")@ + angled(name)
    }
}

/// The parts joined by single spaces: `a b c`.
pub open spec fn space_joined(parts: Seq<Seq<char>>) -> Seq<char>
    decreases parts.len(),
{
    if parts.len() == 0 {
        Seq::empty()
    } else if parts.len() == 1 {
        parts.last()
    } else {
        space_joined(parts.drop_last()) + (" ")@ + parts.last()
    }
}

/// Each name wrapped by the positional convention: angled when required,
/// bracketed otherwise.
pub open spec fn wrapped_names(names: Seq<Seq<char>>, required: bool) -> Seq<Seq<char>> {
    names.map_values(|n: Seq<char>| if required { angled(n) } else { bracketed(n) })
}

/// The trigger of a flag or option: `--long` when a long trigger is set, else
/// `-s` with the short character.
pub open spec fn trigger_render(m: ArgModel) -> Seq<char> {
    if m.long is Some {
        ("--")@ + m.long->0
    } else {
        ("-")@ + seq![m.short->0]
    }
}

/// The value part of an option's usage form: each configured value name as
/// ` <name>`, or the argument's own name repeated `num_vals` times (default
/// once); a trailing `...` only when `Multiple` is set and exactly one value
/// slot exists.
pub open spec fn opt_vals_render(m: ArgModel) -> Seq<char> {
    match m.val_names {
        Some(es) => spaced_angled(entry_names(es)) + if m.is(ArgSettings::Multiple) && es.len()
            == 1 {
            ("...")@
        } else {
            Seq::<char>::empty()
        },
        None => {
            let n = if m.num_vals is Some {
                m.num_vals->0 as nat
            } else {
                1nat
            };
            repeated_angled(m.name, n) + if m.is(ArgSettings::Multiple) && n == 1 {
                ("...")@
            } else {
                Seq::<char>::empty()
            }
        },
    }
}

/// The usage form of a positional argument: its value names (or its own name)
/// wrapped by the required/optional convention and space-joined, with `...`
/// only when `Multiple` is set and no value names are configured.
pub open spec fn pos_render(m: ArgModel) -> Seq<char> {
    let req = m.is(ArgSettings::Required);
    let body = match m.val_names {
        Some(es) => space_joined(wrapped_names(entry_names(es), req)),
        None => if req {
            angled(m.name)
        } else {
            bracketed(m.name)
        },
    };
    body + if m.is(ArgSettings::Multiple) && m.val_names is None {
        ("...")@
    } else {
        Seq::<char>::empty()
    }
}

/// The short usage-notation form of an argument, by kind.
pub open spec fn usage_render(m: ArgModel) -> Seq<char> {
    match m.kind {
        ArgKind::Flag => trigger_render(m),
        ArgKind::Opt => trigger_render(m) + opt_vals_render(m),
        ArgKind::Pos => pos_render(m),
    }
}

/// A freshly constructed argument is a flag without an index, so its kind
/// matches its index.
pub proof fn lemma_fresh_kind_matches_index(name: Seq<char>)
    ensures
        ArgModel::fresh(name).kind_matches_index(),
{
}

/// Recomputing the kind keeps it matched to the index: taking a value makes
/// the kind `Pos` exactly when an index is present, whatever held before.
/// Dropping value taking forces the kind to `Flag`, which matches only an
/// argument without an index; an indexed argument on which value taking is
/// dropped is the one way out of the correspondence, and is excluded here.
/// Every other setter changes neither the kind nor the index, as its
/// contract shows.
pub proof fn lemma_takes_value_kind_matches_index(m: ArgModel, tv: bool)
    requires
        tv || m.index is None,
    ensures
        m.with_takes_value(tv).kind_matches_index(),
{
}

/// Every value-implying setter routes through `with_takes_value(true)`, and
/// afterwards the `TakesValue` switch is on, whatever held before.
pub proof fn lemma_value_setters_take_value(m: ArgModel)
    ensures
        m.with_takes_value(true).is(ArgSettings::TakesValue),
        m.with_takes_value(true).kind != ArgKind::Flag,
{
    crate::settings::lemma_set_is_set(
        m.settings,
        ArgSettings::TakesValue,
        ArgSettings::TakesValue,
    );
}

/// Recomputing the kind flips only the `TakesValue` switch: every other
/// switch keeps its state.
pub proof fn lemma_with_takes_value_keeps_other_switches(m: ArgModel, tv: bool, t: ArgSettings)
    requires
        t != ArgSettings::TakesValue,
    ensures
        m.with_takes_value(tv).is(t) == m.is(t),
{
    if tv {
        crate::settings::lemma_set_is_set(m.settings, ArgSettings::TakesValue, t);
    } else {
        crate::settings::lemma_unset_is_set(m.settings, ArgSettings::TakesValue, t);
    }
}

/// A leading dash never changes the trigger derived from the input: `-c`
/// and `c` give the same short character, `--config` and `config` (and
/// `-config`) the same long word.
pub proof fn lemma_leading_dash_ignored(s: Seq<char>)
    ensures
        strip_dashes(("-")@ + s) == strip_dashes(s),
        first_non_dash(("-")@ + s) == first_non_dash(s),
{
    reveal_strlit("-");
    let d = ("-")@ + s;
    assert(d[0] == '-');
    assert(d.drop_first() =~= s);
}

/// Setting `Required` twice leaves the same bit state as setting it once.
pub proof fn lemma_required_idempotent(m: ArgModel)
    ensures
        (ArgModel {
            settings: m.settings.spec_set(ArgSettings::Required).spec_set(ArgSettings::Required),
            ..m
        }) == (ArgModel { settings: m.settings.spec_set(ArgSettings::Required), ..m }),
{
    crate::settings::lemma_set_idempotent(m.settings, ArgSettings::Required);
}

/// An argument can be rendered without panicking when a flag or option has a
/// trigger to show and any value-slot count fits the platform.
pub open spec fn renderable(m: ArgModel) -> bool {
    &&& m.kind != ArgKind::Pos ==> (m.long is Some || m.short is Some)
    &&& m.kind == ArgKind::Opt && m.val_names is None && m.num_vals is Some ==> m.num_vals->0
        <= usize::MAX
}

} // verus!
