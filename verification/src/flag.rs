//! The flag view: an argument invoked by its trigger alone, taking no value.

use vstd::prelude::*;

use crate::arg::{Arg, clone_opt_string, clone_opt_strings};
use crate::caps::{Any, Switched};
use crate::help_writer::{HelpWriter, hw_row, row_fits};
use crate::model::{ArgModel, trigger_render};
use crate::settings::ArgSettings;

verus! {

/// The fields a flag keeps from its source argument: identity, triggers,
/// help, relations and switches. Value data does not apply and is reset.
pub open spec fn flag_model(m: ArgModel) -> ArgModel {
    ArgModel {
        short: m.short,
        long: m.long,
        help: m.help,
        requires_list: m.requires_list,
        group: m.group,
        overrides_list: m.overrides_list,
        settings: m.settings,
        blacklist: m.blacklist,
        ..ArgModel::fresh(m.name)
    }
}

/// A flag: the view of an argument that takes no value, holding only the
/// fields that apply to one.
pub struct Flag {
    pub a: Arg,
}

impl View for Flag {
    type V = ArgModel;

    open spec fn view(&self) -> ArgModel {
        self.a@
    }
}

impl Flag {
    /// Builds the flag view of an argument by copying the applicable fields.
    pub fn from_arg(a: &Arg) -> (r: Self)
        ensures
            r@ == flag_model(a@),
    {
        let mut inner = Arg::default();
        inner.name = a.name.clone();
        inner.short = a.short;
        inner.long = clone_opt_string(&a.long);
        inner.help = clone_opt_string(&a.help);
        inner.requires_list = clone_opt_strings(&a.requires_list);
        inner.group = clone_opt_string(&a.group);
        inner.overrides_list = clone_opt_strings(&a.overrides_list);
        inner.settings = a.settings;
        inner.blacklist = clone_opt_strings(&a.blacklist);
        Flag { a: inner }
    }

    /// Renders the flag's usage form: `--long`, or `-s` when no long trigger
    /// is set.
    pub fn to_string(&self) -> (r: String)
        requires
            self@.long is Some || self@.short is Some,
        ensures
            r@ == trigger_render(self@),
    {
        self.a.render_trigger()
    }

    /// Renders the flag's help-table row, ended by a newline, aligned to
    /// the longest sibling rendering.
    pub fn write_help(&self, tab: &'static str, longest: usize, nlh: bool, term_w: Option<usize>)
        -> (r: String)
        requires
            row_fits(
                HelpWriter { tab, l: longest, nlh, skip_pv: false, term_w },
                self@,
            ),
        ensures
            r@ == hw_row(HelpWriter { tab, l: longest, nlh, skip_pv: false, term_w }, self@)
                + ("\n")@,
    {
        let hw = HelpWriter { tab, l: longest, nlh, skip_pv: false, term_w };
        hw.writeln(&self.a)
    }
}

impl From<&Arg> for Flag {
    /// The flag view of the argument, as `from_arg` builds it.
    fn from(a: &Arg) -> Self {
        Flag::from_arg(a)
    }
}

impl vstd::std_specs::convert::FromSpecImpl<&Arg> for Flag {
    /// The copy cannot be pinned down to an exact spec value, because
    /// cloning the owned lists yields fresh vectors; `from_arg` carries the
    /// model-level contract instead.
    open spec fn obeys_from_spec() -> bool {
        false
    }

    open spec fn from_spec(v: &Arg) -> Flag {
        Flag { a: *v }
    }
}

impl Any for Flag {
    fn name(&self) -> (r: &str) {
        self.a.name.as_str()
    }

    fn is_set(&self, s: ArgSettings) -> (r: bool) {
        self.a.settings.is_set(s)
    }

    fn set(&mut self, s: ArgSettings) {
        self.a.settings.set(s);
    }

    fn overrides(&self) -> (r: Option<&Vec<String>>) {
        self.a.overrides_list.as_ref()
    }

    fn requires_list(&self) -> (r: Option<&Vec<String>>) {
        self.a.requires_list.as_ref()
    }

    fn blacklist(&self) -> (r: Option<&Vec<String>>) {
        self.a.blacklist.as_ref()
    }
}

impl Switched for Flag {
    fn short(&self) -> (r: Option<char>) {
        self.a.short
    }

    fn long(&self) -> (r: Option<&str>) {
        match &self.a.long {
            Some(l) => Some(l.as_str()),
            None => None,
        }
    }
}

} // verus!
