//! The option view: an argument invoked by a trigger that takes a value.

use std::rc::Rc;

use vstd::prelude::*;

use crate::arg::{
    Arg, Validate, clone_opt_string, clone_opt_strings, clone_opt_vm, clone_validator,
};
use crate::caps::{Any, HasValues, Switched};
use crate::help_writer::{HelpWriter, hw_row, row_fits};
use crate::kind::ArgKind;
use crate::model::{ArgModel, opt_vals_render, trigger_render};
use crate::settings::ArgSettings;

verus! {

/// The fields an option keeps from its source argument: everything, under
/// the `Opt` kind.
pub open spec fn opt_model(m: ArgModel) -> ArgModel {
    ArgModel { kind: ArgKind::Opt, ..m }
}

/// An option: the view of an argument invoked by a trigger and consuming
/// values.
pub struct Opt {
    pub a: Arg,
}

impl View for Opt {
    type V = ArgModel;

    open spec fn view(&self) -> ArgModel {
        self.a@
    }
}

impl Opt {
    /// Builds the option view of an argument by copying its fields; the
    /// validator predicate is shared, not copied.
    pub fn from_arg(a: &Arg) -> (r: Self)
        ensures
            r@ == opt_model(a@),
    {
        let mut inner = Arg::default();
        inner.name = a.name.clone();
        inner.short = a.short;
        inner.long = clone_opt_string(&a.long);
        inner.help = clone_opt_string(&a.help);
        inner.index = a.index;
        inner.blacklist = clone_opt_strings(&a.blacklist);
        inner.possible_vals = clone_opt_strings(&a.possible_vals);
        inner.requires_list = clone_opt_strings(&a.requires_list);
        inner.group = clone_opt_string(&a.group);
        inner.val_names = clone_opt_vm(&a.val_names);
        inner.num_vals = a.num_vals;
        inner.max_vals = a.max_vals;
        inner.min_vals = a.min_vals;
        inner.validator = clone_validator(&a.validator);
        inner.overrides_list = clone_opt_strings(&a.overrides_list);
        inner.settings = a.settings;
        inner.val_delim = a.val_delim;
        inner.default_val = clone_opt_string(&a.default_val);
        inner.kind = ArgKind::Opt;
        Opt { a: inner }
    }

    /// Renders the option's usage form: its trigger followed by its value
    /// slots, such as `--option <file>` or `-o <name>...`.
    pub fn to_string(&self) -> (r: String)
        requires
            self@.long is Some || self@.short is Some,
        ensures
            r@ == trigger_render(self@) + opt_vals_render(self@),
    {
        let mut s = self.a.render_trigger();
        self.a.append_opt_vals(&mut s);
        s
    }

    /// Renders the option's help-table row, ended by a newline, aligned to
    /// the longest sibling rendering.
    pub fn write_help(
        &self,
        tab: &'static str,
        longest: usize,
        skip_pv: bool,
        nlh: bool,
        term_w: Option<usize>,
    ) -> (r: String)
        requires
            row_fits(HelpWriter { tab, l: longest, nlh, skip_pv, term_w }, self@),
        ensures
            r@ == hw_row(HelpWriter { tab, l: longest, nlh, skip_pv, term_w }, self@) + ("\n")@,
    {
        let hw = HelpWriter { tab, l: longest, nlh, skip_pv, term_w };
        hw.writeln(&self.a)
    }
}

impl From<&Arg> for Opt {
    /// The option view of the argument, as `from_arg` builds it.
    fn from(a: &Arg) -> Self {
        Opt::from_arg(a)
    }
}

impl vstd::std_specs::convert::FromSpecImpl<&Arg> for Opt {
    /// The copy cannot be pinned down to an exact spec value, because
    /// cloning the owned lists yields fresh vectors; `from_arg` carries the
    /// model-level contract instead.
    open spec fn obeys_from_spec() -> bool {
        false
    }

    open spec fn from_spec(v: &Arg) -> Opt {
        Opt { a: *v }
    }
}

impl Any for Opt {
    fn name(&self) -> (r: &str) {
        self.a.name.as_str()
    }

    fn is_set(&self, s: ArgSettings) -> (r: bool) {
        self.a.settings.is_set(s)
    }

    fn set(&mut self, s: ArgSettings) {
        self.a.settings.set(s);
    }

    fn overrides(&self) -> (r: Option<&Vec<String>>) {
        self.a.overrides_list.as_ref()
    }

    fn requires_list(&self) -> (r: Option<&Vec<String>>) {
        self.a.requires_list.as_ref()
    }

    fn blacklist(&self) -> (r: Option<&Vec<String>>) {
        self.a.blacklist.as_ref()
    }
}

impl HasValues for Opt {
    fn max_vals(&self) -> (r: Option<u64>) {
        self.a.max_vals
    }

    fn min_vals(&self) -> (r: Option<u64>) {
        self.a.min_vals
    }

    fn num_vals(&self) -> (r: Option<u64>) {
        self.a.num_vals
    }

    fn possible_vals(&self) -> (r: Option<&Vec<String>>) {
        self.a.possible_vals.as_ref()
    }

    fn validator(&self) -> (r: Option<&Rc<dyn Validate>>) {
        self.a.validator.as_ref()
    }

    fn val_delim(&self) -> (r: Option<char>) {
        self.a.val_delim
    }
}

impl Switched for Opt {
    fn short(&self) -> (r: Option<char>) {
        self.a.short
    }

    fn long(&self) -> (r: Option<&str>) {
        match &self.a.long {
            Some(l) => Some(l.as_str()),
            None => None,
        }
    }
}

} // verus!
