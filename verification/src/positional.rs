//! The positional view: an argument matched by its position, without a
//! trigger.

use std::rc::Rc;

use vstd::prelude::*;

use crate::arg::{
    Arg, Validate, clone_opt_string, clone_opt_strings, clone_opt_vm, clone_validator,
};
use crate::caps::{Any, HasValues};
use crate::help_writer::{HelpWriter, hw_row, row_fits};
use crate::kind::ArgKind;
use crate::model::{ArgModel, pos_render};
use crate::settings::ArgSettings;

verus! {

/// The fields a positional keeps from its source argument: everything but
/// the triggers, which do not apply, under the `Pos` kind.
pub open spec fn pos_model(m: ArgModel) -> ArgModel {
    ArgModel { short: None, long: None, kind: ArgKind::Pos, ..m }
}

/// A positional argument: the view of an argument matched by its position
/// on the command line.
pub struct Positional {
    pub a: Arg,
}

impl View for Positional {
    type V = ArgModel;

    open spec fn view(&self) -> ArgModel {
        self.a@
    }
}

impl Positional {
    /// Builds the positional view of an argument by copying the applicable
    /// fields; the validator predicate is shared, not copied.
    pub fn from_arg(a: &Arg) -> (r: Self)
        ensures
            r@ == pos_model(a@),
    {
        let mut inner = Arg::default();
        inner.name = a.name.clone();
        inner.help = clone_opt_string(&a.help);
        inner.index = a.index;
        inner.blacklist = clone_opt_strings(&a.blacklist);
        inner.possible_vals = clone_opt_strings(&a.possible_vals);
        inner.requires_list = clone_opt_strings(&a.requires_list);
        inner.group = clone_opt_string(&a.group);
        inner.val_names = clone_opt_vm(&a.val_names);
        inner.num_vals = a.num_vals;
        inner.max_vals = a.max_vals;
        inner.min_vals = a.min_vals;
        inner.validator = clone_validator(&a.validator);
        inner.overrides_list = clone_opt_strings(&a.overrides_list);
        inner.settings = a.settings;
        inner.val_delim = a.val_delim;
        inner.default_val = clone_opt_string(&a.default_val);
        inner.kind = ArgKind::Pos;
        Positional { a: inner }
    }

    /// Renders the positional's usage form: its value names (or its own
    /// name) wrapped in `<>` when required and `[]` otherwise, such as
    /// `<file1> <file2>` or `[pos]...`.
    pub fn to_string(&self) -> (r: String)
        ensures
            r@ == pos_render(self@),
    {
        self.a.render_pos()
    }

    /// Renders the positional's help-table row, ended by a newline, aligned
    /// to the longest sibling rendering.
    pub fn write_help(
        &self,
        tab: &'static str,
        longest: usize,
        skip_pv: bool,
        nlh: bool,
        term_w: Option<usize>,
    ) -> (r: String)
        requires
            row_fits(HelpWriter { tab, l: longest, nlh, skip_pv, term_w }, self@),
        ensures
            r@ == hw_row(HelpWriter { tab, l: longest, nlh, skip_pv, term_w }, self@) + ("\n")@,
    {
        let hw = HelpWriter { tab, l: longest, nlh, skip_pv, term_w };
        hw.writeln(&self.a)
    }
}

impl From<&Arg> for Positional {
    /// The positional view of the argument, as `from_arg` builds it.
    fn from(a: &Arg) -> Self {
        Positional::from_arg(a)
    }
}

impl vstd::std_specs::convert::FromSpecImpl<&Arg> for Positional {
    /// The copy cannot be pinned down to an exact spec value, because
    /// cloning the owned lists yields fresh vectors; `from_arg` carries the
    /// model-level contract instead.
    open spec fn obeys_from_spec() -> bool {
        false
    }

    open spec fn from_spec(v: &Arg) -> Positional {
        Positional { a: *v }
    }
}

impl Any for Positional {
    fn name(&self) -> (r: &str) {
        self.a.name.as_str()
    }

    fn is_set(&self, s: ArgSettings) -> (r: bool) {
        self.a.settings.is_set(s)
    }

    fn set(&mut self, s: ArgSettings) {
        self.a.settings.set(s);
    }

    fn overrides(&self) -> (r: Option<&Vec<String>>) {
        self.a.overrides_list.as_ref()
    }

    fn requires_list(&self) -> (r: Option<&Vec<String>>) {
        self.a.requires_list.as_ref()
    }

    fn blacklist(&self) -> (r: Option<&Vec<String>>) {
        self.a.blacklist.as_ref()
    }
}

impl HasValues for Positional {
    fn max_vals(&self) -> (r: Option<u64>) {
        self.a.max_vals
    }

    fn min_vals(&self) -> (r: Option<u64>) {
        self.a.min_vals
    }

    fn num_vals(&self) -> (r: Option<u64>) {
        self.a.num_vals
    }

    fn possible_vals(&self) -> (r: Option<&Vec<String>>) {
        self.a.possible_vals.as_ref()
    }

    fn validator(&self) -> (r: Option<&Rc<dyn Validate>>) {
        self.a.validator.as_ref()
    }

    fn val_delim(&self) -> (r: Option<char>) {
        self.a.val_delim
    }
}

} // verus!
