//! The capability interfaces the kind views share: identity and relations,
//! value data, and trigger identity.

use std::rc::Rc;

use vstd::prelude::*;

use crate::arg::Validate;
use crate::model::ArgModel;
use crate::settings::ArgSettings;

verus! {

/// The view of an optionally borrowed list of names.
pub open spec fn opt_ref_strs_view(o: Option<&Vec<String>>) -> Option<Seq<Seq<char>>> {
    match o {
        Some(v) => Some(v.deep_view()),
        None => None,
    }
}

/// The view of an optionally borrowed string.
pub open spec fn opt_ref_str_view(o: Option<&str>) -> Option<Seq<char>> {
    match o {
        Some(s) => Some(s@),
        None => None,
    }
}

/// Identity and relations: what every kind view can answer.
pub trait Any: View<V = ArgModel> {
    /// The argument's unique name.
    fn name(&self) -> (r: &str)
        ensures
            r@ == self@.name,
    ;

    /// Whether switch `s` is active.
    fn is_set(&self, s: ArgSettings) -> (r: bool)
        ensures
            r == self@.is(s),
    ;

    /// Turn switch `s` on; everything else keeps its state.
    fn set(&mut self, s: ArgSettings)
        ensures
            final(self)@ == (ArgModel {
                settings: old(self)@.settings.spec_set(s),
                ..old(self)@
            }),
    ;

    /// The arguments this one mutually cancels with, in insertion order.
    fn overrides(&self) -> (r: Option<&Vec<String>>)
        ensures
            opt_ref_strs_view(r) == self@.overrides_list,
    ;

    /// The arguments that must accompany this one, in insertion order.
    fn requires_list(&self) -> (r: Option<&Vec<String>>)
        ensures
            opt_ref_strs_view(r) == self@.requires_list,
    ;

    /// The arguments that must be absent, in insertion order.
    fn blacklist(&self) -> (r: Option<&Vec<String>>)
        ensures
            opt_ref_strs_view(r) == self@.blacklist,
    ;
}

/// Value arity and validation data: what the option and positional views can
/// answer.
pub trait HasValues: View<V = ArgModel> {
    /// The upper bound on the number of values.
    fn max_vals(&self) -> (r: Option<u64>)
        ensures
            r == self@.max_vals,
    ;

    /// The lower bound on the number of values.
    fn min_vals(&self) -> (r: Option<u64>)
        ensures
            r == self@.min_vals,
    ;

    /// The exact number of values consumed.
    fn num_vals(&self) -> (r: Option<u64>)
        ensures
            r == self@.num_vals,
    ;

    /// The closed set of acceptable values, in declaration order.
    fn possible_vals(&self) -> (r: Option<&Vec<String>>)
        ensures
            opt_ref_strs_view(r) == self@.possible_vals,
    ;

    /// The attached value predicate, if any.
    fn validator(&self) -> (r: Option<&Rc<dyn Validate>>)
        ensures
            r is Some <==> self@.has_validator,
    ;

    /// The delimiter that splits one token into several values.
    fn val_delim(&self) -> (r: Option<char>)
        ensures
            r == self@.val_delim,
    ;
}

/// Trigger identity: what the flag and option views can answer.
pub trait Switched: View<V = ArgModel> {
    /// The trigger character after a single `-`.
    fn short(&self) -> (r: Option<char>)
        ensures
            r == self@.short,
    ;

    /// The trigger word after `--`.
    fn long(&self) -> (r: Option<&str>)
        ensures
            opt_ref_str_view(r) == self@.long,
    ;
}

} // verus!
