use std::rc::Rc;

use cliarg::arg::{Arg, Validate};
use cliarg::kind::ArgKind;
use cliarg::settings::ArgSettings;

struct NonEmpty;

impl Validate for NonEmpty {
    fn validate(&self, val: &str) -> Result<(), String> {
        if val.is_empty() {
            Err("the value may not be empty".to_string())
        } else {
            Ok(())
        }
    }
}

#[test]
fn kind_follows_index() {
    let a = Arg::with_name("x");
    assert!(matches!(a.kind, ArgKind::Flag));
    assert!(a.index.is_none());

    let o = Arg::with_name("x").takes_value(true);
    assert!(matches!(o.kind, ArgKind::Opt));
    assert!(o.index.is_none());

    let p = Arg::with_name("x").index(2);
    assert!(matches!(p.kind, ArgKind::Pos));
    assert_eq!(p.index, Some(2));

    let p2 = Arg::with_name("x").index(2).takes_value(true);
    assert!(matches!(p2.kind, ArgKind::Pos));
    assert_eq!(p2.index, Some(2));
}

#[test]
fn value_implying_setters_force_takes_value() {
    let v: Rc<dyn Validate> = Rc::new(NonEmpty);
    let cases: Vec<Arg> = vec![
        Arg::with_name("x").possible_values(&["a", "b"]),
        Arg::with_name("x").possible_value("a"),
        Arg::with_name("x").number_of_values(3),
        Arg::with_name("x").validator(Some(v)),
        Arg::with_name("x").max_values(4),
        Arg::with_name("x").min_values(2),
        Arg::with_name("x").value_delimiter(";"),
        Arg::with_name("x").value_names(&["a", "b"]),
        Arg::with_name("x").value_name("a"),
        Arg::with_name("x").default_value("d"),
        Arg::with_name("x").use_delimiter(true),
    ];
    for a in cases.iter() {
        assert!(a.is_set(ArgSettings::TakesValue));
        assert!(matches!(a.kind, ArgKind::Opt));
    }
}

#[test]
fn value_names_fix_arity() {
    let a = Arg::with_name("x").value_names(&["a", "b", "c"]);
    assert_eq!(a.num_vals, Some(3));

    let b = Arg::with_name("x").number_of_values(7).value_names(&["a", "b"]);
    assert_eq!(b.num_vals, Some(2));

    let single = Arg::with_name("x").value_names(&["a"]);
    assert_eq!(single.num_vals, None);

    let one_by_one = Arg::with_name("x").value_name("a").value_name("b");
    assert_eq!(one_by_one.num_vals, Some(2));
}

#[test]
fn short_and_long_strip_dashes() {
    let a = Arg::with_name("cfg").short("-c");
    let b = Arg::with_name("cfg").short("c");
    assert_eq!(a.short, Some('c'));
    assert_eq!(a.short, b.short);

    let c = Arg::with_name("cfg").long("--config");
    let d = Arg::with_name("cfg").long("config");
    assert_eq!(c.long.as_deref(), Some("config"));
    assert_eq!(c.long, d.long);

    let inner = Arg::with_name("cfg").long("--config-file");
    assert_eq!(inner.long.as_deref(), Some("config-file"));

    let dashes_only = Arg::with_name("cfg").short("--");
    assert_eq!(dashes_only.short, None);
}

#[test]
fn empty_values_false_forces_value_taking() {
    let a = Arg::with_name("x").empty_values(false);
    assert!(a.is_set(ArgSettings::TakesValue));
    assert!(!a.is_set(ArgSettings::EmptyValues));
    assert!(matches!(a.kind, ArgKind::Opt));

    let fresh = Arg::with_name("x");
    assert!(fresh.is_set(ArgSettings::EmptyValues));
    assert!(fresh.is_set(ArgSettings::UseValueDelimiter));
    assert_eq!(fresh.val_delim, Some(','));
}

#[test]
fn required_twice_is_required_once() {
    let once = Arg::with_name("x").required(true);
    let twice = Arg::with_name("x").required(true).required(true);
    assert_eq!(once.settings, twice.settings);
    assert!(twice.is_set(ArgSettings::Required));

    let off = Arg::with_name("x").required(true).required(false);
    assert!(!off.is_set(ArgSettings::Required));
}

#[test]
fn delimiter_toggling() {
    let on = Arg::with_name("x").value_delimiter(";");
    assert_eq!(on.val_delim, Some(';'));
    assert!(on.is_set(ArgSettings::UseValueDelimiter));

    let off = Arg::with_name("x").value_delimiter(";").use_delimiter(false);
    assert_eq!(off.val_delim, None);
    assert!(!off.is_set(ArgSettings::UseValueDelimiter));

    let back_on = off.use_delimiter(true);
    assert_eq!(back_on.val_delim, Some(','));
    assert!(back_on.is_set(ArgSettings::UseValueDelimiter));
}

#[test]
fn relation_lists_append_in_order() {
    let a = Arg::with_name("x")
        .conflicts_with("a")
        .conflicts_with_all(&["b", "c"])
        .requires_arg("r1")
        .requires_all(&["r2", "r3"])
        .overrides_with("o1")
        .overrides_with_all(&["o2"]);
    assert_eq!(a.blacklist, Some(vec!["a".to_string(), "b".to_string(), "c".to_string()]));
    assert_eq!(
        a.requires_list,
        Some(vec!["r1".to_string(), "r2".to_string(), "r3".to_string()]),
    );
    assert_eq!(a.overrides_list, Some(vec!["o1".to_string(), "o2".to_string()]));
}

#[test]
fn switch_operations() {
    let a = Arg::with_name("x").set(ArgSettings::Hidden);
    assert!(a.is_set(ArgSettings::Hidden));

    let b = a.unset(ArgSettings::Hidden);
    assert!(!b.is_set(ArgSettings::Hidden));

    let mut c = Arg::with_name("x");
    c.setb(ArgSettings::Global);
    assert!(c.is_set(ArgSettings::Global));
    c.unsetb(ArgSettings::Global);
    assert!(!c.is_set(ArgSettings::Global));

    let g = Arg::with_name("x").global(true).hidden(true).next_line_help(true);
    assert!(g.is_set(ArgSettings::Global));
    assert!(g.is_set(ArgSettings::Hidden));
    assert!(g.is_set(ArgSettings::NextLineHelp));
    let off = g.global(false).hidden(false).next_line_help(false);
    assert!(!off.is_set(ArgSettings::Global));
    assert!(!off.is_set(ArgSettings::Hidden));
    assert!(!off.is_set(ArgSettings::NextLineHelp));
}

#[test]
fn clone_shares_validator_and_keeps_fields() {
    let v: Rc<dyn Validate> = Rc::new(NonEmpty);
    let a = Arg::with_name("x")
        .short("x")
        .long("extra")
        .help("some help")
        .possible_values(&["p", "q"])
        .validator(Some(v));
    let b = a.clone();
    assert_eq!(b.name, "x");
    assert_eq!(b.short, Some('x'));
    assert_eq!(b.long.as_deref(), Some("extra"));
    assert_eq!(b.help.as_deref(), Some("some help"));
    assert_eq!(b.possible_vals, a.possible_vals);
    assert!(b.validator.is_some());
    assert!(b.validator.as_ref().unwrap().validate("ok").is_ok());
    assert!(b.validator.as_ref().unwrap().validate("").is_err());

    let c = Arg::from(&a);
    assert_eq!(c.name, a.name);
    assert_eq!(c.settings, a.settings);
}
