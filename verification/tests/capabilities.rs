use std::rc::Rc;

use cliarg::arg::{Arg, Validate};
use cliarg::caps::{Any, HasValues, Switched};
use cliarg::flag::Flag;
use cliarg::option::Opt;
use cliarg::positional::Positional;
use cliarg::settings::ArgSettings;

struct Numeric;

impl Validate for Numeric {
    fn validate(&self, val: &str) -> Result<(), String> {
        if val.chars().all(|c| c.is_ascii_digit()) {
            Ok(())
        } else {
            Err(format!("'{}' is not a number", val))
        }
    }
}

#[test]
fn flag_capabilities() {
    let a = Arg::with_name("verbose")
        .short("v")
        .long("verbose")
        .conflicts_with("quiet")
        .requires_arg("log")
        .overrides_with("terse")
        .multiple(true);
    let mut f = Flag::from(&a);

    assert_eq!(f.name(), "verbose");
    assert!(f.is_set(ArgSettings::Multiple));
    assert!(!f.is_set(ArgSettings::Required));
    f.set(ArgSettings::Required);
    assert!(f.is_set(ArgSettings::Required));

    assert_eq!(f.blacklist(), Some(&vec!["quiet".to_string()]));
    assert_eq!(f.requires_list(), Some(&vec!["log".to_string()]));
    assert_eq!(f.overrides(), Some(&vec!["terse".to_string()]));
    assert_eq!(f.short(), Some('v'));
    assert_eq!(f.long(), Some("verbose"));

    // the view is a narrowing copy: value data does not carry over
    let src = Arg::with_name("x").number_of_values(3);
    let fv = Flag::from(&src);
    assert_eq!(fv.a.num_vals, None);
}

#[test]
fn opt_capabilities() {
    let v: Rc<dyn Validate> = Rc::new(Numeric);
    let a = Arg::with_name("jobs")
        .short("j")
        .long("jobs")
        .min_values(1)
        .max_values(8)
        .number_of_values(2)
        .possible_values(&["1", "2"])
        .value_delimiter(",")
        .validator(Some(v));
    let o = Opt::from(&a);

    assert_eq!(o.name(), "jobs");
    assert_eq!(o.min_vals(), Some(1));
    assert_eq!(o.max_vals(), Some(8));
    assert_eq!(o.num_vals(), Some(2));
    assert_eq!(o.possible_vals(), Some(&vec!["1".to_string(), "2".to_string()]));
    assert_eq!(o.val_delim(), Some(','));
    assert_eq!(o.short(), Some('j'));
    assert_eq!(o.long(), Some("jobs"));

    let validator = o.validator().expect("the validator must carry over");
    assert!(validator.validate("42").is_ok());
    assert!(validator.validate("4a").is_err());
}

#[test]
fn positional_capabilities() {
    let a = Arg::with_name("input").index(1).required(true).min_values(2);
    let p = Positional::from(&a);

    assert_eq!(p.name(), "input");
    assert!(p.is_set(ArgSettings::Required));
    assert_eq!(p.min_vals(), Some(2));
    assert_eq!(p.validator().map(|_| ()), None);
    // the triggers do not apply to a positional and are dropped by the view
    assert_eq!(p.a.short, None);
    assert_eq!(p.a.long, None);
}
