use cliarg::arg::Arg;
use cliarg::config::{ConfigError, ConfigValue};
use cliarg::kind::ArgKind;
use cliarg::settings::ArgSettings;

#[test]
fn config_applies_simple_settings() {
    let a = Arg::with_name("cfg")
        .apply_setting("short", &ConfigValue::Str("c".to_string()))
        .unwrap()
        .apply_setting("long", &ConfigValue::Str("--config".to_string()))
        .unwrap()
        .apply_setting("help", &ConfigValue::Str("the config file".to_string()))
        .unwrap()
        .apply_setting("required", &ConfigValue::Bool(true))
        .unwrap()
        .apply_setting("takes_value", &ConfigValue::Bool(true))
        .unwrap();
    assert_eq!(a.short, Some('c'));
    assert_eq!(a.long.as_deref(), Some("config"));
    assert_eq!(a.help.as_deref(), Some("the config file"));
    assert!(a.is_set(ArgSettings::Required));
    assert!(a.is_set(ArgSettings::TakesValue));
    assert!(matches!(a.kind, ArgKind::Opt));
}

#[test]
fn config_applies_numeric_and_list_settings() {
    let a = Arg::with_name("pos")
        .apply_setting("index", &ConfigValue::Num(1))
        .unwrap()
        .apply_setting("min_values", &ConfigValue::Num(1))
        .unwrap()
        .apply_setting("max_values", &ConfigValue::Num(3))
        .unwrap()
        .apply_setting(
            "possible_values",
            &ConfigValue::List(vec!["fast".to_string(), "slow".to_string()]),
        )
        .unwrap()
        .apply_setting("requires", &ConfigValue::List(vec!["other".to_string()]))
        .unwrap();
    assert!(matches!(a.kind, ArgKind::Pos));
    assert_eq!(a.index, Some(1));
    assert_eq!(a.min_vals, Some(1));
    assert_eq!(a.max_vals, Some(3));
    assert_eq!(a.possible_vals, Some(vec!["fast".to_string(), "slow".to_string()]));
    assert_eq!(a.requires_list, Some(vec!["other".to_string()]));
}

#[test]
fn config_value_names_follow_the_setter_rule() {
    let a = Arg::with_name("x")
        .apply_setting(
            "value_names",
            &ConfigValue::List(vec!["in".to_string(), "out".to_string()]),
        )
        .unwrap();
    assert_eq!(a.num_vals, Some(2));
    assert!(a.is_set(ArgSettings::TakesValue));

    let empty = Arg::with_name("x")
        .apply_setting("value_names", &ConfigValue::List(vec![]))
        .unwrap();
    assert!(!empty.is_set(ArgSettings::TakesValue));
    assert!(empty.val_names.is_none());
}

#[test]
fn config_rejects_unknown_setting() {
    let r = Arg::with_name("x").apply_setting("colour", &ConfigValue::Bool(true));
    match r {
        Err(e) => assert_eq!(e, ConfigError::UnknownSetting),
        Ok(_) => panic!("an unknown setting must be refused"),
    }
}

#[test]
fn config_rejects_wrongly_shaped_values() {
    let r = Arg::with_name("x").apply_setting("short", &ConfigValue::Bool(true));
    assert!(matches!(r, Err(ConfigError::WrongType)));

    let r2 = Arg::with_name("x").apply_setting("required", &ConfigValue::Num(1));
    assert!(matches!(r2, Err(ConfigError::WrongType)));

    let r3 = Arg::with_name("x")
        .apply_setting("value_delimiter", &ConfigValue::Str(String::new()));
    assert!(matches!(r3, Err(ConfigError::WrongType)));
}

#[test]
fn config_delimiter_and_empty_values() {
    let a = Arg::with_name("x")
        .apply_setting("value_delimiter", &ConfigValue::Str(";".to_string()))
        .unwrap();
    assert_eq!(a.val_delim, Some(';'));
    assert!(a.is_set(ArgSettings::UseValueDelimiter));

    let b = Arg::with_name("x")
        .apply_setting("empty_values", &ConfigValue::Bool(false))
        .unwrap();
    assert!(!b.is_set(ArgSettings::EmptyValues));
    assert!(b.is_set(ArgSettings::TakesValue));
}
