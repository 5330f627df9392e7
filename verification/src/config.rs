//! Applying configuration-file settings to an argument: the mapping from a
//! setting name and a plain value to the matching setter. The loading of the
//! configuration file itself stays outside; this module receives plain
//! values and either applies them or reports exactly why it cannot.

use vstd::prelude::*;

use crate::arg::Arg;
use crate::kind::ArgKind;
use crate::model::{
    ArgModel, appended, first_non_dash, or_empty, strip_dashes,
};
use crate::settings::ArgSettings;
use vstd::string::StrSliceExecFns;

verus! {

/// A plain configuration value for one setting.
pub enum ConfigValue {
    /// A boolean switch value.
    Bool(bool),
    /// A numeric value.
    Num(u64),
    /// A single string value.
    Str(String),
    /// A list of string values.
    List(Vec<String>),
}

/// The mathematical view of a configuration value.
pub ghost enum CfgView {
    Bool(bool),
    Num(u64),
    Str(Seq<char>),
    List(Seq<Seq<char>>),
}

impl View for ConfigValue {
    type V = CfgView;

    open spec fn view(&self) -> CfgView {
        match self {
            ConfigValue::Bool(b) => CfgView::Bool(*b),
            ConfigValue::Num(n) => CfgView::Num(*n),
            ConfigValue::Str(s) => CfgView::Str(s@),
            ConfigValue::List(l) => CfgView::List(l.deep_view()),
        }
    }
}

/// Why a configuration entry cannot be applied.
#[derive(Debug, Clone, Copy, PartialEq, Eq, Structural)]
pub enum ConfigError {
    /// The setting name is not one this library knows.
    UnknownSetting,
    /// The value has the wrong shape for the setting, or is empty where a
    /// character is needed.
    WrongType,
}

/// The model after one `value_name` application.
pub open spec fn value_name_model(m: ArgModel, name: Seq<char>) -> ArgModel {
    (ArgModel {
        val_names: Some(or_empty(m.val_names).push((or_empty(m.val_names).len() as int, name))),
        num_vals: if or_empty(m.val_names).len() + 1 > 1 {
            Some((or_empty(m.val_names).len() + 1) as u64)
        } else {
            m.num_vals
        },
        ..m
    }).with_takes_value(true)
}

/// The model after `value_name` applied to each name in order.
pub open spec fn value_names_fold(m: ArgModel, names: Seq<Seq<char>>) -> ArgModel
    decreases names.len(),
{
    if names.len() == 0 {
        m
    } else {
        value_name_model(value_names_fold(m, names.drop_last()), names.last())
    }
}

/// The model after one `possible_value` application.
pub open spec fn possible_value_model(m: ArgModel, name: Seq<char>) -> ArgModel {
    (ArgModel { possible_vals: appended(m.possible_vals, seq![name]), ..m }).with_takes_value(true)
}

/// The model after `possible_value` applied to each name in order.
pub open spec fn possible_values_fold(m: ArgModel, names: Seq<Seq<char>>) -> ArgModel
    decreases names.len(),
{
    if names.len() == 0 {
        m
    } else {
        possible_value_model(possible_values_fold(m, names.drop_last()), names.last())
    }
}

/// The names appended to an optional list by one setter call per name: an
/// empty list of names touches nothing.
pub open spec fn appended_each(o: Option<Seq<Seq<char>>>, names: Seq<Seq<char>>) -> Option<
    Seq<Seq<char>>,
> {
    if names.len() == 0 {
        o
    } else {
        appended(o, names)
    }
}

/// What applying the setting under `key` with value `v` does to the model:
/// the updated model, or the exact error. Each known key demands one value
/// shape; an unknown key is a hard configuration error.
pub open spec fn apply_setting_spec(m: ArgModel, key: Seq<char>, v: CfgView) -> Result<
    ArgModel,
    ConfigError,
> {
    if key == ("short")@ {
        match v {
            CfgView::Str(s) => Ok(ArgModel { short: first_non_dash(s), ..m }),
            _ => Err(ConfigError::WrongType),
        }
    } else if key == ("long")@ {
        match v {
            CfgView::Str(s) => Ok(ArgModel { long: Some(strip_dashes(s)), ..m }),
            _ => Err(ConfigError::WrongType),
        }
    } else if key == ("help")@ {
        match v {
            CfgView::Str(s) => Ok(ArgModel { help: Some(s), ..m }),
            _ => Err(ConfigError::WrongType),
        }
    } else if key == ("required")@ {
        match v {
            CfgView::Bool(b) => Ok(
                ArgModel {
                    settings: if b {
                        m.settings.spec_set(ArgSettings::Required)
                    } else {
                        m.settings.spec_unset(ArgSettings::Required)
                    },
                    ..m
                },
            ),
            _ => Err(ConfigError::WrongType),
        }
    } else if key == ("takes_value")@ {
        match v {
            CfgView::Bool(b) => Ok(m.with_takes_value(b)),
            _ => Err(ConfigError::WrongType),
        }
    } else if key == ("index")@ {
        match v {
            CfgView::Num(n) => Ok(ArgModel { index: Some(n), kind: ArgKind::Pos, ..m }),
            _ => Err(ConfigError::WrongType),
        }
    } else if key == ("global")@ {
        match v {
            CfgView::Bool(b) => Ok(
                ArgModel {
                    settings: if b {
                        m.settings.spec_set(ArgSettings::Global)
                    } else {
                        m.settings.spec_unset(ArgSettings::Global)
                    },
                    ..m
                },
            ),
            _ => Err(ConfigError::WrongType),
        }
    } else if key == ("multiple")@ {
        match v {
            CfgView::Bool(b) => Ok(
                ArgModel {
                    settings: if b {
                        m.settings.spec_set(ArgSettings::Multiple)
                    } else {
                        m.settings.spec_unset(ArgSettings::Multiple)
                    },
                    ..m
                },
            ),
            _ => Err(ConfigError::WrongType),
        }
    } else if key == ("empty_values")@ {
        match v {
            CfgView::Bool(b) => Ok(
                if b {
                    ArgModel { settings: m.settings.spec_set(ArgSettings::EmptyValues), ..m }
                } else {
                    (ArgModel {
                        settings: m.settings.spec_unset(ArgSettings::EmptyValues),
                        ..m
                    }).with_takes_value(true)
                },
            ),
            _ => Err(ConfigError::WrongType),
        }
    } else if key == ("group")@ {
        match v {
            CfgView::Str(s) => Ok(ArgModel { group: Some(s), ..m }),
            _ => Err(ConfigError::WrongType),
        }
    } else if key == ("number_of_values")@ {
        match v {
            CfgView::Num(n) => Ok((ArgModel { num_vals: Some(n), ..m }).with_takes_value(true)),
            _ => Err(ConfigError::WrongType),
        }
    } else if key == ("max_values")@ {
        match v {
            CfgView::Num(n) => Ok((ArgModel { max_vals: Some(n), ..m }).with_takes_value(true)),
            _ => Err(ConfigError::WrongType),
        }
    } else if key == ("min_values")@ {
        match v {
            CfgView::Num(n) => Ok((ArgModel { min_vals: Some(n), ..m }).with_takes_value(true)),
            _ => Err(ConfigError::WrongType),
        }
    } else if key == ("value_name")@ {
        match v {
            CfgView::Str(s) => Ok(value_name_model(m, s)),
            _ => Err(ConfigError::WrongType),
        }
    } else if key == ("use_delimiter")@ {
        match v {
            CfgView::Bool(b) => Ok(
                if b {
                    (ArgModel {
                        val_delim: Some(','),
                        settings: m.settings.spec_set(ArgSettings::UseValueDelimiter),
                        ..m
                    }).with_takes_value(true)
                } else {
                    ArgModel {
                        val_delim: None,
                        settings: m.settings.spec_unset(ArgSettings::UseValueDelimiter),
                        ..m
                    }
                },
            ),
            _ => Err(ConfigError::WrongType),
        }
    } else if key == ("value_delimiter")@ {
        match v {
            CfgView::Str(s) => if s.len() == 0 {
                Err(ConfigError::WrongType)
            } else {
                Ok(
                    (ArgModel {
                        val_delim: Some(s[0]),
                        settings: m.settings.spec_set(ArgSettings::UseValueDelimiter),
                        ..m
                    }).with_takes_value(true),
                )
            },
            _ => Err(ConfigError::WrongType),
        }
    } else if key == ("value_names")@ {
        match v {
            CfgView::List(l) => Ok(value_names_fold(m, l)),
            _ => Err(ConfigError::WrongType),
        }
    } else if key == ("requires")@ {
        match v {
            CfgView::List(l) => Ok(
                ArgModel { requires_list: appended_each(m.requires_list, l), ..m },
            ),
            _ => Err(ConfigError::WrongType),
        }
    } else if key == ("conflicts_with")@ {
        match v {
            CfgView::List(l) => Ok(ArgModel { blacklist: appended_each(m.blacklist, l), ..m }),
            _ => Err(ConfigError::WrongType),
        }
    } else if key == ("overrides_with")@ {
        match v {
            CfgView::List(l) => Ok(
                ArgModel { overrides_list: appended_each(m.overrides_list, l), ..m },
            ),
            _ => Err(ConfigError::WrongType),
        }
    } else if key == ("possible_values")@ {
        match v {
            CfgView::List(l) => Ok(possible_values_fold(m, l)),
            _ => Err(ConfigError::WrongType),
        }
    } else {
        Err(ConfigError::UnknownSetting)
    }
}

/// How many names the value may add to the value-name map.
pub open spec fn cfg_width(v: CfgView) -> int {
    match v {
        CfgView::List(l) => l.len() as int,
        _ => 1,
    }
}

/// Whether two string slices hold the same characters.
fn str_eq(a: &str, b: &str) -> (r: bool)
    ensures
        r == (a@ == b@),
{
    let n = a.unicode_len();
    let m = b.unicode_len();
    if n != m {
        proof {
            if a@ == b@ {
                assert(a@.len() == b@.len());
            }
        }
        return false;
    }
    let mut i: usize = 0;
    while i < n
        invariant
            n as int == a@.len(),
            n as int == b@.len(),
            0 <= i <= n,
            forall|j: int| 0 <= j < i ==> a@[j] == b@[j],
        decreases n - i,
    {
        if a.get_char(i) != b.get_char(i) {
            return false;
        }
        i = i + 1;
    }
    proof {
        assert(a@ =~= b@);
    }
    true
}

impl Arg {
    /// Applies one configuration entry: the setting under `key` takes the
    /// plain value `v`, exactly as the matching setter would. An unknown
    /// setting name, or a value of the wrong shape, is reported as the
    /// error.
    pub fn apply_setting(self, key: &str, v: &ConfigValue) -> (r: Result<Arg, ConfigError>)
        requires
            self@.val_names_dense(),
            or_empty(self@.val_names).len() + cfg_width(v@) <= usize::MAX,
        ensures
            r matches Ok(a2) ==> apply_setting_spec(self@, key@, v@) == Ok::<
                ArgModel,
                ConfigError,
            >(a2@),
            r matches Err(e) ==> apply_setting_spec(self@, key@, v@) == Err::<
                ArgModel,
                ConfigError,
            >(e),
    {
        let ghost m = self@;
        if str_eq(key, "short") {
            match v {
                ConfigValue::Str(s) => Ok(self.short(s.as_str())),
                _ => Err(ConfigError::WrongType),
            }
        } else if str_eq(key, "long") {
            match v {
                ConfigValue::Str(s) => Ok(self.long(s.as_str())),
                _ => Err(ConfigError::WrongType),
            }
        } else if str_eq(key, "help") {
            match v {
                ConfigValue::Str(s) => Ok(self.help(s.as_str())),
                _ => Err(ConfigError::WrongType),
            }
        } else if str_eq(key, "required") {
            match v {
                ConfigValue::Bool(b) => Ok(self.required(*b)),
                _ => Err(ConfigError::WrongType),
            }
        } else if str_eq(key, "takes_value") {
            match v {
                ConfigValue::Bool(b) => Ok(self.takes_value(*b)),
                _ => Err(ConfigError::WrongType),
            }
        } else if str_eq(key, "index") {
            match v {
                ConfigValue::Num(n) => Ok(self.index(*n)),
                _ => Err(ConfigError::WrongType),
            }
        } else if str_eq(key, "global") {
            match v {
                ConfigValue::Bool(b) => Ok(self.global(*b)),
                _ => Err(ConfigError::WrongType),
            }
        } else if str_eq(key, "multiple") {
            match v {
                ConfigValue::Bool(b) => Ok(self.multiple(*b)),
                _ => Err(ConfigError::WrongType),
            }
        } else if str_eq(key, "empty_values") {
            match v {
                ConfigValue::Bool(b) => Ok(self.empty_values(*b)),
                _ => Err(ConfigError::WrongType),
            }
        } else if str_eq(key, "group") {
            match v {
                ConfigValue::Str(s) => Ok(self.group(s.as_str())),
                _ => Err(ConfigError::WrongType),
            }
        } else if str_eq(key, "number_of_values") {
            match v {
                ConfigValue::Num(n) => Ok(self.number_of_values(*n)),
                _ => Err(ConfigError::WrongType),
            }
        } else if str_eq(key, "max_values") {
            match v {
                ConfigValue::Num(n) => Ok(self.max_values(*n)),
                _ => Err(ConfigError::WrongType),
            }
        } else if str_eq(key, "min_values") {
            match v {
                ConfigValue::Num(n) => Ok(self.min_values(*n)),
                _ => Err(ConfigError::WrongType),
            }
        } else if str_eq(key, "value_name") {
            match v {
                ConfigValue::Str(s) => Ok(self.value_name(s.as_str())),
                _ => Err(ConfigError::WrongType),
            }
        } else if str_eq(key, "use_delimiter") {
            match v {
                ConfigValue::Bool(b) => Ok(self.use_delimiter(*b)),
                _ => Err(ConfigError::WrongType),
            }
        } else if str_eq(key, "value_delimiter") {
            match v {
                ConfigValue::Str(s) => {
                    if s.as_str().unicode_len() == 0 {
                        Err(ConfigError::WrongType)
                    } else {
                        Ok(self.value_delimiter(s.as_str()))
                    }
                },
                _ => Err(ConfigError::WrongType),
            }
        } else if str_eq(key, "value_names") {
            match v {
                ConfigValue::List(l) => Ok(self.apply_value_names(l)),
                _ => Err(ConfigError::WrongType),
            }
        } else if str_eq(key, "requires") {
            match v {
                ConfigValue::List(l) => Ok(self.apply_requires(l)),
                _ => Err(ConfigError::WrongType),
            }
        } else if str_eq(key, "conflicts_with") {
            match v {
                ConfigValue::List(l) => Ok(self.apply_conflicts(l)),
                _ => Err(ConfigError::WrongType),
            }
        } else if str_eq(key, "overrides_with") {
            match v {
                ConfigValue::List(l) => Ok(self.apply_overrides(l)),
                _ => Err(ConfigError::WrongType),
            }
        } else if str_eq(key, "possible_values") {
            match v {
                ConfigValue::List(l) => Ok(self.apply_possible_values(l)),
                _ => Err(ConfigError::WrongType),
            }
        } else {
            Err(ConfigError::UnknownSetting)
        }
    }

    /// Applies `value_name` to each of the names in order.
    fn apply_value_names(self, l: &Vec<String>) -> (a: Self)
        requires
            self@.val_names_dense(),
            or_empty(self@.val_names).len() + l@.len() <= usize::MAX,
        ensures
            a@ == value_names_fold(self@, l.deep_view()),
    {
        let ghost m0 = self@;
        let ghost names = l.deep_view();
        let mut a = self;
        let n = l.len();
        let mut i: usize = 0;
        while i < n
            invariant
                n == l@.len(),
                names == l.deep_view(),
                m0.val_names_dense(),
                or_empty(m0.val_names).len() + n <= usize::MAX,
                0 <= i <= n,
                a@ == value_names_fold(m0, names.take(i as int)),
                a@.val_names_dense(),
                or_empty(a@.val_names).len() == or_empty(m0.val_names).len() + i,
            decreases n - i,
        {
            let ghost pre = a@;
            a = a.value_name(l[i].as_str());
            i = i + 1;
            proof {
                assert(names.take(i as int).drop_last() =~= names.take(i as int - 1));
                assert(a@ == value_name_model(pre, names[i as int - 1]));
                assert(a@.val_names_dense());
            }
        }
        proof {
            assert(names.take(n as int) =~= names);
        }
        a
    }

    /// Applies `possible_value` to each of the names in order.
    fn apply_possible_values(self, l: &Vec<String>) -> (a: Self)
        ensures
            a@ == possible_values_fold(self@, l.deep_view()),
    {
        let ghost m0 = self@;
        let ghost names = l.deep_view();
        let mut a = self;
        let n = l.len();
        let mut i: usize = 0;
        while i < n
            invariant
                n == l@.len(),
                names == l.deep_view(),
                0 <= i <= n,
                a@ == possible_values_fold(m0, names.take(i as int)),
            decreases n - i,
        {
            let ghost pre = a@;
            a = a.possible_value(l[i].as_str());
            i = i + 1;
            proof {
                assert(names.take(i as int).drop_last() =~= names.take(i as int - 1));
                assert(a@ == possible_value_model(pre, names[i as int - 1]));
            }
        }
        proof {
            assert(names.take(n as int) =~= names);
        }
        a
    }

    /// Appends each of the names to the requires relation, in order.
    fn apply_requires(self, l: &Vec<String>) -> (a: Self)
        ensures
            a@ == (ArgModel {
                requires_list: appended_each(self@.requires_list, l.deep_view()),
                ..self@
            }),
    {
        let ghost m0 = self@;
        let ghost names = l.deep_view();
        let mut a = self;
        let n = l.len();
        let mut i: usize = 0;
        while i < n
            invariant
                n == l@.len(),
                names == l.deep_view(),
                0 <= i <= n,
                if i == 0 {
                    a@ == m0
                } else {
                    a@ == (ArgModel {
                        requires_list: appended(m0.requires_list, names.take(i as int)),
                        ..m0
                    })
                },
            decreases n - i,
        {
            let ghost pre = a@;
            a = a.requires_arg(l[i].as_str());
            i = i + 1;
            proof {
                lemma_appended_snoc(m0.requires_list, names, i as int);
            }
        }
        proof {
            assert(names.take(n as int) =~= names);
        }
        a
    }

    /// Appends each of the names to the conflicts relation, in order.
    fn apply_conflicts(self, l: &Vec<String>) -> (a: Self)
        ensures
            a@ == (ArgModel { blacklist: appended_each(self@.blacklist, l.deep_view()), ..self@ }),
    {
        let ghost m0 = self@;
        let ghost names = l.deep_view();
        let mut a = self;
        let n = l.len();
        let mut i: usize = 0;
        while i < n
            invariant
                n == l@.len(),
                names == l.deep_view(),
                0 <= i <= n,
                if i == 0 {
                    a@ == m0
                } else {
                    a@ == (ArgModel {
                        blacklist: appended(m0.blacklist, names.take(i as int)),
                        ..m0
                    })
                },
            decreases n - i,
        {
            a = a.conflicts_with(l[i].as_str());
            i = i + 1;
            proof {
                lemma_appended_snoc(m0.blacklist, names, i as int);
            }
        }
        proof {
            assert(names.take(n as int) =~= names);
        }
        a
    }

    /// Appends each of the names to the overrides relation, in order.
    fn apply_overrides(self, l: &Vec<String>) -> (a: Self)
        ensures
            a@ == (ArgModel {
                overrides_list: appended_each(self@.overrides_list, l.deep_view()),
                ..self@
            }),
    {
        let ghost m0 = self@;
        let ghost names = l.deep_view();
        let mut a = self;
        let n = l.len();
        let mut i: usize = 0;
        while i < n
            invariant
                n == l@.len(),
                names == l.deep_view(),
                0 <= i <= n,
                if i == 0 {
                    a@ == m0
                } else {
                    a@ == (ArgModel {
                        overrides_list: appended(m0.overrides_list, names.take(i as int)),
                        ..m0
                    })
                },
            decreases n - i,
        {
            a = a.overrides_with(l[i].as_str());
            i = i + 1;
            proof {
                lemma_appended_snoc(m0.overrides_list, names, i as int);
            }
        }
        proof {
            assert(names.take(n as int) =~= names);
        }
        a
    }
}

/// Appending the names one by one matches appending the prefix at once.
proof fn lemma_appended_snoc(o: Option<Seq<Seq<char>>>, names: Seq<Seq<char>>, i: int)
    requires
        1 <= i <= names.len(),
    ensures
        appended(
            if i == 1 {
                o
            } else {
                appended(o, names.take(i - 1))
            },
            seq![names[i - 1]],
        ) == appended(o, names.take(i)),
{
    match o {
        Some(s) => {
            if i == 1 {
                assert(s + names.take(1) =~= s + seq![names[0]]);
            } else {
                assert((s + names.take(i - 1)) + seq![names[i - 1]] =~= s + names.take(i));
            }
        },
        None => {
            if i == 1 {
                assert(names.take(1) =~= seq![names[0]]);
            } else {
                assert(names.take(i - 1) + seq![names[i - 1]] =~= names.take(i));
            }
        },
    }
}

} // verus!
