//! Reading simulation settings from a configuration dictionary handed over
//! by a Python caller.
//!
//! Every required key is looked up in order; the first that is missing, or
//! whose value does not convert to the type the setting needs, is the error.
use crate::parameter::{Settings, SettingsView};
use crate::text::str_eq;
use vstd::prelude::*;

verus! {

/// One value of the dictionary, read as each type a setting can have; a
/// failed conversion carries the converter's error `E`.
pub struct ConfigValue<E> {
    pub as_text: Result<String, E>,
    pub as_i32: Result<i32, E>,
    /// A binary64 number, as its bit pattern.
    pub as_f64_bits: Result<u64, E>,
    pub as_bool: Result<bool, E>,
}

/// Why settings could not be read.
pub enum ConfigError<E> {
    /// The key is not in the dictionary.
    Missing { key: String },
    /// The value of a key does not convert; the converter's error.
    Invalid { error: E },
}

/// The mathematical value of [`ConfigError`].
pub enum ConfigErrorView<E> {
    Missing { key: Seq<char> },
    Invalid { error: E },
}

impl<E> View for ConfigError<E> {
    type V = ConfigErrorView<E>;

    open spec fn view(&self) -> ConfigErrorView<E> {
        match self {
            ConfigError::Missing { key } => ConfigErrorView::Missing { key: key@ },
            ConfigError::Invalid { error } => ConfigErrorView::Invalid { error: *error },
        }
    }
}

/// The type a setting is read as.
pub enum FieldKind {
    Text,
    Int,
    Float,
    Flag,
}

/// The value of the first entry with `key`.
pub open spec fn find_value<E>(entries: Seq<(String, ConfigValue<E>)>, key: Seq<char>) -> Option<ConfigValue<E>>
    decreases entries.len(),
{
    if entries.len() == 0 {
        None
    } else if entries[0].0@ == key {
        Some(entries[0].1)
    } else {
        find_value(entries.drop_first(), key)
    }
}

/// The error of reading `key` as `kind`, if reading it fails.
pub open spec fn field_error<E>(
    entries: Seq<(String, ConfigValue<E>)>,
    key: Seq<char>,
    kind: FieldKind,
) -> Option<ConfigErrorView<E>> {
    match find_value(entries, key) {
        None => Some(ConfigErrorView::Missing { key }),
        Some(v) => match kind {
            FieldKind::Text => match v.as_text {
                Ok(_) => None,
                Err(x) => Some(ConfigErrorView::Invalid { error: x }),
            },
            FieldKind::Int => match v.as_i32 {
                Ok(_) => None,
                Err(x) => Some(ConfigErrorView::Invalid { error: x }),
            },
            FieldKind::Float => match v.as_f64_bits {
                Ok(_) => None,
                Err(x) => Some(ConfigErrorView::Invalid { error: x }),
            },
            FieldKind::Flag => match v.as_bool {
                Ok(_) => None,
                Err(x) => Some(ConfigErrorView::Invalid { error: x }),
            },
        },
    }
}

/// The text under `key` (empty when there is none).
pub open spec fn text_value<E>(entries: Seq<(String, ConfigValue<E>)>, key: Seq<char>) -> Seq<char> {
    match find_value(entries, key) {
        Some(v) => match v.as_text {
            Ok(s) => s@,
            Err(_) => Seq::empty(),
        },
        None => Seq::empty(),
    }
}

/// The integer under `key` (0 when there is none).
pub open spec fn int_value<E>(entries: Seq<(String, ConfigValue<E>)>, key: Seq<char>) -> i32 {
    match find_value(entries, key) {
        Some(v) => match v.as_i32 {
            Ok(n) => n,
            Err(_) => 0,
        },
        None => 0,
    }
}

/// The number under `key`, as bits (0 when there is none).
pub open spec fn bits_value<E>(entries: Seq<(String, ConfigValue<E>)>, key: Seq<char>) -> u64 {
    match find_value(entries, key) {
        Some(v) => match v.as_f64_bits {
            Ok(n) => n,
            Err(_) => 0,
        },
        None => 0,
    }
}

/// The flag under `key` (false when there is none).
pub open spec fn flag_value<E>(entries: Seq<(String, ConfigValue<E>)>, key: Seq<char>) -> bool {
    match find_value(entries, key) {
        Some(v) => match v.as_bool {
            Ok(b) => b,
            Err(_) => false,
        },
        None => false,
    }
}

/// The first error among the required keys, in the order they are read:
/// instrumentType, region, universe, delay, decay, neutralization,
/// truncation, pasteurization, testPeriod, unitHandling, nanHandling,
/// maxTrade, language, visualization.
pub open spec fn first_config_error<E>(e: Seq<(String, ConfigValue<E>)>) -> Option<ConfigErrorView<E>> {
    if field_error(e, "instrumentType"@, FieldKind::Text) is Some {
        field_error(e, "instrumentType"@, FieldKind::Text)
    } else if field_error(e, "region"@, FieldKind::Text) is Some {
        field_error(e, "region"@, FieldKind::Text)
    } else if field_error(e, "universe"@, FieldKind::Text) is Some {
        field_error(e, "universe"@, FieldKind::Text)
    } else if field_error(e, "delay"@, FieldKind::Int) is Some {
        field_error(e, "delay"@, FieldKind::Int)
    } else if field_error(e, "decay"@, FieldKind::Int) is Some {
        field_error(e, "decay"@, FieldKind::Int)
    } else if field_error(e, "neutralization"@, FieldKind::Text) is Some {
        field_error(e, "neutralization"@, FieldKind::Text)
    } else if field_error(e, "truncation"@, FieldKind::Float) is Some {
        field_error(e, "truncation"@, FieldKind::Float)
    } else if field_error(e, "pasteurization"@, FieldKind::Text) is Some {
        field_error(e, "pasteurization"@, FieldKind::Text)
    } else if field_error(e, "testPeriod"@, FieldKind::Text) is Some {
        field_error(e, "testPeriod"@, FieldKind::Text)
    } else if field_error(e, "unitHandling"@, FieldKind::Text) is Some {
        field_error(e, "unitHandling"@, FieldKind::Text)
    } else if field_error(e, "nanHandling"@, FieldKind::Text) is Some {
        field_error(e, "nanHandling"@, FieldKind::Text)
    } else if field_error(e, "maxTrade"@, FieldKind::Text) is Some {
        field_error(e, "maxTrade"@, FieldKind::Text)
    } else if field_error(e, "language"@, FieldKind::Text) is Some {
        field_error(e, "language"@, FieldKind::Text)
    } else {
        field_error(e, "visualization"@, FieldKind::Flag)
    }
}

/// The settings read from a dictionary without errors; no selection settings.
pub open spec fn config_settings<E>(e: Seq<(String, ConfigValue<E>)>) -> SettingsView {
    SettingsView {
        instrument_type: text_value(e, "instrumentType"@),
        region: text_value(e, "region"@),
        universe: text_value(e, "universe"@),
        delay: int_value(e, "delay"@),
        decay: int_value(e, "decay"@),
        neutralization: text_value(e, "neutralization"@),
        truncation_bits: bits_value(e, "truncation"@),
        pasteurization: text_value(e, "pasteurization"@),
        language: text_value(e, "language"@),
        nan_handling: text_value(e, "nanHandling"@),
        unit_handling: text_value(e, "unitHandling"@),
        max_trade: text_value(e, "maxTrade"@),
        visualization: flag_value(e, "visualization"@),
        test_period: text_value(e, "testPeriod"@),
        selection_handling: None,
        selection_limit: None,
    }
}

/// The names of the required keys, in the order they are read.
pub open spec fn is_required_key(k: Seq<char>) -> bool {
    ||| k == "instrumentType"@
    ||| k == "region"@
    ||| k == "universe"@
    ||| k == "delay"@
    ||| k == "decay"@
    ||| k == "neutralization"@
    ||| k == "truncation"@
    ||| k == "pasteurization"@
    ||| k == "testPeriod"@
    ||| k == "unitHandling"@
    ||| k == "nanHandling"@
    ||| k == "maxTrade"@
    ||| k == "language"@
    ||| k == "visualization"@
}

/// No key occurs twice, as in a dictionary.
pub open spec fn keys_unique<E>(e: Seq<(String, ConfigValue<E>)>) -> bool {
    forall|i: int, j: int| 0 <= i < j < e.len() ==> #[trigger] e[i].0@ != #[trigger] e[j].0@
}

/// The dictionary holds `v` under `key`.
pub open spec fn has_entry<E>(e: Seq<(String, ConfigValue<E>)>, key: Seq<char>, v: ConfigValue<E>) -> bool {
    exists|i: int| #![trigger e[i]] 0 <= i < e.len() && e[i].0@ == key && e[i].1 == v
}

/// In a dictionary whose keys are unique, the value found under a key is
/// the value the dictionary holds under it, wherever it stands.
pub proof fn lemma_find_value_unique<E>(e: Seq<(String, ConfigValue<E>)>, key: Seq<char>, v: ConfigValue<E>)
    requires
        keys_unique(e),
    ensures
        find_value(e, key) == Some(v) <==> has_entry(e, key, v),
    decreases e.len(),
{
    if e.len() > 0 {
        let rest = e.drop_first();
        assert(keys_unique(rest)) by {
            assert forall|i: int, j: int| 0 <= i < j < rest.len() implies #[trigger] rest[i].0@
                != #[trigger] rest[j].0@ by {
                assert(rest[i] == e[i + 1] && rest[j] == e[j + 1]);
            }
        }
        lemma_find_value_unique(rest, key, v);
        if e[0].0@ == key {
            if has_entry(e, key, v) {
                let i = choose|i: int| #![trigger e[i]] 0 <= i < e.len() && e[i].0@ == key && e[i].1 == v;
                if i != 0 {
                    assert(e[0].0@ != e[i].0@);
                }
            }
        } else {
            if has_entry(e, key, v) {
                let i = choose|i: int| #![trigger e[i]] 0 <= i < e.len() && e[i].0@ == key && e[i].1 == v;
                assert(i > 0);
                assert(rest[i - 1] == e[i]);
            }
            if has_entry(rest, key, v) {
                let i = choose|i: int| #![trigger rest[i]] 0 <= i < rest.len() && rest[i].0@ == key && rest[i].1 == v;
                assert(e[i + 1] == rest[i]);
            }
        }
    }
}

proof fn lemma_same_value_at<E>(e1: Seq<(String, ConfigValue<E>)>, e2: Seq<(String, ConfigValue<E>)>, key: Seq<char>)
    requires
        keys_unique(e1),
        keys_unique(e2),
        forall|v: ConfigValue<E>| has_entry(e1, key, v) <==> has_entry(e2, key, v),
    ensures
        find_value(e1, key) == find_value(e2, key),
{
    match find_value(e1, key) {
        Some(v) => {
            lemma_find_value_unique(e1, key, v);
            lemma_find_value_unique(e2, key, v);
        },
        None => {
            match find_value(e2, key) {
                Some(w) => {
                    lemma_find_value_unique(e1, key, w);
                    lemma_find_value_unique(e2, key, w);
                },
                None => {},
            }
        },
    }
}

/// Settings depend only on what a dictionary holds under the required keys:
/// two dictionaries whose keys are unique and that hold the same values
/// under every required key (whatever else they hold, and in whatever
/// order their entries come) fail with the same error, or give the same
/// settings.
pub proof fn lemma_settings_ignore_other_entries<E>(
    e1: Seq<(String, ConfigValue<E>)>,
    e2: Seq<(String, ConfigValue<E>)>,
)
    requires
        keys_unique(e1),
        keys_unique(e2),
        forall|k: Seq<char>, v: ConfigValue<E>|
            is_required_key(k) ==> (has_entry(e1, k, v) <==> has_entry(e2, k, v)),
    ensures
        first_config_error(e1) == first_config_error(e2),
        config_settings(e1) == config_settings(e2),
{
    lemma_same_value_at(e1, e2, "instrumentType"@);
    lemma_same_value_at(e1, e2, "region"@);
    lemma_same_value_at(e1, e2, "universe"@);
    lemma_same_value_at(e1, e2, "delay"@);
    lemma_same_value_at(e1, e2, "decay"@);
    lemma_same_value_at(e1, e2, "neutralization"@);
    lemma_same_value_at(e1, e2, "truncation"@);
    lemma_same_value_at(e1, e2, "pasteurization"@);
    lemma_same_value_at(e1, e2, "testPeriod"@);
    lemma_same_value_at(e1, e2, "unitHandling"@);
    lemma_same_value_at(e1, e2, "nanHandling"@);
    lemma_same_value_at(e1, e2, "maxTrade"@);
    lemma_same_value_at(e1, e2, "language"@);
    lemma_same_value_at(e1, e2, "visualization"@);
}

/// Each setting read without errors is the value the dictionary holds under
/// that setting's own key, converted to the setting's type: in a
/// dictionary with unique keys from which settings are read, the entry
/// with key `region` holds text, and that text is the region read, and
/// likewise for every required key.
pub proof fn lemma_settings_read_their_own_keys<E>(e: Seq<(String, ConfigValue<E>)>)
    requires
        keys_unique(e),
        first_config_error(e) is None,
    ensures
        forall|i: int|
            #![trigger e[i]]
            0 <= i < e.len() ==> {
            &&& (e[i].0@ == "instrumentType"@ ==> (e[i].1.as_text matches Ok(s) && config_settings(e).instrument_type == s@))
            &&& (e[i].0@ == "region"@ ==> (e[i].1.as_text matches Ok(s) && config_settings(e).region == s@))
            &&& (e[i].0@ == "universe"@ ==> (e[i].1.as_text matches Ok(s) && config_settings(e).universe == s@))
            &&& (e[i].0@ == "delay"@ ==> (e[i].1.as_i32 matches Ok(n) && config_settings(e).delay == n))
            &&& (e[i].0@ == "decay"@ ==> (e[i].1.as_i32 matches Ok(n) && config_settings(e).decay == n))
            &&& (e[i].0@ == "neutralization"@ ==> (e[i].1.as_text matches Ok(s) && config_settings(e).neutralization == s@))
            &&& (e[i].0@ == "truncation"@ ==> (e[i].1.as_f64_bits matches Ok(n) && config_settings(e).truncation_bits == n))
            &&& (e[i].0@ == "pasteurization"@ ==> (e[i].1.as_text matches Ok(s) && config_settings(e).pasteurization == s@))
            &&& (e[i].0@ == "testPeriod"@ ==> (e[i].1.as_text matches Ok(s) && config_settings(e).test_period == s@))
            &&& (e[i].0@ == "unitHandling"@ ==> (e[i].1.as_text matches Ok(s) && config_settings(e).unit_handling == s@))
            &&& (e[i].0@ == "nanHandling"@ ==> (e[i].1.as_text matches Ok(s) && config_settings(e).nan_handling == s@))
            &&& (e[i].0@ == "maxTrade"@ ==> (e[i].1.as_text matches Ok(s) && config_settings(e).max_trade == s@))
            &&& (e[i].0@ == "language"@ ==> (e[i].1.as_text matches Ok(s) && config_settings(e).language == s@))
            &&& (e[i].0@ == "visualization"@ ==> (e[i].1.as_bool matches Ok(b) && config_settings(e).visualization == b))
        },
{
    assert forall|i: int| #![trigger e[i]] 0 <= i < e.len() implies {
            &&& (e[i].0@ == "instrumentType"@ ==> (e[i].1.as_text matches Ok(s) && config_settings(e).instrument_type == s@))
            &&& (e[i].0@ == "region"@ ==> (e[i].1.as_text matches Ok(s) && config_settings(e).region == s@))
            &&& (e[i].0@ == "universe"@ ==> (e[i].1.as_text matches Ok(s) && config_settings(e).universe == s@))
            &&& (e[i].0@ == "delay"@ ==> (e[i].1.as_i32 matches Ok(n) && config_settings(e).delay == n))
            &&& (e[i].0@ == "decay"@ ==> (e[i].1.as_i32 matches Ok(n) && config_settings(e).decay == n))
            &&& (e[i].0@ == "neutralization"@ ==> (e[i].1.as_text matches Ok(s) && config_settings(e).neutralization == s@))
            &&& (e[i].0@ == "truncation"@ ==> (e[i].1.as_f64_bits matches Ok(n) && config_settings(e).truncation_bits == n))
            &&& (e[i].0@ == "pasteurization"@ ==> (e[i].1.as_text matches Ok(s) && config_settings(e).pasteurization == s@))
            &&& (e[i].0@ == "testPeriod"@ ==> (e[i].1.as_text matches Ok(s) && config_settings(e).test_period == s@))
            &&& (e[i].0@ == "unitHandling"@ ==> (e[i].1.as_text matches Ok(s) && config_settings(e).unit_handling == s@))
            &&& (e[i].0@ == "nanHandling"@ ==> (e[i].1.as_text matches Ok(s) && config_settings(e).nan_handling == s@))
            &&& (e[i].0@ == "maxTrade"@ ==> (e[i].1.as_text matches Ok(s) && config_settings(e).max_trade == s@))
            &&& (e[i].0@ == "language"@ ==> (e[i].1.as_text matches Ok(s) && config_settings(e).language == s@))
            &&& (e[i].0@ == "visualization"@ ==> (e[i].1.as_bool matches Ok(b) && config_settings(e).visualization == b))
    } by {
        lemma_find_value_unique(e, e[i].0@, e[i].1);
    }
}

/// Settings are read exactly when every required key is in the
/// dictionary with a value that converts to its setting's type; a key
/// reported missing is a required key that no entry has.
pub proof fn lemma_settings_read_when_all_keys_convert<E>(e: Seq<(String, ConfigValue<E>)>)
    requires
        keys_unique(e),
    ensures
        first_config_error(e) is None <==> {
            &&& exists|i: int| #![trigger e[i]] 0 <= i < e.len() && e[i].0@ == "instrumentType"@ && e[i].1.as_text is Ok
            &&& exists|i: int| #![trigger e[i]] 0 <= i < e.len() && e[i].0@ == "region"@ && e[i].1.as_text is Ok
            &&& exists|i: int| #![trigger e[i]] 0 <= i < e.len() && e[i].0@ == "universe"@ && e[i].1.as_text is Ok
            &&& exists|i: int| #![trigger e[i]] 0 <= i < e.len() && e[i].0@ == "delay"@ && e[i].1.as_i32 is Ok
            &&& exists|i: int| #![trigger e[i]] 0 <= i < e.len() && e[i].0@ == "decay"@ && e[i].1.as_i32 is Ok
            &&& exists|i: int| #![trigger e[i]] 0 <= i < e.len() && e[i].0@ == "neutralization"@ && e[i].1.as_text is Ok
            &&& exists|i: int| #![trigger e[i]] 0 <= i < e.len() && e[i].0@ == "truncation"@ && e[i].1.as_f64_bits is Ok
            &&& exists|i: int| #![trigger e[i]] 0 <= i < e.len() && e[i].0@ == "pasteurization"@ && e[i].1.as_text is Ok
            &&& exists|i: int| #![trigger e[i]] 0 <= i < e.len() && e[i].0@ == "testPeriod"@ && e[i].1.as_text is Ok
            &&& exists|i: int| #![trigger e[i]] 0 <= i < e.len() && e[i].0@ == "unitHandling"@ && e[i].1.as_text is Ok
            &&& exists|i: int| #![trigger e[i]] 0 <= i < e.len() && e[i].0@ == "nanHandling"@ && e[i].1.as_text is Ok
            &&& exists|i: int| #![trigger e[i]] 0 <= i < e.len() && e[i].0@ == "maxTrade"@ && e[i].1.as_text is Ok
            &&& exists|i: int| #![trigger e[i]] 0 <= i < e.len() && e[i].0@ == "language"@ && e[i].1.as_text is Ok
            &&& exists|i: int| #![trigger e[i]] 0 <= i < e.len() && e[i].0@ == "visualization"@ && e[i].1.as_bool is Ok
        },
        first_config_error(e) matches Some(ConfigErrorView::Missing { key }) ==> is_required_key(key)
            && forall|i: int| #![trigger e[i]] 0 <= i < e.len() ==> e[i].0@ != key,
{
    lemma_key_converts(e, "instrumentType"@);
    lemma_key_converts(e, "region"@);
    lemma_key_converts(e, "universe"@);
    lemma_key_converts(e, "delay"@);
    lemma_key_converts(e, "decay"@);
    lemma_key_converts(e, "neutralization"@);
    lemma_key_converts(e, "truncation"@);
    lemma_key_converts(e, "pasteurization"@);
    lemma_key_converts(e, "testPeriod"@);
    lemma_key_converts(e, "unitHandling"@);
    lemma_key_converts(e, "nanHandling"@);
    lemma_key_converts(e, "maxTrade"@);
    lemma_key_converts(e, "language"@);
    lemma_key_converts(e, "visualization"@);
}

proof fn lemma_key_converts<E>(e: Seq<(String, ConfigValue<E>)>, key: Seq<char>)
    requires
        keys_unique(e),
    ensures
        find_value(e, key) is None <==> forall|i: int| #![trigger e[i]] 0 <= i < e.len() ==> e[i].0@ != key,
        forall|i: int| #![trigger e[i]] 0 <= i < e.len() && e[i].0@ == key ==> find_value(e, key) == Some(e[i].1),
{
    assert forall|i: int| #![trigger e[i]] 0 <= i < e.len() && e[i].0@ == key implies find_value(e, key) == Some(e[i].1) by {
        lemma_find_value_unique(e, key, e[i].1);
    }
    if find_value(e, key) is Some {
        lemma_find_value_unique(e, key, find_value(e, key)->0);
    }
}

/// The position of the first entry with `key`.
fn position<E>(entries: &Vec<(String, ConfigValue<E>)>, key: &str) -> (r: Option<usize>)
    ensures
        match r {
            Some(i) => i < entries.len() && find_value(entries@, key@) == Some(
                entries@[i as int].1,
            ),
            None => find_value(entries@, key@) is None,
        },
{
    let mut i: usize = 0;
    assert(entries@.skip(0) =~= entries@);
    while i < entries.len()
        invariant
            i <= entries.len(),
            find_value(entries@, key@) == find_value(entries@.skip(i as int), key@),
        decreases entries.len() - i,
    {
        assert(entries@.skip(i as int)[0] == entries@[i as int]);
        assert(entries@.skip(i as int).drop_first() =~= entries@.skip(i + 1));
        if str_eq(entries[i].0.as_str(), key) {
            return Some(i);
        }
        i = i + 1;
    }
    None
}

/// Why reading `key` as `kind` failed: missing (`None`), or the value at
/// position `i` does not convert (`Some(i)`).
spec fn failure_of<E>(
    entries: Seq<(String, ConfigValue<E>)>,
    key: Seq<char>,
    kind: FieldKind,
    failure: Option<usize>,
) -> bool {
    match failure {
        None => find_value(entries, key) is None,
        Some(i) => i < entries.len() && find_value(entries, key) == Some(entries[i as int].1)
            && field_error(entries, key, kind) is Some,
    }
}

fn text_field<E>(entries: &Vec<(String, ConfigValue<E>)>, key: &str) -> (r: Result<String, Option<usize>>)
    ensures
        match r {
            Ok(s) => field_error(entries@, key@, FieldKind::Text) is None && s@ == text_value(
                entries@,
                key@,
            ),
            Err(f) => failure_of(entries@, key@, FieldKind::Text, f),
        },
{
    match position(entries, key) {
        None => Err(None),
        Some(i) => match &entries[i].1.as_text {
            Ok(s) => Ok(s.clone()),
            Err(_) => Err(Some(i)),
        },
    }
}

fn int_field<E>(entries: &Vec<(String, ConfigValue<E>)>, key: &str) -> (r: Result<i32, Option<usize>>)
    ensures
        match r {
            Ok(n) => field_error(entries@, key@, FieldKind::Int) is None && n == int_value(entries@, key@),
            Err(f) => failure_of(entries@, key@, FieldKind::Int, f),
        },
{
    match position(entries, key) {
        None => Err(None),
        Some(i) => match &entries[i].1.as_i32 {
            Ok(n) => Ok(*n),
            Err(_) => Err(Some(i)),
        },
    }
}

fn bits_field<E>(entries: &Vec<(String, ConfigValue<E>)>, key: &str) -> (r: Result<u64, Option<usize>>)
    ensures
        match r {
            Ok(n) => field_error(entries@, key@, FieldKind::Float) is None && n == bits_value(entries@, key@),
            Err(f) => failure_of(entries@, key@, FieldKind::Float, f),
        },
{
    match position(entries, key) {
        None => Err(None),
        Some(i) => match &entries[i].1.as_f64_bits {
            Ok(n) => Ok(*n),
            Err(_) => Err(Some(i)),
        },
    }
}

fn flag_field<E>(entries: &Vec<(String, ConfigValue<E>)>, key: &str) -> (r: Result<bool, Option<usize>>)
    ensures
        match r {
            Ok(b) => field_error(entries@, key@, FieldKind::Flag) is None && b == flag_value(entries@, key@),
            Err(f) => failure_of(entries@, key@, FieldKind::Flag, f),
        },
{
    match position(entries, key) {
        None => Err(None),
        Some(i) => match &entries[i].1.as_bool {
            Ok(b) => Ok(*b),
            Err(_) => Err(Some(i)),
        },
    }
}

/// The error of a failed read, moved out of the dictionary.
fn field_failure<E>(
    entries: Vec<(String, ConfigValue<E>)>,
    key: &str,
    kind: FieldKind,
    failure: Option<usize>,
) -> (r: ConfigError<E>)
    requires
        failure_of(entries@, key@, kind, failure),
    ensures
        field_error(entries@, key@, kind) == Some(r@),
{
    match failure {
        None => ConfigError::Missing { key: key.to_owned() },
        Some(i) => {
            let mut entries = entries;
            let (_, value) = entries.remove(i);
            let unconverted = match kind {
                FieldKind::Text => value.as_text.err(),
                FieldKind::Int => value.as_i32.err(),
                FieldKind::Float => value.as_f64_bits.err(),
                FieldKind::Flag => value.as_bool.err(),
            };
            ConfigError::Invalid { error: unconverted.unwrap() }
        },
    }
}

/// Reads the simulation settings from a configuration dictionary: the
/// first missing or unconvertible required key is the error (a
/// conversion's own error, moved out of the dictionary); otherwise the
/// settings hold the values read, and no selection settings.
pub fn settings_from_config<E>(entries: Vec<(String, ConfigValue<E>)>) -> (r: Result<
    Settings,
    ConfigError<E>,
>)
    ensures
        match first_config_error(entries@) {
            Some(e) => r matches Err(x) && x@ == e,
            None => r matches Ok(s) && s@ == config_settings(entries@),
        },
{
    let instrument_type = match text_field(&entries, "instrumentType") {
        Ok(v) => v,
        Err(f) => return Err(field_failure(entries, "instrumentType", FieldKind::Text, f)),
    };
    let region = match text_field(&entries, "region") {
        Ok(v) => v,
        Err(f) => return Err(field_failure(entries, "region", FieldKind::Text, f)),
    };
    let universe = match text_field(&entries, "universe") {
        Ok(v) => v,
        Err(f) => return Err(field_failure(entries, "universe", FieldKind::Text, f)),
    };
    let delay: i32 = match int_field(&entries, "delay") {
        Ok(v) => v,
        Err(f) => return Err(field_failure(entries, "delay", FieldKind::Int, f)),
    };
    let decay: i32 = match int_field(&entries, "decay") {
        Ok(v) => v,
        Err(f) => return Err(field_failure(entries, "decay", FieldKind::Int, f)),
    };
    let neutralization = match text_field(&entries, "neutralization") {
        Ok(v) => v,
        Err(f) => return Err(field_failure(entries, "neutralization", FieldKind::Text, f)),
    };
    let truncation_bits: u64 = match bits_field(&entries, "truncation") {
        Ok(v) => v,
        Err(f) => return Err(field_failure(entries, "truncation", FieldKind::Float, f)),
    };
    let pasteurization = match text_field(&entries, "pasteurization") {
        Ok(v) => v,
        Err(f) => return Err(field_failure(entries, "pasteurization", FieldKind::Text, f)),
    };
    let test_period = match text_field(&entries, "testPeriod") {
        Ok(v) => v,
        Err(f) => return Err(field_failure(entries, "testPeriod", FieldKind::Text, f)),
    };
    let unit_handling = match text_field(&entries, "unitHandling") {
        Ok(v) => v,
        Err(f) => return Err(field_failure(entries, "unitHandling", FieldKind::Text, f)),
    };
    let nan_handling = match text_field(&entries, "nanHandling") {
        Ok(v) => v,
        Err(f) => return Err(field_failure(entries, "nanHandling", FieldKind::Text, f)),
    };
    let max_trade = match text_field(&entries, "maxTrade") {
        Ok(v) => v,
        Err(f) => return Err(field_failure(entries, "maxTrade", FieldKind::Text, f)),
    };
    let language = match text_field(&entries, "language") {
        Ok(v) => v,
        Err(f) => return Err(field_failure(entries, "language", FieldKind::Text, f)),
    };
    let visualization: bool = match flag_field(&entries, "visualization") {
        Ok(v) => v,
        Err(f) => return Err(field_failure(entries, "visualization", FieldKind::Flag, f)),
    };
    Ok(
        Settings {
            instrument_type,
            region,
            universe,
            delay,
            decay,
            neutralization,
            truncation_bits,
            pasteurization,
            language,
            nan_handling,
            unit_handling,
            max_trade,
            visualization,
            test_period,
            selection_handling: None,
            selection_limit: None,
        },
    )
}

} // verus!
