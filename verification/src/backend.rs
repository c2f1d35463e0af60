//! The boundary to the `config` and `toml` crates.
//!
//! Everything in this file is taken on trust: the contracts say what the
//! outside functions do, in terms of the names declared here, and nothing
//! proves them. The rest of the crate is proved against these contracts.

use crate::keys::{all_plain, is_plain_key};
use crate::pairs::{distinct_keys, lists, pairs_map};
use crate::value::SettingValue;
use config::Source;
use vstd::prelude::*;

verus! {

/// `config::Config`, the layered table that holds the settings. Nothing of
/// its inside is visible here; the names below say what it holds.
#[verifier::external_type_specification]
#[verifier::external_body]
pub struct ExConfig(config::Config);

/// `config::ConfigError`, which the store maps to an error of its own.
#[verifier::external_type_specification]
#[verifier::external_body]
pub struct ExConfigError(config::ConfigError);

/// `toml::ser::Error`, which the store maps to an error of its own.
#[verifier::external_type_specification]
#[verifier::external_body]
pub struct ExTomlSerError(toml::ser::Error);

/// The top level of the table that a `Config` currently resolves to: each
/// key with the text its value reads as, or `None` where the value is a
/// table, an array or nil and so has no text.
pub uninterp spec fn config_entries(c: config::Config) -> Map<Seq<char>, Option<Seq<char>>>;

/// Whether a `Config` is a flat, mutable one: every default and override it
/// holds stands under a plain key with a scalar value, and every source it
/// holds is in-memory TOML text that parses and whose top-level keys are
/// plain. Such a `Config` rebuilds to the same table on every refresh.
pub uninterp spec fn config_plain(c: config::Config) -> bool;

/// Whether a `Config` holds any override, that is a value stored by
/// `Config::set`, which outranks every source.
pub uninterp spec fn config_overridden(c: config::Config) -> bool;

/// The top level of what a TOML document parses to, in the form of
/// [`config_entries`]; `None` where the text is not valid TOML.
pub uninterp spec fn toml_entries(text: Seq<char>) -> Option<Map<Seq<char>, Option<Seq<char>>>>;

/// The top-level keys under which a TOML document holds an empty table.
/// Merging goes into a table entry by entry, so an empty one leaves what
/// already stands under its key as it is.
pub uninterp spec fn toml_empty_tables(text: Seq<char>) -> Set<Seq<char>>;

/// The TOML document that `toml::to_string` writes for a map from strings
/// to strings; `None` where it reports an error.
pub uninterp spec fn toml_text(entries: Map<Seq<char>, Seq<char>>) -> Option<Seq<char>>;

/// The table without entries.
pub open spec fn no_entries() -> Map<Seq<char>, Option<Seq<char>>> {
    Map::empty()
}

/// The text that a table holds under a key, if it holds one there.
pub open spec fn entry_text(entries: Map<Seq<char>, Option<Seq<char>>>, key: Seq<char>) -> Option<
    Seq<char>,
> {
    if entries.contains_key(key) {
        entries[key]
    } else {
        None
    }
}

/// A table with a document's entries laid over it: each entry of the
/// document replaces what stood under its key, except that an empty table
/// leaves an entry that is already there untouched.
pub open spec fn laid_over(
    table: Map<Seq<char>, Option<Seq<char>>>,
    document: Map<Seq<char>, Option<Seq<char>>>,
    empty_tables: Set<Seq<char>>,
) -> Map<Seq<char>, Option<Seq<char>>> {
    Map::new(
        |k: Seq<char>| table.contains_key(k) || document.contains_key(k),
        |k: Seq<char>|
            if !document.contains_key(k) {
                table[k]
            } else if document[k] is None && empty_tables.contains(k) && table.contains_key(k) {
                table[k]
            } else {
                document[k]
            },
    )
}

/// Whether every entry of a table has a text.
pub open spec fn all_text(entries: Map<Seq<char>, Option<Seq<char>>>) -> bool {
    forall|k: Seq<char>| entries.contains_key(k) ==> (#[trigger] entries[k]) is Some
}

/// A table's entries, each by its text.
pub open spec fn texts(entries: Map<Seq<char>, Option<Seq<char>>>) -> Map<Seq<char>, Seq<char>> {
    Map::new(|k: Seq<char>| entries.contains_key(k), |k: Seq<char>| entries[k].unwrap())
}

/// `config::Config::new`: a mutable configuration with no default, no
/// source and no override, which resolves to the empty table.
#[verifier::external_body]
pub(crate) fn empty_config() -> (c: config::Config)
    ensures
        config_plain(c),
        !config_overridden(c),
        config_entries(c) == no_entries(),
{
    config::Config::new()
}

/// `config::Config::set_default`, for a plain key that the table does not
/// hold yet: the key parses as a single identifier, no source or override
/// names it, so the rebuilt table gains exactly that entry. The value is
/// stored as a string, boolean or integer and reads back as its text.
#[verifier::external_body]
pub(crate) fn register_default(c: &mut config::Config, key: &str, value: &SettingValue) -> (r:
    Result<(), config::ConfigError>)
    requires
        config_plain(*old(c)),
        is_plain_key(key@),
        !config_entries(*old(c)).contains_key(key@),
    ensures
        r is Ok,
        config_plain(*final(c)),
        config_overridden(*final(c)) == config_overridden(*old(c)),
        config_entries(*final(c)) == config_entries(*old(c)).insert(key@, Some(value.text())),
{
    let v: config::Value = match value {
        SettingValue::Text(s) => s.clone().into(),
        SettingValue::Flag(b) => (*b).into(),
        SettingValue::Number(n) => (*n).into(),
    };
    c.set_default(key, v).map(|_| ())
}

/// `config::Config::set`, for a plain key: the value becomes an override,
/// which outranks defaults and sources, so the rebuilt table holds it under
/// that key and is otherwise unchanged.
#[verifier::external_body]
pub(crate) fn assign(c: &mut config::Config, key: &str, value: &SettingValue) -> (r: Result<
    (),
    config::ConfigError,
>)
    requires
        config_plain(*old(c)),
        is_plain_key(key@),
    ensures
        r is Ok,
        config_plain(*final(c)),
        config_entries(*final(c)) == config_entries(*old(c)).insert(key@, Some(value.text())),
{
    let v: config::Value = match value {
        SettingValue::Text(s) => s.clone().into(),
        SettingValue::Flag(b) => (*b).into(),
        SettingValue::Number(n) => (*n).into(),
    };
    c.set(key, v).map(|_| ())
}

/// `config::Config::get_str`, for a plain key: it succeeds exactly when the
/// table holds a scalar under the key, and then returns its text.
#[verifier::external_body]
pub(crate) fn lookup_text(c: &config::Config, key: &str) -> (r: Result<String, config::ConfigError>)
    requires
        is_plain_key(key@),
    ensures
        r is Ok <==> entry_text(config_entries(*c), key@) is Some,
        r is Ok ==> entry_text(config_entries(*c), key@) == Some(r.unwrap()@),
{
    c.get_str(key)
}

/// `Source::collect` on `config::File::from_str` with the TOML format, and
/// `config::Value::into_str` on each value: the top-level entries of the
/// parsed document, each key once with the text of its value if it has
/// one, in no particular order; an error exactly where the text is not
/// valid TOML.
#[verifier::external_body]
pub(crate) fn toml_pairs(text: &str) -> (r: Result<
    Vec<(String, Option<String>)>,
    config::ConfigError,
>)
    ensures
        r is Ok <==> toml_entries(text@) is Some,
        r is Ok ==> lists(r.unwrap()@, toml_entries(text@).unwrap()),
{
    config::File::from_str(text, config::FileFormat::Toml).collect().map(
        |m| m.into_iter().map(|(k, v)| (k, v.into_str().ok())).collect(),
    )
}

/// `config::Config::merge` with `config::File::from_str` in the TOML
/// format, on a flat configuration without overrides and a document whose
/// top-level keys are all plain: the document's entries are laid over the
/// table, each replacing what stood under its key; only an empty table
/// leaves an entry that is already there as it is.
#[verifier::external_body]
pub(crate) fn merge_toml(c: &mut config::Config, text: &str) -> (r: Result<(), config::ConfigError>)
    requires
        config_plain(*old(c)),
        !config_overridden(*old(c)),
        toml_entries(text@) is Some,
        all_plain(toml_entries(text@).unwrap().dom()),
    ensures
        r is Ok,
        config_plain(*final(c)),
        !config_overridden(*final(c)),
        config_entries(*final(c)) == laid_over(
            config_entries(*old(c)),
            toml_entries(text@).unwrap(),
            toml_empty_tables(text@),
        ),
{
    c.merge(config::File::from_str(text, config::FileFormat::Toml)).map(|_| ())
}

/// `config::Config::try_into` at a map from strings to strings, on a flat
/// configuration: it succeeds exactly when every entry has a text, and then
/// gives every entry by its text, in ascending order of the keys.
#[verifier::external_body]
pub(crate) fn text_entries(c: &config::Config) -> (r: Result<
    Vec<(String, String)>,
    config::ConfigError,
>)
    requires
        config_plain(*c),
    ensures
        r is Ok <==> all_text(config_entries(*c)),
        r is Ok ==> distinct_keys(r.unwrap()@),
        r is Ok ==> pairs_map(r.unwrap()@) == texts(config_entries(*c)),
{
    c.clone().try_into::<std::collections::BTreeMap<String, String>>().map(
        |m| m.into_iter().collect(),
    )
}

/// `toml::to_string` on the ordered map that the pairs stand for: the
/// document it writes, which depends on the map alone.
#[verifier::external_body]
pub(crate) fn toml_document(pairs: &Vec<(String, String)>) -> (r: Result<String, toml::ser::Error>)
    ensures
        r is Ok <==> toml_text(pairs_map(pairs@)) is Some,
        r is Ok ==> toml_text(pairs_map(pairs@)) == Some(r.unwrap()@),
{
    toml::to_string(&pairs.iter().cloned().collect::<std::collections::BTreeMap<String, String>>())
}

} // verus!
