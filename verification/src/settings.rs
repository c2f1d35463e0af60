//! The settings store: defaults, the user's file laid over them, values set
//! at run time, and the text that saves them.
//!
//! The store does no input or output. Its caller reads the configuration
//! file and hands the text in, and writes out the text that
//! [`Settings::settings_file_text`] returns.

use crate::backend::{
    all_text, assign, config_entries, config_plain, empty_config, entry_text, laid_over,
    lookup_text, merge_toml, no_entries, register_default, text_entries, texts, toml_document,
    toml_empty_tables, toml_entries, toml_pairs, toml_text,
};
use crate::keys::{all_plain, is_plain_key, plain_key};
use crate::pairs::{
    as_table, holds_same_entries, lists, pairs_map, same_entries_is_equality, text_of,
};
use crate::themes::{builtin_theme, builtin_themes, find_theme, holds_builtin, Theme};
use crate::value::{flag_text, SettingValue};
use vstd::prelude::*;
use vstd::string::StringExecFns;

verus! {

/// Why an operation of the store failed.
#[derive(Clone, Copy, Debug, PartialEq, Eq, Structural)]
pub enum SettingsError {
    /// A default could not be registered.
    Init,
    /// The key is not a plain key, so nothing can be stored under it.
    InvalidKey,
    /// The key is absent, or what stands under it has no text.
    NoText,
    /// No theme has that name.
    UnknownTheme,
    /// The settings could not be written as a document.
    Serialize,
}

/// What became of the configuration file at construction.
#[derive(Clone, Copy, Debug, PartialEq, Eq, Structural)]
pub enum FileOutcome {
    /// There was no file.
    Absent,
    /// The file was laid over the defaults.
    Merged,
    /// The file is not valid TOML; the defaults stand alone.
    Malformed,
    /// The file has a top-level key that is not plain; the defaults stand
    /// alone.
    ForeignKeys,
}

/// The settings of one user.
pub struct Settings {
    config: config::Config,
    config_filename: String,
    themes: Vec<Theme>,
    outcome: FileOutcome,
}

/// The text that a save writes for a table: the header line, then the
/// entries as a TOML document. It is meant only where [`saves`] holds.
pub open spec fn saved_text(entries: Map<Seq<char>, Option<Seq<char>>>) -> Seq<char> {
    file_header() + toml_text(saved_entries(entries)).unwrap()
}

/// Whether a table can be saved: its entries can be written as a TOML
/// document, and that document, under the header line, reads back as the
/// same entries.
pub open spec fn saves(entries: Map<Seq<char>, Option<Seq<char>>>) -> bool {
    toml_text(saved_entries(entries)) is Some && reads_as(
        saved_text(entries),
        saved_entries(entries),
    )
}

/// The first line of every saved settings file.
pub open spec fn file_header() -> Seq<char> {
    "# Automatically generated by ncgopher.\n"@
}

/// The built-in value of every option.
pub open spec fn default_entries() -> Map<Seq<char>, Option<Seq<char>>> {
    no_entries().insert("download_path"@, Some("Downloads"@)).insert(
        "homepage"@,
        Some("gopher://jan.bio:70/1/ncgopher/"@),
    ).insert("debug"@, Some(flag_text(false))).insert("theme"@, Some("lightmode"@)).insert(
        "html_command"@,
        Some(""@),
    ).insert("image_command"@, Some(""@)).insert("telnet_command"@, Some(""@)).insert(
        "textwrap"@,
        Some("80"@),
    )
}

/// Whether a configuration file can be laid over the defaults: it is valid
/// TOML and each of its top-level keys is plain.
pub open spec fn usable_file(text: Seq<char>) -> bool {
    toml_entries(text) is Some && all_plain(toml_entries(text).unwrap().dom())
}

/// What becomes of a configuration file with the given text, `None` standing
/// for no file.
pub open spec fn outcome_of(file: Option<Seq<char>>) -> FileOutcome {
    match file {
        None => FileOutcome::Absent,
        Some(text) => if toml_entries(text) is None {
            FileOutcome::Malformed
        } else if all_plain(toml_entries(text).unwrap().dom()) {
            FileOutcome::Merged
        } else {
            FileOutcome::ForeignKeys
        },
    }
}

/// The table of a store constructed over the given file: the defaults, with
/// the file's entries laid over them where the file is usable.
pub open spec fn initial_entries(file: Option<Seq<char>>) -> Map<Seq<char>, Option<Seq<char>>> {
    match file {
        Some(text) if usable_file(text) => laid_over(
            default_entries(),
            toml_entries(text).unwrap(),
            toml_empty_tables(text),
        ),
        _ => default_entries(),
    }
}

/// The table after a value is stored under a key.
pub open spec fn stored(
    entries: Map<Seq<char>, Option<Seq<char>>>,
    key: Seq<char>,
    value: SettingValue,
) -> Map<Seq<char>, Option<Seq<char>>> {
    entries.insert(key, Some(value.text()))
}

/// The entries that a save writes: all of them by their text, or none where
/// some entry has no text.
pub open spec fn saved_entries(entries: Map<Seq<char>, Option<Seq<char>>>) -> Map<
    Seq<char>,
    Seq<char>,
> {
    if all_text(entries) {
        texts(entries)
    } else {
        Map::empty()
    }
}

/// Whether a document with the given text reads as the given entries,
/// each with its text.
pub open spec fn reads_as(text: Seq<char>, entries: Map<Seq<char>, Seq<char>>) -> bool {
    toml_entries(text) == Some(as_table(entries))
}

/// Whether every key of a list of entries is plain.
pub open spec fn plain_listed(entries: Seq<(String, Option<String>)>) -> bool {
    forall|i: int| 0 <= i < entries.len() ==> is_plain_key((#[trigger] entries[i]).0@)
}

/// Decides [`plain_listed`].
pub fn all_plain_keys(entries: &Vec<(String, Option<String>)>) -> (r: bool)
    ensures
        r == plain_listed(entries@),
{
    let mut i: usize = 0;
    while i < entries.len()
        invariant
            i <= entries@.len(),
            forall|j: int| 0 <= j < i ==> is_plain_key((#[trigger] entries@[j]).0@),
        decreases entries@.len() - i,
    {
        if !plain_key(entries[i].0.as_str()) {
            return false;
        }
        i += 1;
    }
    true
}

/// The keys of a table are plain exactly when those of a list of it are.
pub proof fn plain_listed_is_all_plain(
    entries: Seq<(String, Option<String>)>,
    table: Map<Seq<char>, Option<Seq<char>>>,
)
    requires
        lists(entries, table),
    ensures
        plain_listed(entries) <==> all_plain(table.dom()),
{
    if plain_listed(entries) {
        assert forall|k: Seq<char>| table.dom().contains(k) implies is_plain_key(k) by {
            let i = choose|i: int| 0 <= i < entries.len() && (#[trigger] entries[i]).0@ == k;
        }
    }
    if all_plain(table.dom()) {
        assert forall|i: int| 0 <= i < entries.len() implies is_plain_key(
            (#[trigger] entries[i]).0@,
        ) by {
            assert(table.dom().contains(entries[i].0@));
        }
    }
}

/// A saved document: the header line, then the table.
pub fn with_header(table: &str) -> (r: String)
    ensures
        r@ == file_header() + table@,
{
    let mut text = "# Automatically generated by ncgopher.\n".to_owned();
    text.append(table);
    text
}

impl Settings {
    /// The table of settings: each key with the text of its value, or
    /// `None` where the value is a table or an array.
    pub closed spec fn entries(&self) -> Map<Seq<char>, Option<Seq<char>>> {
        config_entries(self.config)
    }

    /// The path of the configuration file.
    pub closed spec fn filename(&self) -> Seq<char> {
        self.config_filename@
    }

    /// What became of the configuration file at construction.
    pub closed spec fn outcome(&self) -> FileOutcome {
        self.outcome
    }

    /// The store's invariant: the table is flat, its keys are plain, and
    /// the themes are the built-in ones.
    pub closed spec fn wf(&self) -> bool {
        &&& config_plain(self.config)
        &&& all_plain(self.entries().dom())
        &&& holds_builtin(self.themes@)
    }

    /// A store for the configuration file at `config_filename`, whose text
    /// is `file_text` (`None` where there is no such file or it cannot be
    /// read). It holds the defaults, and over them the file's entries where
    /// the file is usable.
    pub fn new(config_filename: String, file_text: Option<String>) -> (r: Result<
        Settings,
        SettingsError,
    >)
        ensures
            r is Ok,
            r.unwrap().wf(),
            r.unwrap().filename() == config_filename@,
            r.unwrap().outcome() == outcome_of(text_of(file_text)),
            r.unwrap().entries() == initial_entries(text_of(file_text)),
    {
        proof {
            default_keys_are_plain();
            default_keys_differ();
        }
        let mut config = empty_config();
        let download_path = SettingValue::Text("Downloads".to_owned());
        if register_default(&mut config, "download_path", &download_path).is_err() {
            return Err(SettingsError::Init);
        }
        let homepage = SettingValue::Text("gopher://jan.bio:70/1/ncgopher/".to_owned());
        if register_default(&mut config, "homepage", &homepage).is_err() {
            return Err(SettingsError::Init);
        }
        let debug = SettingValue::Flag(false);
        if register_default(&mut config, "debug", &debug).is_err() {
            return Err(SettingsError::Init);
        }
        let theme = SettingValue::Text("lightmode".to_owned());
        if register_default(&mut config, "theme", &theme).is_err() {
            return Err(SettingsError::Init);
        }
        let no_command = SettingValue::Text("".to_owned());
        if register_default(&mut config, "html_command", &no_command).is_err() {
            return Err(SettingsError::Init);
        }
        if register_default(&mut config, "image_command", &no_command).is_err() {
            return Err(SettingsError::Init);
        }
        if register_default(&mut config, "telnet_command", &no_command).is_err() {
            return Err(SettingsError::Init);
        }
        let textwrap = SettingValue::Text("80".to_owned());
        if register_default(&mut config, "textwrap", &textwrap).is_err() {
            return Err(SettingsError::Init);
        }
        assert(config_entries(config) == default_entries());
        let outcome = match &file_text {
            None => FileOutcome::Absent,
            Some(text) => match toml_pairs(text.as_str()) {
                Err(_) => FileOutcome::Malformed,
                Ok(listed) => {
                    proof {
                        plain_listed_is_all_plain(listed@, toml_entries(text@).unwrap());
                    }
                    if all_plain_keys(&listed) {
                        if merge_toml(&mut config, text.as_str()).is_err() {
                            return Err(SettingsError::Init);
                        }
                        FileOutcome::Merged
                    } else {
                        FileOutcome::ForeignKeys
                    }
                },
            },
        };
        Ok(Settings { config, config_filename, themes: builtin_themes(), outcome })
    }

    /// Stores `value` under `key`, in memory only. A key that is not plain
    /// is refused and nothing changes.
    pub fn set(&mut self, key: &str, value: SettingValue) -> (r: Result<(), SettingsError>)
        requires
            old(self).wf(),
        ensures
            final(self).wf(),
            final(self).filename() == old(self).filename(),
            final(self).outcome() == old(self).outcome(),
            r is Ok <==> is_plain_key(key@),
            r is Ok ==> final(self).entries() == stored(old(self).entries(), key@, value),
            r is Err ==> r->Err_0 == SettingsError::InvalidKey,
            r is Err ==> final(self).entries() == old(self).entries(),
    {
        if !plain_key(key) {
            return Err(SettingsError::InvalidKey);
        }
        match assign(&mut self.config, key, &value) {
            Ok(()) => Ok(()),
            Err(_) => Err(SettingsError::InvalidKey),
        }
    }

    /// The text of the value under `key`.
    pub fn get_str(&self, key: &str) -> (r: Result<String, SettingsError>)
        requires
            self.wf(),
        ensures
            r is Ok <==> entry_text(self.entries(), key@) is Some,
            r is Ok ==> entry_text(self.entries(), key@) == Some(r.unwrap()@),
            r is Err ==> r->Err_0 == SettingsError::NoText,
    {
        if !plain_key(key) {
            return Err(SettingsError::NoText);
        }
        match lookup_text(&self.config, key) {
            Ok(text) => Ok(text),
            Err(_) => Err(SettingsError::NoText),
        }
    }

    /// The text of the theme called `name`.
    pub fn get_theme_by_name(&self, name: String) -> (r: Result<&str, SettingsError>)
        requires
            self.wf(),
        ensures
            r is Ok <==> builtin_theme(name@) is Some,
            r is Ok ==> builtin_theme(name@) == Some(r.unwrap()@),
            r is Err ==> r->Err_0 == SettingsError::UnknownTheme,
    {
        proof {
            reveal_strlit("darkmode");
            reveal_strlit("lightmode");
            assert("darkmode"@.len() != "lightmode"@.len());
        }
        match find_theme(&self.themes, &name) {
            Some(i) => Ok(self.themes[i].text.as_str()),
            None => Err(SettingsError::UnknownTheme),
        }
    }

    /// The text of the settings file that a save writes: the header line,
    /// then every entry as a TOML document, or no entry at all where some
    /// entry has no text. The text is returned only if it reads back as
    /// the entries that were written.
    pub fn settings_file_text(&self) -> (r: Result<String, SettingsError>)
        requires
            self.wf(),
        ensures
            r is Ok <==> saves(self.entries()),
            r is Ok ==> r.unwrap()@ == saved_text(self.entries()),
            r is Ok ==> reads_as(r.unwrap()@, saved_entries(self.entries())),
            r is Err ==> r->Err_0 == SettingsError::Serialize,
    {
        let pairs = match text_entries(&self.config) {
            Ok(pairs) => pairs,
            Err(_) => Vec::new(),
        };
        assert(pairs_map(pairs@) == saved_entries(self.entries()));
        match toml_document(&pairs) {
            Ok(table) => {
                let text = with_header(table.as_str());
                match toml_pairs(text.as_str()) {
                    Ok(listed) => {
                        proof {
                            same_entries_is_equality(
                                pairs@,
                                listed@,
                                toml_entries(text@).unwrap(),
                            );
                        }
                        if holds_same_entries(&pairs, &listed) {
                            Ok(text)
                        } else {
                            Err(SettingsError::Serialize)
                        }
                    },
                    Err(_) => Err(SettingsError::Serialize),
                }
            },
            Err(_) => Err(SettingsError::Serialize),
        }
    }

    /// The path of the configuration file.
    pub fn config_filename(&self) -> (r: &str)
        ensures
            r@ == self.filename(),
    {
        self.config_filename.as_str()
    }

    /// What became of the configuration file at construction.
    pub fn file_outcome(&self) -> (r: FileOutcome)
        ensures
            r == self.outcome(),
    {
        self.outcome
    }
}

/// Every default key is plain.
pub proof fn default_keys_are_plain()
    ensures
        is_plain_key("download_path"@),
        is_plain_key("homepage"@),
        is_plain_key("debug"@),
        is_plain_key("theme"@),
        is_plain_key("html_command"@),
        is_plain_key("image_command"@),
        is_plain_key("telnet_command"@),
        is_plain_key("textwrap"@),
{
    reveal_strlit("download_path");
    reveal_strlit("homepage");
    reveal_strlit("debug");
    reveal_strlit("theme");
    reveal_strlit("html_command");
    reveal_strlit("image_command");
    reveal_strlit("telnet_command");
    reveal_strlit("textwrap");
}

/// No two default keys are equal.
pub proof fn default_keys_differ()
    ensures
        "download_path"@.len() == 13 && "download_path"@[0] == 'd',
        "homepage"@.len() == 8 && "homepage"@[0] == 'h',
        "debug"@.len() == 5 && "debug"@[0] == 'd',
        "theme"@.len() == 5 && "theme"@[0] == 't',
        "html_command"@.len() == 12,
        "image_command"@.len() == 13 && "image_command"@[0] == 'i',
        "telnet_command"@.len() == 14,
        "textwrap"@.len() == 8 && "textwrap"@[0] == 't',
{
    reveal_strlit("download_path");
    reveal_strlit("homepage");
    reveal_strlit("debug");
    reveal_strlit("theme");
    reveal_strlit("html_command");
    reveal_strlit("image_command");
    reveal_strlit("telnet_command");
    reveal_strlit("textwrap");
}

/// A store constructed without a file holds exactly the defaults: each
/// option reads as its built-in value.
pub proof fn fresh_store_holds_defaults()
    ensures
        initial_entries(None) == default_entries(),
        entry_text(default_entries(), "download_path"@) == Some("Downloads"@),
        entry_text(default_entries(), "homepage"@) == Some("gopher://jan.bio:70/1/ncgopher/"@),
        entry_text(default_entries(), "debug"@) == Some("false"@),
        entry_text(default_entries(), "theme"@) == Some("lightmode"@),
        entry_text(default_entries(), "html_command"@) == Some(""@),
        entry_text(default_entries(), "image_command"@) == Some(""@),
        entry_text(default_entries(), "telnet_command"@) == Some(""@),
        entry_text(default_entries(), "textwrap"@) == Some("80"@),
{
    default_keys_differ();
    reveal_strlit("false");
}

/// A usable file overrides exactly the keys it defines: a key under which
/// the file holds a text reads as that text, a key that the file does not
/// hold reads as the defaults have it.
pub proof fn file_overrides_only_its_keys(text: Seq<char>, key: Seq<char>)
    ensures
        usable_file(text) && entry_text(toml_entries(text).unwrap(), key) is Some ==> entry_text(
            initial_entries(Some(text)),
            key,
        ) == entry_text(toml_entries(text).unwrap(), key),
        usable_file(text) && !toml_entries(text).unwrap().contains_key(key) ==> entry_text(
            initial_entries(Some(text)),
            key,
        ) == entry_text(default_entries(), key),
{
}

/// A file that is malformed, or otherwise not usable, leaves the defaults
/// as they are.
pub proof fn unusable_file_keeps_defaults(text: Seq<char>)
    ensures
        !usable_file(text) ==> initial_entries(Some(text)) == default_entries(),
        toml_entries(text) is None ==> outcome_of(Some(text)) == FileOutcome::Malformed,
{
}

/// A value stored under a key is read back under that key, and every other
/// key reads as before.
pub proof fn stored_value_is_read_back(
    entries: Map<Seq<char>, Option<Seq<char>>>,
    key: Seq<char>,
    other: Seq<char>,
    value: SettingValue,
)
    ensures
        entry_text(stored(entries, key, value), key) == Some(value.text()),
        other != key ==> entry_text(stored(entries, key, value), other) == entry_text(
            entries,
            other,
        ),
{
}

/// Saving and loading again reproduces the table: where every entry has a
/// text and all keys are plain, a store constructed over a document that
/// reads as the saved entries holds every entry that was saved, with the
/// text it had.
pub proof fn saved_file_reads_back(
    entries: Map<Seq<char>, Option<Seq<char>>>,
    text: Seq<char>,
    key: Seq<char>,
)
    ensures
        all_plain(entries.dom()) && reads_as(text, saved_entries(entries)) ==> usable_file(text),
        all_plain(entries.dom()) && all_text(entries) && reads_as(text, saved_entries(entries))
            && entries.contains_key(key) ==> entry_text(initial_entries(Some(text)), key)
            == entry_text(entries, key),
        all_plain(entries.dom()) && all_text(entries) && reads_as(text, saved_entries(entries))
            && !entries.contains_key(key) ==> entry_text(initial_entries(Some(text)), key)
            == entry_text(default_entries(), key),
{
}

/// A save leaves nothing out: where every entry has a text, the saved
/// entries are the table's, and a value stored under a key is saved under
/// that key.
pub proof fn save_holds_every_text(
    entries: Map<Seq<char>, Option<Seq<char>>>,
    key: Seq<char>,
    value: SettingValue,
)
    ensures
        all_text(entries) ==> saved_entries(entries).dom() == entries.dom(),
        all_text(entries) ==> forall|k: Seq<char>| #[trigger]
            entries.contains_key(k) ==> entry_text(entries, k) == Some(saved_entries(entries)[k]),
        all_text(entries) ==> all_text(stored(entries, key, value)),
        all_text(entries) ==> saved_entries(stored(entries, key, value)) == saved_entries(
            entries,
        ).insert(key, value.text()),
{
    if all_text(entries) {
        assert(saved_entries(entries).dom() =~= entries.dom());
        assert(saved_entries(stored(entries, key, value)) =~= saved_entries(entries).insert(
            key,
            value.text(),
        ));
    }
}

} // verus!
