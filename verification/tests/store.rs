use settings::keys::{plain_char, plain_key};
use settings::settings::{with_header, FileOutcome, Settings, SettingsError};
use settings::value::SettingValue;

const HEADER: &str = "# Automatically generated by ncgopher.\n";

const DEFAULTS: [(&str, &str); 8] = [
    ("download_path", "Downloads"),
    ("homepage", "gopher://jan.bio:70/1/ncgopher/"),
    ("debug", "false"),
    ("theme", "lightmode"),
    ("html_command", ""),
    ("image_command", ""),
    ("telnet_command", ""),
    ("textwrap", "80"),
];

fn fresh() -> Settings {
    Settings::new("/tmp/nowhere/config.toml".to_string(), None).unwrap()
}

fn over(text: &str) -> Settings {
    Settings::new("/tmp/nowhere/config.toml".to_string(), Some(text.to_string())).unwrap()
}

fn text(s: &str) -> SettingValue {
    SettingValue::Text(s.to_string())
}

#[test]
fn fresh_store_returns_every_default() {
    let s = fresh();
    for (key, value) in DEFAULTS {
        assert_eq!(s.get_str(key), Ok(value.to_string()));
    }
    assert_eq!(s.file_outcome(), FileOutcome::Absent);
}

#[test]
fn store_remembers_its_file_name() {
    let s = Settings::new("/home/u/.config/ncgopher/config.toml".to_string(), None).unwrap();
    assert_eq!(s.config_filename(), "/home/u/.config/ncgopher/config.toml");
}

#[test]
fn file_overrides_only_the_keys_it_defines() {
    let s = over("theme = \"darkmode\"\n");
    assert_eq!(s.file_outcome(), FileOutcome::Merged);
    assert_eq!(s.get_str("theme"), Ok("darkmode".to_string()));
    for (key, value) in DEFAULTS {
        if key != "theme" {
            assert_eq!(s.get_str(key), Ok(value.to_string()));
        }
    }
}

#[test]
fn file_may_add_keys_and_scalars_of_other_types() {
    let s = over("textwrap = 100\ndebug = true\nbookmark = \"gopher://example.org\"\n");
    assert_eq!(s.get_str("textwrap"), Ok("100".to_string()));
    assert_eq!(s.get_str("debug"), Ok("true".to_string()));
    assert_eq!(s.get_str("bookmark"), Ok("gopher://example.org".to_string()));
    assert_eq!(s.get_str("theme"), Ok("lightmode".to_string()));
}

#[test]
fn keys_are_case_sensitive() {
    let s = over("Theme = \"darkmode\"\n");
    assert_eq!(s.file_outcome(), FileOutcome::Merged);
    assert_eq!(s.get_str("Theme"), Ok("darkmode".to_string()));
    assert_eq!(s.get_str("theme"), Ok("lightmode".to_string()));
}

#[test]
fn set_is_read_back_without_a_save() {
    let mut s = fresh();
    assert_eq!(s.set("theme", text("darkmode")), Ok(()));
    assert_eq!(s.get_str("theme"), Ok("darkmode".to_string()));
    assert_eq!(s.get_str("textwrap"), Ok("80".to_string()));
}

#[test]
fn set_outranks_the_file() {
    let mut s = over("theme = \"darkmode\"\nhomepage = \"gopher://example.org/\"\n");
    assert_eq!(s.set("theme", text("solarized")), Ok(()));
    assert_eq!(s.get_str("theme"), Ok("solarized".to_string()));
    assert_eq!(s.get_str("homepage"), Ok("gopher://example.org/".to_string()));
    assert_eq!(s.set("theme", text("lightmode")), Ok(()));
    assert_eq!(s.get_str("theme"), Ok("lightmode".to_string()));
}

#[test]
fn set_inserts_a_new_key() {
    let mut s = fresh();
    assert_eq!(s.get_str("search-engine"), Err(SettingsError::NoText));
    assert_eq!(s.set("search-engine", text("veronica")), Ok(()));
    assert_eq!(s.get_str("search-engine"), Ok("veronica".to_string()));
}

#[test]
fn flags_and_numbers_read_as_text() {
    let mut s = fresh();
    assert_eq!(s.set("debug", SettingValue::Flag(true)), Ok(()));
    assert_eq!(s.get_str("debug"), Ok("true".to_string()));
    assert_eq!(s.set("debug", SettingValue::Flag(false)), Ok(()));
    assert_eq!(s.get_str("debug"), Ok("false".to_string()));
    assert_eq!(s.set("textwrap", SettingValue::Number(0)), Ok(()));
    assert_eq!(s.get_str("textwrap"), Ok("0".to_string()));
    assert_eq!(s.set("textwrap", SettingValue::Number(120)), Ok(()));
    assert_eq!(s.get_str("textwrap"), Ok("120".to_string()));
    assert_eq!(s.set("textwrap", SettingValue::Number(-42)), Ok(()));
    assert_eq!(s.get_str("textwrap"), Ok("-42".to_string()));
    assert_eq!(s.set("textwrap", SettingValue::Number(i64::MIN)), Ok(()));
    assert_eq!(s.get_str("textwrap"), Ok("-9223372036854775808".to_string()));
    assert_eq!(s.set("textwrap", SettingValue::Number(i64::MAX)), Ok(()));
    assert_eq!(s.get_str("textwrap"), Ok("9223372036854775807".to_string()));
}

#[test]
fn keys_that_are_not_plain_are_refused() {
    let mut s = fresh();
    assert_eq!(s.set("", text("x")), Err(SettingsError::InvalidKey));
    assert_eq!(s.set("a.b", text("x")), Err(SettingsError::InvalidKey));
    assert_eq!(s.set("list[0]", text("x")), Err(SettingsError::InvalidKey));
    assert_eq!(s.set("two words", text("x")), Err(SettingsError::InvalidKey));
    assert_eq!(s.get_str(""), Err(SettingsError::NoText));
    assert_eq!(s.get_str("a.b"), Err(SettingsError::NoText));
    assert_eq!(s.get_str("a"), Err(SettingsError::NoText));
    for (key, value) in DEFAULTS {
        assert_eq!(s.get_str(key), Ok(value.to_string()));
    }
}

#[test]
fn absent_key_is_an_error() {
    let s = fresh();
    assert_eq!(s.get_str("no_such_key"), Err(SettingsError::NoText));
}

#[test]
fn malformed_file_falls_back_to_defaults() {
    let s = over("theme = = \"darkmode\n[[[");
    assert_eq!(s.file_outcome(), FileOutcome::Malformed);
    for (key, value) in DEFAULTS {
        assert_eq!(s.get_str(key), Ok(value.to_string()));
    }
}

#[test]
fn store_over_a_malformed_file_still_takes_values() {
    let mut s = over("not toml at all");
    assert_eq!(s.set("theme", text("darkmode")), Ok(()));
    assert_eq!(s.get_str("theme"), Ok("darkmode".to_string()));
}

#[test]
fn file_with_a_dotted_key_is_left_out() {
    let s = over("theme = \"darkmode\"\n\"a.b\" = \"x\"\n");
    assert_eq!(s.file_outcome(), FileOutcome::ForeignKeys);
    assert_eq!(s.get_str("theme"), Ok("lightmode".to_string()));
}

#[test]
fn table_in_the_file_has_no_text() {
    let s = over("theme = \"darkmode\"\n[colors]\nview = \"black\"\n");
    assert_eq!(s.file_outcome(), FileOutcome::Merged);
    assert_eq!(s.get_str("theme"), Ok("darkmode".to_string()));
    assert_eq!(s.get_str("colors"), Err(SettingsError::NoText));
    assert_eq!(s.settings_file_text(), Ok(HEADER.to_string()));
}

#[test]
fn table_in_the_file_can_replace_a_default() {
    let mut s = over("[theme]\nname = \"darkmode\"\n");
    assert_eq!(s.get_str("theme"), Err(SettingsError::NoText));
    assert_eq!(s.set("theme", text("darkmode")), Ok(()));
    assert_eq!(s.get_str("theme"), Ok("darkmode".to_string()));
}

#[test]
fn empty_file_changes_nothing() {
    let s = over("");
    assert_eq!(s.file_outcome(), FileOutcome::Merged);
    for (key, value) in DEFAULTS {
        assert_eq!(s.get_str(key), Ok(value.to_string()));
    }
}

#[test]
fn saved_text_of_the_defaults() {
    let s = fresh();
    let expected = "# Automatically generated by ncgopher.\n\
                    debug = \"false\"\n\
                    download_path = \"Downloads\"\n\
                    homepage = \"gopher://jan.bio:70/1/ncgopher/\"\n\
                    html_command = \"\"\n\
                    image_command = \"\"\n\
                    telnet_command = \"\"\n\
                    textwrap = \"80\"\n\
                    theme = \"lightmode\"\n";
    assert_eq!(s.settings_file_text(), Ok(expected.to_string()));
}

#[test]
fn saved_text_starts_with_the_header() {
    let mut s = fresh();
    s.set("theme", text("darkmode")).unwrap();
    let saved = s.settings_file_text().unwrap();
    assert!(saved.starts_with(HEADER));
    assert!(saved.contains("theme = \"darkmode\"\n"));
}

#[test]
fn save_and_reload_reproduces_every_value() {
    let mut s = fresh();
    s.set("theme", text("darkmode")).unwrap();
    s.set("homepage", text("gopher://example.org:70/1/a \"b\" \\ c\n# d = 'e'")).unwrap();
    s.set("html_command", text("firefox -new-tab")).unwrap();
    s.set("debug", SettingValue::Flag(true)).unwrap();
    s.set("textwrap", SettingValue::Number(72)).unwrap();
    s.set("extra-key_1", text("")).unwrap();
    let saved = s.settings_file_text().unwrap();
    let again = Settings::new(s.config_filename().to_string(), Some(saved.clone())).unwrap();
    assert_eq!(again.file_outcome(), FileOutcome::Merged);
    for key in [
        "download_path",
        "homepage",
        "debug",
        "theme",
        "html_command",
        "image_command",
        "telnet_command",
        "textwrap",
        "extra-key_1",
    ] {
        assert_eq!(again.get_str(key), s.get_str(key));
    }
    assert_eq!(again.get_str("theme"), Ok("darkmode".to_string()));
    assert_eq!(again.get_str("debug"), Ok("true".to_string()));
    assert_eq!(again.get_str("textwrap"), Ok("72".to_string()));
    assert_eq!(again.settings_file_text(), Ok(saved));
}

#[test]
fn built_in_themes_are_there_and_differ() {
    let s = fresh();
    let dark = s.get_theme_by_name("darkmode".to_string()).unwrap().to_string();
    let light = s.get_theme_by_name("lightmode".to_string()).unwrap().to_string();
    assert!(!dark.is_empty());
    assert!(!light.is_empty());
    assert_ne!(dark, light);
    assert!(dark.starts_with("shadow = false\n"));
    assert!(light.starts_with("shadow = true\n"));
}

#[test]
fn unknown_theme_is_an_error() {
    let s = fresh();
    assert_eq!(
        s.get_theme_by_name("doesnotexist".to_string()),
        Err(SettingsError::UnknownTheme)
    );
    assert_eq!(s.get_theme_by_name("".to_string()), Err(SettingsError::UnknownTheme));
    assert_eq!(s.get_theme_by_name("Darkmode".to_string()), Err(SettingsError::UnknownTheme));
}

#[test]
fn themes_do_not_depend_on_the_theme_setting() {
    let mut s = fresh();
    let before = s.get_theme_by_name("lightmode".to_string()).unwrap().to_string();
    s.set("theme", text("darkmode")).unwrap();
    assert_eq!(s.get_theme_by_name("lightmode".to_string()), Ok(before.as_str()));
}

#[test]
fn header_is_put_before_the_table() {
    assert_eq!(with_header(""), HEADER.to_string());
    assert_eq!(
        with_header("theme = \"darkmode\"\n"),
        "# Automatically generated by ncgopher.\ntheme = \"darkmode\"\n".to_string()
    );
}

#[test]
fn plain_keys() {
    assert!(plain_key("theme"));
    assert!(plain_key("download_path"));
    assert!(plain_key("A-b_9"));
    assert!(!plain_key(""));
    assert!(!plain_key("a.b"));
    assert!(!plain_key("a b"));
    assert!(!plain_key("a[0]"));
    assert!(!plain_key("th\u{e9}me"));
    assert!(plain_char('a') && plain_char('Z') && plain_char('0') && plain_char('_'));
    assert!(plain_char('-'));
    assert!(!plain_char('.') && !plain_char(' ') && !plain_char('/') && !plain_char('{'));
}

#[test]
fn empty_table_in_the_file_leaves_a_default_alone() {
    let s = over("[theme]\n");
    assert_eq!(s.file_outcome(), FileOutcome::Merged);
    assert_eq!(s.get_str("theme"), Ok("lightmode".to_string()));
}

#[test]
fn empty_table_in_the_file_under_a_new_key_has_no_text() {
    let s = over("[colors]\n");
    assert_eq!(s.file_outcome(), FileOutcome::Merged);
    assert_eq!(s.get_str("colors"), Err(SettingsError::NoText));
    assert_eq!(s.settings_file_text(), Ok(HEADER.to_string()));
}

#[test]
fn array_in_the_file_replaces_a_default() {
    let s = over("theme = []\n");
    assert_eq!(s.get_str("theme"), Err(SettingsError::NoText));
    let t = over("theme = [\"a\", \"b\"]\n");
    assert_eq!(t.get_str("theme"), Err(SettingsError::NoText));
}
