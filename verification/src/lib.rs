//! Persistent user settings of a terminal client: a flat table of scalar
//! options with built-in defaults, overlaid by the user's configuration
//! file, plus a small set of bundled colour themes.
//!
//! The table itself lives in a `config::Config`; this crate states what each
//! operation does to the table and proves its own logic against those
//! statements.

pub mod keys;
pub mod value;
pub mod pairs;
pub mod backend;
pub mod themes;
pub mod settings;

pub use crate::settings::{FileOutcome, Settings, SettingsError};
pub use crate::value::SettingValue;
