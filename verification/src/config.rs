//! The settings of the service and how they are put together.

use vstd::prelude::*;
use vstd::string::*;
use crate::text::str_eq;

verus! {

/// What the command line may say.
#[derive(Debug)]
pub struct Cli {
    /// The path of the settings file.
    pub config: Option<String>,
    /// The log level to run with.
    pub level: Option<String>,
}

#[derive(Debug)]
pub struct Settings {
    pub config: Option<String>,
    pub level: Option<String>,
    pub db_settings: DBSettings,
    pub api_settings: APISettings,
    pub ui_settings: UISettings,
}

#[derive(Debug)]
pub struct DBSettings {
    pub data_folder: String,
    pub migrations_folder: String,
}

#[derive(Debug)]
pub struct UISettings {
    pub remote_url: String,
    pub ui_dir: String,
}

#[derive(Debug)]
pub struct APISettings {
    pub domain: String,
    pub port: String,
    /// The file of the private key that signs game data and verifies users.
    pub private_key_file: String,
}

/// Where the settings are read from when the command line names no file.
pub const DEFAULT_SETTINGS_FILE: &'static str = "./config/local.toml";

impl Default for DBSettings {
    fn default() -> (settings: Self)
        ensures
            settings.data_folder@ == "./data"@,
            settings.migrations_folder@ == "./crates/server/migrations"@,
    {
        DBSettings {
            data_folder: String::from_str("./data"),
            migrations_folder: String::from_str("./crates/server/migrations"),
        }
    }
}

impl Default for UISettings {
    fn default() -> (settings: Self)
        ensures
            settings.remote_url@ == "http://127.0.0.1:8900"@,
            settings.ui_dir@ == "./crates/public_ui"@,
    {
        UISettings {
            remote_url: String::from_str("http://127.0.0.1:8900"),
            ui_dir: String::from_str("./crates/public_ui"),
        }
    }
}

impl Default for APISettings {
    fn default() -> (settings: Self)
        ensures
            settings.domain@ == "127.0.0.1"@,
            settings.port@ == "8900"@,
            settings.private_key_file@ == "./creds/private.key"@,
    {
        APISettings {
            domain: String::from_str("127.0.0.1"),
            port: String::from_str("8900"),
            private_key_file: String::from_str("./creds/private.key"),
        }
    }
}

impl Default for Settings {
    fn default() -> (settings: Self)
        ensures
            settings.config is None,
            settings.level is None,
            settings.db_settings.data_folder@ == "./data"@,
            settings.db_settings.migrations_folder@ == "./crates/server/migrations"@,
            settings.api_settings.domain@ == "127.0.0.1"@,
            settings.api_settings.port@ == "8900"@,
            settings.api_settings.private_key_file@ == "./creds/private.key"@,
            settings.ui_settings.remote_url@ == "http://127.0.0.1:8900"@,
            settings.ui_settings.ui_dir@ == "./crates/public_ui"@,
    {
        Settings {
            config: None,
            level: None,
            db_settings: DBSettings::default(),
            api_settings: APISettings::default(),
            ui_settings: UISettings::default(),
        }
    }
}

/// The file that the settings are read from: the one that the command line
/// names, or the default.
pub fn settings_file(cli: &Cli) -> (path: String)
    ensures
        path@ == match cli.config {
            Some(given) => given@,
            None => DEFAULT_SETTINGS_FILE@,
        },
{
    match &cli.config {
        Some(given) => given.clone(),
        None => String::from_str(DEFAULT_SETTINGS_FILE),
    }
}

/// The settings to run with: those read from the file, with the log level
/// of the command line in place of theirs where it gives one.
pub fn get_settings(from_file: Settings, cli: Cli) -> (settings: Settings)
    ensures
        settings.level == match cli.level {
            Some(level) => Some(level),
            None => from_file.level,
        },
        settings.config == from_file.config,
        settings.db_settings == from_file.db_settings,
        settings.api_settings == from_file.api_settings,
        settings.ui_settings == from_file.ui_settings,
{
    let mut settings = from_file;
    match cli.level {
        Some(level) => {
            settings.level = Some(level);
        },
        None => {},
    }
    settings
}

/// How much is logged.
#[derive(Clone, Copy, Debug, PartialEq, Eq, Structural)]
pub enum LogLevel {
    Trace,
    Debug,
    Info,
    Warn,
    Error,
}

/// The level that `name` asks for; one that is not known asks for `Info`.
pub open spec fn named_level(name: Seq<char>) -> LogLevel {
    if name == "trace"@ {
        LogLevel::Trace
    } else if name == "debug"@ {
        LogLevel::Debug
    } else if name == "info"@ {
        LogLevel::Info
    } else if name == "warn"@ {
        LogLevel::Warn
    } else if name == "error"@ {
        LogLevel::Error
    } else {
        LogLevel::Info
    }
}

/// `name` in lower case, as `str::to_lowercase` gives it.
pub uninterp spec fn lowercase(name: Seq<char>) -> Seq<char>;

/// `str::to_lowercase`. The contract claims that the result is a function
/// of the text.
#[verifier::external_body]
fn to_lowercase(name: &str) -> (lower: String)
    ensures
        lower@ == lowercase(name@),
{
    name.to_lowercase()
}

/// The level that `name` asks for.
pub fn level_named(name: &str) -> (level: LogLevel)
    ensures
        level == named_level(name@),
{
    if str_eq(name, "trace") {
        LogLevel::Trace
    } else if str_eq(name, "debug") {
        LogLevel::Debug
    } else if str_eq(name, "info") {
        LogLevel::Info
    } else if str_eq(name, "warn") {
        LogLevel::Warn
    } else if str_eq(name, "error") {
        LogLevel::Error
    } else {
        LogLevel::Info
    }
}

/// The level to log at: the one that the settings name, as they spell it;
/// without one, what the environment's `RUST_LOG` names in any case of
/// letters.
pub fn get_log_level(level: Option<String>, rust_log: &str) -> (r: LogLevel)
    ensures
        r == match level {
            Some(name) => named_level(name@),
            None => named_level(lowercase(rust_log@)),
        },
{
    match level {
        Some(name) => level_named(name.as_str()),
        None => level_named(to_lowercase(rust_log).as_str()),
    }
}

} // verus!
