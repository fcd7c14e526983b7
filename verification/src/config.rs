//! The settings of the application, as merged from defaults, files and the
//! command line by the caller.

use vstd::prelude::*;
use crate::text::{push_text, same_text};

verus! {

/// Window settings.
#[derive(Clone, Debug)]
pub struct WindowOpts {
    pub create: Option<bool>,
    pub fullscreen: Option<bool>,
    pub continous_draw: Option<bool>,
}

/// Where and at which level to log to a file.
#[derive(Clone, Debug)]
pub struct LogFile {
    pub path: Option<String>,
    pub file_level: Option<String>,
}

/// Logging settings.
#[derive(Clone, Debug)]
pub struct LogOpts {
    pub level: Option<String>,
    pub log_file: Option<LogFile>,
}

/// Settings that concern the platform client.
#[derive(Clone, Debug)]
pub struct SteamOpts {
    pub cef_debug_disable: Option<bool>,
    pub steam_launch_timeout_secs: Option<u64>,
    pub steam_path: Option<String>,
}

/// All settings.
#[derive(Clone, Debug)]
pub struct Config {
    pub config_file_path: Option<String>,
    pub console: Option<bool>,
    pub tray: Option<bool>,
    pub viiper_address: Option<String>,
    pub kbm_emulation: Option<bool>,
    pub window: WindowOpts,
    pub log: LogOpts,
    pub steam: SteamOpts,
    pub debug: u8,
    pub marker: bool,
}

/// The address at which the device server is looked for by default.
pub open spec fn default_address() -> Seq<char> {
    "localhost:3242"@
}

/// How a settings file is read.
#[derive(Clone, Copy, Debug, PartialEq, Eq, Structural)]
pub enum ConfigFormat {
    Toml,
    Yaml,
    Json,
}

/// The format of a settings file by its extension: YAML for `yaml` and `yml`,
/// JSON for `json`, TOML for everything else.
pub open spec fn spec_format(extension: Option<Seq<char>>) -> ConfigFormat {
    match extension {
        Some(e) => if e == "yaml"@ || e == "yml"@ {
            ConfigFormat::Yaml
        } else if e == "json"@ {
            ConfigFormat::Json
        } else {
            ConfigFormat::Toml
        },
        None => ConfigFormat::Toml,
    }
}

impl WindowOpts {
    /// Whether the window is redrawn continuously: off unless set.
    pub fn continuous_redraw(&self) -> (r: bool)
        ensures
            r == (self.continous_draw == Some(true)),
    {
        match self.continous_draw {
            Some(b) => b,
            None => false,
        }
    }
}

impl Config {
    /// The settings before any file or argument: tray on, the server at its
    /// default address, a fullscreen window that is not created, logging at
    /// `level` with a file at level `Info` under `log_path`, one second for
    /// the client to start.
    pub fn defaults(level: &str, log_path: Option<String>) -> (r: Self)
        ensures
            r.tray == Some(true),
            r.console == Some(false),
            r.kbm_emulation == None::<bool>,
            r.viiper_address.is_some() && r.viiper_address.unwrap()@ == default_address(),
            r.window.create == Some(false),
            r.window.fullscreen == Some(true),
            r.window.continous_draw == Some(false),
            r.log.level.is_some() && r.log.level.unwrap()@ == level@,
            r.log.log_file.is_some() && r.log.log_file.unwrap().path == log_path
                && r.log.log_file.unwrap().file_level.is_some()
                && r.log.log_file.unwrap().file_level.unwrap()@ == "Info"@,
            r.steam.cef_debug_disable == Some(false),
            r.steam.steam_launch_timeout_secs == Some(1u64),
            r.steam.steam_path.is_none(),
            r.config_file_path.is_none(),
            r.debug == 0,
            !r.marker,
    {
        Config {
            config_file_path: None,
            console: Some(false),
            tray: Some(true),
            viiper_address: Some("localhost:3242".to_owned()),
            kbm_emulation: None,
            window: WindowOpts {
                create: Some(false),
                fullscreen: Some(true),
                continous_draw: Some(false),
            },
            log: LogOpts {
                level: Some(level.to_owned()),
                log_file: Some(LogFile { path: log_path, file_level: Some("Info".to_owned()) }),
            },
            steam: SteamOpts {
                cef_debug_disable: Some(false),
                steam_launch_timeout_secs: Some(1),
                steam_path: None,
            },
            debug: 0,
            marker: false,
        }
    }

    /// The configured server address, or the default one.
    pub fn server_address(&self) -> (r: String)
        ensures
            r@ == match self.viiper_address {
                Some(a) => a@,
                None => default_address(),
            },
    {
        match &self.viiper_address {
            Some(a) => a.clone(),
            None => "localhost:3242".to_owned(),
        }
    }
}

/// The format of a settings file by its extension; see [`spec_format`].
pub fn config_format(extension: Option<&str>) -> (r: ConfigFormat)
    ensures
        r == spec_format(
            match extension {
                Some(e) => Some(e@),
                None => None,
            },
        ),
{
    match extension {
        Some(e) => {
            if same_text(e, "yaml") || same_text(e, "yml") {
                ConfigFormat::Yaml
            } else if same_text(e, "json") {
                ConfigFormat::Json
            } else {
                ConfigFormat::Toml
            }
        },
        None => ConfigFormat::Toml,
    }
}

/// The name of a settings file: the stem, a dot, the extension.
pub open spec fn spec_file_name(stem: Seq<char>, extension: Seq<char>) -> Seq<char> {
    stem + "."@ + extension
}

/// The names under which a settings file is looked for in a directory,
/// in the order in which the files are merged: `SISR` before `config`, and
/// for each of them `toml`, `yaml`, `yml`, `json`.
pub open spec fn spec_config_file_names() -> Seq<Seq<char>> {
    seq![
        spec_file_name("SISR"@, "toml"@),
        spec_file_name("SISR"@, "yaml"@),
        spec_file_name("SISR"@, "yml"@),
        spec_file_name("SISR"@, "json"@),
        spec_file_name("config"@, "toml"@),
        spec_file_name("config"@, "yaml"@),
        spec_file_name("config"@, "yml"@),
        spec_file_name("config"@, "json"@),
    ]
}

/// The name of a settings file.
fn file_name(stem: &str, extension: &str) -> (r: String)
    ensures
        r@ == spec_file_name(stem@, extension@),
{
    let mut r: String = stem.to_owned();
    push_text(&mut r, ".");
    push_text(&mut r, extension);
    r
}

/// The names under which a settings file is looked for in a directory.
pub fn config_file_names() -> (r: Vec<String>)
    ensures
        r@.len() == 8,
        forall|i: int| 0 <= i < 8 ==> (#[trigger] r@[i])@ == spec_config_file_names()[i],
{
    let mut r: Vec<String> = Vec::new();
    r.push(file_name("SISR", "toml"));
    r.push(file_name("SISR", "yaml"));
    r.push(file_name("SISR", "yml"));
    r.push(file_name("SISR", "json"));
    r.push(file_name("config", "toml"));
    r.push(file_name("config", "yaml"));
    r.push(file_name("config", "yml"));
    r.push(file_name("config", "json"));
    r
}

} // verus!
