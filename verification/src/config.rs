//! Settings read from the configuration file, and how they combine with the
//! command line.

use vstd::prelude::*;
use crate::text::opt_text;

verus! {

/// Endpoint of the control plane when neither the command line nor the
/// configuration file names one.
pub const DEFAULT_API_URL: &'static str = "https://[::1]:8443";

/// What the configuration file may set. Every setting is optional.
#[derive(Debug, Clone)]
pub struct Config {
    pub api_url: Option<String>,
    pub refresh_interval_secs: Option<u64>,
    pub theme: Option<String>,
}

/// A configuration as a mathematical value.
pub struct ConfigView {
    pub api_url: Option<Seq<char>>,
    pub refresh_interval_secs: Option<u64>,
    pub theme: Option<Seq<char>>,
}

impl View for Config {
    type V = ConfigView;

    open spec fn view(&self) -> ConfigView {
        ConfigView {
            api_url: opt_text(self.api_url),
            refresh_interval_secs: self.refresh_interval_secs,
            theme: opt_text(self.theme),
        }
    }
}

impl ConfigView {
    /// The configuration that sets nothing.
    pub open spec fn unset() -> ConfigView {
        ConfigView { api_url: None, refresh_interval_secs: None, theme: None }
    }
}

impl Default for Config {
    /// The configuration that sets nothing.
    fn default() -> (config: Config)
        ensures
            config@ == ConfigView::unset(),
    {
        Config { api_url: None, refresh_interval_secs: None, theme: None }
    }
}

/// What was found where the configuration file is looked for.
#[derive(Debug, Clone)]
pub enum ConfigFile {
    /// No location to look at, or no file there.
    Missing,
    /// A file that is there but could not be read, and why.
    Unreadable(String),
    /// A file whose content is not a configuration.
    Malformed,
    /// A file that holds this configuration.
    Parsed(Config),
}

/// Why there is no configuration to run with.
#[derive(Debug, Clone)]
pub enum ConfigError {
    /// The configuration file is there but could not be read, and why.
    Unreadable(String),
}

/// The outcome of loading as a mathematical value: the configuration, or
/// the reason why the file could not be read.
pub open spec fn loaded(outcome: Result<Config, ConfigError>) -> Result<ConfigView, Seq<char>> {
    match outcome {
        Ok(config) => Ok(config@),
        Err(ConfigError::Unreadable(reason)) => Err(reason@),
    }
}

/// The configuration to run with, given what was found where the file is
/// looked for. A file that holds a configuration gives it. No file, or a file
/// whose content is not a configuration, gives the defaults: a bad file never
/// stops the program. Only a file that is there and cannot be read is an
/// error.
pub open spec fn spec_load_config(found: ConfigFile) -> Result<ConfigView, Seq<char>> {
    match found {
        ConfigFile::Parsed(parsed) => Ok(parsed@),
        ConfigFile::Missing | ConfigFile::Malformed => Ok(ConfigView::unset()),
        ConfigFile::Unreadable(reason) => Err(reason@),
    }
}

/// The place to look for the configuration file: the one named on the
/// command line if there is one, else the default location if the platform
/// has one.
pub fn config_location(named: Option<String>, default_location: Option<String>) -> (location:
    Option<String>)
    ensures
        location == if named is Some {
            named
        } else {
            default_location
        },
{
    match named {
        Some(path) => Some(path),
        None => default_location,
    }
}

/// The configuration to run with, given what was found where the file is
/// looked for.
pub fn load_config(found: ConfigFile) -> (outcome: Result<Config, ConfigError>)
    ensures
        loaded(outcome) == spec_load_config(found),
{
    match found {
        ConfigFile::Parsed(parsed) => Ok(parsed),
        ConfigFile::Missing | ConfigFile::Malformed => Ok(Config::default()),
        ConfigFile::Unreadable(reason) => Err(ConfigError::Unreadable(reason)),
    }
}

/// The endpoint to connect to: the one from the command line or the
/// environment if given, else the one from the configuration if it sets one,
/// else [`DEFAULT_API_URL`].
pub open spec fn resolved_api_url(given: Option<Seq<char>>, config: ConfigView) -> Seq<char> {
    match given {
        Some(url) => url,
        None => match config.api_url {
            Some(url) => url,
            None => DEFAULT_API_URL@,
        },
    }
}

impl Config {
    /// The endpoint to connect to, `given` being what the command line or
    /// the environment named.
    pub fn resolve_api_url(&self, given: Option<String>) -> (url: String)
        ensures
            url@ == resolved_api_url(opt_text(given), self@),
    {
        match given {
            Some(url) => url,
            None => match &self.api_url {
                Some(url) => url.clone(),
                None => DEFAULT_API_URL.to_owned(),
            },
        }
    }
}

} // verus!
