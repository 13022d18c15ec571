//! The variables of the environment that say where the user's files are.

use crate::paths::{joined_path, path_from, path_join, path_of};
use std::path::PathBuf;
use vstd::prelude::*;

verus! {

/// A variable of the environment that holds a directory.
#[derive(Copy, Clone, Debug, PartialEq, Eq, Structural)]
pub enum ConfigEnvKey {
    Home,
    XDGConfig,
    XDGData,
    XDGState,
}

/// Why a variable gave no directory.
#[derive(Copy, Clone, Debug, PartialEq, Eq, Structural)]
pub enum ConfigError {
    Generic,
}

/// The name of the variable.
pub open spec fn key_name(key: ConfigEnvKey) -> Seq<char> {
    match key {
        ConfigEnvKey::Home => "HOME"@,
        ConfigEnvKey::XDGConfig => "XDG_CONFIG_HOME"@,
        ConfigEnvKey::XDGData => "XDG_DATA_HOME"@,
        ConfigEnvKey::XDGState => "XDG_STATE_HOME"@,
    }
}

/// The directory that a variable stands for, given its value and that of
/// `HOME`. A variable that is set names it. The configuration directory
/// falls back on `.config` under the home directory; the others have no
/// fallback.
pub open spec fn directory_for(
    key: ConfigEnvKey,
    value: Option<Seq<char>>,
    home: Option<Seq<char>>,
) -> Result<PathBuf, ConfigError> {
    match value {
        Some(text) => Ok(path_of(text)),
        None => match (key, home) {
            (ConfigEnvKey::XDGConfig, Some(h)) => Ok(path_join(path_of(h), ".config"@)),
            _ => Err(ConfigError::Generic),
        },
    }
}

impl ConfigEnvKey {
    /// The name of the variable.
    pub fn as_str(&self) -> (r: &'static str)
        ensures
            r@ == key_name(*self),
    {
        match self {
            Self::Home => "HOME",
            Self::XDGConfig => "XDG_CONFIG_HOME",
            Self::XDGData => "XDG_DATA_HOME",
            Self::XDGState => "XDG_STATE_HOME",
        }
    }

    /// The value that stands for a variable that is not set: empty for all.
    pub fn default_value(&self) -> (r: &'static str)
        ensures
            r@ == ""@,
    {
        match self {
            Self::Home => "",
            Self::XDGConfig => "",
            Self::XDGData => "",
            Self::XDGState => "",
        }
    }

    /// The directory that the variable stands for, given its value and that
    /// of `HOME`, each `None` where the variable is not set.
    pub fn directory(self, value: Option<String>, home: Option<String>) -> (r: Result<
        PathBuf,
        ConfigError,
    >)
        ensures
            r == directory_for(
                self,
                match value {
                    Some(v) => Some(v@),
                    None => None,
                },
                match home {
                    Some(h) => Some(h@),
                    None => None,
                },
            ),
    {
        match value {
            Some(text) => Ok(path_from(text)),
            None => match self {
                Self::XDGConfig => match home {
                    Some(h) => Ok(joined_path(&path_from(h), ".config")),
                    None => Err(ConfigError::Generic),
                },
                _ => Err(ConfigError::Generic),
            },
        }
    }
}

} // verus!
