//! Where the projects and the configuration file are looked for.

use crate::config::ConfigError;
use crate::paths::{joined_path, path_join};
use std::path::PathBuf;
use vstd::prelude::*;

verus! {

/// The projects root: the one given on the command line, or else the one
/// that the configuration names.
pub fn projects_dir(given: Option<PathBuf>, configured: Option<PathBuf>) -> (r: Option<PathBuf>)
    ensures
        r == match given {
            Some(dir) => Some(dir),
            None => configured,
        },
{
    match given {
        Some(dir) => Some(dir),
        None => configured,
    }
}

/// The projects root after the user picked one: the picked directory in
/// canonical form, or the root as it was where the picked one has none.
pub fn picked_projects_dir(current: PathBuf, canonical: Option<PathBuf>) -> (r: PathBuf)
    ensures
        r == match canonical {
            Some(dir) => dir,
            None => current,
        },
{
    match canonical {
        Some(dir) => dir,
        None => current,
    }
}

/// What is to exist before the configuration is read, and where it is read from.
#[derive(Debug, PartialEq, Eq)]
pub struct ConfigPlan {
    /// The directory to create where it is missing.
    pub directory: Option<PathBuf>,
    /// The file to create where it is missing.
    pub file: Option<PathBuf>,
    /// The path that the configuration is read from.
    pub config_path: PathBuf,
}

/// The plan for a user who named no configuration file. Where the
/// configuration directory `xdg` exists, the file is `config.toml` in its
/// directory `mukduk`. Otherwise the file is `.mukdukrc.toml` in the home
/// directory, where that exists, and the path read from stays `xdg`.
pub open spec fn default_plan(xdg: PathBuf, xdg_exists: bool, home: Option<PathBuf>, home_exists: bool)
    -> Result<ConfigPlan, ConfigError> {
    if xdg_exists {
        let directory = path_join(xdg, "mukduk"@);
        let file = path_join(directory, "config.toml"@);
        Ok(ConfigPlan { directory: Some(directory), file: Some(file), config_path: file })
    } else {
        match home {
            None => Err(ConfigError::Generic),
            Some(h) => Ok(
                ConfigPlan {
                    directory: None,
                    file: if home_exists {
                        Some(path_join(h, ".mukdukrc.toml"@))
                    } else {
                        None
                    },
                    config_path: xdg,
                },
            ),
        }
    }
}

/// Plans where the configuration is read from when the user named no file,
/// given the configuration directory and the home directory and whether
/// each exists.
pub fn default_config_plan(xdg: PathBuf, xdg_exists: bool, home: Option<PathBuf>, home_exists: bool)
    -> (r: Result<ConfigPlan, ConfigError>)
    ensures
        r == default_plan(xdg, xdg_exists, home, home_exists),
{
    if xdg_exists {
        let directory = joined_path(&xdg, "mukduk");
        let file = joined_path(&directory, "config.toml");
        Ok(ConfigPlan { directory: Some(directory), file: Some(file.clone()), config_path: file })
    } else {
        match home {
            None => Err(ConfigError::Generic),
            Some(h) => {
                let file = if home_exists {
                    Some(joined_path(&h, ".mukdukrc.toml"))
                } else {
                    None
                };
                Ok(ConfigPlan { directory: None, file, config_path: xdg })
            },
        }
    }
}

/// What comes of the configuration file that the user named.
#[derive(Debug, PartialEq, Eq)]
pub enum NamedConfig {
    /// The file is read from this path.
    Use(PathBuf),
    /// The path has no canonical form: nothing is set.
    Ignore,
    /// The file does not exist: the program ends with a complaint.
    Missing,
}

/// Decides what comes of the configuration file that the user named, given
/// its canonical form, where it has one, and whether that exists.
pub fn named_config(canonical: Option<PathBuf>, exists: bool) -> (r: NamedConfig)
    ensures
        r == match canonical {
            None => NamedConfig::Ignore,
            Some(path) => if exists { NamedConfig::Use(path) } else { NamedConfig::Missing },
        },
{
    match canonical {
        None => NamedConfig::Ignore,
        Some(path) => if exists {
            NamedConfig::Use(path)
        } else {
            NamedConfig::Missing
        },
    }
}

} // verus!
