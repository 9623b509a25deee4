//! The two settings of a drag, and where their file is looked for.

use vstd::prelude::*;

verus! {

/// The directory below a home directory that holds configuration files.
pub const HOME_CONFIG_DIR: &'static str = ".config";

/// The path of the configuration file below the configuration directory.
pub const CONFIG_FILE: &'static str = "linux-3-finger-drag/3fd-config.json";

/// How swipes are turned into drags.
#[derive(Clone, Copy, Debug, PartialEq, Eq, Structural)]
pub struct Configuration {
    /// The factor by which motion is scaled, in thousandths: 1000 leaves
    /// motion as the touchpad reports it.
    pub acceleration: i32,
    /// How long the button stays down after a swipe has ended on its own, in
    /// milliseconds.
    pub drag_end_delay: u64,
}

/// Why no configuration was loaded.
#[derive(Clone, Copy, Debug, PartialEq, Eq, Structural)]
pub enum ConfigError {
    /// Neither a configuration directory nor a home directory is known.
    NoHome,
    /// The file is missing or cannot be read.
    Unreadable,
    /// The file does not hold a configuration.
    Malformed,
}

/// Where the configuration directory is: the directory itself, or the home
/// directory that holds it.
#[derive(Debug)]
pub struct ConfigBase<T> {
    pub directory: T,
    /// Whether `directory` is the home directory, so that the configuration
    /// directory is `HOME_CONFIG_DIR` below it.
    pub is_home: bool,
}

impl Default for Configuration {
    /// Motion unscaled, and no delay at the end of a drag.
    fn default() -> (config: Self)
        ensures
            config == (Configuration { acceleration: 1000, drag_end_delay: 0 }),
    {
        Configuration { acceleration: 1000, drag_end_delay: 0 }
    }
}

impl Configuration {
    /// The configuration that a file holds.  Both fields are optional: one
    /// that the file leaves out has its default value.
    pub fn from_fields(acceleration: Option<i32>, drag_end_delay: Option<u64>) -> (config:
        Configuration)
        ensures
            config.acceleration == match acceleration {
                Some(factor) => factor,
                None => 1000i32,
            },
            config.drag_end_delay == match drag_end_delay {
                Some(delay) => delay,
                None => 0u64,
            },
    {
        let defaults = Configuration { acceleration: 1000, drag_end_delay: 0 };
        Configuration {
            acceleration: match acceleration {
                Some(factor) => factor,
                None => defaults.acceleration,
            },
            drag_end_delay: match drag_end_delay {
                Some(delay) => delay,
                None => defaults.drag_end_delay,
            },
        }
    }

    /// The configuration to go on with: the one that was loaded, or the
    /// default one if none was, whatever the reason.
    pub fn or_default(loaded: Result<Configuration, ConfigError>) -> (config: Configuration)
        ensures
            config == match loaded {
                Ok(c) => c,
                Err(_) => (Configuration { acceleration: 1000, drag_end_delay: 0 }),
            },
    {
        match loaded {
            Ok(c) => c,
            Err(_) => Configuration { acceleration: 1000, drag_end_delay: 0 },
        }
    }
}

/// Picks the place of the configuration directory: the directory that the
/// environment names for configuration files if it names one, else the
/// home directory, and failing both, none.
pub fn config_base<T>(config_home: Option<T>, home: Option<T>) -> (r: Result<
    ConfigBase<T>,
    ConfigError,
>)
    ensures
        match (config_home, home) {
            (Some(directory), _) => r == Ok::<ConfigBase<T>, ConfigError>(
                ConfigBase { directory, is_home: false },
            ),
            (None, Some(directory)) => r == Ok::<ConfigBase<T>, ConfigError>(
                ConfigBase { directory, is_home: true },
            ),
            (None, None) => r == Err::<ConfigBase<T>, ConfigError>(ConfigError::NoHome),
        },
{
    match config_home {
        Some(directory) => Ok(ConfigBase { directory, is_home: false }),
        None => match home {
            Some(directory) => Ok(ConfigBase { directory, is_home: true }),
            None => Err(ConfigError::NoHome),
        },
    }
}

} // verus!
