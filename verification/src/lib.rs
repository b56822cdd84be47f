//! A small persistent configuration store: where the configuration file
//! lives, what has to be created on a first run, and the key/value table that
//! is loaded from the file, read and changed in memory, and turned back into
//! text to be saved.
//!
//! The library touches neither the disk nor the application's shared state.
//! Its caller looks at the disk, hands over what it found, and carries out
//! what the library answers.

pub mod config;
pub mod paths;
pub mod setup;
pub mod table;

pub use config::{get_config_str, Config, ConfigError};
pub use paths::{get_app_config_dir, get_app_config_file, APPID, CONFIG_FILE};
pub use setup::{check_config, ConfigCheck};
