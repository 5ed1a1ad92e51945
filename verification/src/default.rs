//! Values used where a configuration names none.
use vstd::prelude::*;

verus! {

/// Name of the environment variable through which a command learns its target.
pub const TARGET_ENV_VAR: &'static str = "TARGET";

/// Name of the configuration file inside the configuration directory.
pub const CONFIG_FILE_NAME: &'static str = "config.toml";

} // verus!
