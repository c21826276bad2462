//! Defaults of the daemon's settings.
use vstd::prelude::*;

verus! {

/// The environment variable that names the configuration file.
pub const PD_CONFIG_VAR: &'static str = "PD_CONFIG";

/// The configuration file read when `PD_CONFIG` is unset or empty.
pub const PD_CONFIG_DEFAULT_PATH: &'static str = "/etc/purpledrop/default.toml";

/// The directory of static web files served by default.
pub const PD_STATIC_DIR_DEFAULT_PATH: &'static str = "/usr/share/purpledrop/webroot";

/// The default number of server threads.
pub fn default_threads() -> (n: usize)
    ensures
        n == 4,
{
    4
}

/// The default directory of static web files.
pub fn default_static_dir() -> (dir: String)
    ensures
        dir@ == PD_STATIC_DIR_DEFAULT_PATH@,
{
    PD_STATIC_DIR_DEFAULT_PATH.to_owned()
}

} // verus!
