//! Addresses and configuration-file names shared by the applications.

use vstd::prelude::*;

verus! {

/// The configuration file read when the environment names none.
pub const DEFAULT_CONFIG_FILE_PATH: &'static str = "config.toml";

/// The address the load balancer listens on in production.
pub const PROD_APP_ADDRESS: &'static str = "0.0.0.0:8000";

/// The address used in tests: any free local port.
pub const TEST_APP_ADDRESS: &'static str = "127.0.0.1:0";

/// The environment variable that names the configuration file.
pub const CONFIG_FILE_NAME: &'static str = "CONFIG_FILE_NAME";

/// The configuration file to read: the one the environment names, if it
/// names one, else `config.toml`.
pub fn config_file_name(from_env: Option<String>) -> (r: String)
    ensures
        r@ == (match from_env {
            Some(s) => s@,
            None => "config.toml"@,
        }),
{
    match from_env {
        Some(s) => s,
        None => String::from_str("config.toml"),
    }
}

} // verus!
