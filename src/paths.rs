use vstd::prelude::*;
use vstd::string::StringExecFns;

verus! {

/// Full path of the settings file inside the configuration directory.
pub fn get_settings_path(config_dir: &str) -> (r: String)
    ensures
        r@ == config_dir@ + "/settings.json"@,
{
    String::from_str(config_dir).concat("/settings.json")
}

/// Full path of the on-disk token entry inside the configuration directory.
pub fn get_token_cache_path(config_dir: &str) -> (r: String)
    ensures
        r@ == config_dir@ + "/token_cache.json"@,
{
    String::from_str(config_dir).concat("/token_cache.json")
}

/// The directory that holds the logs, inside the configuration directory.
pub fn logs_dir_path(config_dir: &str) -> (r: String)
    ensures
        r@ == config_dir@ + "/logs"@,
{
    String::from_str(config_dir).concat("/logs")
}

/// Full path of the error log inside the configuration directory.
pub fn get_error_log_path(config_dir: &str) -> (r: String)
    ensures
        r@ == config_dir@ + "/logs"@ + "/errors.json"@,
{
    logs_dir_path(config_dir).concat("/errors.json")
}

} // verus!
