//! The file names the bridge keeps beside its configuration directory. The
//! directory itself comes from the surrounding process; these functions only
//! build the paths inside it.

use vstd::prelude::*;

verus! {

/// The path of the log file inside the configuration directory.
pub fn get_log_file_path(config_dir: &str) -> (r: String)
    ensures
        r@ == config_dir@ + "/log.txt"@,
{
    let mut r = config_dir.to_owned();
    r.append("/log.txt");
    r
}

/// The path of the configuration file inside the configuration directory.
pub fn get_config_path(config_dir: &str) -> (r: String)
    ensures
        r@ == config_dir@ + "/config.json"@,
{
    let mut r = config_dir.to_owned();
    r.append("/config.json");
    r
}

} // verus!
