//! Where the application keeps its configuration files.
use vstd::prelude::*;
use vstd::string::StringExecFns;

verus! {

/// The directory of the application's configuration files, below the
/// user's configuration directory.
pub const CONFIG_DIR_NAME: &'static str = "finance_manager";

/// The path of the configuration file for `name`, below the user's
/// configuration directory, one entry per path component: the application's
/// directory, then `name.json`.
pub fn get_config_file(name: &str) -> (path: Vec<String>)
    ensures
        path@.len() == 2,
        path@[0]@ == CONFIG_DIR_NAME@,
        path@[1]@ == name@ + ".json"@,
{
    let dir = String::from_str(CONFIG_DIR_NAME);
    let file = String::from_str(name).concat(".json");
    vec![dir, file]
}

} // verus!
