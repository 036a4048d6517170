//! What the entry points of the host decide before they start it.

use vstd::prelude::*;
use vstd::string::*;

verus! {

/// Name of the variable through which a debug build is pointed at a
/// managed configuration file of its own.
pub const MANAGED_CONFIG_PATH_ENV_VAR: &'static str = "CODEX_APP_SERVER_MANAGED_CONFIG_PATH";

/// The managed configuration file that the environment names: the value
/// of the variable, in a debug build and where the value is not empty.
pub fn managed_config_path_from_debug_env(debug_build: bool, value: Option<String>) -> (path:
    Option<String>)
    ensures
        path == (if debug_build && value is Some && value->0@.len() > 0 {
            value
        } else {
            None
        }),
{
    if !debug_build {
        return None;
    }
    match value {
        Some(text) => {
            if text.as_str().is_empty() {
                None
            } else {
                Some(text)
            }
        },
        None => None,
    }
}

/// The configuration overrides of a command: those given before the
/// command, then those given to the command itself.
pub fn merge_config_overrides(root: Vec<String>, inner: Vec<String>) -> (all: Vec<String>)
    ensures
        all@ == root@ + inner@,
{
    let mut all = root;
    let mut inner = inner;
    all.append(&mut inner);
    all
}

} // verus!
