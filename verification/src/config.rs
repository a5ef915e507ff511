//! The user-facing description of where the configuration file lives. The
//! path itself is found by the caller (it depends on the platform and the
//! file system); this module only words the answer.

use vstd::prelude::*;
use vstd::string::StringExecFns;

verus! {

/// A user-friendly description of where the configuration file is stored,
/// given its resolved path, or of the failure to resolve one.
pub fn get_config_location_description(path: Option<&str>) -> (r: String)
    ensures
        match path {
            Some(p) => r@ == "Configuration is stored at: "@ + p@,
            None => r@ == "Could not determine configuration location"@,
        },
{
    match path {
        Some(p) => {
            let mut s = String::from_str("Configuration is stored at: ");
            s.append(p);
            s
        },
        None => String::from_str("Could not determine configuration location"),
    }
}

} // verus!
