//! A native plugin host: the plugin contract, a lifecycle-managing registry,
//! call-bridge marshaling checks, and per-entity data caches, each stated
//! with contracts over mathematical models.

pub mod bridge;
pub mod cache;
pub mod host;
pub mod item_mod;
pub mod memory;
pub mod mod_api;
pub mod table;
pub mod utility_mod;

use vstd::prelude::*;

verus! {

/// The version of this loader, never empty.
pub fn version() -> (r: &'static str)
    ensures
        r@ == "0.1.0"@,
        r@.len() > 0,
{
    proof {
        reveal_strlit("0.1.0");
    }
    "0.1.0"
}

/// The status text that the loader reports once initialized with the
/// configuration at `config_path`.
pub fn initialization_status(config_path: &str) -> (r: String)
    ensures
        r@ == "SandyLoader initialized with config at: "@ + config_path@,
{
    let mut r = String::from_str("SandyLoader initialized with config at: ");
    r.append(config_path);
    r
}

} // verus!
