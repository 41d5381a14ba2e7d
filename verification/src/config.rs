//! Persisted application settings.
//!
//! The settings themselves are plain values; reading and writing the
//! configuration file happens outside the library, which only defines the
//! shape and the defaults.

use vstd::prelude::*;

verus! {

/// Which release line of the instrumentation payload to follow.
#[derive(Debug, Clone, Copy, PartialEq, Eq, Structural)]
pub enum VeritasVersion {
    GlobalBeta,
    CnBeta,
    GlobalProd,
}

impl Default for VeritasVersion {
    /// The default release line.
    fn default() -> (r: Self)
        ensures
            r == VeritasVersion::GlobalBeta,
    {
        VeritasVersion::GlobalBeta
    }
}

/// The stored settings: where the game lives, and which payload release is
/// installed.
#[derive(Debug, Clone)]
pub struct Config {
    pub game_path: Option<String>,
    pub dll_version: Option<String>,
    pub version_type: Option<VeritasVersion>,
}

impl Default for Config {
    /// Empty settings: nothing chosen yet.
    fn default() -> (r: Self)
        ensures
            r.game_path is None,
            r.dll_version is None,
            r.version_type is None,
    {
        Config { game_path: None, dll_version: None, version_type: None }
    }
}

} // verus!
