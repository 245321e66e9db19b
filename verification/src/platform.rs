//! The build-time configuration that the startup sequence depends on.

use vstd::prelude::*;

verus! {

/// The operating systems the bootstrapper distinguishes.  Only Linux and
/// Windows ever influence a startup decision; the remaining targets behave
/// identically, and any target not named here falls under `Other`.
#[derive(Clone, Copy, Debug, PartialEq, Eq, Structural)]
pub enum Os {
    Linux,
    Windows,
    MacOs,
    Ios,
    Android,
    Other,
}

/// What is fixed at compile time and steers the startup sequence: the
/// target operating system and whether this is a debug build.
#[derive(Clone, Copy, Debug, PartialEq, Eq, Structural)]
pub struct BuildConfig {
    pub os: Os,
    pub debug: bool,
}

/// Deep-link schemes are registered with the operating system by hand on
/// Linux, and on Windows only in debug builds; everywhere else the shell
/// framework handles them on its own and no registration call is made.
pub open spec fn deep_link_registration_enabled(cfg: BuildConfig) -> bool {
    cfg.os is Linux || (cfg.os is Windows && cfg.debug)
}

/// Decides whether startup registers the deep-link schemes itself.
pub fn should_register_deep_links(cfg: &BuildConfig) -> (enabled: bool)
    ensures
        enabled == deep_link_registration_enabled(*cfg),
{
    match cfg.os {
        Os::Linux => true,
        Os::Windows => cfg.debug,
        _ => false,
    }
}

} // verus!
