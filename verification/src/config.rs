//! The launcher's configuration.

use vstd::prelude::*;

verus! {

/// The argument profile that the tool is started with.
#[derive(Clone, Copy, Debug, PartialEq, Eq, Structural)]
pub enum Mode {
    /// The profile that suits most providers.
    General,
    /// The profile tuned for Beeline.
    Beeline,
    /// The profile tuned for MGTS.
    Mgts,
}

/// What the configuration file holds.
#[derive(Clone, Copy, Debug, PartialEq, Eq, Structural)]
pub struct Config {
    /// The selected profile.
    pub mode: Mode,
}

impl Default for Config {
    /// The configuration that is written when none exists yet: the general
    /// profile.
    fn default() -> (config: Config)
        ensures
            config == (Config { mode: Mode::General }),
    {
        Config { mode: Mode::General }
    }
}

} // verus!
