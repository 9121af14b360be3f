//! The first decision of a run: launch, or set up the configuration.

use vstd::prelude::*;
use crate::config::{Config, Mode};

verus! {

/// What a run does once it knows whether a configuration exists.
#[derive(Clone, Copy, Debug, PartialEq, Eq, Structural)]
pub enum Startup {
    /// Start the tool with this configuration.
    Launch(Config),
    /// Write this configuration, tell the user, and stop.
    CreateConfig(Config),
}

/// The step that follows from the configuration that was read, if any.
pub open spec fn startup_of(existing: Option<Config>) -> Startup {
    match existing {
        Some(config) => Startup::Launch(config),
        None => Startup::CreateConfig(Config { mode: Mode::General }),
    }
}

/// Decides what a run does.
///
/// With a configuration the tool is launched under it. Without one the
/// default configuration is to be written and nothing is launched.
pub fn startup(existing: Option<Config>) -> (step: Startup)
    ensures
        step == startup_of(existing),
{
    match existing {
        Some(config) => Startup::Launch(config),
        None => Startup::CreateConfig(Config::default()),
    }
}

/// The extension of the configuration file, which carries the launcher's own
/// name.
pub fn config_extension() -> (extension: &'static str)
    ensures
        extension@ == "json"@,
{
    "json"
}

/// The text shown to the user after the default configuration was written.
pub fn config_created_notice() -> (notice: &'static str)
    ensures
        notice@
            == "Конфигурационный файл создан. Пожалуйста, настройте его и перезапустите приложение."@,
{
    "Конфигурационный файл создан. Пожалуйста, настройте его и перезапустите приложение."
}

} // verus!
