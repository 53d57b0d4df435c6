//! The update preferences of the application.

use vstd::prelude::*;

verus! {

/// Update preferences of the application.
#[derive(Debug, Clone, Copy, PartialEq, Eq, Structural)]
pub struct AppSettings {
    /// Whether updates are looked for without asking.
    pub auto_update: bool,
    /// Whether releases of the beta channel are taken too.
    pub beta_mode: bool,
}

impl AppSettings {
    /// The settings of a fresh installation: automatic updates are on and
    /// the beta channel is off.
    pub open spec fn initial() -> AppSettings {
        AppSettings { auto_update: true, beta_mode: false }
    }
}

impl Default for AppSettings {
    fn default() -> (settings: Self)
        ensures
            settings == AppSettings::initial(),
    {
        AppSettings { auto_update: true, beta_mode: false }
    }
}

/// The name of the settings file in the application's data directory.
pub open spec fn settings_file() -> Seq<char> {
    "settings.json"@
}

/// The name of the settings file in the application's data directory.
pub fn settings_file_name() -> (name: String)
    ensures
        name@ == settings_file(),
{
    "settings.json".to_owned()
}

/// What loading the settings begins with.
#[derive(Debug, Clone, Copy, PartialEq, Eq, Structural)]
pub enum SettingsLoad {
    /// There is no settings file yet: these settings are written to it and
    /// are the ones in force.
    CreateWith(AppSettings),
    /// The settings file is read and parsed.
    ReadFile,
}

/// How the settings are loaded: from the settings file where it exists,
/// else the default settings, with which the file is then created.
pub fn plan_load(file_exists: bool) -> (load: SettingsLoad)
    ensures
        load == (if file_exists {
            SettingsLoad::ReadFile
        } else {
            SettingsLoad::CreateWith(AppSettings::initial())
        }),
{
    if file_exists {
        SettingsLoad::ReadFile
    } else {
        SettingsLoad::CreateWith(AppSettings::default())
    }
}

} // verus!
