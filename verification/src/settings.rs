//! The settings that the core reads, and how the user's changes apply to
//! them.  Reading and writing the settings file is the caller's part.

use vstd::prelude::*;
use vstd::string::StringExecFns;

verus! {

/// What the user has set.
#[derive(Debug, PartialEq, Eq)]
pub struct Settings {
    /// The key for the transcription service, once the user has given one.
    pub groq_api_key: Option<String>,
    /// Keep a record of every session.
    pub save_history: bool,
    /// Keep the recording of every session that is recorded in the history.
    pub save_audio: bool,
}

/// Settings, as plain values.
pub struct SettingsModel {
    pub groq_api_key: Option<Seq<char>>,
    pub save_history: bool,
    pub save_audio: bool,
}

impl View for Settings {
    type V = SettingsModel;

    open spec fn view(&self) -> SettingsModel {
        SettingsModel {
            groq_api_key: match self.groq_api_key {
                Some(key) => Some(key@),
                None => None,
            },
            save_history: self.save_history,
            save_audio: self.save_audio,
        }
    }
}

impl Default for Settings {
    /// No key, and nothing kept.
    fn default() -> (settings: Self)
        ensures
            settings@ == (SettingsModel {
                groq_api_key: None,
                save_history: false,
                save_audio: false,
            }),
    {
        Settings { groq_api_key: None, save_history: false, save_audio: false }
    }
}

/// The settings of a user who has set nothing: no key, and everything kept.
pub open spec fn initial_settings() -> SettingsModel {
    SettingsModel { groq_api_key: None, save_history: true, save_audio: true }
}

/// The settings in force: those stored, or the initial ones where nothing
/// readable is stored.
pub open spec fn settings_in_force(stored: Option<SettingsModel>) -> SettingsModel {
    match stored {
        Some(settings) => settings,
        None => initial_settings(),
    }
}

/// The settings after the user saved a key and, for each switch, either a
/// new position or none.
pub open spec fn settings_saved(
    current: SettingsModel,
    groq_api_key: Seq<char>,
    save_history: Option<bool>,
    save_audio: Option<bool>,
) -> SettingsModel {
    SettingsModel {
        groq_api_key: Some(groq_api_key),
        save_history: match save_history {
            Some(value) => value,
            None => current.save_history,
        },
        save_audio: match save_audio {
            Some(value) => value,
            None => current.save_audio,
        },
    }
}

/// The settings in force: `stored` is what the settings file holds, or
/// `None` where there is no file or it does not read as settings.
pub fn load_settings(stored: Option<Settings>) -> (settings: Settings)
    ensures
        settings@ == settings_in_force(
            match stored {
                Some(found) => Some(found@),
                None => None,
            },
        ),
{
    match stored {
        Some(found) => found,
        None => Settings { groq_api_key: None, save_history: true, save_audio: true },
    }
}

/// The settings in force, for the user interface.
pub fn get_settings(stored: Option<Settings>) -> (settings: Result<Settings, String>)
    ensures
        settings is Ok,
        settings->Ok_0@ == settings_in_force(
            match stored {
                Some(found) => Some(found@),
                None => None,
            },
        ),
{
    Ok(load_settings(stored))
}

/// Applies what the user saved: the key always, each switch where a position
/// was given.
pub fn save_settings(
    current: Settings,
    groq_api_key: String,
    save_history: Option<bool>,
    save_audio: Option<bool>,
) -> (settings: Settings)
    ensures
        settings@ == settings_saved(current@, groq_api_key@, save_history, save_audio),
{
    let mut settings = current;
    settings.groq_api_key = Some(groq_api_key);
    if let Some(value) = save_history {
        settings.save_history = value;
    }
    if let Some(value) = save_audio {
        settings.save_audio = value;
    }
    settings
}

/// Forgets the key and keeps everything again.
pub fn reset_settings(current: Settings) -> (settings: Settings)
    ensures
        settings@ == initial_settings(),
{
    let mut settings = current;
    settings.groq_api_key = None;
    settings.save_history = true;
    settings.save_audio = true;
    settings
}

/// Name of the directory, under the user's configuration directory, that
/// holds the application's files.
pub fn config_dir_name() -> (name: &'static str)
    ensures
        name@ == "vwisper"@,
{
    "vwisper"
}

/// Name of the settings file in that directory.
pub fn settings_file_name() -> (name: &'static str)
    ensures
        name@ == "settings.json"@,
{
    "settings.json"
}

} // verus!
