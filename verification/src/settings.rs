//! User preferences and the rule that fills in what a settings file leaves out.

use vstd::prelude::*;

verus! {

/// How answers are entered while a question is live.
#[derive(Debug, Clone, Copy, PartialEq, Eq, Structural)]
pub enum InputMethod {
    DirectKeyboard,
    ArrowSelection,
    Hybrid,
}

/// The persisted configuration of the game.
#[derive(Debug, Clone, Copy, PartialEq, Eq, Structural)]
pub struct GameSettings {
    pub feedback_duration_seconds: u64,
    pub show_target_visual: bool,
    pub input_method: InputMethod,
    pub start_level: u32,
}

/// What a settings file holds: every key may be absent.
#[derive(Debug, Clone, Copy, PartialEq, Eq, Structural)]
pub struct SettingsFile {
    pub feedback_duration_seconds: Option<u64>,
    pub show_target_visual: Option<bool>,
    pub input_method: Option<InputMethod>,
    pub start_level: Option<u32>,
}

/// The outcome of loading the settings: the settings to use, and whether they
/// still have to be written to the file.
#[derive(Debug, Clone, Copy, PartialEq, Eq, Structural)]
pub struct LoadedSettings {
    pub settings: GameSettings,
    pub persist: bool,
}

/// The settings of a first run.
pub open spec fn default_settings() -> GameSettings {
    GameSettings {
        feedback_duration_seconds: 2,
        show_target_visual: false,
        input_method: InputMethod::Hybrid,
        start_level: 1,
    }
}

/// The value of a key of the file, or `fallback` where the file lacks the key.
pub open spec fn or_default<T>(field: Option<T>, fallback: T) -> T {
    match field {
        Some(v) => v,
        None => fallback,
    }
}

/// The settings that a file stands for: each key present is taken as it is,
/// each key absent takes its default.
pub open spec fn settings_of_file(file: SettingsFile) -> GameSettings {
    GameSettings {
        feedback_duration_seconds: or_default(
            file.feedback_duration_seconds,
            default_settings().feedback_duration_seconds,
        ),
        show_target_visual: or_default(
            file.show_target_visual,
            default_settings().show_target_visual,
        ),
        input_method: or_default(file.input_method, default_settings().input_method),
        start_level: or_default(file.start_level, default_settings().start_level),
    }
}

/// The file that holds every field of `settings`.
pub open spec fn file_of_settings(settings: GameSettings) -> SettingsFile {
    SettingsFile {
        feedback_duration_seconds: Some(settings.feedback_duration_seconds),
        show_target_visual: Some(settings.show_target_visual),
        input_method: Some(settings.input_method),
        start_level: Some(settings.start_level),
    }
}

pub fn default_feedback_duration() -> (seconds: u64)
    ensures
        seconds == default_settings().feedback_duration_seconds,
{
    2
}

pub fn default_show_target() -> (show: bool)
    ensures
        show == default_settings().show_target_visual,
{
    false
}

pub fn default_input_method() -> (method: InputMethod)
    ensures
        method == default_settings().input_method,
{
    InputMethod::Hybrid
}

pub fn default_start_level() -> (level: u32)
    ensures
        level == default_settings().start_level,
{
    1
}

impl Default for GameSettings {
    fn default() -> (settings: Self)
        ensures
            settings == default_settings(),
    {
        GameSettings {
            feedback_duration_seconds: default_feedback_duration(),
            show_target_visual: default_show_target(),
            input_method: default_input_method(),
            start_level: default_start_level(),
        }
    }
}

impl GameSettings {
    /// Reads the settings out of a parsed file, with the default for each key
    /// that the file lacks.
    pub fn from_file(file: SettingsFile) -> (settings: Self)
        ensures
            settings == settings_of_file(file),
    {
        GameSettings {
            feedback_duration_seconds: match file.feedback_duration_seconds {
                Some(seconds) => seconds,
                None => default_feedback_duration(),
            },
            show_target_visual: match file.show_target_visual {
                Some(show) => show,
                None => default_show_target(),
            },
            input_method: match file.input_method {
                Some(method) => method,
                None => default_input_method(),
            },
            start_level: match file.start_level {
                Some(level) => level,
                None => default_start_level(),
            },
        }
    }

    /// The file to write for these settings: every key present.
    pub fn to_file(&self) -> (file: SettingsFile)
        ensures
            file == file_of_settings(*self),
    {
        SettingsFile {
            feedback_duration_seconds: Some(self.feedback_duration_seconds),
            show_target_visual: Some(self.show_target_visual),
            input_method: Some(self.input_method),
            start_level: Some(self.start_level),
        }
    }

    /// Decides a load from what was found at the path: with no file there, the
    /// defaults are used and have to be written; with a file, its settings are
    /// used and nothing is written.
    pub fn resolve_load(found: Option<SettingsFile>) -> (loaded: LoadedSettings)
        ensures
            found is None ==> loaded == (LoadedSettings {
                settings: default_settings(),
                persist: true,
            }),
            found is Some ==> loaded == (LoadedSettings {
                settings: settings_of_file(found.unwrap()),
                persist: false,
            }),
    {
        match found {
            None => LoadedSettings { settings: GameSettings::default(), persist: true },
            Some(file) => LoadedSettings { settings: GameSettings::from_file(file), persist: false },
        }
    }
}

/// Settings written to a file and read back are the settings written.
pub proof fn lemma_settings_round_trip(settings: GameSettings)
    ensures
        settings_of_file(file_of_settings(settings)) == settings,
{
}

/// Every key that a file holds is read back as the value it holds, whatever
/// the other keys are.
pub proof fn lemma_present_keys_are_kept(file: SettingsFile)
    ensures
        file.feedback_duration_seconds matches Some(seconds) ==> settings_of_file(
            file,
        ).feedback_duration_seconds == seconds,
        file.show_target_visual matches Some(show) ==> settings_of_file(file).show_target_visual
            == show,
        file.input_method matches Some(method) ==> settings_of_file(file).input_method == method,
        file.start_level matches Some(level) ==> settings_of_file(file).start_level == level,
{
}

} // verus!
