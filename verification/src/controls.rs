//! What a shell asks of the engine besides play itself: keys, the settings
//! screen, the way back to the menu, and the file that a sound is played
//! from. The shell reads keys and clocks and touches files; what is decided
//! on them is decided here.

use crate::game::GameEngine;
use crate::model::{is_question, EngineView, QuestionView};
use crate::settings::{GameSettings, InputMethod};
use crate::state::{
    GameStatus, GameVariant, SessionState, SoundEvent, SoundView, StatusView,
};
use crate::text::push_char;
use vstd::prelude::*;
use vstd::string::*;

verus! {

/// A key press, as far as the game tells keys apart.
#[derive(Debug, Clone, Copy, PartialEq, Eq, Structural)]
pub enum Key {
    Char(char),
    Left,
    Right,
    Enter,
    Esc,
    Other,
}

/// What the shell has to do after a key.
#[derive(Debug, Clone, Copy, PartialEq, Eq, Structural)]
pub enum ShellAction {
    /// Nothing but to go on.
    Continue,
    /// Leave the program.
    Quit,
    /// Write the settings to their file.
    SaveSettings,
    /// Write the settings to the export file, and report with
    /// `settings_exported`.
    ExportSettings,
    /// Read the settings from the export file, and report with
    /// `settings_imported`.
    ImportSettings,
}

/// The feedback duration that follows `seconds` on the settings screen: one,
/// two, three and five seconds in a circle, and one second after anything
/// else.
pub open spec fn next_feedback_duration(seconds: u64) -> u64 {
    if seconds == 1 {
        2
    } else if seconds == 2 {
        3
    } else if seconds == 3 {
        5
    } else {
        1
    }
}

/// The input method that follows `method` on the settings screen.
pub open spec fn next_input_method(method: InputMethod) -> InputMethod {
    match method {
        InputMethod::DirectKeyboard => InputMethod::ArrowSelection,
        InputMethod::ArrowSelection => InputMethod::Hybrid,
        InputMethod::Hybrid => InputMethod::DirectKeyboard,
    }
}

/// The start level that follows `level` on the settings screen: the next
/// one, and the first after the boss level.
pub open spec fn next_start_level(level: u32) -> u32 {
    if level >= 4 {
        1
    } else {
        (level + 1) as u32
    }
}

/// The settings after the key `c` on the settings screen, where `1` to `4`
/// each change one of them.
pub open spec fn settings_after_key(settings: GameSettings, c: char) -> GameSettings {
    if c == '1' {
        GameSettings { show_target_visual: !settings.show_target_visual, ..settings }
    } else if c == '2' {
        GameSettings {
            feedback_duration_seconds: next_feedback_duration(settings.feedback_duration_seconds),
            ..settings
        }
    } else if c == '3' {
        GameSettings { input_method: next_input_method(settings.input_method), ..settings }
    } else if c == '4' {
        GameSettings { start_level: next_start_level(settings.start_level), ..settings }
    } else {
        settings
    }
}

/// Whether arrows and Enter answer under this input method.
pub open spec fn takes_arrows(method: InputMethod) -> bool {
    method != InputMethod::DirectKeyboard
}

/// Whether typed characters answer under this input method.
pub open spec fn takes_characters(method: InputMethod) -> bool {
    method != InputMethod::ArrowSelection
}

/// The variant that a name stands for: `Letters` for letters, and numbers for
/// any other name.
pub open spec fn variant_of_name(name: Seq<char>) -> GameVariant {
    if name == "Letters"@ {
        GameVariant::Letters
    } else {
        GameVariant::Numbers
    }
}

/// The file that a sound is played from, if it has one.
pub open spec fn sound_file(sound: SoundView) -> Option<Seq<char>> {
    match sound {
        SoundView::Silent => None,
        SoundView::PlaySuccess => Some("assets/sounds/success.wav"@),
        SoundView::PlayFailure => Some("assets/sounds/failure.wav"@),
        SoundView::SayPrompt(text) => Some("assets/sounds/prompts/"@ + text + ".wav"@),
        SoundView::GameStart => None,
        SoundView::LevelComplete => Some("assets/sounds/complete.wav"@),
    }
}

impl EngineView {
    /// Back at the menu: the session is gone.
    pub open spec fn reset_to_menu(self) -> EngineView {
        EngineView { status: StatusView::Menu, session: None, ..self }
    }

    /// The settings screen, with no message.
    pub open spec fn go_to_settings(self) -> EngineView {
        EngineView { status: StatusView::Settings { message: None }, ..self }
    }

    /// New settings are taken and the menu is shown.
    pub open spec fn apply_settings(self, settings: GameSettings) -> EngineView {
        EngineView { settings, ..self.reset_to_menu() }
    }

    /// Whether `proceed` draws a new question.
    pub open spec fn proceed_draws(self) -> bool {
        match self.status {
            StatusView::LevelComplete { .. } => self.advance_draws(),
            StatusView::Feedback { .. } => self.next_level_draws(),
            _ => false,
        }
    }

    /// Whether the counters that `proceed` raises stay within 32 bits.
    pub open spec fn proceed_fits(self) -> bool {
        match self.status {
            StatusView::LevelComplete { .. } => self.advance_fits(),
            StatusView::Feedback { .. } => self.next_level_fits(),
            _ => true,
        }
    }

    /// The game goes on from where it waits: from the summary of a level as
    /// `advance_to_next_level_or_retry` does, from feedback as `next_level`
    /// does, and not at all from anywhere else.
    pub open spec fn proceed(self, question: QuestionView) -> EngineView {
        match self.status {
            StatusView::LevelComplete { .. } => self.advance_to_next_level_or_retry(question),
            StatusView::Feedback { .. } => self.next_level(question),
            _ => self,
        }
    }

    /// The export of the settings is reported on the settings screen; on
    /// any other screen the report is dropped.
    pub open spec fn settings_exported(self, failure: Option<Seq<char>>) -> EngineView {
        if self.status is Settings {
            EngineView {
                status: StatusView::Settings {
                    message: Some(
                        match failure {
                            None => "Exported to letterlanders_settings_export.json"@,
                            Some(reason) => "Export failed: "@ + reason,
                        },
                    ),
                },
                ..self
            }
        } else {
            self
        }
    }

    /// The import of the settings is reported on the settings screen, and
    /// settings that were read are taken; on any other screen the report is
    /// dropped.
    pub open spec fn settings_imported(self, loaded: Option<GameSettings>) -> EngineView {
        if self.status is Settings {
            match loaded {
                Some(settings) => EngineView {
                    status: StatusView::Settings {
                        message: Some("Settings imported successfully!"@),
                    },
                    settings,
                    ..self
                },
                None => EngineView {
                    status: StatusView::Settings {
                        message: Some("Import failed: file not found or invalid"@),
                    },
                    ..self
                },
            }
        } else {
            self
        }
    }

    /// Whether the feedback on screen has been shown for as long as the
    /// settings ask.
    pub open spec fn feedback_is_over(self, shown_seconds: nat) -> bool {
        self.status is Feedback && shown_seconds >= self.settings.feedback_duration_seconds
    }

    /// Whether the key starts a game or draws a question in another way.
    pub open spec fn key_draws(self, key: Key) -> bool {
        match self.status {
            StatusView::Menu => key == Key::Char('n') || key == Key::Char('N') || key == Key::Char(
                'l',
            ) || key == Key::Char('L'),
            StatusView::LevelComplete { .. } => key == Key::Enter && self.advance_draws(),
            _ => false,
        }
    }

    /// Whether the counters that `handle_key` raises stay within 32 bits.
    pub open spec fn key_fits(self, key: Key) -> bool {
        match (self.status, key) {
            (StatusView::Playing, Key::Char(c)) => takes_characters(self.settings.input_method)
                ==> self.answer_fits(seq![c]),
            (StatusView::Playing, Key::Enter) => takes_arrows(self.settings.input_method)
                ==> self.selection_fits(),
            (StatusView::LevelComplete { .. }, Key::Enter) => self.advance_fits(),
            _ => true,
        }
    }

    /// What the shell has to do after the key.
    pub open spec fn action_of_key(self, key: Key) -> ShellAction {
        match (self.status, key) {
            (StatusView::Menu, Key::Char(c)) => if c == 'q' {
                ShellAction::Quit
            } else {
                ShellAction::Continue
            },
            (StatusView::Menu, Key::Esc) => ShellAction::Quit,
            (StatusView::Settings { .. }, Key::Char(c)) => if c == '5' {
                ShellAction::ExportSettings
            } else if c == '6' {
                ShellAction::ImportSettings
            } else {
                ShellAction::Continue
            },
            (StatusView::Settings { .. }, Key::Esc) => ShellAction::SaveSettings,
            _ => ShellAction::Continue,
        }
    }

    /// The engine after the key; `question` is the one drawn where the key
    /// draws one.
    pub open spec fn handle_key(self, key: Key, question: QuestionView) -> EngineView {
        match self.status {
            StatusView::Menu => match key {
                Key::Char(c) => if c == 'n' || c == 'N' {
                    self.start_game(GameVariant::Numbers, question)
                } else if c == 'l' || c == 'L' {
                    self.start_game(GameVariant::Letters, question)
                } else if c == 's' || c == 'S' {
                    self.go_to_settings()
                } else {
                    self
                },
                _ => self,
            },
            StatusView::Settings { .. } => match key {
                Key::Char(c) => if c == '1' || c == '2' || c == '3' || c == '4' {
                    EngineView {
                        settings: settings_after_key(self.settings, c),
                        ..self.go_to_settings()
                    }
                } else {
                    self
                },
                Key::Esc => self.reset_to_menu(),
                _ => self,
            },
            StatusView::Playing => match key {
                Key::Left => if takes_arrows(self.settings.input_method) {
                    self.move_selection(-1)
                } else {
                    self
                },
                Key::Right => if takes_arrows(self.settings.input_method) {
                    self.move_selection(1)
                } else {
                    self
                },
                Key::Enter => if takes_arrows(self.settings.input_method) {
                    self.submit_current_selection()
                } else {
                    self
                },
                Key::Char(c) => if takes_characters(self.settings.input_method) {
                    self.submit_answer(seq![c])
                } else {
                    self
                },
                Key::Esc => self.reset_to_menu(),
                Key::Other => self,
            },
            StatusView::Feedback { .. } => match key {
                Key::Esc => self.reset_to_menu(),
                _ => self,
            },
            StatusView::LevelComplete { .. } => match key {
                Key::Enter => self.advance_to_next_level_or_retry(question),
                Key::Esc => self.reset_to_menu(),
                _ => self,
            },
            StatusView::SessionComplete { .. } => match key {
                Key::Char(c) => if c == 'm' || c == 'M' {
                    self.reset_to_menu()
                } else {
                    self
                },
                Key::Esc => self.reset_to_menu(),
                _ => self,
            },
            StatusView::About => match key {
                Key::Esc => self.reset_to_menu(),
                _ => self,
            },
        }
    }
}

impl InputMethod {
    /// Whether arrows and Enter answer under this input method, so that the
    /// cursor is shown.
    pub fn takes_arrows(self) -> (taken: bool)
        ensures
            taken == takes_arrows(self),
    {
        self != InputMethod::DirectKeyboard
    }

    /// Whether typed characters answer under this input method.
    pub fn takes_characters(self) -> (taken: bool)
        ensures
            taken == takes_characters(self),
    {
        self != InputMethod::ArrowSelection
    }

    /// The input method that follows this one on the settings screen.
    pub fn next(self) -> (method: InputMethod)
        ensures
            method == next_input_method(self),
    {
        match self {
            InputMethod::DirectKeyboard => InputMethod::ArrowSelection,
            InputMethod::ArrowSelection => InputMethod::Hybrid,
            InputMethod::Hybrid => InputMethod::DirectKeyboard,
        }
    }
}

impl GameSettings {
    /// The settings after the key `c` on the settings screen.
    pub fn after_key(self, c: char) -> (settings: GameSettings)
        ensures
            settings == settings_after_key(self, c),
    {
        let mut settings = self;
        if c == '1' {
            settings.show_target_visual = !self.show_target_visual;
        } else if c == '2' {
            settings.feedback_duration_seconds = match self.feedback_duration_seconds {
                1 => 2,
                2 => 3,
                3 => 5,
                _ => 1,
            };
        } else if c == '3' {
            settings.input_method = self.input_method.next();
        } else if c == '4' {
            settings.start_level = if self.start_level >= 4 {
                1
            } else {
                self.start_level + 1
            };
        }
        settings
    }
}

impl GameVariant {
    /// The variant that a name stands for.
    pub fn from_name(name: &str) -> (variant: GameVariant)
        ensures
            variant == variant_of_name(name@),
    {
        if crate::text::eq_text(name, "Letters") {
            GameVariant::Letters
        } else {
            GameVariant::Numbers
        }
    }
}

impl SessionState {
    /// The seconds left on the clock of the level, if the level has a time
    /// limit: none once the limit is reached.
    pub fn remaining_time(&self) -> (left: Option<u64>)
        ensures
            left is Some <==> self.level_time_limit is Some,
            left matches Some(seconds) ==> seconds == if self.level_elapsed_time
                >= self.level_time_limit.unwrap() {
                0
            } else {
                self.level_time_limit.unwrap() - self.level_elapsed_time
            },
    {
        match self.level_time_limit {
            Some(limit) => Some(
                if self.level_elapsed_time >= limit {
                    0
                } else {
                    limit - self.level_elapsed_time
                },
            ),
            None => None,
        }
    }
}

impl SoundEvent {
    /// The file that this sound is played from, if it has one.
    pub fn asset_path(&self) -> (path: Option<String>)
        ensures
            path is Some <==> sound_file(self@) is Some,
            path matches Some(text) ==> text@ == sound_file(self@).unwrap(),
    {
        match self {
            SoundEvent::Silent => None,
            SoundEvent::PlaySuccess => Some(String::from_str("assets/sounds/success.wav")),
            SoundEvent::PlayFailure => Some(String::from_str("assets/sounds/failure.wav")),
            SoundEvent::SayPrompt(text) => {
                let mut path = String::from_str("assets/sounds/prompts/");
                path.append(text.as_str());
                path.append(".wav");
                Some(path)
            },
            SoundEvent::GameStart => None,
            SoundEvent::LevelComplete => Some(String::from_str("assets/sounds/complete.wav")),
        }
    }
}

impl GameEngine {
    /// Returns to the menu and drops the session.
    pub fn reset_to_menu(&mut self)
        ensures
            final(self)@ == old(self)@.reset_to_menu(),
            final(self)@.coherent(),
    {
        self.status = GameStatus::Menu;
        self.session = None;
    }

    /// Shows the settings screen, with no message.
    pub fn go_to_settings(&mut self)
        ensures
            final(self)@ == old(self)@.go_to_settings(),
            old(self)@.coherent() && old(self)@.session is None ==> final(self)@.coherent(),
    {
        self.status = GameStatus::Settings { message: None };
    }

    /// Takes new settings and returns to the menu.
    pub fn apply_settings(&mut self, settings: GameSettings)
        ensures
            final(self)@ == old(self)@.apply_settings(settings),
            final(self)@.coherent(),
    {
        self.settings = settings;
        self.reset_to_menu();
    }

    /// Goes on from where the game waits: from the summary of a level to the
    /// next level or another try, from feedback to the next question. On any
    /// other screen nothing happens.
    pub fn proceed(&mut self)
        requires
            old(self)@.proceed_fits(),
        ensures
            final(self)@ == old(self)@.proceed(final(self)@.question()),
            old(self)@.proceed_draws() ==> is_question(
                final(self)@.session.unwrap().variant,
                final(self)@.session.unwrap().current_level,
                final(self)@.question(),
            ),
            old(self)@.coherent() ==> final(self)@.coherent(),
    {
        match self.status {
            GameStatus::LevelComplete { .. } => self.advance_to_next_level_or_retry(),
            GameStatus::Feedback { .. } => self.next_level(),
            _ => {},
        }
    }

    /// Reports how the export of the settings went: `failure` holds the
    /// reason where it failed.
    pub fn settings_exported(&mut self, failure: Option<&str>)
        ensures
            final(self)@ == old(self)@.settings_exported(
                match failure {
                    Some(reason) => Some(reason@),
                    None => None,
                },
            ),
            old(self)@.coherent() ==> final(self)@.coherent(),
    {
        if let GameStatus::Settings { .. } = self.status {
            let message = match failure {
                None => String::from_str("Exported to letterlanders_settings_export.json"),
                Some(reason) => {
                    let mut text = String::from_str("Export failed: ");
                    text.append(reason);
                    text
                },
            };
            self.status = GameStatus::Settings { message: Some(message) };
        }
    }

    /// Reports how the import of the settings went: `loaded` holds the
    /// settings where they were read.
    pub fn settings_imported(&mut self, loaded: Option<GameSettings>)
        ensures
            final(self)@ == old(self)@.settings_imported(loaded),
            old(self)@.coherent() ==> final(self)@.coherent(),
    {
        if let GameStatus::Settings { .. } = self.status {
            match loaded {
                Some(settings) => {
                    self.settings = settings;
                    self.status = GameStatus::Settings {
                        message: Some(String::from_str("Settings imported successfully!")),
                    };
                },
                None => {
                    self.status = GameStatus::Settings {
                        message: Some(String::from_str("Import failed: file not found or invalid")),
                    };
                },
            }
        }
    }

    /// Whether the feedback on screen has been shown for as long as the
    /// settings ask, so that the game should go on.
    pub fn feedback_is_over(&self, shown_seconds: u64) -> (over: bool)
        ensures
            over == self@.feedback_is_over(shown_seconds as nat),
    {
        match self.status {
            GameStatus::Feedback { .. } => shown_seconds >= self.settings.feedback_duration_seconds,
            _ => false,
        }
    }

    /// Takes a key press on the screen that is shown, and tells the shell
    /// what is left for it to do.
    pub fn handle_key(&mut self, key: Key) -> (action: ShellAction)
        requires
            old(self)@.key_fits(key),
        ensures
            action == old(self)@.action_of_key(key),
            final(self)@ == old(self)@.handle_key(key, final(self)@.question()),
            old(self)@.key_draws(key) ==> is_question(
                final(self)@.session.unwrap().variant,
                final(self)@.session.unwrap().current_level,
                final(self)@.question(),
            ),
            old(self)@.coherent() ==> final(self)@.coherent(),
    {
        let arrows = self.settings.input_method.takes_arrows();
        let characters = self.settings.input_method.takes_characters();
        match self.status {
            GameStatus::Menu => match key {
                Key::Char(c) => {
                    if c == 'n' || c == 'N' {
                        self.start_game(GameVariant::Numbers);
                    } else if c == 'l' || c == 'L' {
                        self.start_game(GameVariant::Letters);
                    } else if c == 's' || c == 'S' {
                        self.go_to_settings();
                    } else if c == 'q' {
                        return ShellAction::Quit;
                    }
                    ShellAction::Continue
                },
                Key::Esc => ShellAction::Quit,
                _ => ShellAction::Continue,
            },
            GameStatus::Settings { .. } => match key {
                Key::Char(c) => {
                    if c == '1' || c == '2' || c == '3' || c == '4' {
                        self.settings = self.settings.after_key(c);
                        self.go_to_settings();
                        ShellAction::Continue
                    } else if c == '5' {
                        ShellAction::ExportSettings
                    } else if c == '6' {
                        ShellAction::ImportSettings
                    } else {
                        ShellAction::Continue
                    }
                },
                Key::Esc => {
                    self.reset_to_menu();
                    ShellAction::SaveSettings
                },
                _ => ShellAction::Continue,
            },
            GameStatus::Playing => {
                match key {
                    Key::Left => {
                        if arrows {
                            self.move_selection(-1);
                        }
                    },
                    Key::Right => {
                        if arrows {
                            self.move_selection(1);
                        }
                    },
                    Key::Enter => {
                        if arrows {
                            self.submit_current_selection();
                        }
                    },
                    Key::Char(c) => {
                        if characters {
                            let mut text = String::new();
                            push_char(&mut text, c);
                            self.submit_answer(text.as_str());
                        }
                    },
                    Key::Esc => self.reset_to_menu(),
                    Key::Other => {},
                }
                ShellAction::Continue
            },
            GameStatus::Feedback { .. } => {
                if key == Key::Esc {
                    self.reset_to_menu();
                }
                ShellAction::Continue
            },
            GameStatus::LevelComplete { .. } => {
                match key {
                    Key::Enter => self.advance_to_next_level_or_retry(),
                    Key::Esc => self.reset_to_menu(),
                    _ => {},
                }
                ShellAction::Continue
            },
            GameStatus::SessionComplete { .. } => {
                match key {
                    Key::Char(c) => {
                        if c == 'm' || c == 'M' {
                            self.reset_to_menu();
                        }
                    },
                    Key::Esc => self.reset_to_menu(),
                    _ => {},
                }
                ShellAction::Continue
            },
            GameStatus::About => {
                if key == Key::Esc {
                    self.reset_to_menu();
                }
                ShellAction::Continue
            },
        }
    }
}

} // verus!
