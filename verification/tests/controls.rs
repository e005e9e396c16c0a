use letterlanders_core::controls::{Key, ShellAction};
use letterlanders_core::settings::InputMethod;
use letterlanders_core::{
    GameEngine, GameSettings, GameStatus, GameVariant, SessionState, SoundEvent,
};

fn playing(method: InputMethod, target: &str, options: &[&str]) -> GameEngine {
    let mut engine = GameEngine::new();
    engine.settings.input_method = method;
    engine.status = GameStatus::Playing;
    engine.session = Some(SessionState {
        variant: GameVariant::Numbers,
        current_level: 2,
        current_question_index: 0,
        total_questions: 5,
        score: 0,
        total_score: 0,
        target: target.to_string(),
        options: options.iter().map(|option| option.to_string()).collect(),
        selected_index: 0,
        level_time_limit: None,
        level_elapsed_time: 0,
    });
    engine
}

fn in_settings() -> GameEngine {
    let mut engine = GameEngine::new();
    engine.go_to_settings();
    engine
}

fn succeeded(engine: &GameEngine) -> Option<bool> {
    match &engine.status {
        GameStatus::Feedback { success, .. } => Some(*success),
        _ => None,
    }
}

#[test]
fn menu_keys_start_games() {
    for (c, variant) in [
        ('n', GameVariant::Numbers),
        ('N', GameVariant::Numbers),
        ('l', GameVariant::Letters),
        ('L', GameVariant::Letters),
    ] {
        let mut engine = GameEngine::new();
        assert_eq!(engine.handle_key(Key::Char(c)), ShellAction::Continue);
        assert_eq!(engine.status, GameStatus::Playing);
        assert_eq!(engine.session.as_ref().unwrap().variant, variant);
        assert_eq!(engine.session.as_ref().unwrap().options.len(), 2);
    }
}

#[test]
fn menu_keys_open_settings_and_quit() {
    for c in ['s', 'S'] {
        let mut engine = GameEngine::new();
        assert_eq!(engine.handle_key(Key::Char(c)), ShellAction::Continue);
        assert_eq!(engine.status, GameStatus::Settings { message: None });
    }
    let mut engine = GameEngine::new();
    assert_eq!(engine.handle_key(Key::Char('q')), ShellAction::Quit);
    assert_eq!(engine.handle_key(Key::Esc), ShellAction::Quit);
    assert_eq!(engine.status, GameStatus::Menu);
    for key in [Key::Char('Q'), Key::Char('x'), Key::Enter, Key::Left, Key::Right, Key::Other] {
        assert_eq!(engine.handle_key(key), ShellAction::Continue);
        assert_eq!(engine.status, GameStatus::Menu);
        assert!(engine.session.is_none());
    }
}

#[test]
fn settings_keys_change_one_setting_each() {
    let mut engine = in_settings();
    engine.status = GameStatus::Settings { message: Some("old".to_string()) };
    assert_eq!(engine.handle_key(Key::Char('1')), ShellAction::Continue);
    assert!(engine.settings.show_target_visual);
    assert_eq!(engine.status, GameStatus::Settings { message: None });
    engine.handle_key(Key::Char('1'));
    assert!(!engine.settings.show_target_visual);

    let mut seen = Vec::new();
    for _ in 0..5 {
        engine.handle_key(Key::Char('2'));
        seen.push(engine.settings.feedback_duration_seconds);
    }
    assert_eq!(seen, vec![3, 5, 1, 2, 3]);
    engine.settings.feedback_duration_seconds = 4;
    engine.handle_key(Key::Char('2'));
    assert_eq!(engine.settings.feedback_duration_seconds, 1);

    let mut seen = Vec::new();
    for _ in 0..3 {
        engine.handle_key(Key::Char('3'));
        seen.push(engine.settings.input_method);
    }
    assert_eq!(
        seen,
        vec![InputMethod::DirectKeyboard, InputMethod::ArrowSelection, InputMethod::Hybrid]
    );

    let mut seen = Vec::new();
    for _ in 0..5 {
        engine.handle_key(Key::Char('4'));
        seen.push(engine.settings.start_level);
    }
    assert_eq!(seen, vec![2, 3, 4, 1, 2]);
    engine.settings.start_level = u32::MAX;
    engine.handle_key(Key::Char('4'));
    assert_eq!(engine.settings.start_level, 1);
    engine.settings.start_level = 0;
    engine.handle_key(Key::Char('4'));
    assert_eq!(engine.settings.start_level, 1);
}

#[test]
fn settings_after_key_values() {
    let settings = GameSettings::default();
    assert!(settings.after_key('1').show_target_visual);
    assert_eq!(settings.after_key('2').feedback_duration_seconds, 3);
    assert_eq!(settings.after_key('3').input_method, InputMethod::DirectKeyboard);
    assert_eq!(settings.after_key('4').start_level, 2);
    assert_eq!(settings.after_key('5'), settings);
    assert_eq!(settings.after_key('x'), settings);
    assert_eq!(InputMethod::DirectKeyboard.next(), InputMethod::ArrowSelection);
    assert_eq!(InputMethod::ArrowSelection.next(), InputMethod::Hybrid);
    assert_eq!(InputMethod::Hybrid.next(), InputMethod::DirectKeyboard);
}

#[test]
fn settings_keys_ask_for_files() {
    let mut engine = in_settings();
    engine.settings.start_level = 3;
    assert_eq!(engine.handle_key(Key::Char('5')), ShellAction::ExportSettings);
    assert_eq!(engine.status, GameStatus::Settings { message: None });
    assert_eq!(engine.handle_key(Key::Char('6')), ShellAction::ImportSettings);
    assert_eq!(engine.status, GameStatus::Settings { message: None });
    assert_eq!(engine.handle_key(Key::Enter), ShellAction::Continue);
    assert_eq!(engine.handle_key(Key::Char('7')), ShellAction::Continue);
    assert_eq!(engine.status, GameStatus::Settings { message: None });
    assert_eq!(engine.handle_key(Key::Esc), ShellAction::SaveSettings);
    assert_eq!(engine.status, GameStatus::Menu);
    assert_eq!(engine.settings.start_level, 3);
}

#[test]
fn export_is_reported() {
    let mut engine = in_settings();
    engine.settings_exported(None);
    assert_eq!(
        engine.status,
        GameStatus::Settings {
            message: Some("Exported to letterlanders_settings_export.json".to_string())
        }
    );
    engine.settings_exported(Some("disk full"));
    assert_eq!(
        engine.status,
        GameStatus::Settings { message: Some("Export failed: disk full".to_string()) }
    );
    let mut engine = GameEngine::new();
    engine.settings_exported(None);
    assert_eq!(engine.status, GameStatus::Menu);
}

#[test]
fn import_is_reported() {
    let loaded = GameSettings {
        feedback_duration_seconds: 5,
        show_target_visual: true,
        input_method: InputMethod::ArrowSelection,
        start_level: 3,
    };
    let mut engine = in_settings();
    engine.settings_imported(Some(loaded));
    assert_eq!(engine.settings, loaded);
    assert_eq!(
        engine.status,
        GameStatus::Settings { message: Some("Settings imported successfully!".to_string()) }
    );
    engine.settings_imported(None);
    assert_eq!(engine.settings, loaded);
    assert_eq!(
        engine.status,
        GameStatus::Settings {
            message: Some("Import failed: file not found or invalid".to_string())
        }
    );
    let mut engine = GameEngine::new();
    engine.settings_imported(Some(loaded));
    assert_eq!(engine.status, GameStatus::Menu);
    assert_eq!(engine.settings, GameSettings::default());
}

#[test]
fn typed_characters_answer() {
    for method in [InputMethod::DirectKeyboard, InputMethod::Hybrid] {
        let mut engine = playing(method, "4", &["3", "4", "5"]);
        assert_eq!(engine.handle_key(Key::Char('4')), ShellAction::Continue);
        assert_eq!(succeeded(&engine), Some(true));
        assert_eq!(engine.session.as_ref().unwrap().score, 1);

        let mut engine = playing(method, "4", &["3", "4", "5"]);
        engine.handle_key(Key::Char('5'));
        assert_eq!(succeeded(&engine), Some(false));

        let mut engine = playing(method, "Q", &["Q", "R"]);
        engine.handle_key(Key::Char('q'));
        assert_eq!(
            engine.status,
            GameStatus::Feedback {
                success: true,
                message: "You chose q, letter number 17 in the alphabet".to_string()
            }
        );
    }
    let mut engine = playing(InputMethod::ArrowSelection, "4", &["3", "4", "5"]);
    engine.handle_key(Key::Char('4'));
    assert_eq!(engine.status, GameStatus::Playing);
    assert_eq!(engine.session.as_ref().unwrap().score, 0);
}

#[test]
fn arrows_select_and_enter_answers() {
    for method in [InputMethod::ArrowSelection, InputMethod::Hybrid] {
        let mut engine = playing(method, "4", &["3", "4", "5"]);
        engine.handle_key(Key::Left);
        assert_eq!(engine.session.as_ref().unwrap().selected_index, 2);
        engine.handle_key(Key::Right);
        engine.handle_key(Key::Right);
        assert_eq!(engine.session.as_ref().unwrap().selected_index, 1);
        assert_eq!(engine.handle_key(Key::Enter), ShellAction::Continue);
        assert_eq!(succeeded(&engine), Some(true));
    }
    let mut engine = playing(InputMethod::DirectKeyboard, "4", &["3", "4", "5"]);
    for key in [Key::Left, Key::Right, Key::Enter, Key::Other] {
        engine.handle_key(key);
        assert_eq!(engine.status, GameStatus::Playing);
        assert_eq!(engine.session.as_ref().unwrap().selected_index, 0);
    }
}

#[test]
fn escape_returns_to_the_menu_and_drops_the_session() {
    for status in [
        GameStatus::Playing,
        GameStatus::Feedback { success: true, message: "ok".to_string() },
        GameStatus::LevelComplete { level: 2, score: 1, passed: false },
        GameStatus::SessionComplete { score: 9 },
        GameStatus::About,
    ] {
        let mut engine = playing(InputMethod::Hybrid, "4", &["3", "4", "5"]);
        engine.status = status;
        assert_eq!(engine.handle_key(Key::Esc), ShellAction::Continue);
        assert_eq!(engine.status, GameStatus::Menu);
        assert!(engine.session.is_none());
    }
}

#[test]
fn feedback_waits_for_escape_only() {
    for key in [Key::Char('4'), Key::Enter, Key::Left, Key::Right, Key::Other] {
        let mut engine = playing(InputMethod::Hybrid, "4", &["3", "4", "5"]);
        let shown = GameStatus::Feedback { success: false, message: "no".to_string() };
        engine.status = shown.clone();
        assert_eq!(engine.handle_key(key), ShellAction::Continue);
        assert_eq!(engine.status, shown);
        assert_eq!(engine.session.as_ref().unwrap().score, 0);
    }
}

#[test]
fn enter_leaves_the_summary_of_a_level() {
    let mut engine = playing(InputMethod::Hybrid, "4", &["3", "4", "5"]);
    engine.session.as_mut().unwrap().score = 5;
    engine.status = GameStatus::LevelComplete { level: 2, score: 5, passed: true };
    assert_eq!(engine.handle_key(Key::Char('x')), ShellAction::Continue);
    assert_eq!(engine.status, GameStatus::LevelComplete { level: 2, score: 5, passed: true });
    assert_eq!(engine.handle_key(Key::Enter), ShellAction::Continue);
    assert_eq!(engine.status, GameStatus::Playing);
    assert_eq!(engine.session.as_ref().unwrap().current_level, 3);
    assert_eq!(engine.session.as_ref().unwrap().total_score, 5);
}

#[test]
fn session_complete_keys() {
    for key in [Key::Char('m'), Key::Char('M'), Key::Esc] {
        let mut engine = playing(InputMethod::Hybrid, "4", &["3", "4", "5"]);
        engine.status = GameStatus::SessionComplete { score: 16 };
        assert_eq!(engine.handle_key(key), ShellAction::Continue);
        assert_eq!(engine.status, GameStatus::Menu);
        assert!(engine.session.is_none());
    }
    let mut engine = playing(InputMethod::Hybrid, "4", &["3", "4", "5"]);
    engine.status = GameStatus::SessionComplete { score: 16 };
    engine.handle_key(Key::Enter);
    engine.handle_key(Key::Char('n'));
    assert_eq!(engine.status, GameStatus::SessionComplete { score: 16 });
    assert!(engine.session.is_some());
}

#[test]
fn proceed_goes_on_from_feedback_and_summary() {
    let mut engine = playing(InputMethod::Hybrid, "4", &["3", "4", "5"]);
    engine.proceed();
    assert_eq!(engine.status, GameStatus::Playing);
    assert_eq!(engine.session.as_ref().unwrap().current_question_index, 0);

    engine.submit_answer("4");
    engine.proceed();
    assert_eq!(engine.status, GameStatus::Playing);
    assert_eq!(engine.session.as_ref().unwrap().current_question_index, 1);

    engine.status = GameStatus::LevelComplete { level: 2, score: 1, passed: false };
    engine.proceed();
    assert_eq!(engine.status, GameStatus::Playing);
    assert_eq!(engine.session.as_ref().unwrap().current_question_index, 0);
    assert_eq!(engine.session.as_ref().unwrap().current_level, 2);

    let mut engine = GameEngine::new();
    engine.proceed();
    assert_eq!(engine.status, GameStatus::Menu);
}

#[test]
fn reset_and_apply_settings() {
    let mut engine = playing(InputMethod::Hybrid, "4", &["3", "4", "5"]);
    engine.last_sound = SoundEvent::PlaySuccess;
    engine.reset_to_menu();
    assert_eq!(engine.status, GameStatus::Menu);
    assert!(engine.session.is_none());
    assert_eq!(engine.last_sound, SoundEvent::PlaySuccess);

    let mut engine = playing(InputMethod::Hybrid, "4", &["3", "4", "5"]);
    let settings = GameSettings {
        feedback_duration_seconds: 1,
        show_target_visual: true,
        input_method: InputMethod::DirectKeyboard,
        start_level: 2,
    };
    engine.apply_settings(settings);
    assert_eq!(engine.settings, settings);
    assert_eq!(engine.status, GameStatus::Menu);
    assert!(engine.session.is_none());
}

#[test]
fn feedback_is_over_after_its_duration() {
    let mut engine = playing(InputMethod::Hybrid, "4", &["3", "4", "5"]);
    assert!(!engine.feedback_is_over(100));
    engine.submit_answer("4");
    assert!(!engine.feedback_is_over(0));
    assert!(!engine.feedback_is_over(1));
    assert!(engine.feedback_is_over(2));
    assert!(engine.feedback_is_over(3));
    engine.settings.feedback_duration_seconds = 0;
    assert!(engine.feedback_is_over(0));
}

#[test]
fn variant_names() {
    assert_eq!(GameVariant::from_name("Letters"), GameVariant::Letters);
    assert_eq!(GameVariant::from_name("Numbers"), GameVariant::Numbers);
    assert_eq!(GameVariant::from_name("letters"), GameVariant::Numbers);
    assert_eq!(GameVariant::from_name("LetterTeams"), GameVariant::Numbers);
    assert_eq!(GameVariant::from_name(""), GameVariant::Numbers);
}

#[test]
fn sound_files() {
    assert_eq!(SoundEvent::Silent.asset_path(), None);
    assert_eq!(SoundEvent::GameStart.asset_path(), None);
    assert_eq!(
        SoundEvent::PlaySuccess.asset_path(),
        Some("assets/sounds/success.wav".to_string())
    );
    assert_eq!(
        SoundEvent::PlayFailure.asset_path(),
        Some("assets/sounds/failure.wav".to_string())
    );
    assert_eq!(
        SoundEvent::LevelComplete.asset_path(),
        Some("assets/sounds/complete.wav".to_string())
    );
    assert_eq!(
        SoundEvent::SayPrompt("A".to_string()).asset_path(),
        Some("assets/sounds/prompts/A.wav".to_string())
    );
    assert_eq!(
        SoundEvent::SayPrompt("sh".to_string()).asset_path(),
        Some("assets/sounds/prompts/sh.wav".to_string())
    );
}

#[test]
fn input_methods_take_arrows_or_characters() {
    assert!(!InputMethod::DirectKeyboard.takes_arrows());
    assert!(InputMethod::DirectKeyboard.takes_characters());
    assert!(InputMethod::ArrowSelection.takes_arrows());
    assert!(!InputMethod::ArrowSelection.takes_characters());
    assert!(InputMethod::Hybrid.takes_arrows());
    assert!(InputMethod::Hybrid.takes_characters());
}

#[test]
fn remaining_time_counts_down_to_nothing() {
    let mut engine = playing(InputMethod::Hybrid, "4", &["3", "4", "5"]);
    assert_eq!(engine.session.as_ref().unwrap().remaining_time(), None);
    engine.session.as_mut().unwrap().level_time_limit = Some(5);
    assert_eq!(engine.session.as_ref().unwrap().remaining_time(), Some(5));
    engine.session.as_mut().unwrap().level_elapsed_time = 3;
    assert_eq!(engine.session.as_ref().unwrap().remaining_time(), Some(2));
    engine.session.as_mut().unwrap().level_elapsed_time = 5;
    assert_eq!(engine.session.as_ref().unwrap().remaining_time(), Some(0));
    engine.session.as_mut().unwrap().level_elapsed_time = 60;
    assert_eq!(engine.session.as_ref().unwrap().remaining_time(), Some(0));
}
