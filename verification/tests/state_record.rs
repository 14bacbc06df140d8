//! The persisted record: fallback on missing or malformed files,
//! round trips, the exact file text, and the path helpers.

use babylonia_terminal_sdk::game_state::{GameConfig, GameConfigPath, GameState};

fn sample_config() -> GameConfig {
    GameConfig {
        config_dir: String::from("/home/user/.babylonia-terminal"),
        is_wine_installed: true,
        is_dxvk_installed: false,
        is_font_installed: true,
        is_dependecies_installed: false,
        game_dir: Some(String::from("/games/pgr")),
        is_game_installed: true,
        is_game_patched: false,
    }
}

#[test]
fn missing_file_yields_fresh_record() {
    let c = GameState::get_config(None, "/cfg");
    assert_eq!(c.config_dir, "/cfg");
    assert!(!c.is_wine_installed);
    assert!(!c.is_dxvk_installed);
    assert!(!c.is_font_installed);
    assert!(!c.is_dependecies_installed);
    assert!(c.game_dir.is_none());
    assert!(!c.is_game_installed);
    assert!(!c.is_game_patched);
}

#[test]
fn malformed_file_yields_fresh_record() {
    let malformed = [
        "",
        "garbage",
        "{",
        "{\"config_dir\":",
        "{\"config_dir\":\"/cfg\"",
        "{\"config_dir\":\"/cfg\",\"is_wine_installed\":maybe}",
        "{\"config_dir\":\"/cfg\\\"}",
        "[1,2,3]",
    ];
    for text in malformed.iter() {
        let c = GameState::get_config(Some(text), "/fallback");
        assert_eq!(c.config_dir, "/fallback");
        assert!(!c.is_wine_installed);
        assert!(c.game_dir.is_none());
    }
}

#[test]
fn trailing_text_is_malformed() {
    let mut text = GameState::save_config(&sample_config());
    text.push_str(" ");
    let c = GameState::get_config(Some(text.as_str()), "/fallback");
    assert_eq!(c.config_dir, "/fallback");
    assert!(!c.is_wine_installed);
}

#[test]
fn round_trip_preserves_every_field() {
    let original = sample_config();
    let text = GameState::save_config(&original);
    let reloaded = GameState::get_config(Some(text.as_str()), "/unused");
    assert_eq!(reloaded, original);
}

#[test]
fn round_trip_with_no_game_dir() {
    let mut original = sample_config();
    original.game_dir = None;
    original.is_game_patched = true;
    let text = GameState::save_config(&original);
    let reloaded = GameState::get_config(Some(text.as_str()), "/unused");
    assert_eq!(reloaded, original);
}

#[test]
fn round_trip_with_quotes_and_backslashes_in_paths() {
    let mut original = sample_config();
    original.config_dir = String::from("/odd \"dir\"/with\\backslash");
    original.game_dir = Some(String::from("C:\\games\\\"pgr\""));
    let text = GameState::save_config(&original);
    let reloaded = GameState::get_config(Some(text.as_str()), "/unused");
    assert_eq!(reloaded, original);
}

#[test]
fn round_trip_with_empty_paths() {
    let mut original = sample_config();
    original.config_dir = String::new();
    original.game_dir = Some(String::new());
    let text = GameState::save_config(&original);
    let reloaded = GameState::get_config(Some(text.as_str()), "/unused");
    assert_eq!(reloaded, original);
}

#[test]
fn saved_text_is_exact() {
    let text = GameState::save_config(&sample_config());
    assert_eq!(
        text,
        "{\"config_dir\":\"/home/user/.babylonia-terminal\",\
         \"is_wine_installed\":true,\"is_dxvk_installed\":false,\
         \"is_font_installed\":true,\"is_dependecies_installed\":false,\
         \"game_dir\":\"/games/pgr\",\"is_game_installed\":true,\
         \"is_game_patched\":false}"
    );
}

#[test]
fn saved_text_parses_as_json() {
    let text = GameState::save_config(&sample_config());
    let value: serde_json::Value = serde_json::from_str(&text).unwrap();
    assert_eq!(
        value.get("config_dir").unwrap().as_str().unwrap(),
        "/home/user/.babylonia-terminal"
    );
    assert_eq!(value.get("is_wine_installed").unwrap().as_bool().unwrap(), true);
    assert_eq!(value.get("is_dxvk_installed").unwrap().as_bool().unwrap(), false);
    assert_eq!(value.get("game_dir").unwrap().as_str().unwrap(), "/games/pgr");
    assert_eq!(value.get("is_game_patched").unwrap().as_bool().unwrap(), false);
}

#[test]
fn escaped_path_still_parses_as_json() {
    let mut original = sample_config();
    original.config_dir = String::from("/odd \"dir\"/with\\backslash");
    let text = GameState::save_config(&original);
    let value: serde_json::Value = serde_json::from_str(&text).unwrap();
    assert_eq!(
        value.get("config_dir").unwrap().as_str().unwrap(),
        "/odd \"dir\"/with\\backslash"
    );
}

#[test]
fn set_game_dir_changes_only_that_field() {
    let mut c = sample_config();
    GameState::set_game_dir(&mut c, Some(String::from("/elsewhere")));
    assert_eq!(c.game_dir.as_deref(), Some("/elsewhere"));
    assert_eq!(c.config_dir, "/home/user/.babylonia-terminal");
    assert!(c.is_wine_installed);
    assert!(!c.is_dxvk_installed);
    GameState::set_game_dir(&mut c, None);
    assert!(GameState::get_game_dir(&c).is_none());
}

#[test]
fn config_file_path_is_under_config_dir() {
    let p = GameState::get_config_file_path("/cfg");
    assert_eq!(p, "/cfg/babylonia-terminal-config");
}

#[test]
fn config_directory_ends_with_fixed_name() {
    if let Some(dir) = GameState::get_config_directory() {
        assert!(dir.ends_with("/.babylonia-terminal"));
    }
}

#[test]
fn default_record_has_nothing_installed() {
    let c = GameConfig::default();
    assert!(!c.is_wine_installed);
    assert!(!c.is_dxvk_installed);
    assert!(!c.is_font_installed);
    assert!(!c.is_dependecies_installed);
    assert!(c.game_dir.is_none());
    assert!(!c.is_game_installed);
    assert!(!c.is_game_patched);
}

#[test]
fn config_path_holds_its_path() {
    let p = GameConfigPath::new(String::from("/somewhere"));
    assert_eq!(p.path().as_str(), "/somewhere");
}
