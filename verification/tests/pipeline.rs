//! Stage derivation, the commit-on-success policy, idempotence of a
//! re-invoked stage, and the progress-reporting protocol.

use babylonia_terminal_sdk::components::component_downloader::{
    ComponentDownloader, InstallError,
};
use babylonia_terminal_sdk::game_manager::{Font, FontInstaller, GameManager, Stage};
use babylonia_terminal_sdk::game_state::{GameConfig, GameState};
use babylonia_terminal_sdk::progress::{ProgressSink, Reporter};

fn fresh() -> GameConfig {
    GameConfig::fresh(String::from("/cfg"))
}

/// What a reporter was told, in order.
#[derive(Debug, PartialEq)]
enum Event {
    Setup(Option<u64>, String),
    Progress(u64),
}

struct RecordingReporter {
    events: Vec<Event>,
}

impl Reporter for RecordingReporter {
    fn setup(&mut self, total: Option<u64>, label: &str) {
        self.events.push(Event::Setup(total, String::from(label)));
    }

    fn progress(&mut self, current: u64) {
        self.events.push(Event::Progress(current));
    }
}

/// A component whose install either succeeds or fails as scripted.
struct ScriptedComponent {
    fail_with: Option<InstallError>,
    runs: u32,
}

impl ComponentDownloader for ScriptedComponent {
    fn install<R: Reporter>(
        &mut self,
        _progress: Option<&mut ProgressSink<R>>,
    ) -> Result<(), InstallError> {
        self.runs += 1;
        match self.fail_with {
            Some(e) => Err(e),
            None => Ok(()),
        }
    }

    fn download<R: Reporter>(
        &mut self,
        output_dir: &str,
        _progress: Option<&mut ProgressSink<R>>,
    ) -> Result<String, InstallError> {
        match self.fail_with {
            Some(e) => Err(e),
            None => Ok(format!("{}/archive.tar.gz", output_dir)),
        }
    }

    fn uncompress(_archive: &str, _destination: &str) -> Result<(), InstallError> {
        Ok(())
    }
}

#[test]
fn fresh_environment_needs_compat_layer_first() {
    let c = GameState::get_config(None, "/cfg");
    assert_eq!(
        GameState::get_current_state(&c, false),
        GameState::ProtonNotInstalled
    );
}

#[test]
fn derivation_returns_first_unmet_stage() {
    let mut c = fresh();
    assert_eq!(
        GameState::get_current_state(&c, false),
        GameState::ProtonNotInstalled
    );
    c.is_wine_installed = true;
    assert_eq!(
        GameState::get_current_state(&c, false),
        GameState::DXVKNotInstalled
    );
    c.is_dxvk_installed = true;
    assert_eq!(
        GameState::get_current_state(&c, false),
        GameState::FontNotInstalled
    );
    c.is_font_installed = true;
    assert_eq!(
        GameState::get_current_state(&c, false),
        GameState::DependecieNotInstalled
    );
    c.is_dependecies_installed = true;
    assert_eq!(
        GameState::get_current_state(&c, false),
        GameState::GameNotInstalled
    );
    c.is_game_installed = true;
    assert_eq!(
        GameState::get_current_state(&c, true),
        GameState::GameNeedUpdate
    );
    assert_eq!(
        GameState::get_current_state(&c, false),
        GameState::GameNotPatched
    );
    c.is_game_patched = true;
    assert_eq!(
        GameState::get_current_state(&c, false),
        GameState::GameInstalled
    );
}

#[test]
fn earlier_unmet_stage_wins_over_later_flags() {
    let mut c = fresh();
    c.is_font_installed = true;
    c.is_game_installed = true;
    c.is_game_patched = true;
    assert_eq!(
        GameState::get_current_state(&c, false),
        GameState::ProtonNotInstalled
    );
    c.is_wine_installed = true;
    assert_eq!(
        GameState::get_current_state(&c, false),
        GameState::DXVKNotInstalled
    );
}

#[test]
fn update_check_cannot_matter_before_local_flags() {
    let mut c = fresh();
    c.is_wine_installed = true;
    assert_eq!(
        GameState::get_current_state(&c, true),
        GameState::get_current_state(&c, false)
    );
}

#[test]
fn successful_stage_commits_its_flag() {
    let mut c = fresh();
    let mut component = ScriptedComponent { fail_with: None, runs: 0 };
    let r = GameManager::install_wine::<_, babylonia_terminal_sdk::progress::NoopReporter>(
        &mut component,
        &mut c,
        None,
    );
    assert!(r.is_ok());
    assert!(c.is_wine_installed);
    assert!(!c.is_dxvk_installed);
    assert_eq!(component.runs, 1);
}

#[test]
fn reinvoking_a_successful_stage_is_idempotent() {
    let mut c = fresh();
    let mut component = ScriptedComponent { fail_with: None, runs: 0 };
    let r1 = GameManager::install_wine::<_, babylonia_terminal_sdk::progress::NoopReporter>(
        &mut component,
        &mut c,
        None,
    );
    assert!(r1.is_ok());
    let after_first = GameState::save_config(&c);
    let r2 = GameManager::install_wine::<_, babylonia_terminal_sdk::progress::NoopReporter>(
        &mut component,
        &mut c,
        None,
    );
    assert!(r2.is_ok());
    assert!(c.is_wine_installed);
    assert_eq!(GameState::save_config(&c), after_first);
    assert_eq!(component.runs, 2);
}

#[test]
fn failed_stage_leaves_record_unchanged() {
    let mut c = fresh();
    c.is_wine_installed = true;
    c.is_dxvk_installed = true;
    let before = GameState::save_config(&c);
    let mut component = ScriptedComponent { fail_with: Some(InstallError::Decode), runs: 0 };
    let r = GameManager::install_game::<_, babylonia_terminal_sdk::progress::NoopReporter>(
        &mut component,
        &mut c,
        None,
    );
    assert_eq!(r, Err(InstallError::Decode));
    assert!(!c.is_game_installed);
    assert!(c.is_wine_installed);
    assert!(c.is_dxvk_installed);
    assert_eq!(GameState::save_config(&c), before);
}

#[test]
fn apply_stage_outcome_commits_only_on_success() {
    let mut c = fresh();
    GameManager::apply_stage_outcome(&mut c, Stage::Fonts, false);
    assert_eq!(c, fresh());
    GameManager::apply_stage_outcome(&mut c, Stage::Fonts, true);
    assert!(c.is_font_installed);
    assert!(!c.is_wine_installed);
    GameManager::apply_stage_outcome(&mut c, Stage::Fonts, true);
    assert!(c.is_font_installed);
}

#[test]
fn dependency_stage_reports_runtime_failure() {
    let mut c = fresh();
    let r = GameManager::install_dependecies(&mut c, false);
    assert_eq!(r, Err(InstallError::Runtime));
    assert_eq!(c, fresh());
    let r2 = GameManager::install_dependecies(&mut c, true);
    assert!(r2.is_ok());
    assert!(c.is_dependecies_installed);
}

#[test]
fn transport_failure_propagates_and_commits_nothing() {
    let mut c = fresh();
    let mut component = ScriptedComponent { fail_with: Some(InstallError::Transport), runs: 0 };
    let r = GameManager::install_dxvk::<_, babylonia_terminal_sdk::progress::NoopReporter>(
        &mut component,
        &mut c,
        None,
    );
    assert_eq!(r, Err(InstallError::Transport));
    assert_eq!(c, fresh());
}

#[test]
fn dependency_packages_are_fixed() {
    let v = GameManager::dependency_packages();
    assert_eq!(v, vec!["corefonts", "vcrun2022"]);
}

#[test]
fn font_installer_reports_protocol_and_order() {
    let reporter = RecordingReporter { events: Vec::new() };
    let mut fi = FontInstaller::new(reporter);
    let mut seen: Vec<Font> = Vec::new();
    while let Some(f) = fi.next_font() {
        seen.push(f);
        fi.font_done();
    }
    assert_eq!(
        seen,
        vec![
            Font::Arial,
            Font::Andale,
            Font::Courier,
            Font::ComicSans,
            Font::Georgia,
            Font::Impact,
            Font::Times,
            Font::Trebuchet,
            Font::Verdana,
            Font::Webdings,
        ]
    );
    assert!(fi.is_complete());
    let mut c = fresh();
    GameManager::install_font(&mut c, &fi);
    assert!(c.is_font_installed);
}

#[test]
fn progress_events_follow_the_sink_protocol() {
    let reporter = RecordingReporter { events: Vec::new() };
    let mut fi = FontInstaller::new(reporter);
    while let Some(_f) = fi.next_font() {
        fi.font_done();
    }
    let events = fi.into_reporter().events;
    assert!(matches!(events[0], Event::Setup(Some(10), _)));
    let mut setups: u32 = 0;
    let mut last: Option<u64> = None;
    for e in events.iter() {
        match e {
            Event::Setup(total, label) => {
                setups += 1;
                assert_eq!(*total, Some(10));
                assert_eq!(label, "");
                assert!(last.is_none());
            }
            Event::Progress(n) => {
                assert!(setups == 1);
                if let Some(p) = last {
                    assert!(*n >= p);
                }
                assert!(*n <= 10);
                last = Some(*n);
            }
        }
    }
    assert_eq!(setups, 1);
    assert_eq!(last, Some(10));
}

#[test]
fn path_helpers_build_fixed_layout() {
    let c = fresh();
    assert_eq!(GameManager::wine_dir(&c), "/cfg/runtime");
    assert_eq!(GameManager::dxvk_dir(&c), "/cfg/dxvk");
    assert_eq!(GameManager::game_executable("/games/pgr"), "/games/pgr/PGR.exe");
}

#[test]
fn full_scenario_from_fresh_to_installed() {
    let mut c = GameState::get_config(None, "/cfg");
    assert_eq!(
        GameState::get_current_state(&c, false),
        GameState::ProtonNotInstalled
    );
    let mut wine = ScriptedComponent { fail_with: None, runs: 0 };
    GameManager::install_wine::<_, babylonia_terminal_sdk::progress::NoopReporter>(
        &mut wine, &mut c, None,
    )
    .unwrap();
    assert_eq!(
        GameState::get_current_state(&c, false),
        GameState::DXVKNotInstalled
    );
    let mut dxvk = ScriptedComponent { fail_with: None, runs: 0 };
    GameManager::install_dxvk::<_, babylonia_terminal_sdk::progress::NoopReporter>(
        &mut dxvk, &mut c, None,
    )
    .unwrap();
    let fi = {
        let mut fi = FontInstaller::new(RecordingReporter { events: Vec::new() });
        while let Some(_f) = fi.next_font() {
            fi.font_done();
        }
        fi
    };
    GameManager::install_font(&mut c, &fi);
    GameManager::install_dependecies(&mut c, true).unwrap();
    let mut game = ScriptedComponent { fail_with: None, runs: 0 };
    GameManager::install_game::<_, babylonia_terminal_sdk::progress::NoopReporter>(
        &mut game, &mut c, None,
    )
    .unwrap();
    assert_eq!(
        GameState::get_current_state(&c, true),
        GameState::GameNeedUpdate
    );
    assert_eq!(
        GameState::get_current_state(&c, false),
        GameState::GameNotPatched
    );
    c.is_game_patched = true;
    assert_eq!(
        GameState::get_current_state(&c, false),
        GameState::GameInstalled
    );
    let text = GameState::save_config(&c);
    let reloaded = GameState::get_config(Some(text.as_str()), "/unused");
    assert_eq!(reloaded, c);
}
