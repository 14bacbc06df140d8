//! The durable installation record and the pure derivation of the
//! current setup stage.
//!
//! The record (`GameConfig`) is always written and read as a whole;
//! a reader sees either the previous complete record or the next,
//! never a mix. The current stage (`GameState`) is never stored: it is
//! recomputed on demand from the record plus one externally supplied
//! freshness bit.

use vstd::prelude::*;

verus! {

/// The current stage of the installation pipeline, in fixed priority
/// order: the first unmet prerequisite always wins, and the
/// update/patch/installed outcomes are reachable only once every local
/// install flag is set.
#[derive(Debug, Clone, Copy, PartialEq, Eq, Structural)]
pub enum GameState {
    ProtonNotInstalled,
    DXVKNotInstalled,
    FontNotInstalled,
    DependecieNotInstalled,
    GameNotInstalled,
    GameNeedUpdate,
    GameNotPatched,
    GameInstalled,
}

/// The mathematical value of a `GameConfig`: every path is a sequence
/// of characters, every flag a boolean.
pub ghost struct ConfigView {
    pub config_dir: Seq<char>,
    pub is_wine_installed: bool,
    pub is_dxvk_installed: bool,
    pub is_font_installed: bool,
    pub is_dependecies_installed: bool,
    pub game_dir: Option<Seq<char>>,
    pub is_game_installed: bool,
    pub is_game_patched: bool,
}

/// The durable installation record. Each flag is set true only after
/// its stage's side effect has fully succeeded; `game_dir` is set once
/// the install location of the game is known.
#[derive(Debug)]
pub struct GameConfig {
    pub config_dir: String,
    pub is_wine_installed: bool,
    pub is_dxvk_installed: bool,
    pub is_font_installed: bool,
    pub is_dependecies_installed: bool,
    pub game_dir: Option<String>,
    pub is_game_installed: bool,
    pub is_game_patched: bool,
}

pub open spec fn opt_str_view(o: Option<String>) -> Option<Seq<char>> {
    match o {
        Some(s) => Some(s@),
        None => None,
    }
}

impl View for GameConfig {
    type V = ConfigView;

    open spec fn view(&self) -> ConfigView {
        ConfigView {
            config_dir: self.config_dir@,
            is_wine_installed: self.is_wine_installed,
            is_dxvk_installed: self.is_dxvk_installed,
            is_font_installed: self.is_font_installed,
            is_dependecies_installed: self.is_dependecies_installed,
            game_dir: opt_str_view(self.game_dir),
            is_game_installed: self.is_game_installed,
            is_game_patched: self.is_game_patched,
        }
    }
}

impl PartialEq for GameConfig {
    fn eq(&self, other: &GameConfig) -> (r: bool) {
        let dirs_equal: bool = match (&self.game_dir, &other.game_dir) {
            (Option::None, Option::None) => true,
            (Option::Some(a), Option::Some(b)) => *a == *b,
            _ => false,
        };
        let result: bool = self.config_dir == other.config_dir && self.is_wine_installed
            == other.is_wine_installed && self.is_dxvk_installed == other.is_dxvk_installed
            && self.is_font_installed == other.is_font_installed && self.is_dependecies_installed
            == other.is_dependecies_installed && dirs_equal && self.is_game_installed
            == other.is_game_installed && self.is_game_patched == other.is_game_patched;
        proof {
            assert(dirs_equal == (opt_str_view(self.game_dir) == opt_str_view(other.game_dir)));
            if result {
                assert(self@ == other@);
            }
        }
        result
    }
}

impl Eq for GameConfig {

}

impl vstd::std_specs::cmp::PartialEqSpecImpl for GameConfig {
    open spec fn obeys_eq_spec() -> bool {
        true
    }

    open spec fn eq_spec(&self, other: &GameConfig) -> bool {
        self@ == other@
    }
}

/// A fresh record rooted at `config_dir`: nothing installed yet, no
/// known game directory.
pub open spec fn spec_fresh(config_dir: Seq<char>) -> ConfigView {
    ConfigView {
        config_dir: config_dir,
        is_wine_installed: false,
        is_dxvk_installed: false,
        is_font_installed: false,
        is_dependecies_installed: false,
        game_dir: None,
        is_game_installed: false,
        is_game_patched: false,
    }
}

/// All five install flags that gate the local pipeline stages.
pub open spec fn all_local_flags_set(c: ConfigView) -> bool {
    c.is_wine_installed && c.is_dxvk_installed && c.is_font_installed
        && c.is_dependecies_installed && c.is_game_installed
}

/// The stage derivation: the first unmet prerequisite in pipeline
/// order; once every local flag is set, the externally supplied
/// freshness bit, then the patch flag, decide among the three final
/// outcomes.
pub open spec fn spec_current_state(c: ConfigView, update_available: bool) -> GameState {
    if !c.is_wine_installed {
        GameState::ProtonNotInstalled
    } else if !c.is_dxvk_installed {
        GameState::DXVKNotInstalled
    } else if !c.is_font_installed {
        GameState::FontNotInstalled
    } else if !c.is_dependecies_installed {
        GameState::DependecieNotInstalled
    } else if !c.is_game_installed {
        GameState::GameNotInstalled
    } else if update_available {
        GameState::GameNeedUpdate
    } else if !c.is_game_patched {
        GameState::GameNotPatched
    } else {
        GameState::GameInstalled
    }
}

impl GameConfig {
    /// Builds the fresh record used both on first run and as the
    /// fallback when the persisted record is missing or malformed.
    pub fn fresh(config_dir: String) -> (c: GameConfig)
        ensures
            c@ == spec_fresh(config_dir@),
    {
        GameConfig {
            config_dir,
            is_wine_installed: false,
            is_dxvk_installed: false,
            is_font_installed: false,
            is_dependecies_installed: false,
            game_dir: None,
            is_game_installed: false,
            is_game_patched: false,
        }
    }
}

impl GameState {
    /// Derives the current stage from the record. `update_available`
    /// is the one external input: the result of the remote freshness
    /// check, which callers need only perform once every local flag of
    /// the record is already set (see `lemma_state_priority`).
    pub fn get_current_state(config: &GameConfig, update_available: bool) -> (s: GameState)
        ensures
            s == spec_current_state(config@, update_available),
    {
        if !config.is_wine_installed {
            GameState::ProtonNotInstalled
        } else if !config.is_dxvk_installed {
            GameState::DXVKNotInstalled
        } else if !config.is_font_installed {
            GameState::FontNotInstalled
        } else if !config.is_dependecies_installed {
            GameState::DependecieNotInstalled
        } else if !config.is_game_installed {
            GameState::GameNotInstalled
        } else if update_available {
            GameState::GameNeedUpdate
        } else if !config.is_game_patched {
            GameState::GameNotPatched
        } else {
            GameState::GameInstalled
        }
    }

    /// Records the game's install directory; every other field of the
    /// record is left as it was.
    pub fn set_game_dir(config: &mut GameConfig, path: Option<String>)
        ensures
            final(config)@ == (ConfigView { game_dir: opt_str_view(path), ..old(config)@ }),
    {
        config.game_dir = path;
    }

    /// Reads the game's install directory back from the record.
    pub fn get_game_dir(config: &GameConfig) -> (r: &Option<String>)
        ensures
            opt_str_view(*r) == config@.game_dir,
    {
        &config.game_dir
    }
}

/// The view of an optional borrowed text.
pub open spec fn opt_text_view(o: Option<&str>) -> Option<Seq<char>> {
    match o {
        Some(s) => Some(s@),
        None => None,
    }
}

/// What reading the persisted record yields: the decoded record when
/// the file was present and well formed, a fresh record rooted at
/// `default_dir` otherwise. A malformed file is deliberately treated
/// like a missing one.
pub open spec fn spec_config_of(contents: Option<Seq<char>>, default_dir: Seq<char>) -> ConfigView {
    match contents {
        Some(text) => match crate::codec::spec_decode(text) {
            Some(v) => v,
            None => spec_fresh(default_dir),
        },
        None => spec_fresh(default_dir),
    }
}

impl GameState {
    /// Renders the record for persistence. The caller writes the
    /// returned text to the record file as a whole, so a reader sees
    /// either the previous complete record or this one.
    pub fn save_config(config: &GameConfig) -> (s: String)
        ensures
            s@ == crate::codec::spec_encode(config@),
    {
        crate::codec::encode_config(config)
    }

    /// Reads the record back from the record file's contents
    /// (`None` when the file was absent or unreadable). A record that
    /// cannot be parsed falls back to a fresh one rooted at
    /// `default_dir`, exactly as an absent file does.
    pub fn get_config(contents: Option<&str>, default_dir: &str) -> (c: GameConfig)
        ensures
            c@ == spec_config_of(opt_text_view(contents), default_dir@),
    {
        match contents {
            Option::None => GameConfig::fresh(default_dir.to_owned()),
            Option::Some(text) => match crate::codec::decode_config(text) {
                Option::Some(c) => c,
                Option::None => GameConfig::fresh(default_dir.to_owned()),
            },
        }
    }

    /// The directory under the user's home where every managed
    /// component lives; `None` when the environment names no home
    /// directory. The caller creates the directory on disk.
    pub fn get_config_directory() -> (r: Option<String>)
        ensures
            r matches Some(p) ==> exists|h: Seq<char>| p@ == h + "/.babylonia-terminal"@,
    {
        match home_dir_string() {
            Option::None => None,
            Option::Some(h) => {
                let ghost hv = h@;
                let mut d = h;
                d.append("/.babylonia-terminal");
                proof {
                    assert(d@ == hv + "/.babylonia-terminal"@);
                    assert(exists|h2: Seq<char>| d@ == h2 + "/.babylonia-terminal"@);
                }
                Some(d)
            },
        }
    }

    /// Where the record file lives under the configuration directory.
    pub fn get_config_file_path(config_dir: &str) -> (r: String)
        ensures
            r@ == config_dir@ + "/babylonia-terminal-config"@,
    {
        let mut d = config_dir.to_owned();
        d.append("/babylonia-terminal-config");
        d
    }
}

/// Relies on dirs::home_dir: the user's home directory, a value of
/// the environment of which nothing further is promised.
#[verifier::external_body]
fn home_dir_string() -> (r: Option<String>) {
    match dirs::home_dir() {
        None => None,
        Some(p) => match p.to_str() {
            None => None,
            Some(s) => Some(s.to_string()),
        },
    }
}

impl Default for GameConfig {
    /// A fresh record rooted at the per-user configuration directory
    /// when the environment names one, at an empty path otherwise.
    fn default() -> (c: GameConfig)
        ensures
            c@ == spec_fresh(c@.config_dir),
    {
        match GameState::get_config_directory() {
            Option::Some(d) => GameConfig::fresh(d),
            Option::None => GameConfig::fresh(String::new()),
        }
    }
}

/// One stored path, wrapped so that callers cannot mistake it for an
/// arbitrary piece of text.
#[derive(Debug)]
pub struct GameConfigPath {
    path: String,
}

impl GameConfigPath {
    pub closed spec fn spec_path(&self) -> Seq<char> {
        self.path@
    }

    pub fn new(path: String) -> (p: GameConfigPath)
        ensures
            p.spec_path() == path@,
    {
        GameConfigPath { path }
    }

    pub fn path(&self) -> (r: &String)
        ensures
            r@ == self.spec_path(),
    {
        &self.path
    }
}

/// Round trip through persistence: reading back a record saved with
/// `save_config` yields that record, field for field, whatever
/// fallback directory the reader would have used.
pub proof fn lemma_saved_record_reloads(c: ConfigView, default_dir: Seq<char>)
    ensures
        spec_config_of(Some(crate::codec::spec_encode(c)), default_dir) == c,
{
    crate::codec::lemma_config_round_trip(c);
}

/// The derivation is a priority chain: each stage is reported exactly
/// when its own flag is unset and every earlier flag is set; the
/// update, patch and installed outcomes are reported only when every
/// local flag is set; and the freshness bit cannot influence the
/// result until then.
pub proof fn lemma_state_priority(c: ConfigView, update_available: bool)
    ensures
        spec_current_state(c, update_available) == GameState::ProtonNotInstalled <==> !c.is_wine_installed,
        spec_current_state(c, update_available) == GameState::DXVKNotInstalled <==> c.is_wine_installed
            && !c.is_dxvk_installed,
        spec_current_state(c, update_available) == GameState::FontNotInstalled <==> c.is_wine_installed
            && c.is_dxvk_installed && !c.is_font_installed,
        spec_current_state(c, update_available) == GameState::DependecieNotInstalled
            <==> c.is_wine_installed && c.is_dxvk_installed && c.is_font_installed
            && !c.is_dependecies_installed,
        spec_current_state(c, update_available) == GameState::GameNotInstalled <==> c.is_wine_installed
            && c.is_dxvk_installed && c.is_font_installed && c.is_dependecies_installed
            && !c.is_game_installed,
        spec_current_state(c, update_available) == GameState::GameNeedUpdate <==> all_local_flags_set(c)
            && update_available,
        spec_current_state(c, update_available) == GameState::GameNotPatched <==> all_local_flags_set(c)
            && !update_available && !c.is_game_patched,
        spec_current_state(c, update_available) == GameState::GameInstalled <==> all_local_flags_set(c)
            && !update_available && c.is_game_patched,
        !all_local_flags_set(c) ==> spec_current_state(c, true) == spec_current_state(c, false),
{
}

} // verus!
