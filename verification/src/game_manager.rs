//! The orchestrator: it sequences the pipeline stages, and after each
//! stage's side effect has fully succeeded — and only then — flips
//! that stage's flag in the installation record. A failed stage
//! leaves the record exactly as it was, so re-invocation resumes at
//! the failed stage.

use vstd::prelude::*;

use crate::components::component_downloader::{ComponentDownloader, InstallError};
use crate::game_state::{ConfigView, GameConfig};
use crate::progress::{ProgressSink, Reporter};

verus! {

/// The five record-gated stages of the pipeline, in order.
#[derive(Debug, Clone, Copy, PartialEq, Eq, Structural)]
pub enum Stage {
    Wine,
    Dxvk,
    Fonts,
    Dependencies,
    Game,
}

/// The record after a stage's success has been committed: that
/// stage's flag is set, everything else is untouched.
pub open spec fn spec_mark_done(c: ConfigView, stage: Stage) -> ConfigView {
    match stage {
        Stage::Wine => ConfigView { is_wine_installed: true, ..c },
        Stage::Dxvk => ConfigView { is_dxvk_installed: true, ..c },
        Stage::Fonts => ConfigView { is_font_installed: true, ..c },
        Stage::Dependencies => ConfigView { is_dependecies_installed: true, ..c },
        Stage::Game => ConfigView { is_game_installed: true, ..c },
    }
}

/// The record flag that gates a stage.
pub open spec fn spec_stage_flag(c: ConfigView, stage: Stage) -> bool {
    match stage {
        Stage::Wine => c.is_wine_installed,
        Stage::Dxvk => c.is_dxvk_installed,
        Stage::Fonts => c.is_font_installed,
        Stage::Dependencies => c.is_dependecies_installed,
        Stage::Game => c.is_game_installed,
    }
}

/// Committing a stage twice is the same as committing it once: a
/// re-invoked successful stage leaves its flag true and changes
/// nothing else.
pub proof fn lemma_mark_done_idempotent(c: ConfigView, stage: Stage)
    ensures
        spec_mark_done(spec_mark_done(c, stage), stage) == spec_mark_done(c, stage),
{
}

/// Committing one stage touches nothing but that stage's flag: every
/// other stage flag, both paths and the patch flag keep their values,
/// and the committed flag is set.
pub proof fn lemma_mark_done_frame(c: ConfigView, stage: Stage)
    ensures
        spec_stage_flag(spec_mark_done(c, stage), stage),
        forall|other: Stage|
            other != stage ==> spec_stage_flag(spec_mark_done(c, stage), other) == spec_stage_flag(
                c,
                other,
            ),
        spec_mark_done(c, stage).config_dir == c.config_dir,
        spec_mark_done(c, stage).game_dir == c.game_dir,
        spec_mark_done(c, stage).is_game_patched == c.is_game_patched,
{
}

/// The ten fonts installed into the runtime, in their fixed order.
#[derive(Debug, Clone, Copy, PartialEq, Eq, Structural)]
pub enum Font {
    Arial,
    Andale,
    Courier,
    ComicSans,
    Georgia,
    Impact,
    Times,
    Trebuchet,
    Verdana,
    Webdings,
}

/// The font installed at position `i` of the sequence, `None` once
/// all ten are done.
pub open spec fn spec_font_at(i: int) -> Option<Font> {
    if i == 0 {
        Some(Font::Arial)
    } else if i == 1 {
        Some(Font::Andale)
    } else if i == 2 {
        Some(Font::Courier)
    } else if i == 3 {
        Some(Font::ComicSans)
    } else if i == 4 {
        Some(Font::Georgia)
    } else if i == 5 {
        Some(Font::Impact)
    } else if i == 6 {
        Some(Font::Times)
    } else if i == 7 {
        Some(Font::Trebuchet)
    } else if i == 8 {
        Some(Font::Verdana)
    } else if i == 9 {
        Some(Font::Webdings)
    } else {
        None
    }
}

/// Drives the font stage: hands out the ten fonts in order and
/// reports progress for each over the sink, under the sink's
/// protocol — `setup` once with the font count as total, then one
/// non-decreasing count per installed font. The caller performs the
/// actual font install between `next_font` and `font_done`.
pub struct FontInstaller<R: Reporter> {
    sink: ProgressSink<R>,
    installed: u64,
}

impl<R: Reporter> FontInstaller<R> {
    /// How many fonts have been recorded as installed.
    pub closed spec fn spec_installed(&self) -> u64 {
        self.installed
    }

    /// The driver's invariant: the sink has been set up once with the
    /// font count as its total, and its count tracks the number of
    /// installed fonts.
    pub closed spec fn wf(&self) -> bool {
        &&& self.installed <= 10
        &&& self.sink.spec_started()
        &&& self.sink.spec_total() == Some(10u64)
        &&& self.sink.spec_count() == self.installed
    }

    /// All ten fonts are done.
    pub open spec fn complete(&self) -> bool {
        self.wf() && self.spec_installed() == 10
    }

    /// Announces the font stage over the reporter and starts at zero.
    pub fn new(reporter: R) -> (fi: Self)
        ensures
            fi.wf(),
            fi.spec_installed() == 0,
    {
        let mut sink = ProgressSink::new(reporter);
        sink.setup(Some(10), "");
        sink.progress(0);
        FontInstaller { sink, installed: 0 }
    }

    /// The next font to install, `None` once all ten are done.
    pub fn next_font(&self) -> (f: Option<Font>)
        ensures
            f == spec_font_at(self.spec_installed() as int),
            f is None <==> self.spec_installed() >= 10,
    {
        match self.installed {
            0u64 => Some(Font::Arial),
            1u64 => Some(Font::Andale),
            2u64 => Some(Font::Courier),
            3u64 => Some(Font::ComicSans),
            4u64 => Some(Font::Georgia),
            5u64 => Some(Font::Impact),
            6u64 => Some(Font::Times),
            7u64 => Some(Font::Trebuchet),
            8u64 => Some(Font::Verdana),
            9u64 => Some(Font::Webdings),
            _ => None,
        }
    }

    /// Records that the current font was installed and reports the
    /// new count.
    pub fn font_done(&mut self)
        requires
            old(self).wf(),
            old(self).spec_installed() < 10,
        ensures
            final(self).wf(),
            final(self).spec_installed() == old(self).spec_installed() + 1,
    {
        self.installed = self.installed + 1;
        self.sink.progress(self.installed);
    }

    /// Whether every font is done.
    pub fn is_complete(&self) -> (b: bool)
        ensures
            b == (self.spec_installed() == 10),
    {
        self.installed == 10
    }

    /// Hands the underlying reporter back once the stage is over.
    pub fn into_reporter(self) -> R {
        self.sink.into_reporter()
    }
}

/// The orchestrator of the installation pipeline.
pub struct GameManager;

impl GameManager {
    /// Sets one stage's flag in the record.
    fn mark_done(config: &mut GameConfig, stage: Stage)
        ensures
            final(config)@ == spec_mark_done(old(config)@, stage),
    {
        match stage {
            Stage::Wine => {
                config.is_wine_installed = true;
            },
            Stage::Dxvk => {
                config.is_dxvk_installed = true;
            },
            Stage::Fonts => {
                config.is_font_installed = true;
            },
            Stage::Dependencies => {
                config.is_dependecies_installed = true;
            },
            Stage::Game => {
                config.is_game_installed = true;
            },
        }
    }

    /// One orchestrator step in its general form: a stage whose side
    /// effect succeeded is committed; one that failed leaves the
    /// record exactly as it was.
    pub fn apply_stage_outcome(config: &mut GameConfig, stage: Stage, succeeded: bool)
        ensures
            succeeded ==> final(config)@ == spec_mark_done(old(config)@, stage),
            !succeeded ==> final(config)@ == old(config)@,
    {
        if succeeded {
            Self::mark_done(config, stage);
        }
    }

    /// Installs the compatibility runtime: runs the component's
    /// install, and only on success commits the stage to the record.
    /// On failure the record is untouched and the error is passed on.
    pub fn install_wine<C: ComponentDownloader, R: Reporter>(
        component: &mut C,
        config: &mut GameConfig,
        progress: Option<&mut ProgressSink<R>>,
    ) -> (r: Result<(), InstallError>)
        ensures
            r is Ok ==> final(config)@ == spec_mark_done(old(config)@, Stage::Wine),
            r is Err ==> final(config)@ == old(config)@,
    {
        match component.install(progress) {
            Result::Ok(()) => {
                Self::mark_done(config, Stage::Wine);
                Ok(())
            },
            Result::Err(e) => Err(e),
        }
    }

    /// Installs the graphics-translation layer, with the same
    /// commit-on-success policy as the runtime stage.
    pub fn install_dxvk<C: ComponentDownloader, R: Reporter>(
        component: &mut C,
        config: &mut GameConfig,
        progress: Option<&mut ProgressSink<R>>,
    ) -> (r: Result<(), InstallError>)
        ensures
            r is Ok ==> final(config)@ == spec_mark_done(old(config)@, Stage::Dxvk),
            r is Err ==> final(config)@ == old(config)@,
    {
        match component.install(progress) {
            Result::Ok(()) => {
                Self::mark_done(config, Stage::Dxvk);
                Ok(())
            },
            Result::Err(e) => Err(e),
        }
    }

    /// Commits the font stage. Only a driver that has gone through
    /// all ten fonts is accepted, so the flag cannot be set while a
    /// font is still missing.
    pub fn install_font<R: Reporter>(config: &mut GameConfig, fonts: &FontInstaller<R>)
        requires
            fonts.complete(),
        ensures
            final(config)@ == spec_mark_done(old(config)@, Stage::Fonts),
    {
        Self::mark_done(config, Stage::Fonts);
    }

    /// Commits the dependency stage when every package of
    /// `dependency_packages` was installed; otherwise reports the
    /// runtime failure and leaves the record untouched.
    pub fn install_dependecies(config: &mut GameConfig, packages_installed: bool) -> (r: Result<
        (),
        InstallError,
    >)
        ensures
            packages_installed ==> r is Ok && final(config)@ == spec_mark_done(
                old(config)@,
                Stage::Dependencies,
            ),
            !packages_installed ==> r == Result::<(), InstallError>::Err(InstallError::Runtime)
                && final(config)@ == old(config)@,
    {
        if packages_installed {
            Self::mark_done(config, Stage::Dependencies);
            Ok(())
        } else {
            Err(InstallError::Runtime)
        }
    }

    /// Installs the game payload, with the same commit-on-success
    /// policy as the runtime stage. The caller creates the target
    /// directory and records it with `set_game_dir`.
    pub fn install_game<C: ComponentDownloader, R: Reporter>(
        component: &mut C,
        config: &mut GameConfig,
        progress: Option<&mut ProgressSink<R>>,
    ) -> (r: Result<(), InstallError>)
        ensures
            r is Ok ==> final(config)@ == spec_mark_done(old(config)@, Stage::Game),
            r is Err ==> final(config)@ == old(config)@,
    {
        match component.install(progress) {
            Result::Ok(()) => {
                Self::mark_done(config, Stage::Game);
                Ok(())
            },
            Result::Err(e) => Err(e),
        }
    }

    /// Where the compatibility runtime is installed under the
    /// configuration directory.
    pub fn wine_dir(config: &GameConfig) -> (r: String)
        ensures
            r@ == config@.config_dir + "/runtime"@,
    {
        let mut d = config.config_dir.as_str().to_owned();
        d.append("/runtime");
        d
    }

    /// Where the graphics-translation layer is staged under the
    /// configuration directory.
    pub fn dxvk_dir(config: &GameConfig) -> (r: String)
        ensures
            r@ == config@.config_dir + "/dxvk"@,
    {
        let mut d = config.config_dir.as_str().to_owned();
        d.append("/dxvk");
        d
    }

    /// The executable launched inside the runtime, under the game's
    /// install directory.
    pub fn game_executable(game_dir: &str) -> (r: String)
        ensures
            r@ == game_dir@ + "/PGR.exe"@,
    {
        let mut d = game_dir.to_owned();
        d.append("/PGR.exe");
        d
    }

    /// The auxiliary packages the dependency stage installs through
    /// the runtime's package facility, in order.
    pub fn dependency_packages() -> (v: Vec<&'static str>)
        ensures
            v@.len() == 2,
            v@[0]@ == "corefonts"@,
            v@[1]@ == "vcrun2022"@,
    {
        let mut v: Vec<&'static str> = Vec::new();
        v.push("corefonts");
        v.push("vcrun2022");
        v
    }
}

} // verus!
