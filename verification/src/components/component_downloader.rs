//! The contract each installable component (compatibility runtime,
//! graphics layer, game payload) implements: download an archive,
//! extract it, place it.

use vstd::prelude::*;

use crate::progress::{ProgressSink, Reporter};

verus! {

/// Why an install step failed, by origin.
#[derive(Debug, Clone, Copy, PartialEq, Eq, Structural)]
pub enum InstallError {
    /// The download source was unreachable or the destination
    /// unwritable.
    Transport,
    /// The archive was corrupt or in an unsupported format.
    Decode,
    /// The compatibility runtime reported a failure.
    Runtime,
    /// The installation record could not be persisted.
    Persistence,
}

/// The uniform install contract: download an archive, extract it,
/// place it. `install` is the externally visible entry point;
/// `download` and `uncompress` exist to allow testing and partial
/// re-runs. Implementations must be idempotent at the component
/// level: re-invoking `install` after a failure must overwrite or
/// remove any partial artifacts rather than require manual cleanup.
pub trait ComponentDownloader {
    /// Downloads, extracts and places the component. Progress, when a
    /// sink is supplied, follows the sink's protocol.
    fn install<R: Reporter>(&mut self, progress: Option<&mut ProgressSink<R>>) -> Result<
        (),
        InstallError,
    >;

    /// Fetches the component's archive into `output_dir`, creating
    /// the directory if absent; yields the path of the downloaded
    /// archive.
    fn download<R: Reporter>(
        &mut self,
        output_dir: &str,
        progress: Option<&mut ProgressSink<R>>,
    ) -> Result<String, InstallError>;

    /// Extracts the archive at `archive` into `destination`, creating
    /// intermediate directories, then removes the archive.
    fn uncompress(archive: &str, destination: &str) -> Result<(), InstallError>;
}

} // verus!
