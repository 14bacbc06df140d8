//! The uniform contract every installable component follows.

pub mod component_downloader;
