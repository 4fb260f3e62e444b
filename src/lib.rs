//! Desktop video wallpaper engine: the decision logic of a controller that
//! supervises a playback side-car process, and of the side-car that embeds its
//! video window into the Windows shell's window hierarchy.
pub mod controller;
pub mod desktop;
pub mod injection;
pub mod links;
pub mod media;
pub mod models;
pub mod os_version;
pub mod shell;
pub mod sidecar;
pub mod storage;
pub mod watchdog;
