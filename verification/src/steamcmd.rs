//! Driving the command-line downloader: finding it, installing it, and
//! installing a list of items with it.

pub mod install;
pub mod mods;

pub use install::install;
pub use install::is_installed;
pub use mods::install_mods;
