//! Deciding how to update a Cataclysm: DDA installation to the newest
//! experimental build: which archive to fetch, where from, which files of the
//! old installation survive, and how the settings of the command line and of
//! the configuration file combine.

pub mod text;
pub mod paths;
pub mod pattern;
pub mod updater;
pub mod settings;
pub mod utils;
