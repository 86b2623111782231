//! Switch the active color theme of an Alacritty installation by editing the
//! import list inside its TOML configuration file.
//!
//! The library holds the verified logic: resolving paths, expanding `~`,
//! deciding which schema location the import list lives at for a given host
//! version, and rewriting the list so that exactly one entry points into the
//! theme directory. File and process I/O stay outside the library.

pub mod config;
pub mod error;
pub mod imports;
pub mod paths;
pub mod split;
pub mod themes;
pub mod toml_doc;
pub mod version;

pub use error::SwitchError;
