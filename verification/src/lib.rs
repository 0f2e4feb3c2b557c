//! Decision core of a playlist downloader.
//!
//! The crate holds every rule of the download-and-unpack pipeline as verified
//! functions on plain values: which byte windows a ranged transfer asks for,
//! how progress advances, how each transfer reacts to what the network and the
//! disk report, where archives are unpacked and what is logged. Network and
//! filesystem work is left to the caller, which performs the requested
//! action and hands back what happened.

pub mod directory;
pub mod entry;
pub mod error;
pub mod foreign;
pub mod item;
pub mod pipeline;
pub mod progress;
pub mod range;
pub mod ranged;
pub mod streaming;
pub mod text;
pub mod unpack;
