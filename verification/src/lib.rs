//! Launch options and save selection for a headless Factorio server.
//!
//! The library decides; it never touches the disk, the network or the
//! environment. Callers look at the world, hand what they saw to the functions
//! here as plain values, and carry out what comes back.

pub mod config;
pub mod daemon;
pub mod disk;
pub mod download;
pub mod error;
pub mod paths;
pub mod proofs;
pub mod server_opts;
pub mod setup;
pub mod utils;

pub use download::get_factorio_directory;
pub use server_opts::ServerOpts;
pub use utils::{get_latest_save, get_saves};
