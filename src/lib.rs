//! Installs a Minecraft server: resolves a game version (and optionally a
//! mod loader) against version catalogs and decides what has to be fetched,
//! downloaded and run. The network, file and process work is done by the
//! caller, which hands the fetched values back to the library.
pub mod api_handler;
pub mod cache;
pub mod download;
pub mod errors;
pub mod fabric;
pub mod installer;
pub mod models;
