//! MicYou plugin system: manifest model and validation, the WASM runtime's
//! decisions and linear-memory buffer exchange, WAVE playback checks, the
//! desktop host's processing-chain wiring and the plugin developer toolkit.

pub mod cli;
pub mod error;
pub mod host;
pub mod manifest;
pub mod memory;
pub mod path;
pub mod plugin_host;
pub mod renderer;
pub mod sound;
pub mod text;
pub mod views;
pub mod wasm;
pub mod wav;
