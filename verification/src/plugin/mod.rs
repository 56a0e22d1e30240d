//! WASM-Plugin-System: Manifeste, Ereignisse, Vertrauensstufen, Registry und Verwaltung.

pub mod error;
pub mod types;
pub mod events;
pub mod host;
pub mod manager;
pub mod manifest;
pub mod registry;
pub mod tabelle;
pub mod trust;
