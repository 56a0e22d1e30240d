//! WASM-Laufzeit und Host-API.

pub mod api;
pub mod capabilities;
pub mod runtime;
pub mod sandbox;
