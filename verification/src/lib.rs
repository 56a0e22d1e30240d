//! Verifizierte Kernlogik des Speakeasy-Sprachservers.

pub mod db;
pub mod fremdtypen;
pub mod kern;
pub mod observability;
pub mod plugin;
pub mod protocol;
pub mod text;
