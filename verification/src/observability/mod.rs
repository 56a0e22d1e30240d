//! Beobachtbarkeit: Health-Check-Zustand, Logging-Konfiguration und Antwortzeit-Buckets.

pub mod health;
pub mod logging;
pub mod middleware;
