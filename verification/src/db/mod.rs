//! Datenbank-Schicht: Modelle, Berechtigungsaufloesung, Abfrageaufbau und Fehler.

pub mod models;
pub mod permissions;
pub mod error;
pub mod repository;
pub mod abfragen;
pub mod zeilen;
