//! Konfiguration der Datenbankverbindung und Auswahl des Backends.

use vstd::prelude::*;

verus! {

/// Unterstuetzte Datenbank-Backends.
#[derive(Debug, Clone, Copy, PartialEq, Eq, Structural)]
pub enum DatabaseBackend {
    /// SQLite: Standard fuer den Betrieb mit einer Instanz.
    Sqlite,
    /// PostgreSQL: fuer den Betrieb mit mehreren Instanzen.
    Postgres,
}

impl DatabaseBackend {
    /// Der Anzeigename des Backends.
    pub fn als_str(&self) -> (r: &'static str)
        ensures
            r@ == (match *self {
                DatabaseBackend::Sqlite => "SQLite"@,
                DatabaseBackend::Postgres => "PostgreSQL"@,
            }),
    {
        match self {
            DatabaseBackend::Sqlite => "SQLite",
            DatabaseBackend::Postgres => "PostgreSQL",
        }
    }
}

/// Konfiguration fuer die Datenbankverbindung.
#[derive(Debug, Clone)]
pub struct DatabaseConfig {
    /// Ausgewaehltes Backend.
    pub backend: DatabaseBackend,
    /// Verbindungs-URL (etwa `sqlite://speakeasy.db`).
    pub url: String,
    /// Maximale Anzahl gleichzeitiger Verbindungen im Pool.
    pub max_verbindungen: u32,
    /// Ob bei SQLite der WAL-Modus aktiviert wird.
    pub sqlite_wal: bool,
}

impl Default for DatabaseConfig {
    fn default() -> (r: Self)
        ensures
            r.backend == DatabaseBackend::Sqlite,
            r.url@ == "sqlite://speakeasy.db"@,
            r.max_verbindungen == 5,
            r.sqlite_wal,
    {
        DatabaseConfig {
            backend: DatabaseBackend::Sqlite,
            url: String::from_str("sqlite://speakeasy.db"),
            max_verbindungen: 5,
            sqlite_wal: true,
        }
    }
}

} // verus!
