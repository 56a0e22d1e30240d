//! Fehlertypen der Datenbank-Schicht.

use crate::text::{enthaelt, enthaelt_spec};
use vstd::prelude::*;

verus! {

/// Ein Fehler von SQLx (`sqlx::Error`); die Bibliothek reicht ihn nur weiter.
#[verifier::external_type_specification]
#[verifier::external_body]
pub struct FremdSqlxFehler(sqlx::Error);

/// Ein Fehler beim Ausfuehren von Migrationen (`sqlx::migrate::MigrateError`).
#[verifier::external_type_specification]
#[verifier::external_body]
pub struct FremdMigrationsFehler(sqlx::migrate::MigrateError);

/// Ein Fehler von serde_json (`serde_json::Error`).
#[verifier::external_type_specification]
#[verifier::external_body]
pub struct FremdJsonFehler(serde_json::Error);

/// Die Anzeige eines SQLx-Fehlers (`<sqlx::Error as Display>`, ueber `to_string`).
///
/// Der Text haengt vom Fehler und vom Datenbanktreiber ab; die Bibliothek behauptet nichts
/// ueber ihn und prueft ihn nur mit eigenen Funktionen.
#[verifier::external_body]
fn sqlx_fehler_text(e: &sqlx::Error) -> String {
    e.to_string()
}

/// Die Anzeige eines Migrationsfehlers (`<MigrateError as Display>`, ueber `to_string`).
/// Ueber den Text wird nichts behauptet.
#[verifier::external_body]
fn migrations_fehler_text(e: &sqlx::migrate::MigrateError) -> String {
    e.to_string()
}

/// Die Anzeige eines serde_json-Fehlers (`<serde_json::Error as Display>`, ueber `to_string`).
/// Ueber den Text wird nichts behauptet.
#[verifier::external_body]
pub(crate) fn json_fehler_text(e: &serde_json::Error) -> String {
    e.to_string()
}

/// Datenbank-Fehlertypen.
#[derive(Debug)]
pub enum DbError {
    NichtGefunden(String),
    Eindeutigkeit(String),
    UngueltigeDaten(String),
    EinladungUngueltig,
    EinladungErschoepft,
    Sqlx(sqlx::Error),
    Migration(sqlx::migrate::MigrateError),
    Json(serde_json::Error),
    Intern(String),
}

/// Ein Meldungstext weist auf eine verletzte Eindeutigkeit hin.
pub open spec fn ist_unique_meldung_spec(text: Seq<char>) -> bool {
    enthaelt_spec(text, "UNIQUE"@) || enthaelt_spec(text, "unique"@)
}

/// Prueft ob ein Meldungstext auf eine verletzte Eindeutigkeit hinweist
/// (enthaelt `UNIQUE` oder `unique`).
pub fn ist_unique_meldung(text: &str) -> (r: bool)
    ensures
        r == ist_unique_meldung_spec(text@),
{
    enthaelt(text, "UNIQUE") || enthaelt(text, "unique")
}

/// Der Meldungstext der Fehler, deren Text die Bibliothek selbst bildet.
pub open spec fn db_meldung_spec(e: DbError) -> Option<Seq<char>> {
    match e {
        DbError::NichtGefunden(m) => Some("Datensatz nicht gefunden: "@ + m@),
        DbError::Eindeutigkeit(m) => Some("Eindeutigkeitsverletzung: "@ + m@),
        DbError::UngueltigeDaten(m) => Some("Ungueltige Daten: "@ + m@),
        DbError::EinladungUngueltig => Some("Einladung ungueltig oder abgelaufen"@),
        DbError::EinladungErschoepft => Some("Einladung erschoepft (max_uses erreicht)"@),
        DbError::Intern(m) => Some("Interner DB-Fehler: "@ + m@),
        _ => None,
    }
}

impl DbError {
    /// Fehler: Datensatz nicht gefunden.
    pub fn nicht_gefunden(msg: &str) -> (r: Self)
        ensures
            r matches DbError::NichtGefunden(m) && m@ == msg@,
    {
        DbError::NichtGefunden(String::from_str(msg))
    }

    /// Interner Fehler.
    pub fn intern(msg: &str) -> (r: Self)
        ensures
            r matches DbError::Intern(m) && m@ == msg@,
    {
        DbError::Intern(String::from_str(msg))
    }

    /// Gibt an, ob es sich um eine Eindeutigkeitsverletzung handelt: immer fuer
    /// `Eindeutigkeit`, fuer SQLx-Fehler genau dann, wenn deren Anzeige `UNIQUE` oder `unique`
    /// enthaelt, sonst nie.
    pub fn ist_eindeutigkeit(&self) -> (r: bool)
        ensures
            self is Eindeutigkeit ==> r,
            !(self is Eindeutigkeit) && !(self is Sqlx) ==> !r,
    {
        match self {
            DbError::Eindeutigkeit(_) => true,
            DbError::Sqlx(e) => {
                let text = sqlx_fehler_text(e);
                ist_unique_meldung(text.as_str())
            },
            _ => false,
        }
    }

    /// Menschenlesbare Fehlermeldung.
    pub fn meldung(&self) -> (r: String)
        ensures
            db_meldung_spec(*self) matches Some(m) ==> r@ == m,
    {
        match self {
            DbError::NichtGefunden(m) => {
                let mut s = String::from_str("Datensatz nicht gefunden: ");
                s.append(m.as_str());
                s
            },
            DbError::Eindeutigkeit(m) => {
                let mut s = String::from_str("Eindeutigkeitsverletzung: ");
                s.append(m.as_str());
                s
            },
            DbError::UngueltigeDaten(m) => {
                let mut s = String::from_str("Ungueltige Daten: ");
                s.append(m.as_str());
                s
            },
            DbError::EinladungUngueltig => String::from_str("Einladung ungueltig oder abgelaufen"),
            DbError::EinladungErschoepft => String::from_str(
                "Einladung erschoepft (max_uses erreicht)",
            ),
            DbError::Sqlx(e) => {
                let mut s = String::from_str("SQLx-Fehler: ");
                let t = sqlx_fehler_text(e);
                s.append(t.as_str());
                s
            },
            DbError::Migration(e) => {
                let mut s = String::from_str("Migration-Fehler: ");
                let t = migrations_fehler_text(e);
                s.append(t.as_str());
                s
            },
            DbError::Json(e) => {
                let mut s = String::from_str("JSON-Fehler: ");
                let t = json_fehler_text(e);
                s.append(t.as_str());
                s
            },
            DbError::Intern(m) => {
                let mut s = String::from_str("Interner DB-Fehler: ");
                s.append(m.as_str());
                s
            },
        }
    }
}

impl From<sqlx::Error> for DbError {
    fn from(e: sqlx::Error) -> (r: Self) {
        DbError::Sqlx(e)
    }
}

impl vstd::std_specs::convert::FromSpecImpl<sqlx::Error> for DbError {
    open spec fn obeys_from_spec() -> bool {
        true
    }

    open spec fn from_spec(e: sqlx::Error) -> Self {
        DbError::Sqlx(e)
    }
}

impl From<sqlx::migrate::MigrateError> for DbError {
    fn from(e: sqlx::migrate::MigrateError) -> (r: Self) {
        DbError::Migration(e)
    }
}

impl vstd::std_specs::convert::FromSpecImpl<sqlx::migrate::MigrateError> for DbError {
    open spec fn obeys_from_spec() -> bool {
        true
    }

    open spec fn from_spec(e: sqlx::migrate::MigrateError) -> Self {
        DbError::Migration(e)
    }
}

impl From<serde_json::Error> for DbError {
    fn from(e: serde_json::Error) -> (r: Self) {
        DbError::Json(e)
    }
}

impl vstd::std_specs::convert::FromSpecImpl<serde_json::Error> for DbError {
    open spec fn obeys_from_spec() -> bool {
        true
    }

    open spec fn from_spec(e: serde_json::Error) -> Self {
        DbError::Json(e)
    }
}

} // verus!
