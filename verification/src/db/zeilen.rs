//! Lesen und Schreiben der gespeicherten Spaltenwerte: UUIDs, Zeitpunkte, Berechtigungswerte.
//!
//! Kennungen werden als UUID-Text gespeichert, Zeitpunkte als RFC-3339-Text, Listen als
//! JSON-Array. Fehlerhafte gespeicherte Werte werden als interner Fehler gemeldet, mit dem
//! Kontext des Aufrufers am Anfang der Meldung.

use crate::db::error::{json_fehler_text, DbError};
use crate::db::models::{tristate_als_int, BerechtigungsWert};
use crate::kern::{uuid_aus_text, uuid_fehler_text, uuid_parsen};
use crate::text::strings_sicht;
use vstd::prelude::*;

verus! {

/// Der Zeitpunkt (Unix-Millisekunden), den ein RFC-3339-Text beschreibt, oder `None`.
pub uninterp spec fn zeit_aus_text(text: Seq<char>) -> Option<i64>;

/// Der RFC-3339-Text eines Zeitpunkts (Unix-Millisekunden, UTC), oder `None` ausserhalb des
/// darstellbaren Bereichs.
pub uninterp spec fn zeit_text(ms: i64) -> Option<Seq<char>>;

/// Das JSON-Array einer Liste von Zeichenketten.
pub uninterp spec fn json_liste_text(liste: Seq<Seq<char>>) -> Seq<char>;

/// Die Liste von Zeichenketten, die ein JSON-Text beschreibt, oder `None`.
pub uninterp spec fn json_liste(text: Seq<char>) -> Option<Seq<Seq<char>>>;

/// Ein Fehler beim Lesen eines Zeitpunkts (`chrono::ParseError`).
#[verifier::external_type_specification]
#[verifier::external_body]
pub struct FremdZeitFehler(chrono::ParseError);

/// `chrono::DateTime::parse_from_rfc3339` (dann `timestamp_millis`): der Zeitpunkt des Textes
/// oder der Fehler des Crates.
#[verifier::external_body]
fn zeit_parsen(text: &str) -> (r: Result<i64, chrono::ParseError>)
    ensures
        match r {
            Ok(v) => zeit_aus_text(text@) == Some(v),
            Err(_) => zeit_aus_text(text@) is None,
        },
{
    chrono::DateTime::parse_from_rfc3339(text).map(|d| d.timestamp_millis())
}

/// Die Anzeige eines `chrono::ParseError` (ueber `to_string`); ueber den Text wird nichts
/// behauptet.
#[verifier::external_body]
fn zeit_fehler_text(e: &chrono::ParseError) -> String {
    e.to_string()
}

/// `chrono::DateTime::from_timestamp_millis` (dann `to_rfc3339`): der Text des Zeitpunkts,
/// `None` ausserhalb des darstellbaren Bereichs.
#[verifier::external_body]
fn zeit_formatieren(ms: i64) -> (r: Option<String>)
    ensures
        match r {
            Some(s) => zeit_text(ms) == Some(s@),
            None => zeit_text(ms) is None,
        },
{
    chrono::DateTime::from_timestamp_millis(ms).map(|d| d.to_rfc3339())
}

/// `serde_json::to_string` fuer eine Liste von Zeichenketten. Laut Dokumentation scheitert
/// das nur an einer scheiternden `Serialize`-Implementierung oder an Tabellen mit
/// Nicht-Text-Schluesseln; beides kommt bei `Vec<String>` nicht vor.
#[verifier::external_body]
fn json_aus_liste(liste: &Vec<String>) -> (r: Result<String, serde_json::Error>)
    ensures
        r is Ok,
        r matches Ok(s) ==> s@ == json_liste_text(strings_sicht(liste@)),
{
    serde_json::to_string(liste)
}

/// `serde_json::from_str` fuer eine Liste von Zeichenketten: die Liste oder der Fehler.
#[verifier::external_body]
fn liste_aus_json(text: &str) -> (r: Result<Vec<String>, serde_json::Error>)
    ensures
        match r {
            Ok(v) => json_liste(text@) == Some(strings_sicht(v@)),
            Err(_) => json_liste(text@) is None,
        },
{
    serde_json::from_str(text)
}

/// Die Meldung `m` beginnt mit dem Kontext, gefolgt von `": "` (danach die Ursache).
pub open spec fn mit_ursache(kontext: Seq<char>, m: Seq<char>) -> bool {
    m.len() >= kontext.len() + 2 && m.take(kontext.len() + 2int) == kontext + ": "@
}

/// Baut `kontext + ": " + ursache`.
fn meldung_mit_ursache(kontext: &str, ursache: &str) -> (r: String)
    ensures
        r@ == kontext@ + ": "@ + ursache@,
        mit_ursache(kontext@, r@),
{
    let mut m = String::from_str(kontext);
    m.append(": ");
    m.append(ursache);
    proof {
        reveal_strlit(": ");
        assert(m@.take(kontext@.len() + 2int) =~= kontext@ + ": "@);
    }
    m
}

/// Liest eine gespeicherte UUID; ein ungueltiger Text ergibt einen internen Fehler mit dem
/// Kontext am Anfang der Meldung.
pub fn uuid_lesen(text: &str, kontext: &str) -> (r: Result<u128, DbError>)
    ensures
        match r {
            Ok(v) => uuid_aus_text(text@) == Some(v),
            Err(e) => uuid_aus_text(text@) is None && (e matches DbError::Intern(m) && mit_ursache(
                kontext@,
                m@,
            )),
        },
{
    match uuid_parsen(text) {
        Ok(v) => Ok(v),
        Err(e) => {
            let t = uuid_fehler_text(&e);
            Err(DbError::Intern(meldung_mit_ursache(kontext, t.as_str())))
        },
    }
}

/// Liest einen gespeicherten Zeitpunkt (RFC 3339) als Unix-Millisekunden; ein ungueltiger
/// Text ergibt einen internen Fehler mit dem Kontext am Anfang der Meldung.
pub fn zeit_lesen(text: &str, kontext: &str) -> (r: Result<i64, DbError>)
    ensures
        match r {
            Ok(v) => zeit_aus_text(text@) == Some(v),
            Err(e) => zeit_aus_text(text@) is None && (e matches DbError::Intern(m) && mit_ursache(
                kontext@,
                m@,
            )),
        },
{
    match zeit_parsen(text) {
        Ok(v) => Ok(v),
        Err(e) => {
            let t = zeit_fehler_text(&e);
            Err(DbError::Intern(meldung_mit_ursache(kontext, t.as_str())))
        },
    }
}

/// Der zu speichernde Text eines Zeitpunkts (Unix-Millisekunden), `None` ausserhalb des
/// darstellbaren Bereichs.
pub fn zeit_als_text(ms: i64) -> (r: Option<String>)
    ensures
        match r {
            Some(s) => zeit_text(ms) == Some(s@),
            None => zeit_text(ms) is None,
        },
{
    zeit_formatieren(ms)
}

/// Die Art eines gespeicherten Berechtigungswertes.
#[derive(Debug, Clone, Copy, PartialEq, Eq, Structural)]
pub enum WertArt {
    TriState,
    IntLimit,
    Scope,
}

/// Der gespeicherte Name einer Wertart.
pub open spec fn wert_art_name(a: WertArt) -> Seq<char> {
    match a {
        WertArt::TriState => "tri_state"@,
        WertArt::IntLimit => "int_limit"@,
        WertArt::Scope => "scope"@,
    }
}

/// Die Wertart zu ihrem gespeicherten Namen; ein unbekannter Name ist ein interner Fehler.
pub fn wert_art(value_type: &str) -> (r: Result<WertArt, DbError>)
    ensures
        match r {
            Ok(a) => value_type@ == wert_art_name(a),
            Err(e) => value_type@ != "tri_state"@ && value_type@ != "int_limit"@ && value_type@
                != "scope"@ && (e matches DbError::Intern(m) && m@ == "Unbekannter value_type: "@
                + value_type@),
        },
{
    if crate::text::str_gleich(value_type, "tri_state") {
        Ok(WertArt::TriState)
    } else if crate::text::str_gleich(value_type, "int_limit") {
        Ok(WertArt::IntLimit)
    } else if crate::text::str_gleich(value_type, "scope") {
        Ok(WertArt::Scope)
    } else {
        let mut m = String::from_str("Unbekannter value_type: ");
        m.append(value_type);
        Err(DbError::Intern(m))
    }
}

/// Liest eine gespeicherte Scope-Liste (JSON-Array); ungueltiges JSON ist ein interner Fehler.
pub fn scope_lesen(json: &str) -> (r: Result<Vec<String>, DbError>)
    ensures
        match r {
            Ok(v) => json_liste(json@) == Some(strings_sicht(v@)),
            Err(e) => json_liste(json@) is None && (e matches DbError::Intern(m) && mit_ursache(
                "Ungueltige scope JSON"@,
                m@,
            )),
        },
{
    match liste_aus_json(json) {
        Ok(v) => Ok(v),
        Err(e) => {
            let t = json_fehler_text(&e);
            Err(DbError::Intern(meldung_mit_ursache("Ungueltige scope JSON", t.as_str())))
        },
    }
}

/// Die Spalten eines gespeicherten Berechtigungswertes: Wertart, Tri-State, Limit, Scope-JSON.
pub type WertSpalten = (&'static str, Option<i64>, Option<i64>, Option<String>);

/// Verteilt einen Berechtigungswert auf seine Spalten; genau die zur Art gehoerende ist
/// gesetzt (ein Tri-State `Skip` bleibt leer).
pub fn wert_zu_spalten(wert: &BerechtigungsWert) -> (r: Result<WertSpalten, DbError>)
    ensures
        r matches Ok(s) && match *wert {
            BerechtigungsWert::TriState(t) => s.0@ == "tri_state"@ && s.1 == tristate_als_int(t)
                && s.2 is None && s.3 is None,
            BerechtigungsWert::IntLimit(l) => s.0@ == "int_limit"@ && s.1 is None && s.2 == Some(l)
                && s.3 is None,
            BerechtigungsWert::Scope(v) => s.0@ == "scope"@ && s.1 is None && s.2 is None && (s.3 matches Some(j)
                && j@ == json_liste_text(strings_sicht(v@))),
        },
{
    match wert {
        BerechtigungsWert::TriState(ts) => Ok(("tri_state", ts.to_opt_int(), None, None)),
        BerechtigungsWert::IntLimit(limit) => Ok(("int_limit", None, Some(*limit), None)),
        BerechtigungsWert::Scope(scope) => match json_aus_liste(scope) {
            Ok(json) => Ok(("scope", None, None, Some(json))),
            Err(e) => Err(DbError::Json(e)),
        },
    }
}

} // verus!
