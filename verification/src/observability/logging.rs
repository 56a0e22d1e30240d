//! Logging-Konfiguration: gueltige Stufen und Formate, Standardwerte, Wahl der Ausgabe.

use crate::text::str_gleich;
use vstd::prelude::*;

verus! {

/// Gueltige Log-Stufen (Gross- und Kleinschreibung zaehlt).
pub open spec fn log_level_gueltig_spec(level: Seq<char>) -> bool {
    level == "trace"@ || level == "debug"@ || level == "info"@ || level == "warn"@ || level
        == "error"@
}

/// Prueft ob ein Log-Level gueltig ist (`trace`, `debug`, `info`, `warn`, `error`).
pub fn log_level_gueltig(level: &str) -> (r: bool)
    ensures
        r == log_level_gueltig_spec(level@),
{
    str_gleich(level, "trace") || str_gleich(level, "debug") || str_gleich(level, "info")
        || str_gleich(level, "warn") || str_gleich(level, "error")
}

/// Prueft ob ein Log-Format gueltig ist (`text` oder `json`).
pub fn log_format_gueltig(format: &str) -> (r: bool)
    ensures
        r == (format@ == "text"@ || format@ == "json"@),
{
    str_gleich(format, "text") || str_gleich(format, "json")
}

/// Der konfigurierte Log-Level oder, wenn keiner gesetzt ist, `info`.
pub fn log_level_oder_standard(gesetzt: Option<String>) -> (r: String)
    ensures
        r@ == (match gesetzt {
            Some(v) => v@,
            None => "info"@,
        }),
{
    match gesetzt {
        Some(v) => v,
        None => String::from_str("info"),
    }
}

/// Das konfigurierte Log-Format oder, wenn keines gesetzt ist, `text`.
pub fn log_format_oder_standard(gesetzt: Option<String>) -> (r: String)
    ensures
        r@ == (match gesetzt {
            Some(v) => v@,
            None => "text"@,
        }),
{
    match gesetzt {
        Some(v) => v,
        None => String::from_str("text"),
    }
}

/// Die Art der Log-Ausgabe.
#[derive(Debug, Clone, Copy, PartialEq, Eq, Structural)]
pub enum LogAusgabe {
    /// Strukturierte JSON-Zeilen.
    Json,
    /// Lesbarer Text.
    Text,
}

/// Waehlt die Ausgabe: `json` ergibt JSON, jeder andere Wert Text.
pub fn log_ausgabe_waehlen(format: &str) -> (r: LogAusgabe)
    ensures
        r == (if format@ == "json"@ {
            LogAusgabe::Json
        } else {
            LogAusgabe::Text
        }),
{
    if str_gleich(format, "json") {
        LogAusgabe::Json
    } else {
        LogAusgabe::Text
    }
}

} // verus!
