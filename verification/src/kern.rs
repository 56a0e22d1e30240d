//! Kennungen fuer Benutzer, Kanaele und Server (zufaellige UUIDs der Version 4).

use vstd::prelude::*;

verus! {

/// Eine UUID der Version 4 (RFC 4122): Versions-Nibble 4, Variantenbits `10`.
pub open spec fn ist_uuid_v4(wert: u128) -> bool {
    &&& (wert >> 76u128) & 0xfu128 == 4u128
    &&& (wert >> 62u128) & 0x3u128 == 2u128
}

/// Erzeugt eine zufaellige UUID der Version 4 und liefert ihre 128 Bits (big-endian gelesen).
///
/// Ruft `uuid::Uuid::new_v4` und `Uuid::as_u128`. Behauptet wird nur, was die Quelle fuer jeden
/// Ausgang festlegt: Versions-Nibble 4 und RFC-4122-Variante; die uebrigen Bits sind zufaellig.
#[verifier::external_body]
pub(crate) fn zufalls_uuid() -> (r: u128)
    ensures
        ist_uuid_v4(r),
{
    uuid::Uuid::new_v4().as_u128()
}

/// Die Textform einer UUID (Kleinbuchstaben, mit Bindestrichen getrennt).
pub uninterp spec fn uuid_text(wert: u128) -> Seq<char>;

/// Die Bits der UUID, die ein Text beschreibt, oder `None`, wenn er keine beschreibt.
pub uninterp spec fn uuid_aus_text(text: Seq<char>) -> Option<u128>;

/// Ein Fehler beim Lesen einer UUID (`uuid::Error`).
#[verifier::external_type_specification]
#[verifier::external_body]
pub struct FremdUuidFehler(uuid::Error);

/// Die Textform der UUID mit den Bits `wert` (`uuid::Uuid::from_u128`, dann `to_string`).
///
/// Behauptet wird: das Ergebnis ist `uuid_text(wert)`, hat, wie die Dokumentation fuer das
/// Bindestrich-Format angibt, 36 Zeichen, und `Uuid::parse_str` liest es als dieselbe UUID.
#[verifier::external_body]
pub(crate) fn uuid_als_text(wert: u128) -> (r: String)
    ensures
        r@ == uuid_text(wert),
        r@.len() == 36,
        uuid_aus_text(r@) == Some(wert),
{
    uuid::Uuid::from_u128(wert).to_string()
}

/// `uuid::Uuid::parse_str` (dann `as_u128`): die UUID, die der Text beschreibt, oder der
/// Fehler des Crates.
#[verifier::external_body]
pub(crate) fn uuid_parsen(text: &str) -> (r: Result<u128, uuid::Error>)
    ensures
        match r {
            Ok(v) => uuid_aus_text(text@) == Some(v),
            Err(_) => uuid_aus_text(text@) is None,
        },
{
    uuid::Uuid::parse_str(text).map(|u| u.as_u128())
}

/// Die Anzeige eines `uuid::Error` (ueber `to_string`); ueber den Text wird nichts behauptet.
#[verifier::external_body]
pub(crate) fn uuid_fehler_text(e: &uuid::Error) -> String {
    e.to_string()
}

/// Die aktuelle Systemzeit in Unix-Millisekunden (`chrono::Utc::now`, dann
/// `timestamp_millis`); haengt von der Uhr ab, es wird nichts ueber sie behauptet.
#[verifier::external_body]
pub(crate) fn jetzt_ms() -> i64 {
    chrono::Utc::now().timestamp_millis()
}

/// Eine neue zufaellige Kennung (UUID der Version 4).
pub fn neue_kennung() -> (r: u128)
    ensures
        ist_uuid_v4(r),
{
    zufalls_uuid()
}

/// Die gespeicherte Textform einer Kennung: 36 Zeichen, von `uuid_lesen` als dieselbe
/// Kennung gelesen.
pub fn kennung_als_text(wert: u128) -> (r: String)
    ensures
        r@ == uuid_text(wert),
        r@.len() == 36,
        uuid_aus_text(r@) == Some(wert),
{
    uuid_als_text(wert)
}

/// Kennung eines Benutzers.
#[derive(Debug, Clone, Copy, PartialEq, Eq, Hash, Structural)]
pub struct UserId(pub u128);

/// Kennung eines Kanals.
#[derive(Debug, Clone, Copy, PartialEq, Eq, Hash, Structural)]
pub struct ChannelId(pub u128);

/// Kennung eines Servers.
#[derive(Debug, Clone, Copy, PartialEq, Eq, Hash, Structural)]
pub struct ServerId(pub u128);

impl UserId {
    /// Erzeugt eine neue zufaellige Benutzer-Kennung.
    pub fn new() -> (r: Self)
        ensures
            ist_uuid_v4(r.0),
    {
        UserId(zufalls_uuid())
    }
}

impl ChannelId {
    /// Erzeugt eine neue zufaellige Kanal-Kennung.
    pub fn new() -> (r: Self)
        ensures
            ist_uuid_v4(r.0),
    {
        ChannelId(zufalls_uuid())
    }
}

impl ServerId {
    /// Erzeugt eine neue zufaellige Server-Kennung.
    pub fn new() -> (r: Self)
        ensures
            ist_uuid_v4(r.0),
    {
        ServerId(zufalls_uuid())
    }
}

} // verus!
