//! Datenbankmodelle: reine Datenuebertragungsobjekte fuer die gespeicherten Datensaetze.
//!
//! Kennungen sind UUIDs als 128-Bit-Werte, Zeitpunkte sind Unix-Millisekunden (UTC).

use crate::text::{str_gleich, strings_kopieren, strings_sicht};
use vstd::prelude::*;

verus! {

/// Benutzer-Datensatz.
#[derive(Debug, Clone)]
pub struct BenutzerRecord {
    pub id: u128,
    pub username: String,
    pub password_hash: String,
    pub created_at: i64,
    pub last_login: Option<i64>,
    pub is_active: bool,
}

/// Daten zum Erstellen eines neuen Benutzers.
#[derive(Debug, Clone)]
pub struct NeuerBenutzer<'a> {
    pub username: &'a str,
    pub password_hash: &'a str,
}

/// Daten zum Aktualisieren eines Benutzers (nur gesetzte Felder werden geaendert).
#[derive(Debug, Clone, Default)]
pub struct BenutzerUpdate {
    pub username: Option<String>,
    pub password_hash: Option<String>,
    pub is_active: Option<bool>,
    pub last_login: Option<i64>,
}

/// Kanal-Typ.
#[derive(Debug, Clone, Copy, PartialEq, Eq, Structural)]
pub enum KanalTyp {
    Voice,
    Text,
}

/// Der gespeicherte Name eines Kanal-Typs.
pub open spec fn kanal_typ_name(t: KanalTyp) -> Seq<char> {
    match t {
        KanalTyp::Voice => "voice"@,
        KanalTyp::Text => "text"@,
    }
}

/// Was das Einlesen eines Kanal-Typs aus seinem Namen ergibt.
pub open spec fn kanal_typ_aus_name(s: Seq<char>) -> Result<KanalTyp, Seq<char>> {
    if s == "voice"@ {
        Ok(KanalTyp::Voice)
    } else if s == "text"@ {
        Ok(KanalTyp::Text)
    } else {
        Err("Unbekannter Kanal-Typ: "@ + s)
    }
}

/// Gesetz: Sprachkanaele heissen `voice`, Textkanaele `text`; genau diese beiden Namen werden
/// eingelesen, und zwar als der Typ, der so heisst.
pub proof fn gesetz_kanal_typ_namen(s: Seq<char>)
    ensures
        kanal_typ_name(KanalTyp::Voice) == "voice"@,
        kanal_typ_name(KanalTyp::Text) == "text"@,
        kanal_typ_aus_name(s) is Ok <==> (s == "voice"@ || s == "text"@),
        kanal_typ_aus_name(s) matches Ok(t) ==> kanal_typ_name(t) == s,
{
}

/// Gesetz: jeder Kanal-Typ wird aus seinem Namen wieder eingelesen.
pub proof fn gesetz_kanal_typ_rundreise(t: KanalTyp)
    ensures
        kanal_typ_aus_name(kanal_typ_name(t)) == Ok::<KanalTyp, Seq<char>>(t),
{
    reveal_strlit("voice");
    reveal_strlit("text");
    assert("voice"@.len() != "text"@.len());
}

impl KanalTyp {
    /// Der gespeicherte Name (`voice` oder `text`).
    pub fn als_str(&self) -> (r: &'static str)
        ensures
            r@ == kanal_typ_name(*self),
    {
        match self {
            KanalTyp::Voice => "voice",
            KanalTyp::Text => "text",
        }
    }

    /// Liest einen Kanal-Typ aus seinem Namen.
    pub fn aus_str(s: &str) -> (r: Result<KanalTyp, String>)
        ensures
            match r {
                Ok(t) => kanal_typ_aus_name(s@) == Ok::<KanalTyp, Seq<char>>(t),
                Err(e) => kanal_typ_aus_name(s@) == Err::<KanalTyp, Seq<char>>(e@),
            },
    {
        if str_gleich(s, "voice") {
            Ok(KanalTyp::Voice)
        } else if str_gleich(s, "text") {
            Ok(KanalTyp::Text)
        } else {
            let mut m = String::from_str("Unbekannter Kanal-Typ: ");
            m.append(s);
            Err(m)
        }
    }
}

impl std::str::FromStr for KanalTyp {
    type Err = String;

    fn from_str(s: &str) -> (r: Result<Self, String>)
        ensures
            match r {
                Ok(t) => kanal_typ_aus_name(s@) == Ok::<KanalTyp, Seq<char>>(t),
                Err(e) => kanal_typ_aus_name(s@) == Err::<KanalTyp, Seq<char>>(e@),
            },
    {
        KanalTyp::aus_str(s)
    }
}

/// Kanal-Datensatz.
#[derive(Debug, Clone)]
pub struct KanalRecord {
    pub id: u128,
    pub name: String,
    pub parent_id: Option<u128>,
    pub topic: Option<String>,
    pub password_hash: Option<String>,
    pub max_clients: i64,
    pub is_default: bool,
    pub sort_order: i64,
    pub channel_type: KanalTyp,
    pub created_at: i64,
}

/// Daten zum Erstellen eines neuen Kanals.
#[derive(Debug, Clone)]
pub struct NeuerKanal<'a> {
    pub name: &'a str,
    pub parent_id: Option<u128>,
    pub topic: Option<&'a str>,
    pub password_hash: Option<&'a str>,
    pub max_clients: i64,
    pub is_default: bool,
    pub sort_order: i64,
    pub channel_type: KanalTyp,
}

impl Default for NeuerKanal<'_> {
    fn default() -> (r: Self)
        ensures
            r.name@ == ""@,
            r.parent_id is None,
            r.topic is None,
            r.password_hash is None,
            r.max_clients == 0,
            !r.is_default,
            r.sort_order == 0,
            r.channel_type == KanalTyp::Voice,
    {
        NeuerKanal {
            name: "",
            parent_id: None,
            topic: None,
            password_hash: None,
            max_clients: 0,
            is_default: false,
            sort_order: 0,
            channel_type: KanalTyp::Voice,
        }
    }
}

/// Daten zum Aktualisieren eines Kanals (`Some(None)` setzt ein Feld auf leer).
#[derive(Debug, Clone, Default)]
pub struct KanalUpdate {
    pub name: Option<String>,
    pub parent_id: Option<Option<u128>>,
    pub topic: Option<Option<String>>,
    pub password_hash: Option<Option<String>>,
    pub max_clients: Option<i64>,
    pub is_default: Option<bool>,
    pub sort_order: Option<i64>,
}

/// Server-Gruppen-Datensatz.
#[derive(Debug, Clone)]
pub struct ServerGruppeRecord {
    pub id: u128,
    pub name: String,
    pub priority: i64,
    pub is_default: bool,
    pub permissions: serde_json::Value,
}

/// Daten zum Erstellen einer neuen Server-Gruppe.
#[derive(Debug, Clone)]
pub struct NeueServerGruppe<'a> {
    pub name: &'a str,
    pub priority: i64,
    pub is_default: bool,
}

/// Kanal-Gruppen-Datensatz.
#[derive(Debug, Clone)]
pub struct KanalGruppeRecord {
    pub id: u128,
    pub name: String,
    pub permissions: serde_json::Value,
}

/// Daten zum Erstellen einer neuen Kanal-Gruppe.
#[derive(Debug, Clone)]
pub struct NeueKanalGruppe<'a> {
    pub name: &'a str,
}

/// Dreiwertiger Zustand fuer Berechtigungen.
#[derive(Debug, Clone, Copy, PartialEq, Eq, Structural)]
pub enum TriState {
    Grant,
    Deny,
    Skip,
}

/// Der Zustand zu einem gespeicherten optionalen Integer (None = Skip, 1 = Grant, sonst Deny).
pub open spec fn tristate_aus_int(v: Option<i64>) -> TriState {
    match v {
        None => TriState::Skip,
        Some(x) => if x == 1 {
            TriState::Grant
        } else {
            TriState::Deny
        },
    }
}

/// Der gespeicherte optionale Integer eines Zustands (Skip = None, Grant = 1, Deny = 0).
pub open spec fn tristate_als_int(t: TriState) -> Option<i64> {
    match t {
        TriState::Skip => None,
        TriState::Grant => Some(1i64),
        TriState::Deny => Some(0i64),
    }
}

/// Gesetz: gespeichert wird Grant als 1, Deny als 0 und Skip als kein Wert; gelesen wird genau 1
/// als Grant, jede andere Zahl als Deny und kein Wert als Skip.
pub proof fn gesetz_tristate_codes(x: i64)
    ensures
        tristate_als_int(TriState::Grant) == Some(1i64),
        tristate_als_int(TriState::Deny) == Some(0i64),
        tristate_als_int(TriState::Skip) is None,
        (tristate_aus_int(Some(x)) == TriState::Grant) == (x == 1),
        (tristate_aus_int(Some(x)) == TriState::Deny) == (x != 1),
        tristate_aus_int(None) == TriState::Skip,
{
}

impl TriState {
    /// Konvertiert aus optionalem Integer (None = Skip, 1 = Grant, sonst Deny).
    pub fn from_opt_int(v: Option<i64>) -> (r: Self)
        ensures
            r == tristate_aus_int(v),
    {
        match v {
            None => TriState::Skip,
            Some(1) => TriState::Grant,
            Some(_) => TriState::Deny,
        }
    }

    /// Konvertiert zu optionalem Integer (Skip = None, Grant = 1, Deny = 0).
    pub fn to_opt_int(self) -> (r: Option<i64>)
        ensures
            r == tristate_als_int(self),
    {
        match self {
            TriState::Skip => None,
            TriState::Grant => Some(1),
            TriState::Deny => Some(0),
        }
    }
}

/// Gesetz: ein Zustand wird nach dem Speichern als Integer unveraendert gelesen.
pub proof fn gesetz_tristate_rundreise(t: TriState)
    ensures
        tristate_aus_int(tristate_als_int(t)) == t,
{
}

/// Mathematische Sicht eines Berechtigungswertes.
pub enum WertSicht {
    TriState(TriState),
    IntLimit(i64),
    Scope(Seq<Seq<char>>),
}

/// Wert einer Berechtigung.
#[derive(Debug, Clone, PartialEq)]
pub enum BerechtigungsWert {
    /// Dreiwertig: Grant/Deny/Skip.
    TriState(TriState),
    /// Zahlenbegrenzung.
    IntLimit(i64),
    /// Liste erlaubter Werte.
    Scope(Vec<String>),
}

impl View for BerechtigungsWert {
    type V = WertSicht;

    open spec fn view(&self) -> WertSicht {
        match self {
            BerechtigungsWert::TriState(t) => WertSicht::TriState(*t),
            BerechtigungsWert::IntLimit(l) => WertSicht::IntLimit(*l),
            BerechtigungsWert::Scope(s) => WertSicht::Scope(strings_sicht(s@)),
        }
    }
}

impl BerechtigungsWert {
    /// Erstellt eine inhaltsgleiche Kopie.
    pub fn kopie(&self) -> (r: Self)
        ensures
            r@ == self@,
    {
        match self {
            BerechtigungsWert::TriState(t) => BerechtigungsWert::TriState(*t),
            BerechtigungsWert::IntLimit(l) => BerechtigungsWert::IntLimit(*l),
            BerechtigungsWert::Scope(s) => BerechtigungsWert::Scope(strings_kopieren(s)),
        }
    }
}

/// Berechtigungs-Datensatz.
#[derive(Debug, Clone)]
pub struct BerechtigungRecord {
    pub id: u128,
    pub target_type: String,
    pub target_id: Option<u128>,
    pub permission_key: String,
    pub wert: BerechtigungsWert,
    pub channel_id: Option<u128>,
}

/// Ziel einer Berechtigung.
#[derive(Debug, Clone, Copy, PartialEq, Eq, Structural)]
pub enum BerechtigungsZiel {
    Benutzer(u128),
    ServerGruppe(u128),
    KanalGruppe(u128),
    ServerDefault,
    KanalDefault(u128),
}

/// Der gespeicherte Typname eines Berechtigungsziels.
pub open spec fn ziel_typ_name(z: BerechtigungsZiel) -> Seq<char> {
    match z {
        BerechtigungsZiel::Benutzer(_) => "user"@,
        BerechtigungsZiel::ServerGruppe(_) => "server_group"@,
        BerechtigungsZiel::KanalGruppe(_) => "channel_group"@,
        BerechtigungsZiel::ServerDefault => "server_default"@,
        BerechtigungsZiel::KanalDefault(_) => "channel_default"@,
    }
}

/// Die Typnamen der Berechtigungsziele sind paarweise verschieden.
proof fn lemma_ziel_namen_verschieden()
    ensures
        "user"@ != "server_group"@,
        "user"@ != "channel_group"@,
        "user"@ != "server_default"@,
        "user"@ != "channel_default"@,
        "server_group"@ != "channel_group"@,
        "server_group"@ != "server_default"@,
        "server_group"@ != "channel_default"@,
        "channel_group"@ != "server_default"@,
        "channel_group"@ != "channel_default"@,
        "server_default"@ != "channel_default"@,
{
    reveal_strlit("user");
    reveal_strlit("server_group");
    reveal_strlit("channel_group");
    reveal_strlit("server_default");
    reveal_strlit("channel_default");
    assert("user"@.len() == 4 && "server_group"@.len() == 12 && "channel_group"@.len() == 13);
    assert("server_default"@.len() == 14 && "channel_default"@.len() == 15);
}

/// Gesetz: jede Art von Berechtigungsziel wird unter ihrem eigenen Typnamen gespeichert, und kein
/// Typname steht fuer zwei Arten.
pub proof fn gesetz_ziel_typ_namen(z: BerechtigungsZiel)
    ensures
        (ziel_typ_name(z) == "user"@) == (z is Benutzer),
        (ziel_typ_name(z) == "server_group"@) == (z is ServerGruppe),
        (ziel_typ_name(z) == "channel_group"@) == (z is KanalGruppe),
        (ziel_typ_name(z) == "server_default"@) == (z is ServerDefault),
        (ziel_typ_name(z) == "channel_default"@) == (z is KanalDefault),
{
    lemma_ziel_namen_verschieden();
}

impl BerechtigungsZiel {
    /// Der gespeicherte Typname des Ziels.
    pub fn typ_str(&self) -> (r: &'static str)
        ensures
            r@ == ziel_typ_name(*self),
    {
        match self {
            BerechtigungsZiel::Benutzer(_) => "user",
            BerechtigungsZiel::ServerGruppe(_) => "server_group",
            BerechtigungsZiel::KanalGruppe(_) => "channel_group",
            BerechtigungsZiel::ServerDefault => "server_default",
            BerechtigungsZiel::KanalDefault(_) => "channel_default",
        }
    }

    /// Die Kennung des Ziels; der Server-Default hat keine.
    pub fn id(&self) -> (r: Option<u128>)
        ensures
            r == (match *self {
                BerechtigungsZiel::Benutzer(i) => Some(i),
                BerechtigungsZiel::ServerGruppe(i) => Some(i),
                BerechtigungsZiel::KanalGruppe(i) => Some(i),
                BerechtigungsZiel::ServerDefault => None,
                BerechtigungsZiel::KanalDefault(i) => Some(i),
            }),
    {
        match self {
            BerechtigungsZiel::Benutzer(i) => Some(*i),
            BerechtigungsZiel::ServerGruppe(i) => Some(*i),
            BerechtigungsZiel::KanalGruppe(i) => Some(*i),
            BerechtigungsZiel::ServerDefault => None,
            BerechtigungsZiel::KanalDefault(i) => Some(*i),
        }
    }
}

/// Aufgeloeste effektive Berechtigung.
#[derive(Debug, Clone)]
pub struct EffektiveBerechtigung {
    pub permission_key: String,
    pub wert: BerechtigungsWert,
    /// Quelle der Berechtigung (zur Diagnose).
    pub quelle: String,
}

/// Ban-Datensatz.
#[derive(Debug, Clone)]
pub struct BanRecord {
    pub id: u128,
    pub user_id: Option<u128>,
    pub ip: Option<String>,
    pub reason: String,
    pub banned_by: Option<u128>,
    pub expires_at: Option<i64>,
    pub created_at: i64,
}

/// Daten zum Erstellen eines Bans.
#[derive(Debug, Clone)]
pub struct NeuerBan<'a> {
    pub user_id: Option<u128>,
    pub ip: Option<&'a str>,
    pub reason: &'a str,
    pub banned_by: Option<u128>,
    pub expires_at: Option<i64>,
}

/// Audit-Log-Eintrag.
#[derive(Debug, Clone)]
pub struct AuditLogRecord {
    pub id: u128,
    pub actor_id: Option<u128>,
    pub action: String,
    pub target_type: Option<String>,
    pub target_id: Option<String>,
    pub details: serde_json::Value,
    pub timestamp: i64,
}

/// Filter fuer Audit-Log-Abfragen.
#[derive(Debug, Clone, Default)]
pub struct AuditLogFilter {
    pub actor_id: Option<u128>,
    pub action: Option<String>,
    pub target_type: Option<String>,
    pub target_id: Option<String>,
    pub since: Option<i64>,
    pub until: Option<i64>,
    pub limit: Option<i64>,
    pub offset: Option<i64>,
}

/// Einladungs-Datensatz.
#[derive(Debug, Clone)]
pub struct EinladungRecord {
    pub id: u128,
    pub code: String,
    pub channel_id: Option<u128>,
    pub assigned_group_id: Option<u128>,
    pub max_uses: i64,
    pub used_count: i64,
    pub expires_at: Option<i64>,
    pub created_by: u128,
    pub created_at: i64,
}

/// Daten zum Erstellen einer Einladung.
#[derive(Debug, Clone)]
pub struct NeueEinladung<'a> {
    pub code: &'a str,
    pub channel_id: Option<u128>,
    pub assigned_group_id: Option<u128>,
    pub max_uses: i64,
    pub expires_at: Option<i64>,
    pub created_by: u128,
}

} // verus!
