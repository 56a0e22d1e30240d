//! Grundlegende Typen des Plugin-Systems.

use crate::kern::{ist_uuid_v4, uuid_als_text, uuid_text, zufalls_uuid};
use vstd::prelude::*;

verus! {

/// Eindeutige Plugin-Kennung (UUID als 128-Bit-Wert).
#[derive(Debug, Clone, Copy, PartialEq, Eq, Hash, Structural)]
pub struct PluginId(pub u128);

impl PluginId {
    /// Erstellt eine neue zufaellige Kennung.
    pub fn new() -> (r: Self)
        ensures
            ist_uuid_v4(r.0),
    {
        PluginId(zufalls_uuid())
    }

    /// Die Bits der UUID.
    pub fn inner(&self) -> (r: u128)
        ensures
            r == self.0,
    {
        self.0
    }

    /// Die Textform `plugin:<uuid>`.
    pub fn als_string(&self) -> (r: String)
        ensures
            r@ == "plugin:"@ + uuid_text(self.0),
    {
        let mut s = String::from_str("plugin:");
        let u = uuid_als_text(self.0);
        s.append(u.as_str());
        s
    }
}

impl Default for PluginId {
    fn default() -> (r: Self)
        ensures
            ist_uuid_v4(r.0),
    {
        PluginId::new()
    }
}

/// Mathematische Sicht eines Plugin-Zustands.
pub enum ZustandSicht {
    Geladen,
    Aktiv,
    Deaktiviert,
    Fehler(Seq<char>),
}

/// Zustand eines Plugins.
#[derive(Debug, Clone, PartialEq, Eq)]
pub enum PluginState {
    /// Geladen, aber nicht aktiv.
    Geladen,
    /// Aktiv und laufbereit.
    Aktiv,
    /// Deaktiviert.
    Deaktiviert,
    /// Mit Fehler.
    Fehler(String),
}

impl View for PluginState {
    type V = ZustandSicht;

    open spec fn view(&self) -> ZustandSicht {
        match self {
            PluginState::Geladen => ZustandSicht::Geladen,
            PluginState::Aktiv => ZustandSicht::Aktiv,
            PluginState::Deaktiviert => ZustandSicht::Deaktiviert,
            PluginState::Fehler(e) => ZustandSicht::Fehler(e@),
        }
    }
}

/// Der Anzeigetext eines Zustands.
pub open spec fn zustand_text(z: ZustandSicht) -> Seq<char> {
    match z {
        ZustandSicht::Geladen => "Geladen"@,
        ZustandSicht::Aktiv => "Aktiv"@,
        ZustandSicht::Deaktiviert => "Deaktiviert"@,
        ZustandSicht::Fehler(e) => "Fehler: "@ + e,
    }
}

impl PluginState {
    /// Erstellt eine inhaltsgleiche Kopie.
    pub fn kopie(&self) -> (r: Self)
        ensures
            r@ == self@,
    {
        match self {
            PluginState::Geladen => PluginState::Geladen,
            PluginState::Aktiv => PluginState::Aktiv,
            PluginState::Deaktiviert => PluginState::Deaktiviert,
            PluginState::Fehler(e) => PluginState::Fehler(e.clone()),
        }
    }

    /// Ob der Zustand `Aktiv` ist.
    pub fn ist_aktiv(&self) -> (r: bool)
        ensures
            r == (self@ is Aktiv),
    {
        match self {
            PluginState::Aktiv => true,
            _ => false,
        }
    }

    /// Der Anzeigetext des Zustands.
    pub fn als_string(&self) -> (r: String)
        ensures
            r@ == zustand_text(self@),
    {
        match self {
            PluginState::Geladen => String::from_str("Geladen"),
            PluginState::Aktiv => String::from_str("Aktiv"),
            PluginState::Deaktiviert => String::from_str("Deaktiviert"),
            PluginState::Fehler(e) => {
                let mut s = String::from_str("Fehler: ");
                s.append(e.as_str());
                s
            },
        }
    }
}

/// Vertrauensstufe eines Plugins.
#[derive(Debug, Clone, Copy, PartialEq, Eq, Structural)]
pub enum TrustLevel {
    /// Nicht signiert: Warnung beim Laden.
    NichtSigniert,
    /// Signiert mit einem nicht als vertrauenswuerdig bekannten Schluessel.
    Signiert,
    /// Mit vertrauenswuerdigem Schluessel signiert: automatisches Laden erlaubt.
    Vertrauenswuerdig,
}

impl TrustLevel {
    /// Der Anzeigetext der Vertrauensstufe.
    pub fn als_str(&self) -> (r: &'static str)
        ensures
            r@ == (match *self {
                TrustLevel::NichtSigniert => "Nicht signiert"@,
                TrustLevel::Signiert => "Signiert"@,
                TrustLevel::Vertrauenswuerdig => "Vertrauenswuerdig"@,
            }),
    {
        match self {
            TrustLevel::NichtSigniert => "Nicht signiert",
            TrustLevel::Signiert => "Signiert",
            TrustLevel::Vertrauenswuerdig => "Vertrauenswuerdig",
        }
    }
}

/// Oeffentliche Informationen ueber ein Plugin (fuer Oberflaeche und API).
#[derive(Debug, Clone)]
pub struct PluginInfo {
    pub id: PluginId,
    pub name: String,
    pub version: String,
    pub author: String,
    pub description: String,
    pub state: PluginState,
    pub trust_level: TrustLevel,
    /// Ladezeitpunkt in Unix-Millisekunden.
    pub geladen_am: i64,
}

/// Mathematische Sicht der Plugin-Informationen.
pub struct InfoSicht {
    pub id: u128,
    pub name: Seq<char>,
    pub version: Seq<char>,
    pub author: Seq<char>,
    pub description: Seq<char>,
    pub state: ZustandSicht,
    pub trust_level: TrustLevel,
    pub geladen_am: i64,
}

impl View for PluginInfo {
    type V = InfoSicht;

    open spec fn view(&self) -> InfoSicht {
        InfoSicht {
            id: self.id.0,
            name: self.name@,
            version: self.version@,
            author: self.author@,
            description: self.description@,
            state: self.state@,
            trust_level: self.trust_level,
            geladen_am: self.geladen_am,
        }
    }
}

impl PluginInfo {
    /// Erstellt eine inhaltsgleiche Kopie.
    pub fn kopie(&self) -> (r: Self)
        ensures
            r@ == self@,
            r.id == self.id,
            r.name@ == self.name@,
            r.version@ == self.version@,
            r.author@ == self.author@,
            r.description@ == self.description@,
            r.state@ == self.state@,
            r.trust_level == self.trust_level,
            r.geladen_am == self.geladen_am,
    {
        PluginInfo {
            id: self.id,
            name: self.name.clone(),
            version: self.version.clone(),
            author: self.author.clone(),
            description: self.description.clone(),
            state: self.state.kopie(),
            trust_level: self.trust_level,
            geladen_am: self.geladen_am,
        }
    }
}

/// Plugin-Container mit dem WASM-Bytecode.
#[derive(Debug)]
pub struct Plugin {
    pub info: PluginInfo,
    /// Pfad der WASM-Datei.
    pub wasm_pfad: String,
    pub wasm_bytes: Vec<u8>,
}

impl Plugin {
    /// Erstellt einen Plugin-Container.
    pub fn new(info: PluginInfo, wasm_pfad: String, wasm_bytes: Vec<u8>) -> (r: Self)
        ensures
            r.info == info,
            r.wasm_pfad == wasm_pfad,
            r.wasm_bytes == wasm_bytes,
    {
        Plugin { info, wasm_pfad, wasm_bytes }
    }
}

} // verus!
