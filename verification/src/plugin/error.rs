//! Fehlertypen des Plugin-Systems.

use vstd::prelude::*;

verus! {

/// Ein Ein-/Ausgabefehler (`std::io::Error`); die Bibliothek reicht ihn nur weiter.
#[verifier::external_type_specification]
#[verifier::external_body]
pub struct FremdIoFehler(std::io::Error);

/// Ein allgemeiner Fehler (`anyhow::Error`); die Bibliothek reicht ihn nur weiter.
#[verifier::external_type_specification]
#[verifier::external_body]
pub struct FremdAnyhowFehler(anyhow::Error);

/// Die Anzeige eines Ein-/Ausgabefehlers (`<std::io::Error as Display>`, ueber `to_string`);
/// ueber den Text wird nichts behauptet.
#[verifier::external_body]
fn io_fehler_text(e: &std::io::Error) -> String {
    e.to_string()
}

/// Die Anzeige eines `anyhow::Error` (`<anyhow::Error as Display>`, ueber `to_string`);
/// ueber den Text wird nichts behauptet.
#[verifier::external_body]
pub(crate) fn anyhow_text(e: &anyhow::Error) -> String {
    e.to_string()
}

/// Alle moeglichen Fehler im Plugin-System.
#[derive(Debug)]
pub enum PluginError {
    Manifest(String),
    ManifestNichtGefunden(String),
    UngueltigeVersion(String),
    WasmLaden(String),
    WasmKompilierung(String),
    WasmInstanziierung(String),
    WasmAusfuehrung(String),
    FunktionNichtGefunden(String),
    SignaturUngueltig,
    NichtSigniert,
    SchluesselUngueltig(String),
    FehlendeFaehigkeit(String),
    ZugriffVerweigert(String),
    NichtGefunden(String),
    BereitsGeladen(String),
    NichtAktiv,
    Initialisierung(String),
    Registry(String),
    Intern(String),
    Io(std::io::Error),
    Anyhow(anyhow::Error),
}

/// Ergebnistyp des Plugin-Systems.
pub type PluginResult<T> = Result<T, PluginError>;

/// Der Meldungstext der Fehler, deren Text die Bibliothek selbst bildet.
pub open spec fn plugin_meldung_spec(e: PluginError) -> Option<Seq<char>> {
    match e {
        PluginError::Manifest(m) => Some("Manifest-Fehler: "@ + m@),
        PluginError::ManifestNichtGefunden(m) => Some("Manifest nicht gefunden: "@ + m@),
        PluginError::UngueltigeVersion(m) => Some("Ungueltige Plugin-Version: "@ + m@),
        PluginError::WasmLaden(m) => Some("WASM Ladefehler: "@ + m@),
        PluginError::WasmKompilierung(m) => Some("WASM Kompilierungsfehler: "@ + m@),
        PluginError::WasmInstanziierung(m) => Some("WASM Instanziierungsfehler: "@ + m@),
        PluginError::WasmAusfuehrung(m) => Some("WASM Ausfuehrungsfehler: "@ + m@),
        PluginError::FunktionNichtGefunden(m) => Some("WASM Funktion nicht gefunden: "@ + m@),
        PluginError::SignaturUngueltig => Some("Plugin-Signatur ungueltig"@),
        PluginError::NichtSigniert => Some("Plugin nicht signiert – Signierung erforderlich"@),
        PluginError::SchluesselUngueltig(m) => Some("Signierungsschluessel ungueltig: "@ + m@),
        PluginError::FehlendeFaehigkeit(m) => Some("Fehlende Capability: "@ + m@),
        PluginError::ZugriffVerweigert(c) => Some("Zugriff verweigert – Capability '"@ + c@ + "' nicht aktiviert"@),
        PluginError::NichtGefunden(m) => Some("Plugin nicht gefunden: "@ + m@),
        PluginError::BereitsGeladen(m) => Some("Plugin bereits geladen: "@ + m@),
        PluginError::NichtAktiv => Some("Plugin ist nicht aktiv"@),
        PluginError::Initialisierung(m) => Some("Plugin Initialisierung fehlgeschlagen: "@ + m@),
        PluginError::Registry(m) => Some("Registry-Fehler: "@ + m@),
        PluginError::Intern(m) => Some("Interner Plugin-Fehler: "@ + m@),
        _ => None,
    }
}

impl PluginError {
    /// Menschenlesbare Fehlermeldung; bei `Io` und `Anyhow` mit der Anzeige des inneren Fehlers.
    pub fn meldung(&self) -> (r: String)
        ensures
            plugin_meldung_spec(*self) matches Some(m) ==> r@ == m,
    {
        match self {
            PluginError::Manifest(m) => {
                let mut s = String::from_str("Manifest-Fehler: ");
                s.append(m.as_str());
                s
            },
            PluginError::ManifestNichtGefunden(m) => {
                let mut s = String::from_str("Manifest nicht gefunden: ");
                s.append(m.as_str());
                s
            },
            PluginError::UngueltigeVersion(m) => {
                let mut s = String::from_str("Ungueltige Plugin-Version: ");
                s.append(m.as_str());
                s
            },
            PluginError::WasmLaden(m) => {
                let mut s = String::from_str("WASM Ladefehler: ");
                s.append(m.as_str());
                s
            },
            PluginError::WasmKompilierung(m) => {
                let mut s = String::from_str("WASM Kompilierungsfehler: ");
                s.append(m.as_str());
                s
            },
            PluginError::WasmInstanziierung(m) => {
                let mut s = String::from_str("WASM Instanziierungsfehler: ");
                s.append(m.as_str());
                s
            },
            PluginError::WasmAusfuehrung(m) => {
                let mut s = String::from_str("WASM Ausfuehrungsfehler: ");
                s.append(m.as_str());
                s
            },
            PluginError::FunktionNichtGefunden(m) => {
                let mut s = String::from_str("WASM Funktion nicht gefunden: ");
                s.append(m.as_str());
                s
            },
            PluginError::SignaturUngueltig => String::from_str("Plugin-Signatur ungueltig"),
            PluginError::NichtSigniert => String::from_str("Plugin nicht signiert – Signierung erforderlich"),
            PluginError::SchluesselUngueltig(m) => {
                let mut s = String::from_str("Signierungsschluessel ungueltig: ");
                s.append(m.as_str());
                s
            },
            PluginError::FehlendeFaehigkeit(m) => {
                let mut s = String::from_str("Fehlende Capability: ");
                s.append(m.as_str());
                s
            },
            PluginError::ZugriffVerweigert(c) => {
                let mut s = String::from_str("Zugriff verweigert – Capability '");
                s.append(c.as_str());
                s.append("' nicht aktiviert");
                s
            },
            PluginError::NichtGefunden(m) => {
                let mut s = String::from_str("Plugin nicht gefunden: ");
                s.append(m.as_str());
                s
            },
            PluginError::BereitsGeladen(m) => {
                let mut s = String::from_str("Plugin bereits geladen: ");
                s.append(m.as_str());
                s
            },
            PluginError::NichtAktiv => String::from_str("Plugin ist nicht aktiv"),
            PluginError::Initialisierung(m) => {
                let mut s = String::from_str("Plugin Initialisierung fehlgeschlagen: ");
                s.append(m.as_str());
                s
            },
            PluginError::Registry(m) => {
                let mut s = String::from_str("Registry-Fehler: ");
                s.append(m.as_str());
                s
            },
            PluginError::Intern(m) => {
                let mut s = String::from_str("Interner Plugin-Fehler: ");
                s.append(m.as_str());
                s
            },
            PluginError::Io(e) => {
                let mut s = String::from_str("IO-Fehler: ");
                let t = io_fehler_text(e);
                s.append(t.as_str());
                s
            },
            PluginError::Anyhow(e) => anyhow_text(e),
        }
    }
}

impl From<std::io::Error> for PluginError {
    fn from(e: std::io::Error) -> (r: Self) {
        PluginError::Io(e)
    }
}

impl vstd::std_specs::convert::FromSpecImpl<std::io::Error> for PluginError {
    open spec fn obeys_from_spec() -> bool {
        true
    }

    open spec fn from_spec(e: std::io::Error) -> Self {
        PluginError::Io(e)
    }
}

impl From<anyhow::Error> for PluginError {
    fn from(e: anyhow::Error) -> (r: Self) {
        PluginError::Anyhow(e)
    }
}

impl vstd::std_specs::convert::FromSpecImpl<anyhow::Error> for PluginError {
    open spec fn obeys_from_spec() -> bool {
        true
    }

    open spec fn from_spec(e: anyhow::Error) -> Self {
        PluginError::Anyhow(e)
    }
}

} // verus!
