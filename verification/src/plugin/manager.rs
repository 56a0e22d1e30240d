//! Plugin-Manager: Laden, Entladen und Lebenszyklus von Plugins.
//!
//! Fuehrt Manifest, Vertrauensstufe, Sandbox, Registry und die geladenen Plugins zusammen.
//! Das Lesen der Dateien eines Plugin-Verzeichnisses geschieht beim Aufrufer; hier werden die
//! gelesenen Werte geprueft und aufgenommen.

use crate::kern::jetzt_ms;
use crate::plugin::error::{PluginError, PluginResult};
use crate::plugin::events::{
    hook_ergebnisse_kombinieren, hooks_sicht, kombiniert_spec, lemma_erstes_deny,
    lemma_letztes_modify, HookResult,
    HookSicht, PluginEvent,
};
use crate::plugin::host::capabilities::{faehigkeit_spec, hat_faehigkeit};
use crate::plugin::host::sandbox::SandboxKonfiguration;
use crate::plugin::manifest::{
    manifest_fehler_passt, manifest_gueltig, Capabilities, HookConfig, PluginManifest,
};
use crate::plugin::registry::{
    entfernt, id_text, registriert, registry_wf, zustand_gesetzt, PluginRegistry, RegistrySicht,
};
use crate::plugin::tabelle::{aufzaehlung, aufzaehlung_ueber};
use crate::plugin::trust::trust_level_bestimmen;
use crate::plugin::types::{InfoSicht, Plugin, PluginId, PluginInfo, PluginState, TrustLevel, ZustandSicht};
use crate::text::{str_gleich, strings_kopieren, strings_sicht};
use vstd::prelude::*;

verus! {

/// Konfiguration des Plugin-Managers.
#[derive(Debug, Clone)]
pub struct ManagerKonfiguration {
    /// Signierte Plugins sind Pflicht (unsignierte werden abgelehnt).
    pub signierung_erforderlich: bool,
    /// Verzeichnis, in dem Plugins gesucht werden.
    pub plugin_verzeichnis: Option<String>,
}

impl Default for ManagerKonfiguration {
    fn default() -> (r: Self)
        ensures
            !r.signierung_erforderlich,
            r.plugin_verzeichnis is None,
    {
        ManagerKonfiguration { signierung_erforderlich: false, plugin_verzeichnis: None }
    }
}

/// Was vom Zustand eines geladenen Plugins sichtbar ist.
pub struct GeladenSicht {
    pub info: InfoSicht,
    pub abonniert: Seq<Seq<char>>,
    pub hooks: HookConfig,
    pub caps: Capabilities,
    pub sandbox: SandboxKonfiguration,
}

/// Ein geladenes Plugin mit seinem Manifest und seiner Sandbox.
pub struct GeladenPlugin {
    pub plugin: Plugin,
    pub manifest: PluginManifest,
    pub sandbox: SandboxKonfiguration,
}

impl View for GeladenPlugin {
    type V = GeladenSicht;

    open spec fn view(&self) -> GeladenSicht {
        GeladenSicht {
            info: self.plugin.info@,
            abonniert: strings_sicht(self.manifest.events.subscribe@),
            hooks: self.manifest.hooks,
            caps: self.manifest.capabilities,
            sandbox: self.sandbox,
        }
    }
}

/// Das, was der Manager von einem geladenen Plugin liest.
pub struct PluginUebersicht {
    pub info: PluginInfo,
    pub abonniert: Vec<String>,
    pub hooks: HookConfig,
    pub caps: Capabilities,
    pub sandbox: SandboxKonfiguration,
}

impl View for PluginUebersicht {
    type V = GeladenSicht;

    open spec fn view(&self) -> GeladenSicht {
        GeladenSicht {
            info: self.info@,
            abonniert: strings_sicht(self.abonniert@),
            hooks: self.hooks,
            caps: self.caps,
            sandbox: self.sandbox,
        }
    }
}

impl GeladenPlugin {
    /// Die Uebersicht dieses Plugins.
    pub fn uebersicht(&self) -> (r: PluginUebersicht)
        ensures
            r@ == self@,
    {
        PluginUebersicht {
            info: self.plugin.info.kopie(),
            abonniert: strings_kopieren(&self.manifest.events.subscribe),
            hooks: self.manifest.hooks,
            caps: self.manifest.capabilities,
            sandbox: self.sandbox,
        }
    }
}

/// Die Sichten einer Liste von Uebersichten.
pub open spec fn uebersicht_sichten(v: Seq<PluginUebersicht>) -> Seq<GeladenSicht> {
    v.map_values(|u: PluginUebersicht| u@)
}

/// Die Sichten einer Liste von Plugin-Informationen.
pub open spec fn info_sichten(v: Seq<PluginInfo>) -> Seq<InfoSicht> {
    v.map_values(|i: PluginInfo| i@)
}

/// Tabelle der geladenen Plugins, nach Plugin-ID (als Zahl).
pub type PluginTabelle = dashmap::DashMap<u128, GeladenPlugin>;

/// Was die Tabelle der geladenen Plugins haelt.
pub uninterp spec fn plugins_inhalt(m: PluginTabelle) -> Map<u128, GeladenSicht>;

/// `DashMap::new`: eine leere Tabelle.
#[verifier::external_body]
fn plugins_neu() -> (r: PluginTabelle)
    ensures
        plugins_inhalt(r).dom() == Set::<u128>::empty(),
{
    dashmap::DashMap::new()
}

/// `DashMap::insert`: danach steht das Plugin unter dem Schluessel.
#[verifier::external_body]
fn plugins_einfuegen(m: &mut PluginTabelle, k: u128, v: GeladenPlugin)
    ensures
        plugins_inhalt(*final(m)) == plugins_inhalt(*old(m)).insert(k, v@),
{
    m.insert(k, v);
}

/// `DashMap::remove`: entfernt den Schluessel und gibt das Plugin zurueck, falls es da war.
#[verifier::external_body]
fn plugins_entfernen(m: &mut PluginTabelle, k: u128) -> (r: Option<GeladenPlugin>)
    ensures
        plugins_inhalt(*final(m)) == plugins_inhalt(*old(m)).remove(k),
        match r {
            Some(g) => plugins_inhalt(*old(m)).contains_key(k) && g@ == plugins_inhalt(*old(m))[k],
            None => !plugins_inhalt(*old(m)).contains_key(k),
        },
{
    m.remove(&k).map(|(_, v)| v)
}

/// `DashMap::get`: die Uebersicht des Plugins unter dem Schluessel, falls es da ist.
#[verifier::external_body]
fn plugins_holen(m: &PluginTabelle, k: u128) -> (r: Option<PluginUebersicht>)
    ensures
        match r {
            Some(u) => plugins_inhalt(*m).contains_key(k) && u@ == plugins_inhalt(*m)[k],
            None => !plugins_inhalt(*m).contains_key(k),
        },
{
    m.get(&k).map(|e| e.value().uebersicht())
}

/// `DashMap::iter`: die Uebersichten aller Plugins, in der Reihenfolge der Tabelle (die
/// unbestimmt ist).
#[verifier::external_body]
fn plugins_uebersichten(m: &PluginTabelle) -> (r: Vec<PluginUebersicht>)
    ensures
        aufzaehlung(uebersicht_sichten(r@), plugins_inhalt(*m)),
{
    m.iter().map(|e| e.value().uebersicht()).collect()
}

/// `DashMap::len`: die Anzahl der geladenen Plugins.
#[verifier::external_body]
fn plugins_anzahl(m: &PluginTabelle) -> (r: usize)
    ensures
        r == plugins_inhalt(*m).len(),
{
    m.len()
}

/// Mathematische Sicht des Managers.
pub struct ManagerSicht {
    pub registry: RegistrySicht,
    pub plugins: Map<u128, GeladenSicht>,
    pub signierung_erforderlich: bool,
}

/// Wohlgeformtheit: Registry und geladene Plugins kennen dieselben IDs, mit demselben Zustand,
/// und jedes Plugin steht unter seiner eigenen ID.
pub open spec fn manager_wf(s: ManagerSicht) -> bool {
    &&& registry_wf(s.registry)
    &&& s.plugins.dom().finite()
    &&& s.plugins.dom() == s.registry.eintraege.dom()
    &&& forall|k: u128| #[trigger]
        s.plugins.contains_key(k) ==> s.plugins[k].info.id == k && s.plugins[k].info.state
            == s.registry.eintraege[k].state
}

/// Die Vertrauensstufe ohne vertrauenswuerdige Schluessel: signiert oder nicht.
pub open spec fn stufe_ohne_schluessel(signatur: Option<Vec<u8>>) -> TrustLevel {
    if signatur is Some {
        TrustLevel::Signiert
    } else {
        TrustLevel::NichtSigniert
    }
}

/// Die Sicht eines frisch geladenen Plugins.
pub open spec fn neu_geladen(
    id: u128,
    manifest: PluginManifest,
    trust_level: TrustLevel,
    geladen_am: i64,
) -> GeladenSicht {
    GeladenSicht {
        info: InfoSicht {
            id,
            name: manifest.plugin.name@,
            version: manifest.plugin.version@,
            author: manifest.plugin.author@,
            description: manifest.plugin.description@,
            state: ZustandSicht::Geladen,
            trust_level,
            geladen_am,
        },
        abonniert: strings_sicht(manifest.events.subscribe@),
        hooks: manifest.hooks,
        caps: manifest.capabilities,
        sandbox: SandboxKonfiguration {
            filesystem: manifest.capabilities.filesystem,
            network: manifest.capabilities.network,
            max_speicher_bytes: 67108864,
            max_instruktionen: 0,
            stdio: true,
        },
    }
}

/// Die Sicht nach einem Zustandswechsel.
pub open spec fn mit_zustand(g: GeladenSicht, z: ZustandSicht) -> GeladenSicht {
    GeladenSicht { info: InfoSicht { state: z, ..g.info }, ..g }
}

/// Der Zustand nach erfolgreichem Laden.
pub open spec fn geladen(
    s: ManagerSicht,
    id: u128,
    pfad: Seq<char>,
    manifest: PluginManifest,
    trust_level: TrustLevel,
    geladen_am: i64,
) -> ManagerSicht {
    ManagerSicht {
        registry: registriert(
            s.registry,
            id,
            manifest.plugin.name@,
            manifest.plugin.version@,
            pfad,
            trust_level,
        ),
        plugins: s.plugins.insert(id, neu_geladen(id, manifest, trust_level, geladen_am)),
        signierung_erforderlich: s.signierung_erforderlich,
    }
}

/// Der Zustand nach erfolgreichem Entladen.
pub open spec fn entladen(s: ManagerSicht, id: u128) -> ManagerSicht {
    ManagerSicht {
        registry: entfernt(s.registry, id),
        plugins: s.plugins.remove(id),
        signierung_erforderlich: s.signierung_erforderlich,
    }
}

/// Der Zustand nach einem erfolgreichen Zustandswechsel eines Plugins.
pub open spec fn gewechselt(s: ManagerSicht, id: u128, z: ZustandSicht) -> ManagerSicht {
    ManagerSicht {
        registry: zustand_gesetzt(s.registry, id, z),
        plugins: s.plugins.insert(id, mit_zustand(s.plugins[id], z)),
        signierung_erforderlich: s.signierung_erforderlich,
    }
}

/// Ob der benannte Hook in der Hook-Konfiguration aktiviert ist; unbekannte Namen nie.
pub open spec fn hook_aktiv_spec(h: HookConfig, name: Seq<char>) -> bool {
    if name == "before_chat_send"@ {
        h.before_chat_send
    } else if name == "after_user_join"@ {
        h.after_user_join
    } else if name == "before_user_kick"@ {
        h.before_user_kick
    } else if name == "before_channel_join"@ {
        h.before_channel_join
    } else {
        false
    }
}

/// Die vier Hook-Namen sind paarweise verschieden.
proof fn lemma_hook_namen_verschieden()
    ensures
        "before_chat_send"@ != "after_user_join"@,
        "before_chat_send"@ != "before_user_kick"@,
        "before_chat_send"@ != "before_channel_join"@,
        "after_user_join"@ != "before_user_kick"@,
        "after_user_join"@ != "before_channel_join"@,
        "before_user_kick"@ != "before_channel_join"@,
{
    reveal_strlit("before_chat_send");
    reveal_strlit("after_user_join");
    reveal_strlit("before_user_kick");
    reveal_strlit("before_channel_join");
    assert("before_chat_send"@.len() == 16 && "after_user_join"@.len() == 15 && "before_user_kick"@.len() == 16);
    assert("before_channel_join"@.len() == 19);
    assert("before_chat_send"@[7] == 'c' && "before_user_kick"@[7] == 'u');
}

/// Gesetz: jeder Hook-Name liest sein eigenes Feld der Hook-Konfiguration, und ein unbekannter
/// Name ist nie aktiv.
pub proof fn gesetz_hook_je_feld(h: HookConfig)
    ensures
        hook_aktiv_spec(h, "before_chat_send"@) == h.before_chat_send,
        hook_aktiv_spec(h, "after_user_join"@) == h.after_user_join,
        hook_aktiv_spec(h, "before_user_kick"@) == h.before_user_kick,
        hook_aktiv_spec(h, "before_channel_join"@) == h.before_channel_join,
        forall|name: Seq<char>|
            (name != "before_chat_send"@ && name != "after_user_join"@ && name != "before_user_kick"@ && name != "before_channel_join"@) ==> !hook_aktiv_spec(h, name),
{
    lemma_hook_namen_verschieden();
}

/// Prueft ob der benannte Hook aktiviert ist.
pub fn hook_aktiv(h: &HookConfig, name: &str) -> (r: bool)
    ensures
        r == hook_aktiv_spec(*h, name@),
{
    if str_gleich(name, "before_chat_send") {
        h.before_chat_send
    } else if str_gleich(name, "after_user_join") {
        h.after_user_join
    } else if str_gleich(name, "before_user_kick") {
        h.before_user_kick
    } else if str_gleich(name, "before_channel_join") {
        h.before_channel_join
    } else {
        false
    }
}

/// Die Anzahl der aktiven Plugins unter den ersten `n` Uebersichten, die das Ereignis
/// abonniert haben.
pub open spec fn empfaenger_bis(us: Seq<GeladenSicht>, event_name: Seq<char>, n: int) -> nat
    decreases n,
{
    if n <= 0 {
        0
    } else {
        empfaenger_bis(us, event_name, n - 1) + if us[n - 1].info.state is Aktiv
            && us[n - 1].abonniert.contains(event_name) {
            1nat
        } else {
            0nat
        }
    }
}

/// Prueft ob eine Liste von Namen den gesuchten enthaelt.
fn enthaelt_namen(namen: &Vec<String>, gesucht: &str) -> (r: bool)
    ensures
        r == strings_sicht(namen@).contains(gesucht@),
{
    let mut i: usize = 0;
    while i < namen.len()
        invariant
            i <= namen@.len(),
            forall|j: int| 0 <= j < i ==> namen@[j]@ != gesucht@,
        decreases namen@.len() - i,
    {
        if str_gleich(namen[i].as_str(), gesucht) {
            assert(strings_sicht(namen@)[i as int] == gesucht@);
            return true;
        }
        i = i + 1;
    }
    assert forall|j: int| 0 <= j < strings_sicht(namen@).len() implies #[trigger] strings_sicht(
        namen@,
    )[j] != gesucht@ by {
        assert(strings_sicht(namen@)[j] == namen@[j]@);
    }
    false
}

/// Zaehlt die aktiven Plugins, die das Ereignis abonniert haben.
pub fn empfaenger_zaehlen(uebersichten: &Vec<PluginUebersicht>, event_name: &str) -> (r: usize)
    ensures
        r == empfaenger_bis(uebersicht_sichten(uebersichten@), event_name@, uebersichten@.len() as int),
{
    let ghost us = uebersicht_sichten(uebersichten@);
    let mut anzahl: usize = 0;
    let mut i: usize = 0;
    while i < uebersichten.len()
        invariant
            i <= uebersichten@.len(),
            us == uebersicht_sichten(uebersichten@),
            anzahl == empfaenger_bis(us, event_name@, i as int),
            anzahl <= i,
        decreases uebersichten@.len() - i,
    {
        let u = &uebersichten[i];
        assert(us[i as int] == u@);
        if u.info.state.ist_aktiv() && enthaelt_namen(&u.abonniert, event_name) {
            anzahl = anzahl + 1;
        }
        i = i + 1;
    }
    anzahl
}

/// Der Plugin-Manager.
pub struct PluginManager {
    registry: PluginRegistry,
    plugins: PluginTabelle,
    konfiguration: ManagerKonfiguration,
}

impl View for PluginManager {
    type V = ManagerSicht;

    closed spec fn view(&self) -> ManagerSicht {
        ManagerSicht {
            registry: self.registry@,
            plugins: plugins_inhalt(self.plugins),
            signierung_erforderlich: self.konfiguration.signierung_erforderlich,
        }
    }
}

impl PluginManager {
    /// Wohlgeformtheit des Managers.
    pub open spec fn wf(&self) -> bool {
        manager_wf(self@)
    }

    /// Erstellt einen Manager ohne Plugins.
    pub fn neu(konfiguration: ManagerKonfiguration) -> (r: Self)
        ensures
            r.wf(),
            r@.plugins == Map::<u128, GeladenSicht>::empty(),
            r@.registry.eintraege == Map::<u128, crate::plugin::registry::EintragSicht>::empty(),
            r@.signierung_erforderlich == konfiguration.signierung_erforderlich,
    {
        let r = PluginManager {
            registry: PluginRegistry::neu(),
            plugins: plugins_neu(),
            konfiguration,
        };
        assert(r@.plugins =~= Map::<u128, GeladenSicht>::empty());
        r
    }

    /// Nimmt ein Plugin auf, dessen Dateien schon gelesen sind: das Manifest wird validiert, die
    /// Vertrauensstufe bestimmt (ohne vertrauenswuerdige Schluessel), eine Pflicht zur
    /// Signierung durchgesetzt, dann wird das Plugin unter einer neuen ID registriert und im
    /// Zustand `Geladen` gehalten.
    pub fn plugin_laden(
        &mut self,
        pfad: String,
        manifest: PluginManifest,
        wasm_pfad: String,
        wasm_bytes: Vec<u8>,
        signatur: Option<Vec<u8>>,
    ) -> (r: PluginResult<PluginId>)
        requires
            old(self).wf(),
        ensures
            final(self).wf(),
            r is Err ==> final(self)@ == old(self)@,
            !manifest_gueltig(manifest) ==> (r matches Err(e) && manifest_fehler_passt(manifest, e)),
            manifest_gueltig(manifest) && old(self)@.signierung_erforderlich && signatur is None
                ==> r matches Err(PluginError::NichtSigniert),
            manifest_gueltig(manifest) && !(old(self)@.signierung_erforderlich && signatur is None)
                && old(self)@.registry.namen.contains_key(manifest.plugin.name@) ==> (r matches Err(
                PluginError::BereitsGeladen(n),
            ) && n@ == manifest.plugin.name@),
            manifest_gueltig(manifest) && !(old(self)@.signierung_erforderlich && signatur is None)
                && !old(self)@.registry.namen.contains_key(manifest.plugin.name@) ==> r is Ok,
            r matches Ok(id) ==> (final(self)@ == geladen(
                old(self)@,
                id.0,
                pfad@,
                manifest,
                stufe_ohne_schluessel(signatur),
                final(self)@.plugins[id.0].info.geladen_am,
            )),
    {
        match manifest.validieren() {
            Ok(()) => {},
            Err(e) => {
                return Err(e);
            },
        }
        let keine_schluessel: Vec<[u8; 32]> = Vec::new();
        let trust_level = match &signatur {
            Some(s) => trust_level_bestimmen(wasm_bytes.as_slice(), Some(s.as_slice()), keine_schluessel.as_slice()),
            None => trust_level_bestimmen(wasm_bytes.as_slice(), None, keine_schluessel.as_slice()),
        };
        if self.konfiguration.signierung_erforderlich && trust_level == TrustLevel::NichtSigniert {
            return Err(PluginError::NichtSigniert);
        }
        let id = PluginId::new();
        let sandbox = SandboxKonfiguration::aus_capabilities(&manifest.capabilities);
        let info = PluginInfo {
            id,
            name: manifest.plugin.name.clone(),
            version: manifest.plugin.version.clone(),
            author: manifest.plugin.author.clone(),
            description: manifest.plugin.description.clone(),
            state: PluginState::Geladen,
            trust_level,
            geladen_am: jetzt_ms(),
        };
        let plugin = Plugin::new(info, wasm_pfad, wasm_bytes);
        let name = manifest.plugin.name.clone();
        let version = manifest.plugin.version.clone();
        let ghost alt = self@;
        match self.registry.registrieren(id, name, version, pfad, trust_level) {
            Ok(()) => {},
            Err(e) => {
                return Err(e);
            },
        }
        let geladen = GeladenPlugin { plugin, manifest, sandbox };
        plugins_einfuegen(&mut self.plugins, id.0, geladen);
        proof {
            assert(self@.plugins.dom() =~= self@.registry.eintraege.dom());
        }
        Ok(id)
    }

    /// Entlaedt ein Plugin vollstaendig; eine unbekannte ID ergibt `NichtGefunden`.
    pub fn plugin_entladen(&mut self, id: PluginId) -> (r: PluginResult<()>)
        requires
            old(self).wf(),
        ensures
            final(self).wf(),
            !old(self)@.plugins.contains_key(id.0) ==> (r matches Err(PluginError::NichtGefunden(m))
                && m@ == id_text(id.0) && final(self)@ == old(self)@),
            old(self)@.plugins.contains_key(id.0) ==> (r is Ok && final(self)@ == entladen(
                old(self)@,
                id.0,
            )),
    {
        match plugins_entfernen(&mut self.plugins, id.0) {
            Some(_) => {},
            None => {
                assert(self@.plugins =~= old(self)@.plugins);
                return Err(PluginError::NichtGefunden(id.als_string()));
            },
        }
        match self.registry.entfernen(id) {
            Ok(_) => {},
            Err(e) => {
                return Err(e);
            },
        }
        proof {
            assert(self@.plugins.dom() =~= self@.registry.eintraege.dom());
        }
        Ok(())
    }

    /// Setzt den Zustand eines Plugins in Registry und Plugin-Tabelle.
    fn zustand_wechseln(&mut self, id: PluginId, aktiv: bool) -> (r: PluginResult<()>)
        requires
            old(self).wf(),
        ensures
            final(self).wf(),
            !old(self)@.plugins.contains_key(id.0) ==> (r matches Err(PluginError::NichtGefunden(m))
                && m@ == id_text(id.0) && final(self)@ == old(self)@),
            old(self)@.plugins.contains_key(id.0) ==> (r is Ok && final(self)@ == gewechselt(
                old(self)@,
                id.0,
                if aktiv {
                    ZustandSicht::Aktiv
                } else {
                    ZustandSicht::Deaktiviert
                },
            )),
    {
        let zustand = if aktiv {
            PluginState::Aktiv
        } else {
            PluginState::Deaktiviert
        };
        match self.registry.zustand_setzen(id, zustand) {
            Ok(()) => {},
            Err(e) => {
                return Err(e);
            },
        }
        let ghost nach_registry = self@;
        match plugins_entfernen(&mut self.plugins, id.0) {
            Some(g) => {
                let mut g = g;
                g.plugin.info.state = if aktiv {
                    PluginState::Aktiv
                } else {
                    PluginState::Deaktiviert
                };
                plugins_einfuegen(&mut self.plugins, id.0, g);
                proof {
                    assert(self@.plugins =~= old(self)@.plugins.insert(
                        id.0,
                        mit_zustand(
                            old(self)@.plugins[id.0],
                            if aktiv { ZustandSicht::Aktiv } else { ZustandSicht::Deaktiviert },
                        ),
                    ));
                    assert(self@.plugins.dom() =~= self@.registry.eintraege.dom());
                }
                Ok(())
            },
            None => {
                assert(false);
                Err(PluginError::NichtGefunden(id.als_string()))
            },
        }
    }

    /// Aktiviert ein geladenes Plugin; eine unbekannte ID ergibt `NichtGefunden`.
    pub fn plugin_aktivieren(&mut self, id: PluginId) -> (r: PluginResult<()>)
        requires
            old(self).wf(),
        ensures
            final(self).wf(),
            !old(self)@.plugins.contains_key(id.0) ==> (r matches Err(PluginError::NichtGefunden(m))
                && m@ == id_text(id.0) && final(self)@ == old(self)@),
            old(self)@.plugins.contains_key(id.0) ==> (r is Ok && final(self)@ == gewechselt(
                old(self)@,
                id.0,
                ZustandSicht::Aktiv,
            )),
    {
        self.zustand_wechseln(id, true)
    }

    /// Deaktiviert ein Plugin; eine unbekannte ID ergibt `NichtGefunden`.
    pub fn plugin_deaktivieren(&mut self, id: PluginId) -> (r: PluginResult<()>)
        requires
            old(self).wf(),
        ensures
            final(self).wf(),
            !old(self)@.plugins.contains_key(id.0) ==> (r matches Err(PluginError::NichtGefunden(m))
                && m@ == id_text(id.0) && final(self)@ == old(self)@),
            old(self)@.plugins.contains_key(id.0) ==> (r is Ok && final(self)@ == gewechselt(
                old(self)@,
                id.0,
                ZustandSicht::Deaktiviert,
            )),
    {
        self.zustand_wechseln(id, false)
    }

    /// Stellt ein Ereignis allen aktiven Plugins zu, die es abonniert haben; gelingt immer.
    pub fn event_senden(&self, event: &PluginEvent) -> (r: PluginResult<()>)
        ensures
            r is Ok,
    {
        let uebersichten = plugins_uebersichten(&self.plugins);
        let _empfaenger = empfaenger_zaehlen(&uebersichten, event.name());
        Ok(())
    }

    /// Fuehrt einen Hook bei allen aktiven Plugins aus, die ihn aktiviert haben, und kombiniert
    /// die Ergebnisse (das erste `Deny` gewinnt). Jedes Plugin antwortet mit `Allow`, daher ist
    /// das Ergebnis stets `Allow`.
    pub fn hook_ausfuehren(&self, hook_name: &str, daten: &[u8]) -> (r: PluginResult<HookResult>)
        ensures
            r matches Ok(h) && h@ == HookSicht::Allow,
    {
        let uebersichten = plugins_uebersichten(&self.plugins);
        let mut ergebnisse: Vec<HookResult> = Vec::new();
        let mut i: usize = 0;
        while i < uebersichten.len()
            invariant
                i <= uebersichten@.len(),
                forall|j: int| 0 <= j < ergebnisse@.len() ==> #[trigger] ergebnisse@[j] == HookResult::Allow,
            decreases uebersichten@.len() - i,
        {
            let u = &uebersichten[i];
            if u.info.state.ist_aktiv() && hook_aktiv(&u.hooks, hook_name) {
                ergebnisse.push(HookResult::Allow);
            }
            i = i + 1;
        }
        let ghost hs = hooks_sicht(ergebnisse@);
        proof {
            lemma_erstes_deny(hs);
            lemma_letztes_modify(hs);
            assert forall|j: int| 0 <= j < hs.len() implies #[trigger] hs[j] == HookSicht::Allow by {
                assert(ergebnisse@[j] == HookResult::Allow);
            }
        }
        let h = hook_ergebnisse_kombinieren(ergebnisse);
        Ok(h)
    }

    /// Die Informationen aller geladenen Plugins, in der Reihenfolge der Tabelle.
    pub fn plugins_auflisten(&self) -> (r: Vec<PluginInfo>)
        ensures
            aufzaehlung(info_sichten(r@), infos_von(self@.plugins)),
    {
        let uebersichten = plugins_uebersichten(&self.plugins);
        let ghost inhalt = plugins_inhalt(self.plugins);
        let ghost ks = choose|ks: Seq<u128>|
            aufzaehlung_ueber(uebersicht_sichten(uebersichten@), inhalt, ks) && forall|k: u128|
                inhalt.contains_key(k) ==> #[trigger] ks.contains(k);
        let mut r: Vec<PluginInfo> = Vec::new();
        let mut i: usize = 0;
        while i < uebersichten.len()
            invariant
                i <= uebersichten@.len(),
                r@.len() == i,
                forall|j: int| 0 <= j < i ==> (#[trigger] r@[j])@ == uebersichten@[j].info@,
            decreases uebersichten@.len() - i,
        {
            r.push(uebersichten[i].info.kopie());
            i = i + 1;
        }
        proof {
            let infos = infos_von(inhalt);
            assert forall|j: int| 0 <= j < ks.len() implies #[trigger] infos.contains_key(ks[j])
                && info_sichten(r@)[j] == infos[ks[j]] by {
                assert(inhalt.contains_key(ks[j]));
                assert(uebersicht_sichten(uebersichten@)[j] == uebersichten@[j]@);
            }
            assert(aufzaehlung_ueber(info_sichten(r@), infos, ks));
            assert forall|k: u128| infos.contains_key(k) implies #[trigger] ks.contains(k) by {
                assert(inhalt.contains_key(k));
            }
        }
        r
    }

    /// Die Informationen eines Plugins, falls es geladen ist.
    pub fn plugin_info(&self, id: PluginId) -> (r: Option<PluginInfo>)
        ensures
            match r {
                Some(i) => self@.plugins.contains_key(id.0) && i@ == self@.plugins[id.0].info,
                None => !self@.plugins.contains_key(id.0),
            },
    {
        match plugins_holen(&self.plugins, id.0) {
            Some(u) => Some(u.info),
            None => None,
        }
    }

    /// Die Anzahl geladener Plugins.
    pub fn anzahl_plugins(&self) -> (r: usize)
        ensures
            r == self@.plugins.len(),
    {
        plugins_anzahl(&self.plugins)
    }

    /// Ob ein geladenes Plugin die benannte Capability deklariert hat; fuer unbekannte IDs nie.
    pub fn hat_capability(&self, id: PluginId, capability: &str) -> (r: bool)
        ensures
            r == (self@.plugins.contains_key(id.0) && faehigkeit_spec(
                self@.plugins[id.0].caps,
                capability@,
            )),
    {
        match plugins_holen(&self.plugins, id.0) {
            Some(u) => hat_faehigkeit(&u.caps, capability),
            None => false,
        }
    }
}

/// Ein geladenes Plugin erscheint unter seiner ID in der Liste, im Zustand `Geladen`, und der
/// Manager bleibt wohlgeformt.
pub proof fn gesetz_laden_dann_auflisten(
    s: ManagerSicht,
    id: u128,
    pfad: Seq<char>,
    manifest: PluginManifest,
    trust_level: TrustLevel,
    geladen_am: i64,
)
    requires
        manager_wf(s),
    ensures
        manager_wf(geladen(s, id, pfad, manifest, trust_level, geladen_am)),
        infos_von(geladen(s, id, pfad, manifest, trust_level, geladen_am).plugins).contains_key(id),
        infos_von(geladen(s, id, pfad, manifest, trust_level, geladen_am).plugins)[id].id == id,
        infos_von(geladen(s, id, pfad, manifest, trust_level, geladen_am).plugins)[id].state
            == ZustandSicht::Geladen,
{
    let n = geladen(s, id, pfad, manifest, trust_level, geladen_am);
    assert(n.plugins.dom() =~= n.registry.eintraege.dom());
}

/// Nach dem Aktivieren meldet das Plugin den Zustand `Aktiv`, nach dem Deaktivieren
/// `Deaktiviert`; andere Plugins bleiben unberuehrt.
pub proof fn gesetz_aktivieren_deaktivieren(s: ManagerSicht, id: u128, anderes: u128)
    requires
        manager_wf(s),
        s.plugins.contains_key(id),
        anderes != id,
    ensures
        manager_wf(gewechselt(s, id, ZustandSicht::Aktiv)),
        gewechselt(s, id, ZustandSicht::Aktiv).plugins[id].info.state == ZustandSicht::Aktiv,
        gewechselt(gewechselt(s, id, ZustandSicht::Aktiv), id, ZustandSicht::Deaktiviert).plugins[id].info.state
            == ZustandSicht::Deaktiviert,
        gewechselt(s, id, ZustandSicht::Aktiv).plugins.contains_key(anderes) == s.plugins.contains_key(anderes),
        s.plugins.contains_key(anderes) ==> gewechselt(s, id, ZustandSicht::Aktiv).plugins[anderes]
            == s.plugins[anderes],
{
    let n = gewechselt(s, id, ZustandSicht::Aktiv);
    assert(n.plugins.dom() =~= n.registry.eintraege.dom());
}

/// Entladen nimmt genau das Plugin heraus: danach ist es unbekannt, und es sind eins weniger.
pub proof fn gesetz_entladen(s: ManagerSicht, id: u128)
    requires
        manager_wf(s),
        s.plugins.contains_key(id),
    ensures
        manager_wf(entladen(s, id)),
        !entladen(s, id).plugins.contains_key(id),
        entladen(s, id).plugins.len() == s.plugins.len() - 1,
{
    let n = entladen(s, id);
    assert(n.plugins.dom() =~= n.registry.eintraege.dom());
}

/// Die Informationen der geladenen Plugins, nach ID.
pub open spec fn infos_von(plugins: Map<u128, GeladenSicht>) -> Map<u128, InfoSicht> {
    Map::new(|k: u128| plugins.contains_key(k), |k: u128| plugins[k].info)
}

} // verus!
