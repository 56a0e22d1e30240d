//! Plugin-Registry: verwaltet installierte Plugins und ihre Metadaten.

use crate::kern::uuid_text;
use crate::plugin::error::{PluginError, PluginResult};
use crate::plugin::tabelle::{aufzaehlung, aufzaehlung_ueber};
use crate::plugin::types::{PluginId, PluginInfo, PluginState, TrustLevel, ZustandSicht};
use vstd::prelude::*;

verus! {

/// Mathematische Sicht eines Registry-Eintrags.
pub struct EintragSicht {
    pub id: u128,
    pub name: Seq<char>,
    pub version: Seq<char>,
    pub pfad: Seq<char>,
    pub state: ZustandSicht,
    pub trust_level: TrustLevel,
    pub autostart: bool,
}

/// Eintrag in der Registry.
#[derive(Debug, Clone)]
pub struct RegistryEintrag {
    pub id: PluginId,
    pub name: String,
    pub version: String,
    /// Verzeichnis des Plugins.
    pub pfad: String,
    pub state: PluginState,
    pub trust_level: TrustLevel,
    pub autostart: bool,
}

impl View for RegistryEintrag {
    type V = EintragSicht;

    open spec fn view(&self) -> EintragSicht {
        EintragSicht {
            id: self.id.0,
            name: self.name@,
            version: self.version@,
            pfad: self.pfad@,
            state: self.state@,
            trust_level: self.trust_level,
            autostart: self.autostart,
        }
    }
}

impl RegistryEintrag {
    /// Erstellt eine inhaltsgleiche Kopie.
    pub fn kopie(&self) -> (r: Self)
        ensures
            r@ == self@,
    {
        RegistryEintrag {
            id: self.id,
            name: self.name.clone(),
            version: self.version.clone(),
            pfad: self.pfad.clone(),
            state: self.state.kopie(),
            trust_level: self.trust_level,
            autostart: self.autostart,
        }
    }
}

/// Die Sichten einer Liste von Eintraegen.
pub open spec fn eintrag_sichten(v: Seq<RegistryEintrag>) -> Seq<EintragSicht> {
    v.map_values(|e: RegistryEintrag| e@)
}

/// Tabelle der Eintraege, nach Plugin-ID (als Zahl).
pub type EintragTabelle = dashmap::DashMap<u128, RegistryEintrag>;

/// Namensindex: Plugin-Name auf Plugin-ID.
pub type NamenTabelle = dashmap::DashMap<String, u128>;

/// Was die Eintragstabelle haelt: Plugin-ID (als Zahl) auf Eintrag.
pub uninterp spec fn eintraege_inhalt(m: EintragTabelle) -> Map<
    u128,
    EintragSicht,
>;

/// Was der Namensindex haelt: Plugin-Name auf Plugin-ID.
pub uninterp spec fn namen_inhalt(m: NamenTabelle) -> Map<Seq<char>, u128>;

/// `DashMap::new` fuer die Eintragstabelle: eine leere Tabelle.
#[verifier::external_body]
fn eintraege_neu() -> (r: EintragTabelle)
    ensures
        eintraege_inhalt(r).dom() == Set::<u128>::empty(),
{
    dashmap::DashMap::new()
}

/// `DashMap::insert`: danach steht der Wert unter dem Schluessel, ein frueherer ist ersetzt.
#[verifier::external_body]
fn eintraege_einfuegen(m: &mut EintragTabelle, k: u128, v: RegistryEintrag)
    ensures
        eintraege_inhalt(*final(m)) == eintraege_inhalt(*old(m)).insert(k, v@),
{
    m.insert(k, v);
}

/// `DashMap::remove`: entfernt den Schluessel und gibt den Wert zurueck, falls er da war.
#[verifier::external_body]
fn eintraege_entfernen(m: &mut EintragTabelle, k: u128) -> (r: Option<
    RegistryEintrag,
>)
    ensures
        eintraege_inhalt(*final(m)) == eintraege_inhalt(*old(m)).remove(k),
        match r {
            Some(e) => eintraege_inhalt(*old(m)).contains_key(k) && e@ == eintraege_inhalt(
                *old(m),
            )[k],
            None => !eintraege_inhalt(*old(m)).contains_key(k),
        },
{
    m.remove(&k).map(|(_, v)| v)
}

/// `DashMap::get`: eine Kopie des Wertes unter dem Schluessel, falls er da ist.
#[verifier::external_body]
fn eintraege_holen(m: &EintragTabelle, k: u128) -> (r: Option<
    RegistryEintrag,
>)
    ensures
        match r {
            Some(e) => eintraege_inhalt(*m).contains_key(k) && e@ == eintraege_inhalt(*m)[k],
            None => !eintraege_inhalt(*m).contains_key(k),
        },
{
    m.get(&k).map(|e| e.value().kopie())
}

/// `DashMap::iter`: Kopien aller Werte, in der Reihenfolge der Tabelle (die unbestimmt ist).
#[verifier::external_body]
fn eintraege_werte(m: &EintragTabelle) -> (r: Vec<RegistryEintrag>)
    ensures
        aufzaehlung(eintrag_sichten(r@), eintraege_inhalt(*m)),
{
    m.iter().map(|e| e.value().kopie()).collect()
}

/// `DashMap::len`: die Anzahl der Schluessel.
#[verifier::external_body]
fn eintraege_anzahl(m: &EintragTabelle) -> (r: usize)
    ensures
        r == eintraege_inhalt(*m).len(),
{
    m.len()
}

/// `DashMap::new` fuer den Namensindex: ein leerer Index.
#[verifier::external_body]
fn namen_neu() -> (r: NamenTabelle)
    ensures
        namen_inhalt(r).dom() == Set::<Seq<char>>::empty(),
{
    dashmap::DashMap::new()
}

/// `DashMap::contains_key`: ob der Name im Index steht.
#[verifier::external_body]
fn namen_enthaelt(m: &NamenTabelle, k: &str) -> (r: bool)
    ensures
        r == namen_inhalt(*m).contains_key(k@),
{
    m.contains_key(k)
}

/// `DashMap::get`: die ID unter dem Namen, falls er da ist.
#[verifier::external_body]
fn namen_holen(m: &NamenTabelle, k: &str) -> (r: Option<u128>)
    ensures
        match r {
            Some(v) => namen_inhalt(*m).contains_key(k@) && v == namen_inhalt(*m)[k@],
            None => !namen_inhalt(*m).contains_key(k@),
        },
{
    m.get(k).map(|e| *e.value())
}

/// `DashMap::insert`: danach steht die ID unter dem Namen.
#[verifier::external_body]
fn namen_einfuegen(m: &mut NamenTabelle, k: String, v: u128)
    ensures
        namen_inhalt(*final(m)) == namen_inhalt(*old(m)).insert(k@, v),
{
    m.insert(k, v);
}

/// `DashMap::remove`: danach steht der Name nicht mehr im Index.
#[verifier::external_body]
fn namen_entfernen(m: &mut NamenTabelle, k: &str)
    ensures
        namen_inhalt(*final(m)) == namen_inhalt(*old(m)).remove(k@),
{
    m.remove(k);
}

/// Mathematische Sicht der Registry.
pub struct RegistrySicht {
    pub eintraege: Map<u128, EintragSicht>,
    pub namen: Map<Seq<char>, u128>,
}

/// Wohlgeformtheit: endliche Tabellen, jeder Eintrag steht unter seiner eigenen ID.
pub open spec fn registry_wf(s: RegistrySicht) -> bool {
    &&& s.eintraege.dom().finite()
    &&& s.namen.dom().finite()
    &&& forall|k: u128| #[trigger] s.eintraege.contains_key(k) ==> s.eintraege[k].id == k
}

/// Der Eintrag, den `registrieren` anlegt.
pub open spec fn neuer_eintrag(
    id: u128,
    name: Seq<char>,
    version: Seq<char>,
    pfad: Seq<char>,
    trust_level: TrustLevel,
) -> EintragSicht {
    EintragSicht {
        id,
        name,
        version,
        pfad,
        state: ZustandSicht::Geladen,
        trust_level,
        autostart: false,
    }
}

/// Der Zustand nach erfolgreichem `registrieren`.
pub open spec fn registriert(
    s: RegistrySicht,
    id: u128,
    name: Seq<char>,
    version: Seq<char>,
    pfad: Seq<char>,
    trust_level: TrustLevel,
) -> RegistrySicht {
    RegistrySicht {
        eintraege: s.eintraege.insert(id, neuer_eintrag(id, name, version, pfad, trust_level)),
        namen: s.namen.insert(name, id),
    }
}

/// Der Zustand nach erfolgreichem `entfernen`: Eintrag und sein Name sind weg.
pub open spec fn entfernt(s: RegistrySicht, id: u128) -> RegistrySicht {
    RegistrySicht {
        eintraege: s.eintraege.remove(id),
        namen: s.namen.remove(s.eintraege[id].name),
    }
}

/// Der Zustand nach erfolgreichem `zustand_setzen`.
pub open spec fn zustand_gesetzt(s: RegistrySicht, id: u128, z: ZustandSicht) -> RegistrySicht {
    RegistrySicht {
        eintraege: s.eintraege.insert(id, EintragSicht { state: z, ..s.eintraege[id] }),
        namen: s.namen,
    }
}

/// Suche per ID.
pub open spec fn per_id_spec(s: RegistrySicht, id: u128) -> Option<EintragSicht> {
    if s.eintraege.contains_key(id) {
        Some(s.eintraege[id])
    } else {
        None
    }
}

/// Suche per Name: ueber den Namensindex zur ID, dann zum Eintrag.
pub open spec fn per_name_spec(s: RegistrySicht, name: Seq<char>) -> Option<EintragSicht> {
    if s.namen.contains_key(name) {
        per_id_spec(s, s.namen[name])
    } else {
        None
    }
}

/// Die Meldung fuer ein nicht gefundenes Plugin: seine Textform `plugin:<uuid>`.
pub open spec fn id_text(id: u128) -> Seq<char> {
    "plugin:"@ + uuid_text(id)
}

/// `werte` sind genau die Eintraege im Zustand `Aktiv`, in irgendeiner Reihenfolge.
pub open spec fn aktive_aufzaehlung(werte: Seq<EintragSicht>, inhalt: Map<u128, EintragSicht>) -> bool {
    exists|ks: Seq<u128>|
        aufzaehlung_ueber(werte, inhalt, ks) && forall|k: u128|
            #[trigger] ks.contains(k) <==> (inhalt.contains_key(k) && inhalt[k].state
                is Aktiv)
}

/// Plugin-Registry.
pub struct PluginRegistry {
    eintraege: EintragTabelle,
    /// Name auf ID.
    name_index: NamenTabelle,
}

impl View for PluginRegistry {
    type V = RegistrySicht;

    closed spec fn view(&self) -> RegistrySicht {
        RegistrySicht {
            eintraege: eintraege_inhalt(self.eintraege),
            namen: namen_inhalt(self.name_index),
        }
    }
}

impl PluginRegistry {
    /// Wohlgeformtheit der Registry.
    pub open spec fn wf(&self) -> bool {
        registry_wf(self@)
    }

    /// Erstellt eine leere Registry.
    pub fn neu() -> (r: Self)
        ensures
            r.wf(),
            r@.eintraege == Map::<u128, EintragSicht>::empty(),
            r@.namen == Map::<Seq<char>, u128>::empty(),
    {
        let r = PluginRegistry { eintraege: eintraege_neu(), name_index: namen_neu() };
        assert(r@.eintraege =~= Map::<u128, EintragSicht>::empty());
        assert(r@.namen =~= Map::<Seq<char>, u128>::empty());
        r
    }

    /// Registriert ein Plugin im Zustand `Geladen`; ein schon vergebener Name wird mit
    /// `BereitsGeladen` abgelehnt und aendert nichts.
    pub fn registrieren(
        &mut self,
        id: PluginId,
        name: String,
        version: String,
        pfad: String,
        trust_level: TrustLevel,
    ) -> (r: PluginResult<()>)
        requires
            old(self).wf(),
        ensures
            final(self).wf(),
            old(self)@.namen.contains_key(name@) ==> (r matches Err(PluginError::BereitsGeladen(n))
                && n@ == name@ && final(self)@ == old(self)@),
            !old(self)@.namen.contains_key(name@) ==> (r is Ok && final(self)@ == registriert(
                old(self)@,
                id.0,
                name@,
                version@,
                pfad@,
                trust_level,
            )),
    {
        if namen_enthaelt(&self.name_index, name.as_str()) {
            return Err(PluginError::BereitsGeladen(name));
        }
        let eintrag = RegistryEintrag {
            id,
            name: name.clone(),
            version,
            pfad,
            state: PluginState::Geladen,
            trust_level,
            autostart: false,
        };
        eintraege_einfuegen(&mut self.eintraege, id.0, eintrag);
        namen_einfuegen(&mut self.name_index, name, id.0);
        Ok(())
    }

    /// Entfernt ein Plugin samt seinem Namen; eine unbekannte ID ergibt `NichtGefunden`.
    pub fn entfernen(&mut self, id: PluginId) -> (r: PluginResult<RegistryEintrag>)
        requires
            old(self).wf(),
        ensures
            final(self).wf(),
            !old(self)@.eintraege.contains_key(id.0) ==> (r matches Err(
                PluginError::NichtGefunden(m),
            ) && m@ == id_text(id.0) && final(self)@ == old(self)@),
            old(self)@.eintraege.contains_key(id.0) ==> (r matches Ok(e) && e@
                == old(self)@.eintraege[id.0] && final(self)@ == entfernt(old(self)@, id.0)),
    {
        match eintraege_entfernen(&mut self.eintraege, id.0) {
            Some(e) => {
                namen_entfernen(&mut self.name_index, e.name.as_str());
                Ok(e)
            },
            None => {
                assert(self@.eintraege =~= old(self)@.eintraege);
                Err(PluginError::NichtGefunden(id.als_string()))
            },
        }
    }

    /// Sucht ein Plugin per ID.
    pub fn per_id(&self, id: PluginId) -> (r: Option<RegistryEintrag>)
        ensures
            match r {
                Some(e) => per_id_spec(self@, id.0) == Some(e@),
                None => per_id_spec(self@, id.0) is None,
            },
    {
        eintraege_holen(&self.eintraege, id.0)
    }

    /// Sucht ein Plugin per Name.
    pub fn per_name(&self, name: &str) -> (r: Option<RegistryEintrag>)
        ensures
            match r {
                Some(e) => per_name_spec(self@, name@) == Some(e@),
                None => per_name_spec(self@, name@) is None,
            },
    {
        match namen_holen(&self.name_index, name) {
            Some(id) => eintraege_holen(&self.eintraege, id),
            None => None,
        }
    }

    /// Setzt den Zustand eines Plugins; eine unbekannte ID ergibt `NichtGefunden`.
    pub fn zustand_setzen(&mut self, id: PluginId, state: PluginState) -> (r: PluginResult<()>)
        requires
            old(self).wf(),
        ensures
            final(self).wf(),
            !old(self)@.eintraege.contains_key(id.0) ==> (r matches Err(
                PluginError::NichtGefunden(m),
            ) && m@ == id_text(id.0) && final(self)@ == old(self)@),
            old(self)@.eintraege.contains_key(id.0) ==> (r is Ok && final(self)@ == zustand_gesetzt(
                old(self)@,
                id.0,
                state@,
            )),
    {
        match eintraege_holen(&self.eintraege, id.0) {
            Some(e) => {
                let neu = RegistryEintrag { state, ..e };
                eintraege_einfuegen(&mut self.eintraege, id.0, neu);
                Ok(())
            },
            None => Err(PluginError::NichtGefunden(id.als_string())),
        }
    }

    /// Alle Eintraege, in der Reihenfolge der Tabelle.
    pub fn alle(&self) -> (r: Vec<RegistryEintrag>)
        ensures
            aufzaehlung(eintrag_sichten(r@), self@.eintraege),
    {
        eintraege_werte(&self.eintraege)
    }

    /// Alle Eintraege im Zustand `Aktiv`, in der Reihenfolge der Tabelle.
    pub fn aktive(&self) -> (r: Vec<RegistryEintrag>)
        requires
            self.wf(),
        ensures
            aktive_aufzaehlung(eintrag_sichten(r@), self@.eintraege),
    {
        let alle = eintraege_werte(&self.eintraege);
        let ghost inhalt = self@.eintraege;
        let ghost ks = choose|ks: Seq<u128>|
            aufzaehlung_ueber(eintrag_sichten(alle@), inhalt, ks) && forall|k: u128|
                inhalt.contains_key(k) ==> #[trigger] ks.contains(k);
        let mut r: Vec<RegistryEintrag> = Vec::new();
        let ghost mut rks: Seq<u128> = Seq::empty();
        let mut i: usize = 0;
        while i < alle.len()
            invariant
                i <= alle@.len(),
                aufzaehlung_ueber(eintrag_sichten(alle@), inhalt, ks),
                forall|k: u128| inhalt.contains_key(k) ==> #[trigger] ks.contains(k),
                aufzaehlung_ueber(eintrag_sichten(r@), inhalt, rks),
                forall|k: u128|
                    #[trigger] rks.contains(k) <==> (exists|j: int|
                        0 <= j < i && ks[j] == k && inhalt[k].state is Aktiv),
            decreases alle@.len() - i,
        {
            let ghost k = ks[i as int];
            assert(eintrag_sichten(alle@)[i as int] == alle@[i as int]@);
            assert(inhalt.contains_key(ks[i as int]));
            assert(inhalt[k] == alle@[i as int]@);
            if alle[i].state.ist_aktiv() {
                let ghost alt_r = r@;
                let ghost alt_rks = rks;
                r.push(alle[i].kopie());
                proof {
                    rks = rks.push(k);
                    assert(eintrag_sichten(r@) =~= eintrag_sichten(alt_r).push(alle@[i as int]@));
                    assert(!alt_rks.contains(k)) by {
                        if alt_rks.contains(k) {
                            let j = choose|j: int| 0 <= j < i && ks[j] == k && inhalt[k].state is Aktiv;
                            assert(ks[j] == ks[i as int]);
                        }
                    }
                    assert forall|x: u128| #[trigger] rks.contains(x) <==> (exists|j: int|
                        0 <= j < i + 1 && ks[j] == x && inhalt[x].state is Aktiv) by {
                        if rks.contains(x) {
                            if x != k {
                                assert(alt_rks.contains(x));
                            } else {
                                assert(ks[i as int] == x);
                            }
                        }
                        if exists|j: int| 0 <= j < i + 1 && ks[j] == x && inhalt[x].state is Aktiv {
                            let j = choose|j: int| 0 <= j < i + 1 && ks[j] == x && inhalt[x].state is Aktiv;
                            if j < i {
                                assert(alt_rks.contains(x));
                                assert(rks[alt_rks.index_of(x)] == x);
                            } else {
                                assert(rks[rks.len() - 1] == x);
                            }
                        }
                    }
                }
            } else {
                proof {
                    assert forall|x: u128| #[trigger] rks.contains(x) <==> (exists|j: int|
                        0 <= j < i + 1 && ks[j] == x && inhalt[x].state is Aktiv) by {
                        if exists|j: int| 0 <= j < i + 1 && ks[j] == x && inhalt[x].state is Aktiv {
                            let j = choose|j: int| 0 <= j < i + 1 && ks[j] == x && inhalt[x].state is Aktiv;
                            assert(j != i);
                        }
                    }
                }
            }
            i = i + 1;
        }
        proof {
            assert forall|k: u128| #[trigger] rks.contains(k) <==> (inhalt.contains_key(k)
                && inhalt[k].state is Aktiv) by {
                if inhalt.contains_key(k) && inhalt[k].state is Aktiv {
                    assert(ks.contains(k));
                    let j = ks.index_of(k);
                    assert(0 <= j < alle@.len() && ks[j] == k);
                }
            }
        }
        r
    }

    /// Die Anzahl registrierter Plugins.
    pub fn anzahl(&self) -> (r: usize)
        ensures
            r == self@.eintraege.len(),
    {
        eintraege_anzahl(&self.eintraege)
    }
}

/// Ein registriertes Plugin wird per ID und per Name gefunden, im Zustand `Geladen`.
pub proof fn gesetz_registrieren_dann_finden(
    s: RegistrySicht,
    id: u128,
    name: Seq<char>,
    version: Seq<char>,
    pfad: Seq<char>,
    trust_level: TrustLevel,
)
    requires
        registry_wf(s),
        !s.namen.contains_key(name),
    ensures
        per_id_spec(registriert(s, id, name, version, pfad, trust_level), id) == Some(
            neuer_eintrag(id, name, version, pfad, trust_level),
        ),
        per_name_spec(registriert(s, id, name, version, pfad, trust_level), name) == Some(
            neuer_eintrag(id, name, version, pfad, trust_level),
        ),
        registry_wf(registriert(s, id, name, version, pfad, trust_level)),
{
}

/// Ein Name ist nach der Registrierung vergeben: ein zweites `registrieren` mit ihm wird
/// abgelehnt.
pub proof fn gesetz_name_bleibt_vergeben(
    s: RegistrySicht,
    id: u128,
    name: Seq<char>,
    version: Seq<char>,
    pfad: Seq<char>,
    trust_level: TrustLevel,
)
    ensures
        registriert(s, id, name, version, pfad, trust_level).namen.contains_key(name),
{
}

/// Nach dem Entfernen eines eben registrierten Plugins findet es weder die ID noch der Name.
pub proof fn gesetz_registrieren_dann_entfernen(
    s: RegistrySicht,
    id: u128,
    name: Seq<char>,
    version: Seq<char>,
    pfad: Seq<char>,
    trust_level: TrustLevel,
)
    requires
        registry_wf(s),
        !s.namen.contains_key(name),
    ensures
        per_id_spec(entfernt(registriert(s, id, name, version, pfad, trust_level), id), id)
            is None,
        per_name_spec(entfernt(registriert(s, id, name, version, pfad, trust_level), id), name)
            is None,
{
}

/// Nach `zustand_setzen` hat der Eintrag den neuen Zustand; sonst aendert sich an ihm nichts.
pub proof fn gesetz_zustand_setzen(s: RegistrySicht, id: u128, z: ZustandSicht)
    requires
        s.eintraege.contains_key(id),
    ensures
        per_id_spec(zustand_gesetzt(s, id, z), id) == Some(
            EintragSicht { state: z, ..s.eintraege[id] },
        ),
{
}

/// Registrieren unter einer neuen ID erhoeht die Anzahl um eins.
pub proof fn gesetz_anzahl_nach_registrieren(
    s: RegistrySicht,
    id: u128,
    name: Seq<char>,
    version: Seq<char>,
    pfad: Seq<char>,
    trust_level: TrustLevel,
)
    requires
        registry_wf(s),
        !s.eintraege.contains_key(id),
    ensures
        registriert(s, id, name, version, pfad, trust_level).eintraege.len() == s.eintraege.len()
            + 1,
{
}

impl Default for PluginRegistry {
    fn default() -> (r: Self)
        ensures
            r.wf(),
            r@.eintraege == Map::<u128, EintragSicht>::empty(),
            r@.namen == Map::<Seq<char>, u128>::empty(),
    {
        PluginRegistry::neu()
    }
}

/// Die Plugin-Informationen zu einem Registry-Eintrag (Autor und Beschreibung leer).
pub fn eintrag_zu_info(eintrag: &RegistryEintrag, geladen_am: i64) -> (r: PluginInfo)
    ensures
        r.id == eintrag.id,
        r.name@ == eintrag.name@,
        r.version@ == eintrag.version@,
        r.author@ == Seq::<char>::empty(),
        r.description@ == Seq::<char>::empty(),
        r.state@ == eintrag.state@,
        r.trust_level == eintrag.trust_level,
        r.geladen_am == geladen_am,
{
    PluginInfo {
        id: eintrag.id,
        name: eintrag.name.clone(),
        version: eintrag.version.clone(),
        author: String::new(),
        description: String::new(),
        state: eintrag.state.kopie(),
        trust_level: eintrag.trust_level,
        geladen_am,
    }
}

} // verus!
