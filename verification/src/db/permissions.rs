//! Berechtigungs-Engine: Aufloesung des mehrstufigen Berechtigungssystems.
//!
//! Aufloesung (hoechste Prioritaet zuerst):
//!   1. Individuelle Berechtigungen des Benutzers
//!   2. Kanal-Gruppe des Benutzers in diesem Kanal
//!   3. Kanal-Default
//!   4. Server-Gruppen des Benutzers (nach Prioritaet absteigend)
//!   5. Server-Default
//!
//! Merge-Regel bei Konflikten auf gleicher Ebene: Deny vor Grant vor Skip; bei Zahlen- und
//! Listenwerten gewinnt der restriktivste Wert.

use crate::db::models::{BerechtigungsWert, TriState, WertSicht};
use crate::text::{strings_kopieren, strings_sicht};
use crate::text::str_gleich;
use vstd::prelude::*;

verus! {

/// Mathematische Sicht einer Hierarchie-Stufe.
pub enum StufeSicht {
    Individual,
    KanalGruppe,
    KanalDefault,
    ServerGruppe(Seq<char>),
    ServerDefault,
}

/// Hierarchie-Stufe, die eine aufgeloeste Berechtigung geliefert hat.
#[derive(Debug, Clone, PartialEq, Eq)]
pub enum BerechtigungsStufe {
    Individual,
    KanalGruppe,
    KanalDefault,
    ServerGruppe { name: String },
    ServerDefault,
}

impl View for BerechtigungsStufe {
    type V = StufeSicht;

    open spec fn view(&self) -> StufeSicht {
        match self {
            BerechtigungsStufe::Individual => StufeSicht::Individual,
            BerechtigungsStufe::KanalGruppe => StufeSicht::KanalGruppe,
            BerechtigungsStufe::KanalDefault => StufeSicht::KanalDefault,
            BerechtigungsStufe::ServerGruppe { name } => StufeSicht::ServerGruppe(name@),
            BerechtigungsStufe::ServerDefault => StufeSicht::ServerDefault,
        }
    }
}

/// Der Anzeigetext einer Stufe.
pub open spec fn stufe_text(s: StufeSicht) -> Seq<char> {
    match s {
        StufeSicht::Individual => "Individual"@,
        StufeSicht::KanalGruppe => "KanalGruppe"@,
        StufeSicht::KanalDefault => "KanalDefault"@,
        StufeSicht::ServerGruppe(n) => "ServerGruppe("@ + n + ")"@,
        StufeSicht::ServerDefault => "ServerDefault"@,
    }
}

impl BerechtigungsStufe {
    /// Erstellt eine inhaltsgleiche Kopie.
    pub fn kopie(&self) -> (r: Self)
        ensures
            r@ == self@,
    {
        match self {
            BerechtigungsStufe::Individual => BerechtigungsStufe::Individual,
            BerechtigungsStufe::KanalGruppe => BerechtigungsStufe::KanalGruppe,
            BerechtigungsStufe::KanalDefault => BerechtigungsStufe::KanalDefault,
            BerechtigungsStufe::ServerGruppe { name } => BerechtigungsStufe::ServerGruppe {
                name: name.clone(),
            },
            BerechtigungsStufe::ServerDefault => BerechtigungsStufe::ServerDefault,
        }
    }

    /// Der Anzeigetext der Stufe, etwa `ServerGruppe(admin)`.
    pub fn als_string(&self) -> (r: String)
        ensures
            r@ == stufe_text(self@),
    {
        match self {
            BerechtigungsStufe::Individual => String::from_str("Individual"),
            BerechtigungsStufe::KanalGruppe => String::from_str("KanalGruppe"),
            BerechtigungsStufe::KanalDefault => String::from_str("KanalDefault"),
            BerechtigungsStufe::ServerGruppe { name } => {
                let mut s = String::from_str("ServerGruppe(");
                s.append(name.as_str());
                s.append(")");
                s
            },
            BerechtigungsStufe::ServerDefault => String::from_str("ServerDefault"),
        }
    }
}

/// Ergebnis der Berechtigungsaufloesung fuer einen Schluessel.
#[derive(Debug, Clone)]
pub struct AufgeloesteBerechtigung {
    pub permission_key: String,
    pub wert: BerechtigungsWert,
    /// Welche Stufe diese Berechtigung geliefert hat.
    pub stufe: BerechtigungsStufe,
}

/// Ein Eintrag der Aufloesung: Schluessel, Wert und Stufe.
pub type Eintrag = (Seq<char>, WertSicht, StufeSicht);

impl View for AufgeloesteBerechtigung {
    type V = Eintrag;

    open spec fn view(&self) -> Eintrag {
        (self.permission_key@, self.wert@, self.stufe@)
    }
}

/// Eingabe fuer die Berechtigungsaufloesung.
#[derive(Debug, Clone)]
pub struct BerechtigungsEingabe {
    /// Individuelle Berechtigungen des Benutzers.
    pub individual: Vec<(String, BerechtigungsWert)>,
    /// Berechtigungen aus der Kanal-Gruppe (falls vorhanden).
    pub kanal_gruppe: Option<Vec<(String, BerechtigungsWert)>>,
    /// Kanal-Default-Berechtigungen.
    pub kanal_default: Vec<(String, BerechtigungsWert)>,
    /// Server-Gruppen-Berechtigungen (nach Prioritaet absteigend sortiert).
    pub server_gruppen: Vec<(String, Vec<(String, BerechtigungsWert)>)>,
    /// Server-Default-Berechtigungen.
    pub server_default: Vec<(String, BerechtigungsWert)>,
}

/// Die Sicht einer Liste von Schluessel-Wert-Paaren.
pub open spec fn paare_sicht(perms: Seq<(String, BerechtigungsWert)>) -> Seq<(Seq<char>, WertSicht)> {
    perms.map_values(|p: (String, BerechtigungsWert)| (p.0@, p.1@))
}

/// Eine Ebene der Hierarchie: ihre Schluessel-Wert-Paare und die Stufe, fuer die sie steht.
pub type Ebene = (Seq<(Seq<char>, WertSicht)>, StufeSicht);

/// Die Ebenen der Server-Gruppen in der gegebenen Reihenfolge.
pub open spec fn gruppen_ebenen(gs: Seq<(String, Vec<(String, BerechtigungsWert)>)>) -> Seq<Ebene> {
    Seq::new(gs.len(), |i: int| (paare_sicht(gs[i].1@), StufeSicht::ServerGruppe(gs[i].0@)))
}

/// Alle Ebenen der Eingabe, nach absteigender Prioritaet.
pub open spec fn eingabe_ebenen(e: BerechtigungsEingabe) -> Seq<Ebene> {
    seq![(paare_sicht(e.individual@), StufeSicht::Individual)] + (match e.kanal_gruppe {
        Some(kg) => seq![(paare_sicht(kg@), StufeSicht::KanalGruppe)],
        None => Seq::empty(),
    }) + seq![(paare_sicht(e.kanal_default@), StufeSicht::KanalDefault)] + gruppen_ebenen(
        e.server_gruppen@,
    ) + seq![(paare_sicht(e.server_default@), StufeSicht::ServerDefault)]
}

/// Ein Wert ist aktiv, wenn er nicht Skip ist (ein leerer Scope gilt als nicht gesetzt).
pub open spec fn ist_aktiv_spec(w: WertSicht) -> bool {
    match w {
        WertSicht::TriState(t) => t != TriState::Skip,
        WertSicht::IntLimit(_) => true,
        WertSicht::Scope(s) => s.len() > 0,
    }
}

/// `r` enthaelt einen Eintrag mit dem Schluessel `k`.
pub open spec fn hat_schluessel(r: Seq<Eintrag>, k: Seq<char>) -> bool {
    exists|i: int| 0 <= i < r.len() && #[trigger] r[i].0 == k
}

/// Die aktiven Werte des Schluessels `k` auf einer Ebene, in ihrer Reihenfolge.
pub open spec fn aktive_werte(ps: Seq<(Seq<char>, WertSicht)>, k: Seq<char>) -> Seq<WertSicht>
    decreases ps.len(),
{
    if ps.len() == 0 {
        Seq::empty()
    } else {
        let vor = aktive_werte(ps.drop_last(), k);
        if ps.last().0 == k && ist_aktiv_spec(ps.last().1) {
            vor.push(ps.last().1)
        } else {
            vor
        }
    }
}

/// Die Ebene setzt den Schluessel `k`: sie hat fuer ihn einen aktiven Wert.
pub open spec fn gesetzt(ps: Seq<(Seq<char>, WertSicht)>, k: Seq<char>) -> bool {
    exists|j: int| 0 <= j < ps.len() && #[trigger] ps[j].0 == k && ist_aktiv_spec(ps[j].1)
}

/// Der Wert einer Ebene fuer `k`: ihre aktiven Werte fuer `k`, zusammengefuehrt.
pub open spec fn ebenen_wert(ps: Seq<(Seq<char>, WertSicht)>, k: Seq<char>) -> WertSicht {
    merge_spec(aktive_werte(ps, k))
}

/// Die ersten `n` Paare einer Ebene auf `r` anwenden: ein Schluessel, den die Ebene setzt und
/// den `r` noch nicht enthaelt, kommt bei seinem ersten Auftreten mit dem Wert der Ebene hinzu.
pub open spec fn ebene_anwenden(r: Seq<Eintrag>, ps: Seq<(Seq<char>, WertSicht)>, st: StufeSicht, n: nat) -> Seq<
    Eintrag,
>
    decreases n,
{
    if n == 0 {
        r
    } else {
        let v = ebene_anwenden(r, ps, st, (n - 1) as nat);
        let k = ps[n - 1].0;
        if gesetzt(ps, k) && !hat_schluessel(v, k) {
            v.push((k, ebenen_wert(ps, k), st))
        } else {
            v
        }
    }
}

/// Aufloesung: die Ebenen werden nach absteigender Prioritaet angewendet; jeder Schluessel
/// erhaelt den zusammengefuehrten Wert der ersten Ebene, die ihn setzt, und deren Stufe.
pub open spec fn aufloesen_spec(ebenen: Seq<Ebene>) -> Seq<Eintrag>
    decreases ebenen.len(),
{
    if ebenen.len() == 0 {
        Seq::empty()
    } else {
        let l = ebenen.last();
        ebene_anwenden(aufloesen_spec(ebenen.drop_last()), l.0, l.1, l.0.len())
    }
}

/// Eine Ebene setzt `k` genau dann, wenn sie aktive Werte fuer `k` hat.
proof fn lemma_gesetzt_aktive_werte(ps: Seq<(Seq<char>, WertSicht)>, k: Seq<char>)
    ensures
        gesetzt(ps, k) <==> aktive_werte(ps, k).len() > 0,
    decreases ps.len(),
{
    if ps.len() > 0 {
        let vor = ps.drop_last();
        lemma_gesetzt_aktive_werte(vor, k);
        if gesetzt(vor, k) {
            let j = choose|j: int| 0 <= j < vor.len() && #[trigger] vor[j].0 == k && ist_aktiv_spec(vor[j].1);
            assert(ps[j] == vor[j]);
        }
        if gesetzt(ps, k) && !(ps.last().0 == k && ist_aktiv_spec(ps.last().1)) {
            let j = choose|j: int| 0 <= j < ps.len() && #[trigger] ps[j].0 == k && ist_aktiv_spec(ps[j].1);
            assert(vor[j] == ps[j]);
        }
        if ps.last().0 == k && ist_aktiv_spec(ps.last().1) {
            assert(ps[ps.len() - 1].0 == k);
        }
    }
}

/// Eine Ebene anwenden: `r` bleibt Anfangsstueck, jeder neue Eintrag traegt einen Schluessel,
/// den die Ebene setzt und `r` nicht enthaelt, mit dem Wert der Ebene und ihrer Stufe; jeder
/// Schluessel der ersten `n` Paare, den die Ebene setzt, ist danach enthalten.
proof fn lemma_ebene_anwenden(r: Seq<Eintrag>, ps: Seq<(Seq<char>, WertSicht)>, st: StufeSicht, n: nat)
    requires
        n <= ps.len(),
        forall|i: int, j: int| 0 <= i < j < r.len() ==> r[i].0 != r[j].0,
    ensures
        ({
            let v = ebene_anwenden(r, ps, st, n);
            &&& r.len() <= v.len()
            &&& forall|i: int| 0 <= i < r.len() ==> #[trigger] v[i] == r[i]
            &&& forall|i: int, j: int| 0 <= i < j < v.len() ==> v[i].0 != v[j].0
            &&& forall|i: int|
                r.len() <= i < v.len() ==> {
                    &&& gesetzt(ps, (#[trigger] v[i]).0)
                    &&& !hat_schluessel(r, v[i].0)
                    &&& v[i].1 == ebenen_wert(ps, v[i].0)
                    &&& v[i].2 == st
                }
            &&& forall|j: int|
                0 <= j < n && gesetzt(ps, #[trigger] ps[j].0) ==> hat_schluessel(v, ps[j].0)
        }),
    decreases n,
{
    if n > 0 {
        let m = (n - 1) as nat;
        lemma_ebene_anwenden(r, ps, st, m);
        let vv = ebene_anwenden(r, ps, st, m);
        let v = ebene_anwenden(r, ps, st, n);
        let k = ps[n - 1].0;
        if gesetzt(ps, k) && !hat_schluessel(vv, k) {
            assert(v == vv.push((k, ebenen_wert(ps, k), st)));
            assert forall|i: int| 0 <= i < r.len() implies #[trigger] v[i] == r[i] by {
                assert(v[i] == vv[i]);
            }
            assert forall|i: int, j: int| 0 <= i < j < v.len() implies v[i].0 != v[j].0 by {
                assert(v[i] == vv[i]);
                if j < vv.len() {
                    assert(v[j] == vv[j]);
                }
            }
            assert(!hat_schluessel(r, k)) by {
                if hat_schluessel(r, k) {
                    let i = choose|i: int| 0 <= i < r.len() && #[trigger] r[i].0 == k;
                    assert(vv[i] == r[i]);
                }
            }
            assert forall|i: int| r.len() <= i < v.len() implies {
                &&& gesetzt(ps, (#[trigger] v[i]).0)
                &&& !hat_schluessel(r, v[i].0)
                &&& v[i].1 == ebenen_wert(ps, v[i].0)
                &&& v[i].2 == st
            } by {
                if i < vv.len() {
                    assert(v[i] == vv[i]);
                }
            }
            assert forall|j: int| 0 <= j < n && gesetzt(ps, #[trigger] ps[j].0) implies hat_schluessel(
                v,
                ps[j].0,
            ) by {
                if j < m {
                    let i = choose|i: int| 0 <= i < vv.len() && #[trigger] vv[i].0 == ps[j].0;
                    assert(v[i] == vv[i]);
                } else {
                    assert(v[vv.len() as int].0 == k);
                }
            }
        } else {
            assert(v == vv);
            assert forall|j: int| 0 <= j < n && gesetzt(ps, #[trigger] ps[j].0) implies hat_schluessel(
                v,
                ps[j].0,
            ) by {
                if j == m {
                    assert(hat_schluessel(vv, k));
                }
            }
        }
    }
}

/// Gesetz: im Aufloesungsergebnis kommt jeder Schluessel hoechstens einmal vor; jeder Eintrag
/// stammt von der ersten Ebene, die seinen Schluessel setzt, traegt deren Stufe und den
/// Zusammenschluss ihrer aktiven Werte fuer diesen Schluessel (Deny vor Grant vor Skip); und
/// jeder Schluessel, den irgendeine Ebene setzt, ist im Ergebnis vertreten.
pub proof fn gesetz_erste_aktive_stufe_gewinnt(ebenen: Seq<Ebene>)
    ensures
        ({
            let r = aufloesen_spec(ebenen);
            &&& forall|i: int, j: int| 0 <= i < j < r.len() ==> r[i].0 != r[j].0
            &&& forall|i: int|
                0 <= i < r.len() ==> exists|l: int|
                    {
                        &&& 0 <= l < ebenen.len()
                        &&& gesetzt(ebenen[l].0, (#[trigger] r[i]).0)
                        &&& r[i].1 == ebenen_wert(ebenen[l].0, r[i].0)
                        &&& r[i].2 == ebenen[l].1
                        &&& forall|m: int| 0 <= m < l ==> !gesetzt(#[trigger] ebenen[m].0, r[i].0)
                    }
            &&& forall|l: int, k: Seq<char>|
                0 <= l < ebenen.len() && #[trigger] gesetzt(ebenen[l].0, k) ==> hat_schluessel(r, k)
        }),
    decreases ebenen.len(),
{
    if ebenen.len() > 0 {
        let vor = ebenen.drop_last();
        let n = ebenen.len() - 1;
        gesetz_erste_aktive_stufe_gewinnt(vor);
        let rv = aufloesen_spec(vor);
        let e = ebenen.last();
        let r = aufloesen_spec(ebenen);
        assert(r == ebene_anwenden(rv, e.0, e.1, e.0.len()));
        lemma_ebene_anwenden(rv, e.0, e.1, e.0.len());
        assert forall|i: int| 0 <= i < r.len() implies exists|l: int|
            {
                &&& 0 <= l < ebenen.len()
                &&& gesetzt(ebenen[l].0, (#[trigger] r[i]).0)
                &&& r[i].1 == ebenen_wert(ebenen[l].0, r[i].0)
                &&& r[i].2 == ebenen[l].1
                &&& forall|m: int| 0 <= m < l ==> !gesetzt(#[trigger] ebenen[m].0, r[i].0)
            } by {
            if i < rv.len() {
                assert(r[i] == rv[i]);
                let l = choose|l: int|
                    {
                        &&& 0 <= l < vor.len()
                        &&& gesetzt(vor[l].0, (#[trigger] rv[i]).0)
                        &&& rv[i].1 == ebenen_wert(vor[l].0, rv[i].0)
                        &&& rv[i].2 == vor[l].1
                        &&& forall|m: int| 0 <= m < l ==> !gesetzt(#[trigger] vor[m].0, rv[i].0)
                    };
                assert(ebenen[l] == vor[l]);
                assert forall|m: int| 0 <= m < l implies !gesetzt(#[trigger] ebenen[m].0, r[i].0) by {
                    assert(ebenen[m] == vor[m]);
                }
            } else {
                assert(ebenen[n] == e);
                assert forall|m: int| 0 <= m < n implies !gesetzt(#[trigger] ebenen[m].0, r[i].0) by {
                    assert(ebenen[m] == vor[m]);
                    if gesetzt(vor[m].0, r[i].0) {
                        assert(hat_schluessel(rv, r[i].0));
                    }
                }
            }
        }
        assert forall|l: int, k: Seq<char>|
            0 <= l < ebenen.len() && #[trigger] gesetzt(ebenen[l].0, k) implies hat_schluessel(r, k) by {
            if l < n {
                assert(ebenen[l] == vor[l]);
                assert(gesetzt(vor[l].0, k));
                let i = choose|i: int| 0 <= i < rv.len() && #[trigger] rv[i].0 == k;
                assert(r[i] == rv[i]);
            } else {
                assert(ebenen[l] == e);
                let j = choose|j: int| 0 <= j < e.0.len() && #[trigger] e.0[j].0 == k && ist_aktiv_spec(e.0[j].1);
                assert(gesetzt(e.0, e.0[j].0));
            }
        }
    }
}

/// Die Sicht einer Ergebnisliste.
pub open spec fn ergebnis_sicht(v: Seq<AufgeloesteBerechtigung>) -> Seq<Eintrag> {
    v.map_values(|a: AufgeloesteBerechtigung| a@)
}

/// Aufgeloeste Berechtigungen, je Schluessel hoechstens ein Eintrag.
#[derive(Debug, Clone)]
pub struct AufgeloesteBerechtigungen {
    /// Die Eintraege in der Reihenfolge ihres ersten Auftretens.
    pub eintraege: Vec<AufgeloesteBerechtigung>,
}

impl AufgeloesteBerechtigungen {
    /// Die Eintraege als mathematische Folge.
    pub open spec fn sicht(&self) -> Seq<Eintrag> {
        ergebnis_sicht(self.eintraege@)
    }

    /// Sucht den Eintrag zu einem Berechtigungsschluessel.
    pub fn get(&self, key: &str) -> (r: Option<&AufgeloesteBerechtigung>)
        ensures
            r is Some <==> hat_schluessel(self.sicht(), key@),
            r matches Some(a) ==> a@.0 == key@ && exists|i: int|
                0 <= i < self.eintraege@.len() && self.eintraege@[i] == *a,
    {
        schluessel_suchen(&self.eintraege, key)
    }

    /// Anzahl der aufgeloesten Schluessel.
    pub fn len(&self) -> (r: usize)
        ensures
            r == self.sicht().len(),
    {
        self.eintraege.len()
    }
}

/// Sucht den ersten Eintrag mit dem Schluessel `key`.
fn schluessel_suchen<'a>(v: &'a Vec<AufgeloesteBerechtigung>, key: &str) -> (r: Option<
    &'a AufgeloesteBerechtigung,
>)
    ensures
        r is Some <==> hat_schluessel(ergebnis_sicht(v@), key@),
        r matches Some(a) ==> a@.0 == key@ && exists|i: int| 0 <= i < v@.len() && v@[i] == *a,
{
    let mut i: usize = 0;
    while i < v.len()
        invariant
            i <= v@.len(),
            forall|j: int| 0 <= j < i ==> v@[j].permission_key@ != key@,
        decreases v@.len() - i,
    {
        if str_gleich(v[i].permission_key.as_str(), key) {
            assert(ergebnis_sicht(v@)[i as int].0 == key@);
            return Some(&v[i]);
        }
        i = i + 1;
    }
    assert forall|j: int| 0 <= j < ergebnis_sicht(v@).len() implies #[trigger] ergebnis_sicht(
        v@,
    )[j].0 != key@ by {
        assert(ergebnis_sicht(v@)[j] == v@[j]@);
    }
    None
}

/// Prueft ob ein Berechtigungswert aktiv ist (nicht Skip).
pub fn ist_aktiv(wert: &BerechtigungsWert) -> (r: bool)
    ensures
        r == ist_aktiv_spec(wert@),
{
    match wert {
        BerechtigungsWert::TriState(ts) => match ts {
            TriState::Skip => false,
            _ => true,
        },
        BerechtigungsWert::IntLimit(_) => true,
        BerechtigungsWert::Scope(s) => s.len() > 0,
    }
}

/// Sammelt die aktiven Werte des Schluessels `key` einer Ebene.
fn aktive_werte_sammeln(perms: &Vec<(String, BerechtigungsWert)>, key: &str) -> (r: Vec<BerechtigungsWert>)
    ensures
        werte_sicht(r@) == aktive_werte(paare_sicht(perms@), key@),
{
    let ghost ps = paare_sicht(perms@);
    let mut r: Vec<BerechtigungsWert> = Vec::new();
    let mut i: usize = 0;
    assert(werte_sicht(r@) =~= aktive_werte(ps.take(0), key@));
    while i < perms.len()
        invariant
            i <= perms@.len(),
            ps == paare_sicht(perms@),
            werte_sicht(r@) == aktive_werte(ps.take(i as int), key@),
        decreases perms@.len() - i,
    {
        let ghost t2 = ps.take(i + 1);
        assert(t2.drop_last() =~= ps.take(i as int));
        assert(t2.last() == (perms@[i as int].0@, perms@[i as int].1@));
        let wert = &perms[i].1;
        if str_gleich(perms[i].0.as_str(), key) && ist_aktiv(wert) {
            let ghost alt = r@;
            r.push(wert.kopie());
            assert(werte_sicht(r@) =~= werte_sicht(alt).push(wert@));
        }
        i = i + 1;
    }
    assert(ps.take(i as int) =~= ps);
    r
}

/// Wendet eine Ebene an: jeder Schluessel, den sie setzt und der noch fehlt, erhaelt den
/// Zusammenschluss ihrer aktiven Werte fuer ihn und ihre Stufe.
fn setze_stufe(
    ergebnis: &mut Vec<AufgeloesteBerechtigung>,
    perms: &Vec<(String, BerechtigungsWert)>,
    stufe: &BerechtigungsStufe,
)
    ensures
        ergebnis_sicht(final(ergebnis)@) == ebene_anwenden(
            ergebnis_sicht(old(ergebnis)@),
            paare_sicht(perms@),
            stufe@,
            perms@.len(),
        ),
{
    let ghost start = ergebnis_sicht(ergebnis@);
    let ghost ps = paare_sicht(perms@);
    let mut i: usize = 0;
    while i < perms.len()
        invariant
            i <= perms@.len(),
            ps == paare_sicht(perms@),
            ergebnis_sicht(ergebnis@) == ebene_anwenden(start, ps, stufe@, i as nat),
        decreases perms@.len() - i,
    {
        let key = &perms[i].0;
        assert(ps[i as int].0 == key@);
        match schluessel_suchen(ergebnis, key.as_str()) {
            Some(_) => {},
            None => {
                let werte = aktive_werte_sammeln(perms, key.as_str());
                proof {
                    lemma_gesetzt_aktive_werte(ps, key@);
                }
                if werte.len() > 0 {
                    let a = AufgeloesteBerechtigung {
                        permission_key: key.clone(),
                        wert: merge_werte(werte.as_slice()),
                        stufe: stufe.kopie(),
                    };
                    let ghost alt = ergebnis@;
                    ergebnis.push(a);
                    assert(ergebnis_sicht(ergebnis@) =~= ergebnis_sicht(alt).push(
                        (key@, ebenen_wert(ps, key@), stufe@),
                    ));
                }
            },
        }
        i = i + 1;
    }
}

/// Fuehrt die vollstaendige Berechtigungsaufloesung durch: die Werte eines Schluessels auf
/// einer Ebene werden zusammengefuehrt (Deny vor Grant vor Skip), und je Schluessel gilt die
/// erste Ebene in Prioritaetsreihenfolge, die ihn setzt. Schluessel, die auf allen Ebenen
/// Skip sind, fehlen.
pub fn berechtigungen_aufloesen(eingabe: &BerechtigungsEingabe) -> (r: AufgeloesteBerechtigungen)
    ensures
        r.sicht() == aufloesen_spec(eingabe_ebenen(*eingabe)),
{
    let mut ergebnis: Vec<AufgeloesteBerechtigung> = Vec::new();
    let ghost mut bisher: Seq<Ebene> = Seq::empty();
    assert(ergebnis_sicht(ergebnis@) =~= aufloesen_spec(bisher));

    let st = BerechtigungsStufe::Individual;
    setze_stufe(&mut ergebnis, &eingabe.individual, &st);
    proof {
        let neu = bisher.push((paare_sicht(eingabe.individual@), st@));
        assert(neu.drop_last() =~= bisher);
        bisher = neu;
    }
    assert(ergebnis_sicht(ergebnis@) == aufloesen_spec(bisher));

    match &eingabe.kanal_gruppe {
        Some(kg) => {
            let st = BerechtigungsStufe::KanalGruppe;
            setze_stufe(&mut ergebnis, kg, &st);
            proof {
                let neu = bisher.push((paare_sicht(kg@), st@));
                assert(neu.drop_last() =~= bisher);
                bisher = neu;
            }
            assert(ergebnis_sicht(ergebnis@) == aufloesen_spec(bisher));
        },
        None => {},
    }
    assert(ergebnis_sicht(ergebnis@) == aufloesen_spec(bisher));

    let st = BerechtigungsStufe::KanalDefault;
    setze_stufe(&mut ergebnis, &eingabe.kanal_default, &st);
    proof {
        let neu = bisher.push((paare_sicht(eingabe.kanal_default@), st@));
        assert(neu.drop_last() =~= bisher);
        bisher = neu;
    }
    assert(ergebnis_sicht(ergebnis@) == aufloesen_spec(bisher));

    let ghost vor_gruppen = bisher;
    let ghost ge = gruppen_ebenen(eingabe.server_gruppen@);
    let mut g: usize = 0;
    assert(vor_gruppen + ge.take(0) =~= vor_gruppen);
    while g < eingabe.server_gruppen.len()
        invariant
            g <= eingabe.server_gruppen@.len(),
            ge == gruppen_ebenen(eingabe.server_gruppen@),
            bisher == vor_gruppen + ge.take(g as int),
            ergebnis_sicht(ergebnis@) == aufloesen_spec(bisher),
        decreases eingabe.server_gruppen@.len() - g,
    {
        let gruppe = &eingabe.server_gruppen[g];
        let st = BerechtigungsStufe::ServerGruppe { name: gruppe.0.clone() };
        setze_stufe(&mut ergebnis, &gruppe.1, &st);
        proof {
            let neu = bisher.push((paare_sicht(gruppe.1@), st@));
            assert(neu.drop_last() =~= bisher);
            assert(ge[g as int] == (paare_sicht(gruppe.1@), st@));
            assert(vor_gruppen + ge.take(g + 1) =~= neu);
            bisher = neu;
        }
        g = g + 1;
    }
    assert(ge.take(g as int) =~= ge);

    let st = BerechtigungsStufe::ServerDefault;
    setze_stufe(&mut ergebnis, &eingabe.server_default, &st);
    proof {
        let neu = bisher.push((paare_sicht(eingabe.server_default@), st@));
        assert(neu.drop_last() =~= bisher);
        bisher = neu;
        assert(bisher =~= eingabe_ebenen(*eingabe));
    }
    AufgeloesteBerechtigungen { eintraege: ergebnis }
}

/// Kleinstes Limit unter den Werten, falls es Limits gibt.
pub open spec fn limit_min(ws: Seq<WertSicht>) -> Option<i64>
    decreases ws.len(),
{
    if ws.len() == 0 {
        None
    } else {
        let vor = limit_min(ws.drop_last());
        match ws.last() {
            WertSicht::IntLimit(l) => match vor {
                None => Some(l),
                Some(m) => Some(
                    if l < m {
                        l
                    } else {
                        m
                    },
                ),
            },
            _ => vor,
        }
    }
}

/// Der erste Scope unter den Werten, falls es einen gibt.
pub open spec fn erster_scope(ws: Seq<WertSicht>) -> Option<Seq<Seq<char>>>
    decreases ws.len(),
{
    if ws.len() == 0 {
        None
    } else {
        match erster_scope(ws.drop_last()) {
            Some(s) => Some(s),
            None => match ws.last() {
                WertSicht::Scope(s) => Some(s),
                _ => None,
            },
        }
    }
}

/// `v` liegt in jedem Scope unter den Werten.
pub open spec fn in_allen_scopes(ws: Seq<WertSicht>, v: Seq<char>) -> bool {
    forall|i: int| 0 <= i < ws.len() ==> (#[trigger] ws[i] matches WertSicht::Scope(s) ==> s.contains(v))
}

/// Die Elemente von `xs`, die `p` erfuellen, in ihrer Reihenfolge.
pub open spec fn behalte(xs: Seq<Seq<char>>, p: spec_fn(Seq<char>) -> bool) -> Seq<Seq<char>>
    decreases xs.len(),
{
    if xs.len() == 0 {
        Seq::empty()
    } else {
        let r = behalte(xs.drop_last(), p);
        if p(xs.last()) {
            r.push(xs.last())
        } else {
            r
        }
    }
}

/// Unter den Werten kommt der Zustand `t` vor.
pub open spec fn hat_tri(ws: Seq<WertSicht>, t: TriState) -> bool {
    exists|i: int| 0 <= i < ws.len() && #[trigger] ws[i] == WertSicht::TriState(t)
}

/// Ergebnis des Zusammenfuehrens von Werten einer Ebene: gibt es Limits, gilt das kleinste;
/// sonst, gibt es Scopes, der erste Scope beschraenkt auf Elemente aller Scopes; sonst
/// Deny vor Grant vor Skip.
pub open spec fn merge_spec(ws: Seq<WertSicht>) -> WertSicht {
    match limit_min(ws) {
        Some(l) => WertSicht::IntLimit(l),
        None => match erster_scope(ws) {
            Some(s) => WertSicht::Scope(behalte(s, |v: Seq<char>| in_allen_scopes(ws, v))),
            None => WertSicht::TriState(
                if hat_tri(ws, TriState::Deny) {
                    TriState::Deny
                } else if hat_tri(ws, TriState::Grant) {
                    TriState::Grant
                } else {
                    TriState::Skip
                },
            ),
        },
    }
}

/// Erfuellen alle Elemente `p`, bleibt die Folge unveraendert.
proof fn lemma_behalte_alle(xs: Seq<Seq<char>>, p: spec_fn(Seq<char>) -> bool)
    requires
        forall|i: int| 0 <= i < xs.len() ==> p(#[trigger] xs[i]),
    ensures
        behalte(xs, p) == xs,
    decreases xs.len(),
{
    if xs.len() > 0 {
        lemma_behalte_alle(xs.drop_last(), p);
        assert(p(xs[xs.len() - 1]));
        assert(xs.drop_last().push(xs.last()) =~= xs);
    }
}

/// Zweimal beschraenken ist einmal mit beiden Bedingungen beschraenken.
proof fn lemma_behalte_zweimal(
    xs: Seq<Seq<char>>,
    p: spec_fn(Seq<char>) -> bool,
    q: spec_fn(Seq<char>) -> bool,
    pq: spec_fn(Seq<char>) -> bool,
)
    requires
        forall|v: Seq<char>| #[trigger] pq(v) == (p(v) && q(v)),
    ensures
        behalte(behalte(xs, p), q) == behalte(xs, pq),
    decreases xs.len(),
{
    if xs.len() > 0 {
        lemma_behalte_zweimal(xs.drop_last(), p, q, pq);
        let r = behalte(xs.drop_last(), p);
        if p(xs.last()) {
            assert(r.push(xs.last()).drop_last() =~= r);
        }
    }
}

/// Gleichwertige Bedingungen behalten dieselben Elemente.
proof fn lemma_behalte_gleich(xs: Seq<Seq<char>>, p: spec_fn(Seq<char>) -> bool, q: spec_fn(
    Seq<char>,
) -> bool)
    requires
        forall|v: Seq<char>| #[trigger] p(v) == q(v),
    ensures
        behalte(xs, p) == behalte(xs, q),
    decreases xs.len(),
{
    if xs.len() > 0 {
        lemma_behalte_gleich(xs.drop_last(), p, q);
    }
}

/// Ohne ersten Scope gibt es keinen Scope.
proof fn lemma_kein_scope(ws: Seq<WertSicht>)
    requires
        erster_scope(ws) is None,
    ensures
        forall|i: int| 0 <= i < ws.len() ==> !(#[trigger] ws[i] is Scope),
    decreases ws.len(),
{
    if ws.len() > 0 {
        lemma_kein_scope(ws.drop_last());
        assert forall|i: int| 0 <= i < ws.len() implies !(#[trigger] ws[i] is Scope) by {
            if i < ws.len() - 1 {
                assert(ws[i] == ws.drop_last()[i]);
            }
        }
    }
}

/// Prueft ob `x` in der Liste `s` vorkommt.
fn enthaelt_string(s: &Vec<String>, x: &str) -> (r: bool)
    ensures
        r == strings_sicht(s@).contains(x@),
{
    let mut i: usize = 0;
    while i < s.len()
        invariant
            i <= s@.len(),
            forall|j: int| 0 <= j < i ==> s@[j]@ != x@,
        decreases s@.len() - i,
    {
        if str_gleich(s[i].as_str(), x) {
            assert(strings_sicht(s@)[i as int] == x@);
            return true;
        }
        i = i + 1;
    }
    assert forall|j: int| 0 <= j < strings_sicht(s@).len() implies #[trigger] strings_sicht(
        s@,
    )[j] != x@ by {}
    false
}

/// Behaelt von `cur` die Elemente, die auch in `s` vorkommen (Schnittmenge, Reihenfolge von `cur`).
fn schnitt_behalten(cur: &Vec<String>, s: &Vec<String>) -> (r: Vec<String>)
    ensures
        strings_sicht(r@) == behalte(
            strings_sicht(cur@),
            |v: Seq<char>| strings_sicht(s@).contains(v),
        ),
{
    let ghost q = |v: Seq<char>| strings_sicht(s@).contains(v);
    let ghost xs = strings_sicht(cur@);
    let mut r: Vec<String> = Vec::new();
    let mut j: usize = 0;
    assert(xs.take(0) =~= Seq::<Seq<char>>::empty());
    assert(strings_sicht(r@) =~= Seq::<Seq<char>>::empty());
    while j < cur.len()
        invariant
            j <= cur@.len(),
            xs == strings_sicht(cur@),
            q == (|v: Seq<char>| strings_sicht(s@).contains(v)),
            strings_sicht(r@) == behalte(xs.take(j as int), q),
        decreases cur@.len() - j,
    {
        assert(xs.take(j + 1).drop_last() =~= xs.take(j as int));
        assert(xs.take(j + 1).last() == cur@[j as int]@);
        if enthaelt_string(s, cur[j].as_str()) {
            let ghost alt = r@;
            r.push(cur[j].clone());
            assert(strings_sicht(r@) =~= strings_sicht(alt).push(cur@[j as int]@));
        }
        j = j + 1;
    }
    assert(xs.take(j as int) =~= xs);
    r
}

/// Die Sicht einer Liste von Werten.
pub open spec fn werte_sicht(ws: Seq<BerechtigungsWert>) -> Seq<WertSicht> {
    ws.map_values(|w: BerechtigungsWert| w@)
}

/// Fuehrt mehrere Berechtigungswerte einer Ebene zusammen.
///
/// Merge-Regel: Deny vor Grant vor Skip; bei Limits gewinnt das kleinste, bei Scopes die
/// Schnittmenge (in der Reihenfolge des ersten Scopes). Limits gehen Scopes vor, Scopes den
/// dreiwertigen Zustaenden; keine Werte ergeben Skip.
pub fn merge_werte(werte: &[BerechtigungsWert]) -> (r: BerechtigungsWert)
    ensures
        r@ == merge_spec(werte_sicht(werte@)),
{
    let ghost ws = werte_sicht(werte@);
    let mut hat_grant = false;
    let mut hat_deny = false;
    let mut min_int_limit: Option<i64> = None;
    let mut scope_schnitt: Option<Vec<String>> = None;
    let mut i: usize = 0;
    while i < werte.len()
        invariant
            i <= werte@.len(),
            ws == werte_sicht(werte@),
            hat_grant == hat_tri(ws.take(i as int), TriState::Grant),
            hat_deny == hat_tri(ws.take(i as int), TriState::Deny),
            min_int_limit == limit_min(ws.take(i as int)),
            match scope_schnitt {
                None => erster_scope(ws.take(i as int)) is None,
                Some(v) => erster_scope(ws.take(i as int)) is Some && strings_sicht(v@) == behalte(
                    erster_scope(ws.take(i as int))->Some_0,
                    |x: Seq<char>| in_allen_scopes(ws.take(i as int), x),
                ),
            },
        decreases werte@.len() - i,
    {
        let ghost vor = ws.take(i as int);
        let ghost nach = ws.take(i + 1);
        assert(nach.drop_last() =~= vor);
        assert(nach.last() == werte@[i as int]@);
        assert forall|t: TriState| hat_tri(nach, t) == (hat_tri(vor, t) || nach.last()
            == WertSicht::TriState(t)) by {
            if hat_tri(nach, t) {
                let k = choose|k: int| 0 <= k < nach.len() && #[trigger] nach[k] == WertSicht::TriState(t);
                if k < i {
                    assert(vor[k] == nach[k]);
                }
            }
            if hat_tri(vor, t) {
                let k = choose|k: int| 0 <= k < vor.len() && #[trigger] vor[k] == WertSicht::TriState(t);
                assert(nach[k] == vor[k]);
            }
        }
        let ghost p_vor = |x: Seq<char>| in_allen_scopes(vor, x);
        let ghost p_nach = |x: Seq<char>| in_allen_scopes(nach, x);
        match &werte[i] {
            BerechtigungsWert::TriState(ts) => {
                match ts {
                    TriState::Deny => {
                        hat_deny = true;
                    },
                    TriState::Grant => {
                        hat_grant = true;
                    },
                    TriState::Skip => {},
                }
                proof {
                    assert forall|x: Seq<char>| #[trigger] p_vor(x) == p_nach(x) by {
                        assert forall|k: int| 0 <= k < vor.len() implies #[trigger] vor[k] == nach[k] by {}
                    }
                    if erster_scope(vor) is Some {
                        lemma_behalte_gleich(erster_scope(vor)->Some_0, p_vor, p_nach);
                    }
                }
            },
            BerechtigungsWert::IntLimit(limit) => {
                min_int_limit = Some(
                    match min_int_limit {
                        None => *limit,
                        Some(current) => if *limit < current {
                            *limit
                        } else {
                            current
                        },
                    },
                );
                proof {
                    assert forall|x: Seq<char>| #[trigger] p_vor(x) == p_nach(x) by {
                        assert forall|k: int| 0 <= k < vor.len() implies #[trigger] vor[k] == nach[k] by {}
                    }
                    if erster_scope(vor) is Some {
                        lemma_behalte_gleich(erster_scope(vor)->Some_0, p_vor, p_nach);
                    }
                }
            },
            BerechtigungsWert::Scope(s) => {
                let ghost q = |v: Seq<char>| strings_sicht(s@).contains(v);
                proof {
                    assert forall|x: Seq<char>| #[trigger] p_nach(x) == (p_vor(x) && q(x)) by {
                        assert forall|k: int| 0 <= k < vor.len() implies #[trigger] vor[k] == nach[k] by {}
                        if p_vor(x) && q(x) {
                            assert forall|k: int| 0 <= k < nach.len() implies (#[trigger] nach[k] matches WertSicht::Scope(t) ==> t.contains(x)) by {
                                if k < vor.len() {
                                    assert(vor[k] == nach[k]);
                                }
                            }
                        }
                        if p_nach(x) {
                            assert(nach[i as int] matches WertSicht::Scope(t) ==> t.contains(x));
                            assert forall|k: int| 0 <= k < vor.len() implies (#[trigger] vor[k] matches WertSicht::Scope(t) ==> t.contains(x)) by {
                                assert(nach[k] == vor[k]);
                            }
                        }
                    }
                }
                let neu = match &scope_schnitt {
                    None => {
                        let kopie = strings_kopieren(s);
                        proof {
                            lemma_kein_scope(vor);
                            assert forall|k: int| 0 <= k < strings_sicht(s@).len() implies p_nach(
                                #[trigger] strings_sicht(s@)[k],
                            ) by {
                                assert(q(strings_sicht(s@)[k]));
                                assert forall|m: int| 0 <= m < vor.len() implies (#[trigger] vor[m] matches WertSicht::Scope(t) ==> t.contains(strings_sicht(s@)[k])) by {}
                            }
                            lemma_behalte_alle(strings_sicht(s@), p_nach);
                        }
                        kopie
                    },
                    Some(current) => {
                        let r = schnitt_behalten(current, s);
                        proof {
                            lemma_behalte_zweimal(erster_scope(vor)->Some_0, p_vor, q, p_nach);
                        }
                        r
                    },
                };
                scope_schnitt = Some(neu);
            },
        }
        i = i + 1;
    }
    assert(ws.take(i as int) =~= ws);
    if let Some(limit) = min_int_limit {
        return BerechtigungsWert::IntLimit(limit);
    }
    if let Some(scope) = scope_schnitt {
        return BerechtigungsWert::Scope(scope);
    }
    if hat_deny {
        BerechtigungsWert::TriState(TriState::Deny)
    } else if hat_grant {
        BerechtigungsWert::TriState(TriState::Grant)
    } else {
        BerechtigungsWert::TriState(TriState::Skip)
    }
}

/// Das kleinste Limit ist ein vorkommendes Limit und hoechstens so gross wie jedes andere.
proof fn lemma_limit_min(ws: Seq<WertSicht>)
    ensures
        limit_min(ws) is None <==> forall|i: int| 0 <= i < ws.len() ==> !(#[trigger] ws[i] is IntLimit),
        limit_min(ws) matches Some(m) ==> ws.contains(WertSicht::IntLimit(m)) && forall|i: int|
            0 <= i < ws.len() ==> (#[trigger] ws[i] matches WertSicht::IntLimit(l) ==> m <= l),
    decreases ws.len(),
{
    if ws.len() > 0 {
        let vor = ws.drop_last();
        lemma_limit_min(vor);
        assert forall|i: int| 0 <= i < vor.len() implies #[trigger] vor[i] == ws[i] by {}
        if let Some(m) = limit_min(ws) {
            assert forall|i: int| 0 <= i < ws.len() implies (#[trigger] ws[i] matches WertSicht::IntLimit(l) ==> m <= l) by {
                if i < vor.len() {
                    assert(vor[i] == ws[i]);
                }
            }
            if let Some(mv) = limit_min(vor) {
                if m == mv {
                    let k = choose|k: int| 0 <= k < vor.len() && vor[k] == WertSicht::IntLimit(mv);
                    assert(ws[k] == WertSicht::IntLimit(m));
                } else {
                    assert(ws[ws.len() - 1] == WertSicht::IntLimit(m));
                }
            } else {
                assert(ws[ws.len() - 1] == WertSicht::IntLimit(m));
            }
        } else {
            assert forall|i: int| 0 <= i < ws.len() implies !(#[trigger] ws[i] is IntLimit) by {
                if i < vor.len() {
                    assert(vor[i] == ws[i]);
                }
            }
        }
    }
}

/// Ohne Scope unter den Werten gibt es keinen ersten Scope.
proof fn lemma_ohne_scope(ws: Seq<WertSicht>)
    requires
        forall|i: int| 0 <= i < ws.len() ==> !(#[trigger] ws[i] is Scope),
    ensures
        erster_scope(ws) is None,
    decreases ws.len(),
{
    if ws.len() > 0 {
        assert forall|i: int| 0 <= i < ws.drop_last().len() implies !(#[trigger] ws.drop_last()[i] is Scope) by {
            assert(ws.drop_last()[i] == ws[i]);
        }
        lemma_ohne_scope(ws.drop_last());
        assert(!(ws[ws.len() - 1] is Scope));
    }
}

/// Gesetz: ohne Scopes haengt das Zusammenfuehren nicht von der Reihenfolge der Werte ab.
pub proof fn gesetz_merge_reihenfolge_egal(ws1: Seq<WertSicht>, ws2: Seq<WertSicht>)
    requires
        ws1.to_multiset() == ws2.to_multiset(),
        forall|i: int| 0 <= i < ws1.len() ==> !(#[trigger] ws1[i] is Scope),
    ensures
        merge_spec(ws1) == merge_spec(ws2),
{
    broadcast use vstd::seq_lib::group_to_multiset_ensures;

    assert forall|x: WertSicht| ws1.contains(x) == ws2.contains(x) by {
        assert(ws1.contains(x) <==> ws1.to_multiset().count(x) > 0);
        assert(ws2.contains(x) <==> ws2.to_multiset().count(x) > 0);
    }
    assert forall|i: int| 0 <= i < ws2.len() implies !(#[trigger] ws2[i] is Scope) by {
        assert(ws2.contains(ws2[i]));
        assert(ws1.contains(ws2[i]));
    }
    lemma_ohne_scope(ws1);
    lemma_ohne_scope(ws2);
    lemma_limit_min(ws1);
    lemma_limit_min(ws2);
    assert forall|t: TriState| hat_tri(ws1, t) == hat_tri(ws2, t) by {
        if hat_tri(ws1, t) {
            let k = choose|k: int| 0 <= k < ws1.len() && #[trigger] ws1[k] == WertSicht::TriState(t);
            assert(ws1.contains(ws1[k]));
        }
        if hat_tri(ws2, t) {
            let k = choose|k: int| 0 <= k < ws2.len() && #[trigger] ws2[k] == WertSicht::TriState(t);
            assert(ws2.contains(ws2[k]));
        }
        if ws1.contains(WertSicht::TriState(t)) {
            let k = choose|k: int| 0 <= k < ws1.len() && ws1[k] == WertSicht::TriState(t);
            assert(ws1[k] == WertSicht::TriState(t));
        }
        if ws2.contains(WertSicht::TriState(t)) {
            let k = choose|k: int| 0 <= k < ws2.len() && ws2[k] == WertSicht::TriState(t);
            assert(ws2[k] == WertSicht::TriState(t));
        }
    }
    if limit_min(ws1) is None {
        assert forall|i: int| 0 <= i < ws2.len() implies !(#[trigger] ws2[i] is IntLimit) by {
            assert(ws2.contains(ws2[i]));
            let k = choose|k: int| 0 <= k < ws1.len() && ws1[k] == ws2[i];
            assert(!(ws1[k] is IntLimit));
        }
    } else {
        let m1 = limit_min(ws1)->Some_0;
        let k1 = choose|k: int| 0 <= k < ws1.len() && ws1[k] == WertSicht::IntLimit(m1);
        assert(ws2.contains(WertSicht::IntLimit(m1)));
        let j1 = choose|k: int| 0 <= k < ws2.len() && ws2[k] == WertSicht::IntLimit(m1);
        assert(ws2[j1] is IntLimit);
        let m2 = limit_min(ws2)->Some_0;
        let j2 = choose|k: int| 0 <= k < ws2.len() && ws2[k] == WertSicht::IntLimit(m2);
        assert(ws1.contains(WertSicht::IntLimit(m2)));
        let k2 = choose|k: int| 0 <= k < ws1.len() && ws1[k] == WertSicht::IntLimit(m2);
        assert(ws1[k2] matches WertSicht::IntLimit(l) ==> m1 <= l);
        assert(ws2[j1] matches WertSicht::IntLimit(l) ==> m2 <= l);
    }
}

/// Gesetz: ohne Limits und Scopes gewinnt Deny vor Grant vor Skip.
pub proof fn gesetz_deny_vor_grant_vor_skip(ws: Seq<WertSicht>)
    requires
        forall|i: int| 0 <= i < ws.len() ==> (#[trigger] ws[i] is TriState),
    ensures
        merge_spec(ws) == WertSicht::TriState(
            if ws.contains(WertSicht::TriState(TriState::Deny)) {
                TriState::Deny
            } else if ws.contains(WertSicht::TriState(TriState::Grant)) {
                TriState::Grant
            } else {
                TriState::Skip
            },
        ),
{
    lemma_limit_min(ws);
    lemma_ohne_scope(ws);
    assert forall|t: TriState| hat_tri(ws, t) == ws.contains(WertSicht::TriState(t)) by {
        if ws.contains(WertSicht::TriState(t)) {
            let k = choose|k: int| 0 <= k < ws.len() && ws[k] == WertSicht::TriState(t);
            assert(ws[k] == WertSicht::TriState(t));
        }
    }
}

} // verus!
