//! Plugin-Manifest: Metadaten, benoetigte Capabilities, abonnierte Ereignisse und Hooks.
//!
//! Das Einlesen der TOML-Datei geschieht ausserhalb der Bibliothek; hier werden die Werte
//! gehalten und geprueft.

use crate::plugin::error::PluginError;
use vstd::prelude::*;
use vstd::string::StrSliceExecFns;

verus! {

/// Vollstaendiges Plugin-Manifest.
#[derive(Debug, Clone)]
pub struct PluginManifest {
    pub plugin: PluginMeta,
    pub capabilities: Capabilities,
    pub events: EventConfig,
    pub hooks: HookConfig,
}

/// Plugin-Metadaten.
#[derive(Debug, Clone)]
pub struct PluginMeta {
    pub name: String,
    pub version: String,
    pub author: String,
    pub description: String,
    pub min_server_version: String,
    pub wasm_file: String,
}

/// Welche Zugriffe das Plugin benoetigt.
#[derive(Debug, Clone, Copy, Default, PartialEq, Eq, Structural)]
pub struct Capabilities {
    /// WASI-Dateisystemzugriff.
    pub filesystem: bool,
    /// Netzwerkzugriff ueber die Host-API.
    pub network: bool,
    /// Audio-Stream lesen.
    pub audio_read: bool,
    /// Audio-Stream veraendern.
    pub audio_write: bool,
    /// Chat-Nachrichten lesen.
    pub chat_read: bool,
    /// Chat-Nachrichten senden.
    pub chat_write: bool,
    /// Benutzer kicken, bannen, verschieben.
    pub user_management: bool,
    /// Server-Konfiguration aendern.
    pub server_config: bool,
}

/// Ereignisse, die das Plugin abonniert.
#[derive(Debug, Clone, Default)]
pub struct EventConfig {
    pub subscribe: Vec<String>,
}

/// Hook-Konfiguration.
#[derive(Debug, Clone, Copy, Default, PartialEq, Eq, Structural)]
pub struct HookConfig {
    pub before_chat_send: bool,
    pub after_user_join: bool,
    pub before_user_kick: bool,
    pub before_channel_join: bool,
}

/// Zerlegung einer Zeichenfolge an jedem Punkt (wie `str::split('.')`).
pub open spec fn punkt_teile(s: Seq<char>) -> Seq<Seq<char>>
    decreases s.len(),
{
    if s.len() == 0 {
        seq![Seq::<char>::empty()]
    } else {
        let r = punkt_teile(s.drop_last());
        if s.last() == '.' {
            r.push(Seq::empty())
        } else {
            r.update(r.len() - 1, r.last().push(s.last()))
        }
    }
}

/// Ein Zeichen ist eine ASCII-Ziffer.
pub open spec fn ist_ziffer(c: char) -> bool {
    '0' <= c && c <= '9'
}

/// Der Wert einer Folge von Dezimalziffern.
pub open spec fn ziffern_wert(d: Seq<char>) -> nat
    decreases d.len(),
{
    if d.len() == 0 {
        0
    } else {
        ziffern_wert(d.drop_last()) * 10 + ((d.last() as int) - ('0' as int)) as nat
    }
}

/// Die Ziffern eines Textes nach einem optionalen fuehrenden `+`.
pub open spec fn ohne_plus(t: Seq<char>) -> Seq<char> {
    if t.len() > 0 && t[0] == '+' {
        t.drop_first()
    } else {
        t
    }
}

/// Der Text ist als `u32` lesbar (wie `str::parse::<u32>`): optionales `+`, dann mindestens
/// eine Dezimalziffer, Wert hoechstens `u32::MAX`.
pub open spec fn ist_u32_text(t: Seq<char>) -> bool {
    let d = ohne_plus(t);
    &&& d.len() > 0
    &&& forall|i: int| 0 <= i < d.len() ==> ist_ziffer(#[trigger] d[i])
    &&& ziffern_wert(d) <= u32::MAX
}

/// Die Version hat die Form `x.y.z` mit drei als `u32` lesbaren Teilen.
pub open spec fn ist_semver_spec(v: Seq<char>) -> bool {
    let t = punkt_teile(v);
    t.len() == 3 && ist_u32_text(t[0]) && ist_u32_text(t[1]) && ist_u32_text(t[2])
}

/// Die Zeichenfolgen einer Liste von Zeichenlisten.
pub open spec fn char_listen_sicht(v: Seq<Vec<char>>) -> Seq<Seq<char>> {
    v.map_values(|x: Vec<char>| x@)
}

/// Zerlegt eine Zeichenkette an jedem Punkt.
fn an_punkten_teilen(v: &str) -> (r: Vec<Vec<char>>)
    ensures
        char_listen_sicht(r@) == punkt_teile(v@),
{
    let n = v.unicode_len();
    let mut fertig: Vec<Vec<char>> = Vec::new();
    let mut aktuell: Vec<char> = Vec::new();
    let mut i: usize = 0;
    assert(v@.take(0) =~= Seq::<char>::empty());
    assert(char_listen_sicht(fertig@).push(aktuell@) =~= punkt_teile(v@.take(0)));
    while i < n
        invariant
            n == v@.len(),
            i <= n,
            char_listen_sicht(fertig@).push(aktuell@) == punkt_teile(v@.take(i as int)),
        decreases n - i,
    {
        let c = v.get_char(i);
        let ghost vor = v@.take(i as int);
        let ghost nach = v@.take(i + 1);
        assert(nach.drop_last() =~= vor);
        assert(nach.last() == c);
        let ghost r = punkt_teile(vor);
        if c == '.' {
            let alt = aktuell;
            aktuell = Vec::new();
            let ghost f = fertig@;
            fertig.push(alt);
            assert(char_listen_sicht(fertig@) =~= char_listen_sicht(f).push(alt@));
            assert(char_listen_sicht(fertig@).push(aktuell@) =~= r.push(Seq::empty()));
        } else {
            let ghost a = aktuell@;
            aktuell.push(c);
            assert(char_listen_sicht(fertig@).push(aktuell@) =~= r.update(
                r.len() - 1,
                r.last().push(c),
            ));
        }
        i = i + 1;
    }
    assert(v@.take(n as int) =~= v@);
    let ghost f = fertig@;
    fertig.push(aktuell);
    assert(char_listen_sicht(fertig@) =~= char_listen_sicht(f).push(fertig@.last()@));
    fertig
}

/// Prueft ob ein Text als `u32` lesbar ist.
fn ist_u32(t: &Vec<char>) -> (r: bool)
    ensures
        r == ist_u32_text(t@),
{
    let n = t.len();
    let start: usize = if n > 0 && t[0] == '+' {
        1
    } else {
        0
    };
    let ghost d = ohne_plus(t@);
    assert(d =~= t@.skip(start as int));
    if start == n {
        return false;
    }
    let mut wert: u64 = 0;
    let mut j: usize = start;
    assert(d.take(0) =~= Seq::<char>::empty());
    while j < n
        invariant
            n == t@.len(),
            start <= j <= n,
            d == t@.skip(start as int),
            d == ohne_plus(t@),
            forall|k: int| 0 <= k < j - start ==> ist_ziffer(#[trigger] d[k]),
            wert == (if ziffern_wert(d.take(j - start)) > u32::MAX {
                u32::MAX as nat + 1
            } else {
                ziffern_wert(d.take(j - start))
            }),
        decreases n - j,
    {
        let c = t[j];
        assert(c == d[j - start]);
        if !('0' <= c && c <= '9') {
            assert(!ist_ziffer(d[j - start]));
            return false;
        }
        let ghost vor = d.take(j - start);
        let ghost nach = d.take(j - start + 1);
        assert(nach.drop_last() =~= vor);
        assert(nach.last() == c);
        let ziffer: u64 = ((c as u32) - ('0' as u32)) as u64;
        if wert > 0xffff_ffff {
            assert(ziffern_wert(nach) > u32::MAX) by (nonlinear_arith)
                requires
                    ziffern_wert(vor) > u32::MAX,
                    ziffern_wert(nach) == ziffern_wert(vor) * 10 + ziffer,
            ;
        } else {
            wert = wert * 10 + ziffer;
            if wert > 0xffff_ffff {
                wert = 0x1_0000_0000;
            }
        }
        j = j + 1;
    }
    assert(d.take(n - start) =~= d);
    wert <= 0xffff_ffff
}

/// Prueft ob ein String das Format `x.y.z` hat (drei als `u32` lesbare Teile).
pub fn ist_semver(v: &str) -> (r: bool)
    ensures
        r == ist_semver_spec(v@),
{
    let teile = an_punkten_teilen(v);
    if teile.len() != 3 {
        return false;
    }
    assert(char_listen_sicht(teile@)[0] == teile@[0]@);
    assert(char_listen_sicht(teile@)[1] == teile@[1]@);
    assert(char_listen_sicht(teile@)[2] == teile@[2]@);
    ist_u32(&teile[0]) && ist_u32(&teile[1]) && ist_u32(&teile[2])
}

/// Die Pflichtfelder sind gesetzt und die Version hat die Form `x.y.z`.
pub open spec fn manifest_gueltig(m: PluginManifest) -> bool {
    &&& m.plugin.name@.len() > 0
    &&& m.plugin.version@.len() > 0
    &&& m.plugin.wasm_file@.len() > 0
    &&& ist_semver_spec(m.plugin.version@)
}

/// Der Fehler, den die Validierung fuer ein ungueltiges Manifest meldet: das erste fehlende
/// Pflichtfeld (Name, Version, WASM-Datei), sonst die ungueltige Version.
pub open spec fn manifest_fehler_passt(m: PluginManifest, e: PluginError) -> bool {
    if m.plugin.name@.len() == 0 {
        e matches PluginError::Manifest(x) && x@ == "Pflichtfeld fehlt: plugin.name"@
    } else if m.plugin.version@.len() == 0 {
        e matches PluginError::Manifest(x) && x@ == "Pflichtfeld fehlt: plugin.version"@
    } else if m.plugin.wasm_file@.len() == 0 {
        e matches PluginError::Manifest(x) && x@ == "Pflichtfeld fehlt: plugin.wasm_file"@
    } else {
        e matches PluginError::UngueltigeVersion(v) && v@ == m.plugin.version@
    }
}

impl PluginManifest {
    /// Validiert Pflichtfelder (Name, Version, WASM-Datei, in dieser Reihenfolge) und das
    /// Versionsformat `x.y.z`.
    pub fn validieren(&self) -> (r: Result<(), PluginError>)
        ensures
            r is Ok <==> manifest_gueltig(*self),
            r matches Err(e) ==> manifest_fehler_passt(*self, e),
    {
        if self.plugin.name.as_str().unicode_len() == 0 {
            return Err(PluginError::Manifest(String::from_str("Pflichtfeld fehlt: plugin.name")));
        }
        if self.plugin.version.as_str().unicode_len() == 0 {
            return Err(
                PluginError::Manifest(String::from_str("Pflichtfeld fehlt: plugin.version")),
            );
        }
        if self.plugin.wasm_file.as_str().unicode_len() == 0 {
            return Err(
                PluginError::Manifest(String::from_str("Pflichtfeld fehlt: plugin.wasm_file")),
            );
        }
        if !ist_semver(self.plugin.version.as_str()) {
            return Err(PluginError::UngueltigeVersion(self.plugin.version.clone()));
        }
        Ok(())
    }
}

} // verus!
