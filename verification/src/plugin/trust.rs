//! Signierung und Verifikation von WASM-Plugins mit Ed25519.
//!
//! Vertrauensstufen:
//! - `NichtSigniert`: Warnung beim Laden
//! - `Signiert`: in Ordnung, manuelle Bestaetigung
//! - `Vertrauenswuerdig`: automatisches Laden erlaubt
//!
//! Schluessel werden in ihrer kanonischen 32-Byte-Form gehalten: der geheime Schluessel als
//! Ed25519-`SecretKey`, der oeffentliche als komprimierter Kurvenpunkt.

use crate::plugin::error::{PluginError, PluginResult};
use crate::plugin::types::TrustLevel;
use ed25519_dalek::{Signer, Verifier};
use rand_core::RngCore;
use sha2::Digest;
use vstd::prelude::*;

verus! {

/// SHA-256 der Eingabe.
pub uninterp spec fn sha256(daten: Seq<u8>) -> Seq<u8>;

/// Die Ed25519-Signatur (64 Bytes) einer Nachricht mit einem geheimen Schluessel.
pub uninterp spec fn ed25519_signatur(geheim: Seq<u8>, nachricht: Seq<u8>) -> Seq<u8>;

/// Der oeffentliche Schluessel (32 Bytes) zu einem geheimen Schluessel.
pub uninterp spec fn ed25519_oeffentlich(geheim: Seq<u8>) -> Seq<u8>;

/// Ob eine 64-Byte-Signatur zu Nachricht und oeffentlichem Schluessel passt; Bytes, die keinen
/// gueltigen Kurvenpunkt beschreiben, bestaetigen nichts.
pub uninterp spec fn ed25519_gueltig(oeffentlich: Seq<u8>, nachricht: Seq<u8>, signatur: Seq<u8>) -> bool;

/// `sha2::Sha256::digest`: der SHA-256-Hash der Daten, 32 Bytes lang.
#[verifier::external_body]
fn sha256_berechnen(daten: &[u8]) -> (r: Vec<u8>)
    ensures
        r@ == sha256(daten@),
        r@.len() == 32,
{
    sha2::Sha256::digest(daten).to_vec()
}

/// `ed25519_dalek::SigningKey::sign` (ueber `SigningKey::from_bytes` und `Signature::to_bytes`):
/// die Signatur der Nachricht. Wie die Dokumentation des Crates zeigt, bestaetigt der zugehoerige
/// oeffentliche Schluessel sie.
#[verifier::external_body]
fn ed25519_signieren(geheim: &[u8; 32], nachricht: &[u8]) -> (r: [u8; 64])
    ensures
        r@ == ed25519_signatur(geheim@, nachricht@),
        ed25519_gueltig(ed25519_oeffentlich(geheim@), nachricht@, r@),
{
    ed25519_dalek::SigningKey::from_bytes(geheim).sign(nachricht).to_bytes()
}

/// `ed25519_dalek::SigningKey::verifying_key` (ueber `SigningKey::from_bytes` und
/// `VerifyingKey::to_bytes`): der oeffentliche Schluessel.
#[verifier::external_body]
fn ed25519_oeffentlich_berechnen(geheim: &[u8; 32]) -> (r: [u8; 32])
    ensures
        r@ == ed25519_oeffentlich(geheim@),
{
    ed25519_dalek::SigningKey::from_bytes(geheim).verifying_key().to_bytes()
}

/// `ed25519_dalek::VerifyingKey::verify` (ueber `VerifyingKey::from_bytes` und
/// `Signature::from_bytes`): ob die Signatur gilt; ein ungueltiger Schluessel bestaetigt nichts.
#[verifier::external_body]
fn ed25519_pruefen(oeffentlich: &[u8; 32], nachricht: &[u8], signatur: &[u8; 64]) -> (r: bool)
    ensures
        r == ed25519_gueltig(oeffentlich@, nachricht@, signatur@),
{
    match ed25519_dalek::VerifyingKey::from_bytes(oeffentlich) {
        Ok(k) => k.verify(nachricht, &ed25519_dalek::Signature::from_bytes(signatur)).is_ok(),
        Err(_) => false,
    }
}

/// `rand_core::OsRng::fill_bytes`: 32 Bytes aus dem Zufallsgenerator des Betriebssystems;
/// ueber die Werte wird nichts behauptet.
#[verifier::external_body]
fn zufalls_bytes() -> [u8; 32] {
    let mut b = [0u8; 32];
    rand_core::OsRng.fill_bytes(&mut b);
    b
}

/// Kopiert einen Byte-Ausschnitt der Laenge 64 in ein Feld.
fn als_signatur_feld(s: &[u8]) -> (r: [u8; 64])
    requires
        s@.len() == 64,
    ensures
        r@ == s@,
{
    let mut r = [0u8; 64];
    let mut i: usize = 0;
    while i < 64
        invariant
            s@.len() == 64,
            i <= 64,
            r@.len() == 64,
            forall|j: int| 0 <= j < i ==> r@[j] == s@[j],
        decreases 64 - i,
    {
        r[i] = s[i];
        i = i + 1;
    }
    assert(r@ =~= s@);
    r
}

/// Berechnet den SHA-256-Hash des WASM-Bytecodes.
pub fn wasm_hash(wasm_bytes: &[u8]) -> (r: Vec<u8>)
    ensures
        r@ == sha256(wasm_bytes@),
        r@.len() == 32,
{
    sha256_berechnen(wasm_bytes)
}

/// Die Signatur eines Plugins: die Ed25519-Signatur seines SHA-256-Hashes.
pub open spec fn plugin_signatur(wasm: Seq<u8>, geheim: Seq<u8>) -> Seq<u8> {
    ed25519_signatur(geheim, sha256(wasm))
}

/// Ob eine Signatur zu Plugin und oeffentlichem Schluessel passt.
pub open spec fn plugin_signatur_gueltig(wasm: Seq<u8>, signatur: Seq<u8>, oeffentlich: Seq<u8>) -> bool {
    ed25519_gueltig(oeffentlich, sha256(wasm), signatur)
}

/// Signiert WASM-Bytecode mit einem geheimen Ed25519-Schluessel.
pub fn plugin_signieren(wasm_bytes: &[u8], signing_key: &[u8; 32]) -> (r: Vec<u8>)
    ensures
        r@ == plugin_signatur(wasm_bytes@, signing_key@),
        r@.len() == 64,
        plugin_signatur_gueltig(wasm_bytes@, r@, ed25519_oeffentlich(signing_key@)),
{
    let hash = wasm_hash(wasm_bytes);
    let sig = ed25519_signieren(signing_key, hash.as_slice());
    let mut v: Vec<u8> = Vec::new();
    let mut i: usize = 0;
    while i < 64
        invariant
            i <= 64,
            sig@.len() == 64,
            v@ =~= sig@.take(i as int),
        decreases 64 - i,
    {
        v.push(sig[i]);
        i = i + 1;
    }
    assert(sig@.take(64) =~= sig@);
    v
}

/// Die Meldung fuer eine Signatur, die nicht 64 Bytes lang ist.
pub open spec fn falsche_laenge_meldung() -> Seq<char> {
    "Signatur hat falsche Laenge"@
}

/// Verifiziert die Signatur eines WASM-Plugins; eine Signatur, die nicht 64 Bytes lang ist,
/// ist ein Fehler `SchluesselUngueltig`.
pub fn plugin_verifizieren(wasm_bytes: &[u8], signatur_bytes: &[u8], verifying_key: &[u8; 32]) -> (r:
    PluginResult<bool>)
    ensures
        signatur_bytes@.len() != 64 ==> (r matches Err(PluginError::SchluesselUngueltig(m))
            && m@ == falsche_laenge_meldung()),
        signatur_bytes@.len() == 64 ==> r == Ok::<bool, PluginError>(
            plugin_signatur_gueltig(wasm_bytes@, signatur_bytes@, verifying_key@),
        ),
{
    let hash = wasm_hash(wasm_bytes);
    if signatur_bytes.len() != 64 {
        return Err(PluginError::SchluesselUngueltig(String::from_str("Signatur hat falsche Laenge")));
    }
    let sig = als_signatur_feld(signatur_bytes);
    Ok(ed25519_pruefen(verifying_key, hash.as_slice(), &sig))
}

/// Ob einer der Schluessel die Signatur bestaetigt.
pub open spec fn von_bekanntem_schluessel(wasm: Seq<u8>, signatur: Seq<u8>, keys: Seq<[u8; 32]>) -> bool {
    signatur.len() == 64 && exists|i: int|
        0 <= i < keys.len() && plugin_signatur_gueltig(wasm, signatur, #[trigger] keys[i]@)
}

/// Die Vertrauensstufe eines Plugins.
pub open spec fn trust_level_spec(wasm: Seq<u8>, signatur: Option<Seq<u8>>, keys: Seq<[u8; 32]>) -> TrustLevel {
    match signatur {
        None => TrustLevel::NichtSigniert,
        Some(s) => if von_bekanntem_schluessel(wasm, s, keys) {
            TrustLevel::Vertrauenswuerdig
        } else {
            TrustLevel::Signiert
        },
    }
}

/// Bestimmt die Vertrauensstufe eines Plugins: ohne Signatur `NichtSigniert`, mit einer von
/// einem vertrauenswuerdigen Schluessel bestaetigten Signatur `Vertrauenswuerdig`, sonst
/// `Signiert`.
pub fn trust_level_bestimmen(wasm_bytes: &[u8], signatur: Option<&[u8]>, vertrauenswuerdige_keys: &[[u8; 32]]) -> (r: TrustLevel)
    ensures
        r == trust_level_spec(
            wasm_bytes@,
            match signatur {
                Some(s) => Some(s@),
                None => None,
            },
            vertrauenswuerdige_keys@,
        ),
{
    let sig_bytes = match signatur {
        Some(s) => s,
        None => {
            return TrustLevel::NichtSigniert;
        },
    };
    let mut i: usize = 0;
    while i < vertrauenswuerdige_keys.len()
        invariant
            i <= vertrauenswuerdige_keys@.len(),
            signatur == Some(sig_bytes),
            forall|j: int|
                0 <= j < i ==> !(sig_bytes@.len() == 64 && plugin_signatur_gueltig(
                    wasm_bytes@,
                    sig_bytes@,
                    #[trigger] vertrauenswuerdige_keys@[j]@,
                )),
        decreases vertrauenswuerdige_keys@.len() - i,
    {
        let ok = match plugin_verifizieren(wasm_bytes, sig_bytes, &vertrauenswuerdige_keys[i]) {
            Ok(b) => b,
            Err(_) => false,
        };
        if ok {
            assert(plugin_signatur_gueltig(
                wasm_bytes@,
                sig_bytes@,
                vertrauenswuerdige_keys@[i as int]@,
            ));
            return TrustLevel::Vertrauenswuerdig;
        }
        i = i + 1;
    }
    TrustLevel::Signiert
}

/// Erzeugt ein neues Ed25519-Schluesselpaar (geheimer, oeffentlicher Schluessel) aus dem
/// Zufallsgenerator des Betriebssystems.
pub fn schluesselpaar_generieren() -> (r: ([u8; 32], [u8; 32]))
    ensures
        r.1@ == ed25519_oeffentlich(r.0@),
{
    let geheim = zufalls_bytes();
    let oeffentlich = ed25519_oeffentlich_berechnen(&geheim);
    (geheim, oeffentlich)
}

} // verus!
