//! Einrichtung der wasmtime-Laufzeit: Engine, Module, WASI-Kontext und Grenzen.

use crate::plugin::error::{anyhow_text, PluginError, PluginResult};
use crate::plugin::host::sandbox::SandboxKonfiguration;
use vstd::prelude::*;

verus! {

/// Eine wasmtime-Engine (`wasmtime::Engine`).
#[verifier::external_type_specification]
#[verifier::external_body]
pub struct FremdEngine(wasmtime::Engine);

/// Ein kompiliertes WASM-Modul (`wasmtime::Module`).
#[verifier::external_type_specification]
#[verifier::external_body]
pub struct FremdModul(wasmtime::Module);

/// Ein WASI-Kontext (`wasmtime_wasi::WasiCtx`).
#[verifier::external_type_specification]
#[verifier::external_body]
pub struct FremdWasiKontext(wasmtime_wasi::WasiCtx);

/// Ein Baukasten fuer WASI-Kontexte (`wasmtime_wasi::WasiCtxBuilder`).
#[verifier::external_type_specification]
#[verifier::external_body]
pub struct FremdWasiBaukasten(wasmtime_wasi::WasiCtxBuilder);

/// Die Einstellungen, mit denen eine Engine konfiguriert wird.
#[derive(Debug, Clone, Copy, PartialEq, Eq, Structural)]
pub struct EngineEinstellungen {
    /// Asynchrone Ausfuehrung (`Config::async_support`).
    pub asynchron: bool,
    /// Treibstoff-Zaehlung als CPU-Grenze (`Config::consume_fuel`).
    pub treibstoff: bool,
}

/// Die wiederverwendbare wasmtime-Engine, mit den Einstellungen, aus denen sie gebaut wurde.
pub struct PluginEngine {
    engine: wasmtime::Engine,
    einstellungen: EngineEinstellungen,
}

/// `wasmtime::Config::new`, `Config::async_support`, `Config::consume_fuel` und
/// `wasmtime::Engine::new`: konfiguriert eine Engine mit den Einstellungen `e` und baut sie.
/// Behauptet wird nur, dass eine gebaute Engine die uebergebenen Einstellungen traegt; ob der
/// Bau gelingt, haengt an der Plattform und wird nicht behauptet.
#[verifier::external_body]
fn engine_erstellen(e: EngineEinstellungen) -> (r: Result<PluginEngine, anyhow::Error>)
    ensures
        r matches Ok(p) ==> p.einstellungen == e,
{
    let mut config = wasmtime::Config::new();
    config.async_support(e.asynchron);
    config.consume_fuel(e.treibstoff);
    match wasmtime::Engine::new(&config) {
        Ok(engine) => Ok(PluginEngine { engine, einstellungen: e }),
        Err(f) => Err(f),
    }
}

/// `wasmtime::Module::new`: kompiliert WASM-Bytecode oder meldet, warum das nicht geht; das
/// Urteil ueber die Bytes wird nicht behauptet.
#[verifier::external_body]
fn modul_neu(engine: &wasmtime::Engine, bytes: &[u8]) -> Result<wasmtime::Module, anyhow::Error> {
    wasmtime::Module::new(engine, bytes)
}

/// Ein WASI-Baukasten, mit dem Vermerk, ob der Kontext die Standardstroeme erben wird.
struct WasiBaukasten {
    baukasten: wasmtime_wasi::WasiCtxBuilder,
    stdio: bool,
}

/// Ein WASI-Kontext, mit dem Vermerk, ob er die Standardstroeme des Servers erbt.
pub struct WasiKontext {
    kontext: wasmtime_wasi::WasiCtx,
    stdio_geerbt: bool,
}

/// `wasmtime_wasi::WasiCtxBuilder::new`: ein Baukasten ohne vererbte Standardstroeme (die
/// Eingabe ist leer, Ausgaben werden verworfen).
#[verifier::external_body]
fn wasi_baukasten_neu() -> (r: WasiBaukasten)
    ensures
        !r.stdio,
{
    WasiBaukasten { baukasten: wasmtime_wasi::WasiCtxBuilder::new(), stdio: false }
}

/// `wasmtime_wasi::WasiCtxBuilder::inherit_stdio`: der Kontext wird die Standardstroeme erben.
#[verifier::external_body]
fn wasi_stdio_erben(b: &mut WasiBaukasten)
    ensures
        final(b).stdio,
{
    b.baukasten.inherit_stdio();
    b.stdio = true;
}

/// `wasmtime_wasi::WasiCtxBuilder::build`: baut den Kontext so, wie der Baukasten eingerichtet
/// ist; der Baukasten wird dabei verbraucht, daher geschieht das hoechstens einmal.
#[verifier::external_body]
fn wasi_bauen(b: WasiBaukasten) -> (r: WasiKontext)
    ensures
        r.stdio_geerbt == b.stdio,
{
    let mut baukasten = b.baukasten;
    WasiKontext { kontext: baukasten.build(), stdio_geerbt: b.stdio }
}

impl WasiKontext {
    /// Ob der Kontext die Standardstroeme des Servers erbt.
    pub closed spec fn erbt_stdio(&self) -> bool {
        self.stdio_geerbt
    }

    /// Ob der Kontext die Standardstroeme des Servers erbt.
    pub fn stdio_geerbt(&self) -> (r: bool)
        ensures
            r == self.erbt_stdio(),
    {
        self.stdio_geerbt
    }

    /// Der WASI-Kontext selbst, etwa fuer einen Store.
    pub fn in_kontext(self) -> wasmtime_wasi::WasiCtx {
        self.kontext
    }
}

/// Die Meldung `m` beginnt mit `anfang`.
pub open spec fn beginnt_mit(m: Seq<char>, anfang: Seq<char>) -> bool {
    m.len() >= anfang.len() && m.take(anfang.len() as int) == anfang
}

impl PluginEngine {
    /// Die gehaltene Engine.
    pub closed spec fn innere_engine(&self) -> wasmtime::Engine {
        self.engine
    }

    /// Die Einstellungen, aus denen die Engine gebaut wurde.
    pub closed spec fn einst(&self) -> EngineEinstellungen {
        self.einstellungen
    }

    /// Erstellt eine Engine mit asynchroner Ausfuehrung und Treibstoff-Zaehlung (der CPU-Grenze
    /// der Sandbox); ein Fehler der Engine wird als `Intern` gemeldet, die Meldung beginnt mit
    /// `Engine-Erstellung fehlgeschlagen: `.
    pub fn neu() -> (r: PluginResult<Self>)
        ensures
            r matches Ok(p) ==> p.einst() == (EngineEinstellungen { asynchron: true, treibstoff: true }),
            r matches Err(e) ==> (e matches PluginError::Intern(m) && beginnt_mit(
                m@,
                "Engine-Erstellung fehlgeschlagen: "@,
            )),
    {
        match engine_erstellen(EngineEinstellungen { asynchron: true, treibstoff: true }) {
            Ok(p) => Ok(p),
            Err(e) => {
                let mut m = String::from_str("Engine-Erstellung fehlgeschlagen: ");
                let ghost anfang = m@;
                let t = anyhow_text(&e);
                m.append(t.as_str());
                assert(m@.take(anfang.len() as int) =~= anfang);
                Err(PluginError::Intern(m))
            },
        }
    }

    /// Die Einstellungen, aus denen die Engine gebaut wurde.
    pub fn einstellungen(&self) -> (r: EngineEinstellungen)
        ensures
            r == self.einst(),
    {
        self.einstellungen
    }

    /// Die interne Engine.
    pub fn engine(&self) -> (r: &wasmtime::Engine)
        ensures
            *r == self.innere_engine(),
    {
        &self.engine
    }

    /// Kompiliert WASM-Bytecode zu einem Modul; ein Fehler wird als `WasmKompilierung` gemeldet.
    pub fn kompilieren(&self, wasm_bytes: &[u8]) -> (r: PluginResult<wasmtime::Module>)
        ensures
            r matches Err(e) ==> e is WasmKompilierung,
    {
        match modul_neu(&self.engine, wasm_bytes) {
            Ok(m) => Ok(m),
            Err(e) => Err(PluginError::WasmKompilierung(anyhow_text(&e))),
        }
    }
}

/// Erstellt einen WASI-Kontext nach der Sandbox-Konfiguration: die Standardstroeme werden nur
/// vererbt, wenn `stdio` erlaubt ist; Verzeichnisse werden nie freigegeben.
pub fn wasi_kontext_erstellen(sandbox: &SandboxKonfiguration) -> (r: Result<
    WasiKontext,
    anyhow::Error,
>)
    ensures
        r matches Ok(k) && k.erbt_stdio() == sandbox.stdio,
{
    let mut b = wasi_baukasten_neu();
    if sandbox.stdio {
        wasi_stdio_erben(&mut b);
    }
    Ok(wasi_bauen(b))
}

/// Der Treibstoff fuer einen Aufruf: `0` (unbegrenzt) wird zu `u64::MAX / 2`.
pub fn treibstoff_fuer(sandbox: &SandboxKonfiguration) -> (r: u64)
    ensures
        r == (if sandbox.max_instruktionen == 0 {
            u64::MAX / 2
        } else {
            sandbox.max_instruktionen
        }),
{
    if sandbox.max_instruktionen == 0 {
        u64::MAX / 2
    } else {
        sandbox.max_instruktionen
    }
}

/// Speichergrenze fuer WASM-Instanzen.
pub struct SpeicherLimiter {
    pub max_bytes: u64,
}

impl SpeicherLimiter {
    /// Die Grenze aus der Sandbox-Konfiguration.
    pub fn aus_sandbox(sandbox: &SandboxKonfiguration) -> (r: Self)
        ensures
            r.max_bytes == sandbox.max_speicher_bytes,
    {
        SpeicherLimiter { max_bytes: sandbox.max_speicher_bytes }
    }

    /// Ob ein linearer Speicher auf `desired` Bytes wachsen darf: genau dann, wenn das die
    /// Grenze nicht uebersteigt.
    pub fn memory_growing(&mut self, current: usize, desired: usize, maximum: Option<usize>) -> (r:
        Result<bool, anyhow::Error>)
        ensures
            r matches Ok(b) && b == (desired <= old(self).max_bytes),
            final(self).max_bytes == old(self).max_bytes,
    {
        if desired as u64 > self.max_bytes {
            return Ok(false);
        }
        Ok(true)
    }

    /// Tabellen duerfen immer wachsen.
    pub fn table_growing(&mut self, current: u32, desired: u32, maximum: Option<u32>) -> (r:
        Result<bool, anyhow::Error>)
        ensures
            r matches Ok(b) && b,
            final(self).max_bytes == old(self).max_bytes,
    {
        Ok(true)
    }
}

} // verus!
