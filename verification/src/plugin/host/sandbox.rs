//! Sandbox-Konfiguration fuer WASM-Plugins.
//!
//! Legt fest welche WASI-Features ein Plugin nutzen darf, abgeleitet aus seinen deklarierten
//! Capabilities.

use crate::plugin::manifest::Capabilities;
use vstd::prelude::*;

verus! {

/// Standard-Speichergrenze eines Plugins: 64 MiB.
pub const STANDARD_SPEICHER_BYTES: u64 = 67108864;

/// Sandbox-Konfiguration, die aus den Capabilities abgeleitet wird.
#[derive(Debug, Clone, Copy, PartialEq, Eq, Structural)]
pub struct SandboxKonfiguration {
    /// Dateisystemzugriff erlaubt.
    pub filesystem: bool,
    /// Netzwerkzugriff erlaubt (ueber die Host-API, nicht direkt).
    pub network: bool,
    /// Maximale Speichernutzung in Bytes.
    pub max_speicher_bytes: u64,
    /// Maximale CPU-Instruktionen pro Aufruf (0 = unbegrenzt).
    pub max_instruktionen: u64,
    /// WASI-Stdio erlaubt (fuer Logging).
    pub stdio: bool,
}

impl SandboxKonfiguration {
    /// Standard-Sandbox mit minimalen Rechten.
    pub fn minimal() -> (r: Self)
        ensures
            !r.filesystem,
            !r.network,
            r.max_speicher_bytes == 64 * 1024 * 1024,
            r.max_instruktionen == 0,
            r.stdio,
    {
        SandboxKonfiguration {
            filesystem: false,
            network: false,
            max_speicher_bytes: STANDARD_SPEICHER_BYTES,
            max_instruktionen: 0,
            stdio: true,
        }
    }

    /// Sandbox-Konfiguration aus den Capabilities eines Plugins.
    pub fn aus_capabilities(caps: &Capabilities) -> (r: Self)
        ensures
            r.filesystem == caps.filesystem,
            r.network == caps.network,
            r.max_speicher_bytes == 64 * 1024 * 1024,
            r.max_instruktionen == 0,
            r.stdio,
    {
        SandboxKonfiguration {
            filesystem: caps.filesystem,
            network: caps.network,
            max_speicher_bytes: STANDARD_SPEICHER_BYTES,
            max_instruktionen: 0,
            stdio: true,
        }
    }

    /// Ob diese Konfiguration fuer den Produktionsbetrieb taugt: Netzwerk laeuft nur ueber die
    /// Host-API, daher gilt das fuer jede Konfiguration.
    pub fn ist_produktionssicher(&self) -> (r: bool)
        ensures
            r,
    {
        true
    }
}

impl Default for SandboxKonfiguration {
    fn default() -> (r: Self)
        ensures
            r == SandboxKonfiguration::minimal_spec(),
    {
        Self::minimal()
    }
}

impl SandboxKonfiguration {
    /// Der Wert von [`SandboxKonfiguration::minimal`].
    pub open spec fn minimal_spec() -> Self {
        SandboxKonfiguration {
            filesystem: false,
            network: false,
            max_speicher_bytes: 67108864,
            max_instruktionen: 0,
            stdio: true,
        }
    }
}

} // verus!
