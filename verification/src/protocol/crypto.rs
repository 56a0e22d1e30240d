//! Typen fuer den Krypto-Handshake (DTLS) und die Verwaltung von E2E-Gruppenschluesseln.

use crate::text::str_gleich;
use vstd::prelude::*;

verus! {

/// Verschluesselungsmodus fuer einen Voice-Kanal.
#[derive(Debug, Clone, Copy, PartialEq, Eq, Structural)]
pub enum CryptoMode {
    /// Keine Verschluesselung (nur fuer Tests/interne Netzwerke).
    Unverschluesselt,
    /// DTLS: Transport-Verschluesselung (Server sieht Audio).
    Dtls,
    /// End-to-End-Verschluesselung (Server leitet blind weiter).
    E2E,
}

/// Der Name eines Krypto-Modus.
pub open spec fn crypto_name_spec(m: CryptoMode) -> Seq<char> {
    match m {
        CryptoMode::Unverschluesselt => "none"@,
        CryptoMode::Dtls => "dtls"@,
        CryptoMode::E2E => "e2e"@,
    }
}

/// Was das Einlesen eines Krypto-Modus aus seinem Namen ergibt.
pub open spec fn crypto_aus_name_spec(s: Seq<char>) -> Result<CryptoMode, Seq<char>> {
    if s == "none"@ {
        Ok(CryptoMode::Unverschluesselt)
    } else if s == "dtls"@ {
        Ok(CryptoMode::Dtls)
    } else if s == "e2e"@ {
        Ok(CryptoMode::E2E)
    } else {
        Err("Unbekannter CryptoMode: '"@ + s + "'"@)
    }
}

/// Gesetz: die Modi heissen `none` (unverschluesselt), `dtls` und `e2e`; genau diese drei
/// Namen werden eingelesen, und zwar als der Modus, der so heisst.
pub proof fn gesetz_crypto_namen(s: Seq<char>)
    ensures
        crypto_name_spec(CryptoMode::Unverschluesselt) == "none"@,
        crypto_name_spec(CryptoMode::Dtls) == "dtls"@,
        crypto_name_spec(CryptoMode::E2E) == "e2e"@,
        crypto_aus_name_spec(s) is Ok <==> (s == "none"@ || s == "dtls"@ || s == "e2e"@),
        crypto_aus_name_spec(s) matches Ok(m) ==> crypto_name_spec(m) == s,
{
}

/// Gesetz: jeder Modus wird aus seinem Namen wieder eingelesen.
pub proof fn gesetz_crypto_name_rundreise(m: CryptoMode)
    ensures
        crypto_aus_name_spec(crypto_name_spec(m)) == Ok::<CryptoMode, Seq<char>>(m),
{
    reveal_strlit("none");
    reveal_strlit("dtls");
    reveal_strlit("e2e");
    assert("dtls"@[0] != "none"@[0]);
    assert("e2e"@.len() != "none"@.len());
    assert("e2e"@.len() != "dtls"@.len());
}

impl CryptoMode {
    /// Der Name des Modus (`none`, `dtls`, `e2e`).
    pub fn als_str(&self) -> (r: &'static str)
        ensures
            r@ == crypto_name_spec(*self),
    {
        match self {
            CryptoMode::Unverschluesselt => "none",
            CryptoMode::Dtls => "dtls",
            CryptoMode::E2E => "e2e",
        }
    }

    /// Liest einen Modus aus seinem Namen; unbekannte Namen ergeben eine Fehlermeldung.
    pub fn aus_str(s: &str) -> (r: Result<CryptoMode, String>)
        ensures
            match r {
                Ok(m) => crypto_aus_name_spec(s@) == Ok::<CryptoMode, Seq<char>>(m),
                Err(e) => crypto_aus_name_spec(s@) == Err::<CryptoMode, Seq<char>>(e@),
            },
    {
        if str_gleich(s, "none") {
            Ok(CryptoMode::Unverschluesselt)
        } else if str_gleich(s, "dtls") {
            Ok(CryptoMode::Dtls)
        } else if str_gleich(s, "e2e") {
            Ok(CryptoMode::E2E)
        } else {
            let mut m = String::from_str("Unbekannter CryptoMode: '");
            m.append(s);
            m.append("'");
            Err(m)
        }
    }
}

impl Default for CryptoMode {
    fn default() -> (r: Self)
        ensures
            r == CryptoMode::Unverschluesselt,
    {
        CryptoMode::Unverschluesselt
    }
}

impl std::str::FromStr for CryptoMode {
    type Err = String;

    fn from_str(s: &str) -> (r: Result<Self, String>)
        ensures
            match r {
                Ok(t) => crypto_aus_name_spec(s@) == Ok::<CryptoMode, Seq<char>>(t),
                Err(e) => crypto_aus_name_spec(s@) == Err::<CryptoMode, Seq<char>>(e@),
            },
    {
        CryptoMode::aus_str(s)
    }
}

/// Algorithmus fuer den Schluessel-Austausch.
#[derive(Debug, Clone, Copy, PartialEq, Eq, Structural)]
pub enum KeyExchangeAlgorithm {
    /// X25519 Diffie-Hellman.
    X25519,
    /// P-256 Elliptic Curve Diffie-Hellman.
    P256,
}

impl Default for KeyExchangeAlgorithm {
    fn default() -> (r: Self)
        ensures
            r == KeyExchangeAlgorithm::X25519,
    {
        KeyExchangeAlgorithm::X25519
    }
}

/// AEAD-Verschluesselungsalgorithmus nach dem Schluessel-Austausch.
#[derive(Debug, Clone, Copy, PartialEq, Eq, Structural)]
pub enum AeadAlgorithm {
    /// AES-128-GCM.
    Aes128Gcm,
    /// AES-256-GCM.
    Aes256Gcm,
    /// ChaCha20-Poly1305.
    ChaCha20Poly1305,
}

impl Default for AeadAlgorithm {
    fn default() -> (r: Self)
        ensures
            r == AeadAlgorithm::Aes256Gcm,
    {
        AeadAlgorithm::Aes256Gcm
    }
}

/// DTLS-Handshake-Nachricht (Client und Server).
#[derive(Debug, Clone)]
pub enum KeyExchangeMessage {
    /// Schritt 1: Client initiiert den Handshake.
    ClientHello {
        supported_key_exchange: Vec<KeyExchangeAlgorithm>,
        supported_aead: Vec<AeadAlgorithm>,
        client_random: String,
        protocol_version: String,
    },
    /// Schritt 2: Server antwortet mit den gewaehlten Algorithmen.
    ServerHello {
        key_exchange: KeyExchangeAlgorithm,
        aead: AeadAlgorithm,
        server_random: String,
        server_public_key: String,
        certificate_fingerprint: String,
    },
    /// Schritt 3: Client sendet seinen oeffentlichen Schluessel.
    KeyExchange { client_public_key: String, encrypted_verify: String },
    /// Schritt 4: Server bestaetigt den Handshake.
    KeyConfirm { server_finished: String, ssrc: u32 },
}

/// Zweck eines Gruppenschluessels.
#[derive(Debug, Clone, Copy, PartialEq, Eq, Structural)]
pub enum KeyPurpose {
    /// Audio-Verschluesselung.
    Audio,
    /// Text/Datei-Verschluesselung.
    Text,
}

/// Grund fuer eine Schluessel-Rotation.
#[derive(Debug, Clone, Copy, PartialEq, Eq, Structural)]
pub enum KeyRotationReason {
    /// Planmaessige Rotation.
    Scheduled,
    /// Mitglied hat den Kanal verlassen.
    MemberLeft,
    /// Mitglied wurde gekickt oder gebannt.
    MemberRemoved,
    /// Manuell durch einen Admin angefordert.
    ManualRequest,
    /// Schluessel ist abgelaufen.
    KeyExpired,
}

/// E2E-Gruppenschluessel-Nachricht.
#[derive(Debug, Clone)]
pub enum E2EKeyMessage {
    /// Gruppenschluessel an alle Mitglieder verteilen (je Empfaenger verschluesselt).
    GroupKeyDistribute {
        key_id: u64,
        purpose: KeyPurpose,
        encrypted_keys: std::collections::HashMap<String, String>,
        wrapping_algorithm: AeadAlgorithm,
        valid_from_ms: u64,
        expires_at_ms: u64,
    },
    /// Schluessel-Rotation anfordern.
    KeyRotationRequest { current_key_id: u64, reason: KeyRotationReason },
    /// Schluessel zurueckziehen.
    KeyRevoke { key_id: u64, revoked_at_ms: u64, reason: String },
}

} // verus!
