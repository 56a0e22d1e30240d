use speakeasy::plugin::error::PluginError;
use speakeasy::plugin::events::{hook_ergebnisse_kombinieren, HookResult, PluginEvent};
use speakeasy::plugin::host::api::{
    host_get_channel_users, host_get_user_info, host_kick_user, host_move_user, host_read_config,
    host_send_message, ApiErgebnis, ApiKontext, LogLevel,
};
use speakeasy::plugin::host::capabilities::{
    aktivierte_faehigkeiten, capabilities_pruefen, hat_faehigkeit,
};
use speakeasy::plugin::host::runtime::{
    treibstoff_fuer, wasi_kontext_erstellen, PluginEngine, SpeicherLimiter,
};
use speakeasy::plugin::host::sandbox::SandboxKonfiguration;
use speakeasy::plugin::manager::{
    empfaenger_zaehlen, hook_aktiv, ManagerKonfiguration, PluginManager, PluginUebersicht,
};
use speakeasy::plugin::manifest::{
    ist_semver, Capabilities, EventConfig, HookConfig, PluginManifest, PluginMeta,
};
use speakeasy::plugin::registry::{eintrag_zu_info, PluginRegistry};
use speakeasy::plugin::trust::{
    plugin_signieren, plugin_verifizieren, schluesselpaar_generieren, trust_level_bestimmen,
    wasm_hash,
};
use speakeasy::plugin::types::{PluginId, PluginInfo, PluginState, TrustLevel};

// --- error ---

#[test]
fn fehler_anzeige_manifest() {
    let e = PluginError::Manifest("Pflichtfeld fehlt: name".into());
    assert_eq!(e.meldung(), "Manifest-Fehler: Pflichtfeld fehlt: name");
}

#[test]
fn fehler_anzeige_signatur() {
    let e = PluginError::SignaturUngueltig;
    assert_eq!(e.meldung(), "Plugin-Signatur ungueltig");
}

#[test]
fn fehler_anzeige_capability() {
    let e = PluginError::ZugriffVerweigert("network".into());
    assert!(e.meldung().contains("network"));
    assert_eq!(e.meldung(), "Zugriff verweigert – Capability 'network' nicht aktiviert");
}

#[test]
fn io_fehler_konvertierung() {
    let io_err = std::io::Error::new(std::io::ErrorKind::NotFound, "Datei fehlt");
    let plugin_err: PluginError = io_err.into();
    assert!(plugin_err.meldung().contains("IO-Fehler"));
}

// --- events ---

#[test]
fn event_name_user_join() {
    let e = PluginEvent::UserJoin { user_id: "u1".into(), channel_id: "c1".into() };
    assert_eq!(e.name(), "user_join");
}

#[test]
fn event_name_chat_message() {
    let e = PluginEvent::ChatMessage {
        channel_id: "c1".into(),
        sender_id: "u1".into(),
        content: "Hallo".into(),
    };
    assert_eq!(e.name(), "chat_message");
}

#[test]
fn event_name_server_start() {
    assert_eq!(PluginEvent::ServerStart.name(), "server_start");
}

#[test]
fn hook_result_allow_ist_erlaubt() {
    assert!(HookResult::Allow.ist_erlaubt());
}

#[test]
fn hook_result_deny_nicht_erlaubt() {
    let r = HookResult::Deny { reason: "Spam".into() };
    assert!(!r.ist_erlaubt());
    assert_eq!(r.ablehnungsgrund(), Some("Spam"));
}

#[test]
fn hook_result_modify_ist_erlaubt() {
    let r = HookResult::Modify { data: vec![1, 2, 3] };
    assert!(r.ist_erlaubt());
    assert!(r.ablehnungsgrund().is_none());
}

#[test]
fn kombinieren_erstes_deny_gewinnt() {
    let ergebnisse = vec![
        HookResult::Allow,
        HookResult::Deny { reason: "Verboten".into() },
        HookResult::Allow,
    ];
    let r = hook_ergebnisse_kombinieren(ergebnisse);
    assert!(matches!(r, HookResult::Deny { .. }));
}

#[test]
fn kombinieren_alle_allow() {
    let ergebnisse = vec![HookResult::Allow, HookResult::Allow];
    let r = hook_ergebnisse_kombinieren(ergebnisse);
    assert!(matches!(r, HookResult::Allow));
}

#[test]
fn kombinieren_leer_ergibt_allow() {
    let r = hook_ergebnisse_kombinieren(vec![]);
    assert!(matches!(r, HookResult::Allow));
}

#[test]
fn kombinieren_erstes_von_zwei_deny() {
    let r = hook_ergebnisse_kombinieren(vec![
        HookResult::Modify { data: vec![9] },
        HookResult::Deny { reason: "eins".into() },
        HookResult::Deny { reason: "zwei".into() },
    ]);
    assert_eq!(r.ablehnungsgrund(), Some("eins"));
    let m = hook_ergebnisse_kombinieren(vec![HookResult::Modify { data: vec![9] }]);
    assert!(matches!(m, HookResult::Modify { data } if data == vec![9]));
}

#[test]
fn kombinieren_letztes_modify_gewinnt() {
    let r = hook_ergebnisse_kombinieren(vec![
        HookResult::Allow,
        HookResult::Modify { data: vec![1] },
        HookResult::Modify { data: vec![2] },
        HookResult::Allow,
    ]);
    assert!(matches!(r, HookResult::Modify { data } if data == vec![2]));
    let d = hook_ergebnisse_kombinieren(vec![
        HookResult::Modify { data: vec![1] },
        HookResult::Deny { reason: "nein".into() },
    ]);
    assert_eq!(d.ablehnungsgrund(), Some("nein"));
}

// --- types ---

#[test]
fn plugin_id_eindeutig() {
    let a = PluginId::new();
    let b = PluginId::new();
    assert_ne!(a, b);
}

#[test]
fn plugin_id_display() {
    let id = PluginId(0);
    assert!(id.als_string().starts_with("plugin:"));
    assert_eq!(id.als_string(), "plugin:00000000-0000-0000-0000-000000000000");
}

#[test]
fn plugin_id_ist_uuid_v4() {
    let id = PluginId::new();
    assert_eq!((id.inner() >> 76) & 0xF, 4);
    assert_eq!((id.inner() >> 62) & 0x3, 2);
}

#[test]
fn plugin_state_anzeige() {
    assert_eq!(PluginState::Aktiv.als_string(), "Aktiv");
    assert_eq!(PluginState::Deaktiviert.als_string(), "Deaktiviert");
    let e = PluginState::Fehler("Absturz".into());
    assert!(e.als_string().contains("Fehler"));
    assert_eq!(e.als_string(), "Fehler: Absturz");
}

#[test]
fn trust_level_anzeige() {
    assert_eq!(TrustLevel::NichtSigniert.als_str(), "Nicht signiert");
    assert_eq!(TrustLevel::Vertrauenswuerdig.als_str(), "Vertrauenswuerdig");
}

// --- host api ---

fn chat_kontext() -> ApiKontext {
    ApiKontext {
        plugin_name: "test-plugin".into(),
        chat_read: true,
        chat_write: true,
        user_management: false,
        server_config: false,
        network: false,
    }
}

fn admin_kontext() -> ApiKontext {
    ApiKontext {
        plugin_name: "admin-plugin".into(),
        chat_read: true,
        chat_write: true,
        user_management: true,
        server_config: true,
        network: false,
    }
}

#[test]
fn send_message_ohne_cap_verweigert() {
    let mut k = chat_kontext();
    k.chat_write = false;
    let r = host_send_message(&k, "channel-1", "Hallo");
    assert_eq!(r, ApiErgebnis::ZugriffVerweigert);
}

#[test]
fn send_message_mit_cap_ok() {
    let k = chat_kontext();
    let r = host_send_message(&k, "channel-1", "Hallo");
    assert_eq!(r, ApiErgebnis::Erfolg);
}

#[test]
fn kick_user_ohne_cap_verweigert() {
    let k = chat_kontext();
    let r = host_kick_user(&k, "user-1", "Spam");
    assert_eq!(r, ApiErgebnis::ZugriffVerweigert);
}

#[test]
fn kick_user_mit_cap_ok() {
    let k = admin_kontext();
    let r = host_kick_user(&k, "user-1", "Spam");
    assert_eq!(r, ApiErgebnis::Erfolg);
}

#[test]
fn read_config_ohne_cap_verweigert() {
    let k = chat_kontext();
    let r = host_read_config(&k, "max_users");
    assert_eq!(r, ApiErgebnis::ZugriffVerweigert);
}

#[test]
fn read_config_mit_cap_ok() {
    let k = admin_kontext();
    let r = host_read_config(&k, "max_users");
    assert_eq!(r, ApiErgebnis::Erfolg);
}

#[test]
fn api_ergebnis_als_i32() {
    assert_eq!(ApiErgebnis::Erfolg.als_i32(), 0);
    assert_eq!(ApiErgebnis::ZugriffVerweigert.als_i32(), -1);
    assert_eq!(ApiErgebnis::UngueltigeParameter.als_i32(), -2);
    assert_eq!(ApiErgebnis::Fehler("x".into()).als_i32(), -3);
}

#[test]
fn log_level_from_i32() {
    assert!(matches!(LogLevel::from_i32(0), LogLevel::Trace));
    assert!(matches!(LogLevel::from_i32(3), LogLevel::Warn));
    assert!(matches!(LogLevel::from_i32(99), LogLevel::Info));
    assert!(matches!(LogLevel::from_i32(-1), LogLevel::Info));
}

#[test]
fn weitere_host_api_rechte() {
    let neu = ApiKontext::neu("leer");
    assert_eq!(neu.plugin_name, "leer");
    assert_eq!(host_get_user_info(&neu, "u"), ApiErgebnis::ZugriffVerweigert);
    assert_eq!(host_get_channel_users(&neu, "c"), ApiErgebnis::ZugriffVerweigert);
    assert_eq!(host_move_user(&neu, "u", "c"), ApiErgebnis::ZugriffVerweigert);
    let k = chat_kontext();
    assert_eq!(host_get_user_info(&k, "u"), ApiErgebnis::Erfolg);
    assert_eq!(host_get_channel_users(&k, "c"), ApiErgebnis::Erfolg);
    assert_eq!(host_move_user(&k, "u", "c"), ApiErgebnis::ZugriffVerweigert);
    assert_eq!(host_move_user(&admin_kontext(), "u", "c"), ApiErgebnis::Erfolg);
}

// --- capabilities ---

fn test_caps() -> Capabilities {
    Capabilities { chat_read: true, chat_write: true, ..Default::default() }
}

#[test]
fn hat_faehigkeit_chat_read() {
    let caps = test_caps();
    assert!(hat_faehigkeit(&caps, "chat_read"));
    assert!(hat_faehigkeit(&caps, "chat_write"));
    assert!(!hat_faehigkeit(&caps, "network"));
    assert!(!hat_faehigkeit(&caps, "filesystem"));
}

#[test]
fn hat_faehigkeit_unbekannte_cap() {
    let caps = test_caps();
    assert!(!hat_faehigkeit(&caps, "unbekannt"));
}

#[test]
fn aktivierte_faehigkeiten_liste() {
    let caps = test_caps();
    let liste = aktivierte_faehigkeiten(&caps);
    assert!(liste.contains(&"chat_read"));
    assert!(liste.contains(&"chat_write"));
    assert!(!liste.contains(&"network"));
}

#[test]
fn capabilities_pruefen_ok() {
    let caps = test_caps();
    assert!(capabilities_pruefen(&caps, &["chat_read", "chat_write"]).is_ok());
}

#[test]
fn capabilities_pruefen_fehlend() {
    let caps = test_caps();
    let err = capabilities_pruefen(&caps, &["chat_read", "network"]).unwrap_err();
    assert!(err.contains("network"));
    assert_eq!(err, "Capability 'network' nicht deklariert");
}

#[test]
fn alle_caps_deaktiviert() {
    let caps = Capabilities::default();
    let liste = aktivierte_faehigkeiten(&caps);
    assert!(liste.is_empty());
}

#[test]
fn aktivierte_faehigkeiten_genau_die_erlaubten() {
    let caps = Capabilities {
        filesystem: false,
        network: true,
        audio_read: false,
        audio_write: true,
        chat_read: false,
        chat_write: false,
        user_management: false,
        server_config: true,
    };
    let liste = aktivierte_faehigkeiten(&caps);
    assert_eq!(liste, vec!["network", "audio_write", "server_config"]);
    for (i, a) in liste.iter().enumerate() {
        assert!(hat_faehigkeit(&caps, a));
        assert!(!liste[i + 1..].contains(a));
    }
}

#[test]
fn alle_caps_aktiviert() {
    let caps = Capabilities {
        filesystem: true,
        network: true,
        audio_read: true,
        audio_write: true,
        chat_read: true,
        chat_write: true,
        user_management: true,
        server_config: true,
    };
    let liste = aktivierte_faehigkeiten(&caps);
    assert_eq!(liste.len(), 8);
    assert_eq!(
        liste,
        vec![
            "filesystem",
            "network",
            "audio_read",
            "audio_write",
            "chat_read",
            "chat_write",
            "user_management",
            "server_config"
        ]
    );
}

#[test]
fn capabilities_pruefen_erste_fehlende_gemeldet() {
    let caps = Capabilities::default();
    assert_eq!(
        capabilities_pruefen(&caps, &["audio_write", "network"]),
        Err("Capability 'audio_write' nicht deklariert".to_string())
    );
    assert!(capabilities_pruefen(&caps, &[]).is_ok());
}

// --- runtime ---

#[test]
fn engine_erstellen() {
    let engine = PluginEngine::neu();
    assert!(engine.is_ok(), "Engine muss erstellt werden koennen");
}

#[test]
fn wasm_bytes_ungueltig() {
    let engine = PluginEngine::neu().unwrap();
    let err = engine.kompilieren(b"das ist kein wasm").unwrap_err();
    assert!(matches!(err, PluginError::WasmKompilierung(_)));
}

#[test]
fn wasi_kontext_minimal() {
    let sandbox = SandboxKonfiguration::minimal();
    let ctx = wasi_kontext_erstellen(&sandbox);
    assert!(ctx.is_ok());
}

#[test]
fn wasi_kontext_erbt_stdio_nach_sandbox() {
    let mut sandbox = SandboxKonfiguration::minimal();
    assert!(wasi_kontext_erstellen(&sandbox).unwrap().stdio_geerbt());
    sandbox.stdio = false;
    let ctx = wasi_kontext_erstellen(&sandbox).unwrap();
    assert!(!ctx.stdio_geerbt());
    let _kontext = ctx.in_kontext();
}

#[test]
fn engine_mit_async_und_treibstoff() {
    let engine = PluginEngine::neu().unwrap();
    let e = engine.einstellungen();
    assert!(e.asynchron);
    assert!(e.treibstoff);
}

#[test]
fn speicher_limiter_pruefung() {
    let mut limiter = SpeicherLimiter { max_bytes: 1024 };
    assert!(limiter.memory_growing(0, 512, None).unwrap());
    assert!(!limiter.memory_growing(0, 2048, None).unwrap());
}

#[test]
fn speicher_limiter_grenze_und_tabellen() {
    let mut limiter = SpeicherLimiter::aus_sandbox(&SandboxKonfiguration::minimal());
    assert_eq!(limiter.max_bytes, 64 * 1024 * 1024);
    assert!(limiter.memory_growing(0, 64 * 1024 * 1024, Some(1)).unwrap());
    assert!(!limiter.memory_growing(0, 64 * 1024 * 1024 + 1, None).unwrap());
    assert!(limiter.table_growing(0, u32::MAX, None).unwrap());
}

#[test]
fn treibstoff_unbegrenzt_und_begrenzt() {
    let mut sb = SandboxKonfiguration::minimal();
    assert_eq!(treibstoff_fuer(&sb), u64::MAX / 2);
    sb.max_instruktionen = 1000;
    assert_eq!(treibstoff_fuer(&sb), 1000);
}

// --- sandbox ---

#[test]
fn minimal_sandbox_keine_rechte() {
    let sb = SandboxKonfiguration::minimal();
    assert!(!sb.filesystem);
    assert!(!sb.network);
    assert!(sb.stdio);
    assert_eq!(sb.max_speicher_bytes, 64 * 1024 * 1024);
}

#[test]
fn sandbox_aus_capabilities_filesystem() {
    let caps = Capabilities { filesystem: true, ..Default::default() };
    let sb = SandboxKonfiguration::aus_capabilities(&caps);
    assert!(sb.filesystem);
    assert!(!sb.network);
}

#[test]
fn sandbox_aus_capabilities_network() {
    let caps = Capabilities { network: true, ..Default::default() };
    let sb = SandboxKonfiguration::aus_capabilities(&caps);
    assert!(sb.network);
    assert!(!sb.filesystem);
}

#[test]
fn sandbox_produktionssicher() {
    let sb = SandboxKonfiguration::minimal();
    assert!(sb.ist_produktionssicher());
}

#[test]
fn sandbox_default_ist_minimal() {
    let sb = SandboxKonfiguration::default();
    assert!(!sb.filesystem);
    assert!(!sb.network);
    assert_eq!(sb, SandboxKonfiguration::minimal());
}

// --- manifest ---

fn manifest(name: &str, version: &str, wasm_file: &str) -> PluginManifest {
    PluginManifest {
        plugin: PluginMeta {
            name: name.into(),
            version: version.into(),
            author: "Test Autor".into(),
            description: "Ein Testplugin".into(),
            min_server_version: "0.1.0".into(),
            wasm_file: wasm_file.into(),
        },
        capabilities: Capabilities { chat_read: true, chat_write: true, ..Default::default() },
        events: EventConfig { subscribe: vec!["user_join".into(), "chat_message".into()] },
        hooks: HookConfig { before_chat_send: true, ..Default::default() },
    }
}

#[test]
fn manifest_validierung_ok() {
    let m = manifest("test-plugin", "1.0.0", "plugin.wasm");
    assert!(m.validieren().is_ok());
}

#[test]
fn manifest_validierung_fehlender_name() {
    let m = manifest("", "1.0.0", "plugin.wasm");
    let err = m.validieren().unwrap_err();
    assert!(err.meldung().contains("plugin.name"));
}

#[test]
fn manifest_validierung_ungueltige_version() {
    let m = manifest("test", "nicht-semver", "plugin.wasm");
    let err = m.validieren().unwrap_err();
    assert!(matches!(err, PluginError::UngueltigeVersion(_)));
}

#[test]
fn manifest_validierung_reihenfolge_der_pflichtfelder() {
    let err = manifest("x", "", "").validieren().unwrap_err();
    assert_eq!(err.meldung(), "Manifest-Fehler: Pflichtfeld fehlt: plugin.version");
    let err = manifest("x", "1.0.0", "").validieren().unwrap_err();
    assert_eq!(err.meldung(), "Manifest-Fehler: Pflichtfeld fehlt: plugin.wasm_file");
}

#[test]
fn semver_pruefung() {
    assert!(ist_semver("1.0.0"));
    assert!(ist_semver("0.1.23"));
    assert!(!ist_semver("1.0"));
    assert!(!ist_semver("abc"));
    assert!(!ist_semver("1.0.0.0"));
}

#[test]
fn semver_grenzfaelle_wie_u32() {
    assert!(ist_semver("4294967295.0.0"));
    assert!(!ist_semver("4294967296.0.0"));
    assert!(ist_semver("+1.0.0"));
    assert!(!ist_semver("-1.0.0"));
    assert!(!ist_semver("1..0"));
    assert!(ist_semver("007.0.0"));
}

// --- trust ---

#[test]
fn hash_deterministisch() {
    let data = b"test wasm bytes";
    let h1 = wasm_hash(data);
    let h2 = wasm_hash(data);
    assert_eq!(h1, h2);
    assert_eq!(h1.len(), 32);
}

#[test]
fn hash_unterschiedlich_bei_verschiedenen_daten() {
    let h1 = wasm_hash(b"wasm-a");
    let h2 = wasm_hash(b"wasm-b");
    assert_ne!(h1, h2);
}

#[test]
fn hash_bekannter_wert() {
    let h = wasm_hash(b"");
    assert_eq!(
        h[..4],
        [0xe3, 0xb0, 0xc4, 0x42]
    );
}

#[test]
fn signieren_und_verifizieren_ok() {
    let (signing_key, verifying_key) = schluesselpaar_generieren();
    let wasm = b"(module)";
    let sig = plugin_signieren(wasm, &signing_key);
    let ok = plugin_verifizieren(wasm, &sig, &verifying_key).unwrap();
    assert!(ok, "Gueltige Signatur muss verifiziert werden");
}

#[test]
fn verifizierung_falscher_key() {
    let (signing_key, _) = schluesselpaar_generieren();
    let (_, fremder_key) = schluesselpaar_generieren();
    let wasm = b"(module)";
    let sig = plugin_signieren(wasm, &signing_key);
    let ok = plugin_verifizieren(wasm, &sig, &fremder_key).unwrap();
    assert!(!ok, "Fremder Key darf nicht verifizieren");
}

#[test]
fn verifizierung_manipulierter_wasm() {
    let (signing_key, verifying_key) = schluesselpaar_generieren();
    let sig = plugin_signieren(b"(module)", &signing_key);
    let ok = plugin_verifizieren(b"(module ;; boese)", &sig, &verifying_key).unwrap();
    assert!(!ok, "Manipuliertes WASM darf nicht verifiziert werden");
}

#[test]
fn trust_level_nicht_signiert() {
    let level = trust_level_bestimmen(b"wasm", None, &[]);
    assert_eq!(level, TrustLevel::NichtSigniert);
}

#[test]
fn trust_level_signiert_unbekannter_key() {
    let (signing_key, _) = schluesselpaar_generieren();
    let wasm = b"(module)";
    let sig = plugin_signieren(wasm, &signing_key);
    let level = trust_level_bestimmen(wasm, Some(&sig), &[]);
    assert_eq!(level, TrustLevel::Signiert);
}

#[test]
fn trust_level_vertrauenswuerdig() {
    let (signing_key, verifying_key) = schluesselpaar_generieren();
    let wasm = b"(module)";
    let sig = plugin_signieren(wasm, &signing_key);
    let level = trust_level_bestimmen(wasm, Some(&sig), &[verifying_key]);
    assert_eq!(level, TrustLevel::Vertrauenswuerdig);
}

#[test]
fn ungueltige_signatur_laenge() {
    let (_, verifying_key) = schluesselpaar_generieren();
    let err = plugin_verifizieren(b"wasm", b"zu_kurz", &verifying_key).unwrap_err();
    assert!(matches!(err, PluginError::SchluesselUngueltig(_)));
    assert_eq!(err.meldung(), "Signierungsschluessel ungueltig: Signatur hat falsche Laenge");
}

#[test]
fn trust_level_kurze_signatur_bleibt_signiert() {
    let (_, verifying_key) = schluesselpaar_generieren();
    let level = trust_level_bestimmen(b"wasm", Some(b"kurz"), &[verifying_key]);
    assert_eq!(level, TrustLevel::Signiert);
}

// --- registry ---

fn test_eintrag(name: &str) -> (PluginId, String, String, String, TrustLevel) {
    (
        PluginId::new(),
        name.to_string(),
        "1.0.0".to_string(),
        format!("/plugins/{}", name),
        TrustLevel::NichtSigniert,
    )
}

#[test]
fn registrieren_und_finden() {
    let mut registry = PluginRegistry::neu();
    let (id, name, version, pfad, trust) = test_eintrag("test-plugin");
    registry.registrieren(id, name.clone(), version, pfad, trust).unwrap();
    let e = registry.per_id(id).unwrap();
    assert_eq!(e.name, name);
    let e2 = registry.per_name(&name).unwrap();
    assert_eq!(e2.id, id);
    assert_eq!(e2.state, PluginState::Geladen);
    assert!(!e2.autostart);
}

#[test]
fn doppeltes_registrieren_fehlschlaegt() {
    let mut registry = PluginRegistry::neu();
    let (id1, name, version, pfad, trust) = test_eintrag("doppelt");
    registry.registrieren(id1, name.clone(), version.clone(), pfad.clone(), trust).unwrap();
    let id2 = PluginId::new();
    let err = registry.registrieren(id2, name, version, pfad, trust).unwrap_err();
    assert!(matches!(err, PluginError::BereitsGeladen(_)));
    assert_eq!(registry.anzahl(), 1);
}

#[test]
fn entfernen_ok() {
    let mut registry = PluginRegistry::neu();
    let (id, name, version, pfad, trust) = test_eintrag("zu-entfernen");
    registry.registrieren(id, name.clone(), version, pfad, trust).unwrap();
    registry.entfernen(id).unwrap();
    assert!(registry.per_id(id).is_none());
    assert!(registry.per_name(&name).is_none());
}

#[test]
fn entfernen_nicht_gefunden() {
    let mut registry = PluginRegistry::neu();
    let err = registry.entfernen(PluginId::new()).unwrap_err();
    assert!(matches!(err, PluginError::NichtGefunden(_)));
}

#[test]
fn zustand_setzen() {
    let mut registry = PluginRegistry::neu();
    let (id, name, version, pfad, trust) = test_eintrag("state-test");
    registry.registrieren(id, name, version, pfad, trust).unwrap();
    registry.zustand_setzen(id, PluginState::Aktiv).unwrap();
    assert_eq!(registry.per_id(id).unwrap().state, PluginState::Aktiv);
}

#[test]
fn aktive_plugins_gefiltert() {
    let mut registry = PluginRegistry::neu();
    let (id1, name1, v1, p1, t1) = test_eintrag("aktiv");
    let (id2, name2, v2, p2, t2) = test_eintrag("inaktiv");
    registry.registrieren(id1, name1, v1, p1, t1).unwrap();
    registry.registrieren(id2, name2, v2, p2, t2).unwrap();
    registry.zustand_setzen(id1, PluginState::Aktiv).unwrap();
    let aktive = registry.aktive();
    assert_eq!(aktive.len(), 1);
    assert_eq!(aktive[0].id, id1);
    assert_eq!(registry.alle().len(), 2);
}

#[test]
fn anzahl_korrekt() {
    let mut registry = PluginRegistry::neu();
    assert_eq!(registry.anzahl(), 0);
    let (id, name, v, p, t) = test_eintrag("eins");
    registry.registrieren(id, name, v, p, t).unwrap();
    assert_eq!(registry.anzahl(), 1);
}

#[test]
fn eintrag_als_info() {
    let mut registry = PluginRegistry::neu();
    let (id, name, v, p, t) = test_eintrag("info");
    registry.registrieren(id, name, v, p, t).unwrap();
    let e = registry.per_id(id).unwrap();
    let info = eintrag_zu_info(&e, 1234);
    assert_eq!(info.id, id);
    assert_eq!(info.name, "info");
    assert_eq!(info.author, "");
    assert_eq!(info.geladen_am, 1234);
}

// --- manager ---

fn laden(manager: &mut PluginManager, name: &str, signatur: Option<Vec<u8>>) -> Result<PluginId, PluginError> {
    manager.plugin_laden(
        format!("/plugins/{}", name),
        manifest(name, "1.0.0", "plugin.wasm"),
        format!("/plugins/{}/plugin.wasm", name),
        b"\0asm\x01\x00\x00\x00".to_vec(),
        signatur,
    )
}

#[test]
fn plugin_laden_und_auflisten() {
    let mut manager = PluginManager::neu(ManagerKonfiguration::default());
    let id = laden(&mut manager, "list-test", None).unwrap();
    let liste = manager.plugins_auflisten();
    assert_eq!(liste.len(), 1);
    assert_eq!(liste[0].id, id);
    assert_eq!(liste[0].trust_level, TrustLevel::NichtSigniert);
}

#[test]
fn plugin_aktivieren_und_deaktivieren() {
    let mut manager = PluginManager::neu(ManagerKonfiguration::default());
    let id = laden(&mut manager, "lifecycle-test", None).unwrap();
    manager.plugin_aktivieren(id).unwrap();
    assert_eq!(manager.plugin_info(id).unwrap().state, PluginState::Aktiv);
    manager.plugin_deaktivieren(id).unwrap();
    assert_eq!(manager.plugin_info(id).unwrap().state, PluginState::Deaktiviert);
}

#[test]
fn plugin_entladen() {
    let mut manager = PluginManager::neu(ManagerKonfiguration::default());
    let id = laden(&mut manager, "unload-test", None).unwrap();
    assert_eq!(manager.anzahl_plugins(), 1);
    manager.plugin_entladen(id).unwrap();
    assert_eq!(manager.anzahl_plugins(), 0);
}

#[test]
fn entladen_nicht_gefunden() {
    let mut manager = PluginManager::neu(ManagerKonfiguration::default());
    let err = manager.plugin_entladen(PluginId::new()).unwrap_err();
    assert!(matches!(err, PluginError::NichtGefunden(_)));
}

#[test]
fn event_senden_an_aktive_plugins() {
    let mut manager = PluginManager::neu(ManagerKonfiguration::default());
    let id = laden(&mut manager, "event-test", None).unwrap();
    manager.plugin_aktivieren(id).unwrap();
    let event = PluginEvent::ChatMessage {
        channel_id: "c1".into(),
        sender_id: "u1".into(),
        content: "Hallo".into(),
    };
    assert!(manager.event_senden(&event).is_ok());
}

#[test]
fn hook_ausfuehren_allow() {
    let mut manager = PluginManager::neu(ManagerKonfiguration::default());
    let id = laden(&mut manager, "hook-test", None).unwrap();
    manager.plugin_aktivieren(id).unwrap();
    let result = manager.hook_ausfuehren("before_chat_send", b"Hallo").unwrap();
    assert!(result.ist_erlaubt());
}

#[test]
fn signierung_erforderlich_abgelehnt() {
    let config = ManagerKonfiguration { signierung_erforderlich: true, ..Default::default() };
    let mut manager = PluginManager::neu(config);
    let err = laden(&mut manager, "unsigned-test", None).unwrap_err();
    assert!(matches!(err, PluginError::NichtSigniert));
    assert_eq!(manager.anzahl_plugins(), 0);
}

#[test]
fn signierung_erforderlich_mit_signatur_ok() {
    let config = ManagerKonfiguration { signierung_erforderlich: true, ..Default::default() };
    let mut manager = PluginManager::neu(config);
    let id = laden(&mut manager, "signed-test", Some(vec![0u8; 64])).unwrap();
    assert_eq!(manager.plugin_info(id).unwrap().trust_level, TrustLevel::Signiert);
}

#[test]
fn capability_pruefen() {
    let mut manager = PluginManager::neu(ManagerKonfiguration::default());
    let id = laden(&mut manager, "cap-test", None).unwrap();
    assert!(manager.hat_capability(id, "chat_read"));
    assert!(!manager.hat_capability(id, "network"));
    assert!(!manager.hat_capability(PluginId::new(), "chat_read"));
}

#[test]
fn doppelter_name_wird_abgelehnt() {
    let mut manager = PluginManager::neu(ManagerKonfiguration::default());
    laden(&mut manager, "gleich", None).unwrap();
    let err = laden(&mut manager, "gleich", None).unwrap_err();
    assert!(matches!(err, PluginError::BereitsGeladen(_)));
    assert_eq!(manager.anzahl_plugins(), 1);
}

#[test]
fn ungueltiges_manifest_wird_abgelehnt() {
    let mut manager = PluginManager::neu(ManagerKonfiguration::default());
    let err = manager
        .plugin_laden(
            "/p".into(),
            manifest("x", "1.0", "plugin.wasm"),
            "/p/plugin.wasm".into(),
            vec![],
            None,
        )
        .unwrap_err();
    assert!(matches!(err, PluginError::UngueltigeVersion(_)));
    assert_eq!(manager.anzahl_plugins(), 0);
}

fn uebersicht(state: PluginState, abos: &[&str]) -> PluginUebersicht {
    PluginUebersicht {
        info: PluginInfo {
            id: PluginId::new(),
            name: "p".into(),
            version: "1.0.0".into(),
            author: String::new(),
            description: String::new(),
            state,
            trust_level: TrustLevel::NichtSigniert,
            geladen_am: 0,
        },
        abonniert: abos.iter().map(|a| a.to_string()).collect(),
        hooks: HookConfig::default(),
        caps: Capabilities::default(),
        sandbox: SandboxKonfiguration::minimal(),
    }
}

#[test]
fn empfaenger_nur_aktive_abonnenten() {
    let liste = vec![
        uebersicht(PluginState::Aktiv, &["chat_message", "user_join"]),
        uebersicht(PluginState::Geladen, &["chat_message"]),
        uebersicht(PluginState::Aktiv, &["user_join"]),
        uebersicht(PluginState::Aktiv, &["chat_message"]),
    ];
    assert_eq!(empfaenger_zaehlen(&liste, "chat_message"), 2);
    assert_eq!(empfaenger_zaehlen(&liste, "server_stop"), 0);
    assert_eq!(empfaenger_zaehlen(&vec![], "chat_message"), 0);
}

#[test]
fn hook_namen() {
    let h = HookConfig { before_chat_send: true, before_user_kick: true, ..Default::default() };
    assert!(hook_aktiv(&h, "before_chat_send"));
    assert!(hook_aktiv(&h, "before_user_kick"));
    assert!(!hook_aktiv(&h, "after_user_join"));
    assert!(!hook_aktiv(&h, "unbekannt"));
}
