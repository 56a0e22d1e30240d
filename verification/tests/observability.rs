use speakeasy::observability::health::{http_status_fuer, HealthState, HealthStatus};
use speakeasy::observability::logging::{
    log_ausgabe_waehlen, log_format_gueltig, log_format_oder_standard, log_level_gueltig,
    log_level_oder_standard, LogAusgabe,
};
use speakeasy::observability::middleware::dauer_bucket;

#[test]
fn health_state_uptime_waechst() {
    let state = HealthState::neu();
    let uptime1 = state.uptime_seconds();
    assert!(uptime1 < 5);
}

#[test]
fn health_state_db_standard_verbunden() {
    let state = HealthState::neu();
    assert!(state.db_verbunden());
}

#[test]
fn health_state_db_status_umschalten() {
    let mut state = HealthState::neu();
    state.db_status_setzen(false);
    assert!(!state.db_verbunden());
    state.db_status_setzen(true);
    assert!(state.db_verbunden());
}

#[test]
fn health_antwort_status_und_http_code() {
    let mut state = HealthState::neu();
    let ok = state.antwort("0.1.0");
    assert_eq!(ok.status, HealthStatus::Healthy);
    assert_eq!(ok.version, "0.1.0");
    assert!(ok.db_connected);
    state.db_status_setzen(false);
    let eingeschraenkt = state.antwort("0.1.0");
    assert_eq!(eingeschraenkt.status, HealthStatus::Degraded);
    assert!(!eingeschraenkt.db_connected);
    assert_eq!(http_status_fuer(HealthStatus::Healthy), 200);
    assert_eq!(http_status_fuer(HealthStatus::Degraded), 200);
    assert_eq!(http_status_fuer(HealthStatus::Unhealthy), 503);
}

#[test]
fn log_level_gueltige_werte() {
    assert!(log_level_gueltig("trace"));
    assert!(log_level_gueltig("debug"));
    assert!(log_level_gueltig("info"));
    assert!(log_level_gueltig("warn"));
    assert!(log_level_gueltig("error"));
}

#[test]
fn log_level_ungueltige_werte() {
    assert!(!log_level_gueltig("verbose"));
    assert!(!log_level_gueltig("INFO"));
    assert!(!log_level_gueltig(""));
    assert!(!log_level_gueltig("critical"));
}

#[test]
fn log_format_gueltige_werte() {
    assert!(log_format_gueltig("text"));
    assert!(log_format_gueltig("json"));
}

#[test]
fn log_format_ungueltige_werte() {
    assert!(!log_format_gueltig("xml"));
    assert!(!log_format_gueltig("JSON"));
    assert!(!log_format_gueltig(""));
}

#[test]
fn log_level_aus_env_fallback() {
    assert_eq!(log_level_oder_standard(None), "info");
}

#[test]
fn log_format_aus_env_fallback() {
    assert_eq!(log_format_oder_standard(None), "text");
}

#[test]
fn log_level_aus_env_gesetzt() {
    assert_eq!(log_level_oder_standard(Some("debug".to_string())), "debug");
}

#[test]
fn log_format_aus_env_json() {
    assert_eq!(log_format_oder_standard(Some("json".to_string())), "json");
}

#[test]
fn log_ausgabe_nach_format() {
    assert_eq!(log_ausgabe_waehlen("json"), LogAusgabe::Json);
    assert_eq!(log_ausgabe_waehlen("text"), LogAusgabe::Text);
    assert_eq!(log_ausgabe_waehlen("xml"), LogAusgabe::Text);
}

#[test]
fn bucket_sehr_schnell() {
    assert_eq!(dauer_bucket(0), "<=1ms");
    assert_eq!(dauer_bucket(1), "<=1ms");
}

#[test]
fn bucket_schnell() {
    assert_eq!(dauer_bucket(2), "<=5ms");
    assert_eq!(dauer_bucket(5), "<=5ms");
}

#[test]
fn bucket_mittel() {
    assert_eq!(dauer_bucket(11), "<=25ms");
    assert_eq!(dauer_bucket(25), "<=25ms");
}

#[test]
fn bucket_langsam() {
    assert_eq!(dauer_bucket(500), "<=500ms");
    assert_eq!(dauer_bucket(1000), "<=1s");
}

#[test]
fn bucket_sehr_langsam() {
    assert_eq!(dauer_bucket(1001), ">1s");
    assert_eq!(dauer_bucket(5000), ">1s");
}

#[test]
fn alle_buckets_abgedeckt() {
    let faelle = [
        0u64, 1, 2, 5, 6, 10, 11, 25, 26, 50, 51, 100, 101, 250, 251, 500, 501, 1000, 1001, 9999,
    ];
    for &ms in &faelle {
        let bucket = dauer_bucket(ms);
        assert!(!bucket.is_empty(), "Leerer Bucket fuer {ms}ms");
    }
}

#[test]
fn bucket_grenzen_exakt() {
    assert_eq!(dauer_bucket(6), "<=10ms");
    assert_eq!(dauer_bucket(10), "<=10ms");
    assert_eq!(dauer_bucket(26), "<=50ms");
    assert_eq!(dauer_bucket(51), "<=100ms");
    assert_eq!(dauer_bucket(101), "<=250ms");
    assert_eq!(dauer_bucket(251), "<=500ms");
    assert_eq!(dauer_bucket(501), "<=1s");
}
