use speakeasy::db::abfragen::{
    audit_count_sql, audit_list_sql, audit_where_klausel, benutzer_update_sql, einladung_pruefen,
    kanal_update_sql,
};
use speakeasy::db::error::{ist_unique_meldung, DbError};
use speakeasy::db::models::{
    AuditLogFilter, BenutzerUpdate, BerechtigungsWert, BerechtigungsZiel, EinladungRecord,
    KanalTyp, KanalUpdate, NeuerKanal, TriState,
};
use speakeasy::db::permissions::{
    berechtigungen_aufloesen, ist_aktiv, merge_werte, BerechtigungsEingabe, BerechtigungsStufe,
};
use speakeasy::db::repository::{DatabaseBackend, DatabaseConfig};
use speakeasy::db::zeilen::{
    scope_lesen, uuid_lesen, wert_art, wert_zu_spalten, zeit_als_text, zeit_lesen, WertArt,
};
use speakeasy::kern::kennung_als_text;

fn grant() -> BerechtigungsWert {
    BerechtigungsWert::TriState(TriState::Grant)
}

fn deny() -> BerechtigungsWert {
    BerechtigungsWert::TriState(TriState::Deny)
}

fn skip() -> BerechtigungsWert {
    BerechtigungsWert::TriState(TriState::Skip)
}

#[test]
fn merge_deny_gewinnt_ueber_grant() {
    let ergebnis = merge_werte(&[grant(), deny()]);
    assert_eq!(ergebnis, deny());
}

#[test]
fn merge_grant_gewinnt_ueber_skip() {
    let ergebnis = merge_werte(&[skip(), grant()]);
    assert_eq!(ergebnis, grant());
}

#[test]
fn merge_nur_skip() {
    let ergebnis = merge_werte(&[skip(), skip()]);
    assert_eq!(ergebnis, skip());
}

#[test]
fn merge_int_limit_minimum() {
    let ergebnis = merge_werte(&[
        BerechtigungsWert::IntLimit(100),
        BerechtigungsWert::IntLimit(50),
        BerechtigungsWert::IntLimit(75),
    ]);
    assert_eq!(ergebnis, BerechtigungsWert::IntLimit(50));
}

#[test]
fn merge_scope_schnittmenge() {
    let ergebnis = merge_werte(&[
        BerechtigungsWert::Scope(vec!["a".into(), "b".into(), "c".into()]),
        BerechtigungsWert::Scope(vec!["b".into(), "c".into(), "d".into()]),
    ]);
    if let BerechtigungsWert::Scope(mut s) = ergebnis {
        s.sort();
        assert_eq!(s, vec!["b", "c"]);
    } else {
        panic!("Erwarteter Scope-Wert");
    }
}

#[test]
fn merge_reihenfolge_egal_bei_tristate() {
    assert_eq!(merge_werte(&[deny(), grant(), skip()]), merge_werte(&[skip(), grant(), deny()]));
    assert_eq!(merge_werte(&[]), skip());
}

#[test]
fn aufloesen_individual_hat_prioritaet() {
    let eingabe = BerechtigungsEingabe {
        individual: vec![("can_speak".into(), grant())],
        kanal_gruppe: Some(vec![("can_speak".into(), deny())]),
        kanal_default: vec![("can_speak".into(), deny())],
        server_gruppen: vec![("admin".into(), vec![("can_speak".into(), deny())])],
        server_default: vec![("can_speak".into(), deny())],
    };
    let ergebnis = berechtigungen_aufloesen(&eingabe);
    let perm = ergebnis.get("can_speak").unwrap();
    assert_eq!(perm.wert, grant());
    assert_eq!(perm.stufe, BerechtigungsStufe::Individual);
}

#[test]
fn aufloesen_skip_wird_uebersprungen() {
    let eingabe = BerechtigungsEingabe {
        individual: vec![("can_speak".into(), skip())],
        kanal_gruppe: None,
        kanal_default: vec![],
        server_gruppen: vec![],
        server_default: vec![("can_speak".into(), grant())],
    };
    let ergebnis = berechtigungen_aufloesen(&eingabe);
    let perm = ergebnis.get("can_speak").unwrap();
    assert_eq!(perm.wert, grant());
    assert_eq!(perm.stufe, BerechtigungsStufe::ServerDefault);
}

#[test]
fn aufloesen_kanal_gruppe_vor_kanal_default() {
    let eingabe = BerechtigungsEingabe {
        individual: vec![],
        kanal_gruppe: Some(vec![("can_upload".into(), deny())]),
        kanal_default: vec![("can_upload".into(), grant())],
        server_gruppen: vec![],
        server_default: vec![],
    };
    let ergebnis = berechtigungen_aufloesen(&eingabe);
    let perm = ergebnis.get("can_upload").unwrap();
    assert_eq!(perm.wert, deny());
    assert_eq!(perm.stufe, BerechtigungsStufe::KanalGruppe);
}

#[test]
fn aufloesen_server_gruppen_reihenfolge() {
    let eingabe = BerechtigungsEingabe {
        individual: vec![],
        kanal_gruppe: None,
        kanal_default: vec![],
        server_gruppen: vec![
            ("admin".into(), vec![("can_ban".into(), grant())]),
            ("user".into(), vec![("can_ban".into(), deny())]),
        ],
        server_default: vec![],
    };
    let ergebnis = berechtigungen_aufloesen(&eingabe);
    let perm = ergebnis.get("can_ban").unwrap();
    assert_eq!(perm.wert, grant());
}

#[test]
fn aufloesen_nur_skip_ergibt_keinen_eintrag() {
    let eingabe = BerechtigungsEingabe {
        individual: vec![("can_speak".into(), skip())],
        kanal_gruppe: None,
        kanal_default: vec![("can_speak".into(), skip())],
        server_gruppen: vec![],
        server_default: vec![],
    };
    let ergebnis = berechtigungen_aufloesen(&eingabe);
    assert!(ergebnis.get("can_speak").is_none());
    assert_eq!(ergebnis.len(), 0);
}

#[test]
fn aufloesen_server_gruppe_traegt_gruppennamen() {
    let eingabe = BerechtigungsEingabe {
        individual: vec![],
        kanal_gruppe: None,
        kanal_default: vec![],
        server_gruppen: vec![("mods".into(), vec![("can_kick".into(), grant())])],
        server_default: vec![],
    };
    let ergebnis = berechtigungen_aufloesen(&eingabe);
    let perm = ergebnis.get("can_kick").unwrap();
    assert_eq!(perm.stufe, BerechtigungsStufe::ServerGruppe { name: "mods".into() });
    assert_eq!(perm.stufe.als_string(), "ServerGruppe(mods)");
}

#[test]
fn aufloesen_konflikt_auf_gleicher_ebene_deny_gewinnt() {
    let eingabe = BerechtigungsEingabe {
        individual: vec![("k".into(), grant()), ("k".into(), deny())],
        kanal_gruppe: None,
        kanal_default: vec![],
        server_gruppen: vec![],
        server_default: vec![],
    };
    let ergebnis = berechtigungen_aufloesen(&eingabe);
    let perm = ergebnis.get("k").unwrap();
    assert_eq!(perm.wert, deny());
    assert_eq!(perm.stufe, BerechtigungsStufe::Individual);
    assert_eq!(ergebnis.len(), 1);
}

#[test]
fn aufloesen_skip_neben_grant_auf_gleicher_ebene() {
    let eingabe = BerechtigungsEingabe {
        individual: vec![],
        kanal_gruppe: Some(vec![("k".into(), skip()), ("k".into(), grant())]),
        kanal_default: vec![("k".into(), deny())],
        server_gruppen: vec![],
        server_default: vec![],
    };
    let ergebnis = berechtigungen_aufloesen(&eingabe);
    let perm = ergebnis.get("k").unwrap();
    assert_eq!(perm.wert, grant());
    assert_eq!(perm.stufe, BerechtigungsStufe::KanalGruppe);
}

#[test]
fn aufloesen_limits_und_scopes_auf_gleicher_ebene() {
    let eingabe = BerechtigungsEingabe {
        individual: vec![],
        kanal_gruppe: None,
        kanal_default: vec![],
        server_gruppen: vec![(
            "mods".into(),
            vec![
                ("max_upload".into(), BerechtigungsWert::IntLimit(100)),
                ("bereich".into(), BerechtigungsWert::Scope(vec!["a".into(), "b".into()])),
                ("max_upload".into(), BerechtigungsWert::IntLimit(40)),
                ("bereich".into(), BerechtigungsWert::Scope(vec![])),
                ("bereich".into(), BerechtigungsWert::Scope(vec!["b".into(), "c".into()])),
            ],
        )],
        server_default: vec![("max_upload".into(), BerechtigungsWert::IntLimit(1))],
    };
    let ergebnis = berechtigungen_aufloesen(&eingabe);
    assert_eq!(ergebnis.len(), 2);
    assert_eq!(ergebnis.eintraege[0].permission_key, "max_upload");
    assert_eq!(ergebnis.eintraege[0].wert, BerechtigungsWert::IntLimit(40));
    assert_eq!(ergebnis.eintraege[0].stufe, BerechtigungsStufe::ServerGruppe { name: "mods".into() });
    assert_eq!(ergebnis.eintraege[1].permission_key, "bereich");
    assert_eq!(ergebnis.eintraege[1].wert, BerechtigungsWert::Scope(vec!["b".into()]));
}

#[test]
fn kanal_typ_namen_und_einlesen() {
    assert_eq!(KanalTyp::Voice.als_str(), "voice");
    assert_eq!(KanalTyp::Text.als_str(), "text");
    assert_eq!("text".parse::<KanalTyp>(), Ok(KanalTyp::Text));
    assert_eq!(
        KanalTyp::aus_str("video"),
        Err("Unbekannter Kanal-Typ: video".to_string())
    );
}

#[test]
fn tristate_int_rundreise() {
    for t in [TriState::Grant, TriState::Deny, TriState::Skip] {
        assert_eq!(TriState::from_opt_int(t.to_opt_int()), t);
    }
    assert_eq!(TriState::from_opt_int(Some(7)), TriState::Deny);
    assert_eq!(TriState::from_opt_int(None), TriState::Skip);
}

#[test]
fn berechtigungsziel_typ_und_id() {
    assert_eq!(BerechtigungsZiel::ServerDefault.typ_str(), "server_default");
    assert_eq!(BerechtigungsZiel::ServerDefault.id(), None);
    assert_eq!(BerechtigungsZiel::KanalGruppe(5).typ_str(), "channel_group");
    assert_eq!(BerechtigungsZiel::KanalGruppe(5).id(), Some(5));
}

#[test]
fn neuer_kanal_standardwerte() {
    let k = NeuerKanal::default();
    assert_eq!(k.name, "");
    assert_eq!(k.channel_type, KanalTyp::Voice);
    assert_eq!(k.sort_order, 0);
}

#[test]
fn benutzer_update_sql_nur_gesetzte_felder() {
    assert_eq!(benutzer_update_sql(&BenutzerUpdate::default()), None);
    let d = BenutzerUpdate {
        username: Some("neu".into()),
        is_active: Some(false),
        ..Default::default()
    };
    assert_eq!(
        benutzer_update_sql(&d).unwrap(),
        "UPDATE users SET username = ?, is_active = ? WHERE id = ?"
    );
}

#[test]
fn kanal_update_sql_nur_gesetzte_felder() {
    assert_eq!(kanal_update_sql(&KanalUpdate::default()), None);
    let d = KanalUpdate {
        topic: Some(None),
        sort_order: Some(3),
        ..Default::default()
    };
    assert_eq!(
        kanal_update_sql(&d).unwrap(),
        "UPDATE channels SET topic = ?, sort_order = ? WHERE id = ?"
    );
}

#[test]
fn audit_abfragen() {
    let leer = AuditLogFilter::default();
    assert_eq!(audit_where_klausel(&leer), "");
    assert_eq!(audit_count_sql(&leer), "SELECT COUNT(*) as cnt FROM audit_log ");
    let f = AuditLogFilter {
        action: Some("kick".into()),
        since: Some(10),
        limit: Some(5),
        offset: Some(-2),
        ..Default::default()
    };
    assert_eq!(audit_where_klausel(&f), "WHERE action = ? AND timestamp >= ?");
    let list = audit_list_sql(&f);
    assert!(list.starts_with("SELECT id, actor_id, action, target_type, target_id, details_json, timestamp"));
    assert!(list.contains("WHERE action = ? AND timestamp >= ?"));
    assert!(list.contains("ORDER BY timestamp DESC"));
    assert!(list.ends_with("LIMIT 5 OFFSET -2"));
}

fn einladung(max_uses: i64, used_count: i64, expires_at: Option<i64>) -> EinladungRecord {
    EinladungRecord {
        id: 1,
        code: "abc".into(),
        channel_id: None,
        assigned_group_id: None,
        max_uses,
        used_count,
        expires_at,
        created_by: 2,
        created_at: 0,
    }
}

#[test]
fn einladung_regeln() {
    assert!(einladung_pruefen(&einladung(0, 100, None), 50).is_ok());
    assert!(einladung_pruefen(&einladung(3, 2, Some(60)), 50).is_ok());
    assert!(matches!(
        einladung_pruefen(&einladung(3, 3, None), 50),
        Err(DbError::EinladungErschoepft)
    ));
    assert!(matches!(
        einladung_pruefen(&einladung(3, 3, Some(40)), 50),
        Err(DbError::EinladungUngueltig)
    ));
    assert!(einladung_pruefen(&einladung(1, 0, Some(50)), 50).is_ok());
}

#[test]
fn db_fehler_meldungen_und_eindeutigkeit() {
    assert_eq!(DbError::nicht_gefunden("x").meldung(), "Datensatz nicht gefunden: x");
    assert_eq!(DbError::intern("y").meldung(), "Interner DB-Fehler: y");
    assert_eq!(
        DbError::EinladungErschoepft.meldung(),
        "Einladung erschoepft (max_uses erreicht)"
    );
    assert!(DbError::Eindeutigkeit("z".into()).ist_eindeutigkeit());
    assert!(!DbError::intern("UNIQUE").ist_eindeutigkeit());
    assert!(ist_unique_meldung("UNIQUE constraint failed: users.username"));
    assert!(ist_unique_meldung("violates unique index"));
    assert!(!ist_unique_meldung("Unique"));
    let sqlx_fehler = DbError::Sqlx(sqlx::Error::Protocol("UNIQUE constraint failed".into()));
    assert!(sqlx_fehler.ist_eindeutigkeit());
    let sqlx_anders = DbError::Sqlx(sqlx::Error::RowNotFound);
    assert!(!sqlx_anders.ist_eindeutigkeit());
}

#[test]
fn datenbank_konfiguration() {
    assert_eq!(DatabaseBackend::Sqlite.als_str(), "SQLite");
    assert_eq!(DatabaseBackend::Postgres.als_str(), "PostgreSQL");
    let c = DatabaseConfig::default();
    assert_eq!(c.backend, DatabaseBackend::Sqlite);
}

#[test]
fn uuid_schreiben_und_lesen() {
    let wert: u128 = 0x0123_4567_89ab_4def_8123_4567_89ab_cdef;
    let text = kennung_als_text(wert);
    assert_eq!(text, "01234567-89ab-4def-8123-456789abcdef");
    assert_eq!(uuid_lesen(&text, "Ungueltige UUID").unwrap(), wert);
    match uuid_lesen("kaputt", "Ungueltige Kanal-UUID 'kaputt'") {
        Err(DbError::Intern(m)) => assert!(m.starts_with("Ungueltige Kanal-UUID 'kaputt': ")),
        _ => panic!("interner Fehler erwartet"),
    }
}

#[test]
fn zeit_schreiben_und_lesen() {
    let text = zeit_als_text(947638923004).unwrap();
    assert_eq!(text, "2000-01-12T01:02:03.004+00:00");
    assert_eq!(zeit_lesen(&text, "t").unwrap(), 947638923004);
    assert_eq!(zeit_lesen("1996-12-19T16:39:57-08:00", "t").unwrap(), 851042397000);
    match zeit_lesen("gestern", "Ungueltige created_at 'gestern'") {
        Err(DbError::Intern(m)) => assert!(m.starts_with("Ungueltige created_at 'gestern': ")),
        _ => panic!("interner Fehler erwartet"),
    }
    assert!(zeit_als_text(i64::MAX).is_none());
}

#[test]
fn berechtigungswert_spalten() {
    let (art, ts, lim, json) = wert_zu_spalten(&grant()).unwrap();
    assert_eq!((art, ts, lim, json), ("tri_state", Some(1), None, None));
    let (art, ts, lim, json) = wert_zu_spalten(&skip()).unwrap();
    assert_eq!((art, ts, lim, json), ("tri_state", None, None, None));
    let (art, ts, lim, json) = wert_zu_spalten(&BerechtigungsWert::IntLimit(7)).unwrap();
    assert_eq!((art, ts, lim, json), ("int_limit", None, Some(7), None));
    let scope = vec!["a\"b".to_string(), "c".to_string()];
    let (art, _, _, json) = wert_zu_spalten(&BerechtigungsWert::Scope(scope.clone())).unwrap();
    assert_eq!(art, "scope");
    let json = json.unwrap();
    assert_eq!(json, r#"["a\"b","c"]"#);
    assert_eq!(scope_lesen(&json).unwrap(), scope);
    assert!(matches!(scope_lesen("{kaputt"), Err(DbError::Intern(_))));
    assert_eq!(wert_art("scope").unwrap(), WertArt::Scope);
    assert_eq!(wert_art("int_limit").unwrap(), WertArt::IntLimit);
    match wert_art("bool") {
        Err(DbError::Intern(m)) => assert_eq!(m, "Unbekannter value_type: bool"),
        _ => panic!("interner Fehler erwartet"),
    }
}

#[test]
fn aktive_werte() {
    assert!(ist_aktiv(&grant()));
    assert!(ist_aktiv(&deny()));
    assert!(!ist_aktiv(&skip()));
    assert!(ist_aktiv(&BerechtigungsWert::IntLimit(0)));
    assert!(!ist_aktiv(&BerechtigungsWert::Scope(vec![])));
    assert!(ist_aktiv(&BerechtigungsWert::Scope(vec!["x".into()])));
}
