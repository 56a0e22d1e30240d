//! Aufbau der dynamischen SQL-Anweisungen und die Regeln fuer Einladungen.
//!
//! Die Platzhalter `?` werden in der Reihenfolge der erzeugten Spalten bzw. Bedingungen
//! gebunden, danach gegebenenfalls die Kennung.

use crate::db::error::DbError;
use crate::db::models::{AuditLogFilter, BenutzerUpdate, EinladungRecord, KanalUpdate};
use crate::text::{
    anhaengen_falls, falls, ganzzahl_anhaengen, ganzzahl_spec, lemma_falls_anhaengen, teile_sicht,
    verbinden, verbinden_exec,
};
use vstd::prelude::*;

verus! {

/// Die zu aendernden Spalten einer Benutzer-Aktualisierung.
pub open spec fn benutzer_spalten(d: BenutzerUpdate) -> Seq<Seq<char>> {
    falls(d.username is Some, "username = ?"@) + falls(d.password_hash is Some, "password_hash = ?"@)
        + falls(d.is_active is Some, "is_active = ?"@) + falls(
        d.last_login is Some,
        "last_login = ?"@,
    )
}

/// Die UPDATE-Anweisung fuer Benutzer; `None`, wenn kein Feld gesetzt ist.
pub open spec fn benutzer_update_sql_spec(d: BenutzerUpdate) -> Option<Seq<char>> {
    if benutzer_spalten(d).len() == 0 {
        None
    } else {
        Some("UPDATE users SET "@ + verbinden(benutzer_spalten(d), ", "@) + " WHERE id = ?"@)
    }
}

/// Baut die UPDATE-Anweisung fuer die gesetzten Felder einer Benutzer-Aktualisierung.
pub fn benutzer_update_sql(d: &BenutzerUpdate) -> (r: Option<String>)
    ensures
        match r {
            None => benutzer_update_sql_spec(*d) is None,
            Some(s) => benutzer_update_sql_spec(*d) == Some(s@),
        },
{
    let mut sets: Vec<&'static str> = Vec::new();
    anhaengen_falls(&mut sets, d.username.is_some(), "username = ?");
    anhaengen_falls(&mut sets, d.password_hash.is_some(), "password_hash = ?");
    anhaengen_falls(&mut sets, d.is_active.is_some(), "is_active = ?");
    anhaengen_falls(&mut sets, d.last_login.is_some(), "last_login = ?");
    assert(teile_sicht(sets@) =~= benutzer_spalten(*d));
    if sets.len() == 0 {
        return None;
    }
    let mut s = String::from_str("UPDATE users SET ");
    let teile = verbinden_exec(&sets, ", ");
    s.append(teile.as_str());
    s.append(" WHERE id = ?");
    Some(s)
}

/// Die zu aendernden Spalten einer Kanal-Aktualisierung.
pub open spec fn kanal_spalten(d: KanalUpdate) -> Seq<Seq<char>> {
    falls(d.name is Some, "name = ?"@) + falls(d.parent_id is Some, "parent_id = ?"@) + falls(
        d.topic is Some,
        "topic = ?"@,
    ) + falls(d.password_hash is Some, "password_hash = ?"@) + falls(
        d.max_clients is Some,
        "max_clients = ?"@,
    ) + falls(d.is_default is Some, "is_default = ?"@) + falls(
        d.sort_order is Some,
        "sort_order = ?"@,
    )
}

/// Die UPDATE-Anweisung fuer Kanaele; `None`, wenn kein Feld gesetzt ist.
pub open spec fn kanal_update_sql_spec(d: KanalUpdate) -> Option<Seq<char>> {
    if kanal_spalten(d).len() == 0 {
        None
    } else {
        Some("UPDATE channels SET "@ + verbinden(kanal_spalten(d), ", "@) + " WHERE id = ?"@)
    }
}

/// Baut die UPDATE-Anweisung fuer die gesetzten Felder einer Kanal-Aktualisierung.
pub fn kanal_update_sql(d: &KanalUpdate) -> (r: Option<String>)
    ensures
        match r {
            None => kanal_update_sql_spec(*d) is None,
            Some(s) => kanal_update_sql_spec(*d) == Some(s@),
        },
{
    let mut sets: Vec<&'static str> = Vec::new();
    anhaengen_falls(&mut sets, d.name.is_some(), "name = ?");
    anhaengen_falls(&mut sets, d.parent_id.is_some(), "parent_id = ?");
    anhaengen_falls(&mut sets, d.topic.is_some(), "topic = ?");
    anhaengen_falls(&mut sets, d.password_hash.is_some(), "password_hash = ?");
    anhaengen_falls(&mut sets, d.max_clients.is_some(), "max_clients = ?");
    anhaengen_falls(&mut sets, d.is_default.is_some(), "is_default = ?");
    anhaengen_falls(&mut sets, d.sort_order.is_some(), "sort_order = ?");
    assert(teile_sicht(sets@) =~= kanal_spalten(*d));
    if sets.len() == 0 {
        return None;
    }
    let mut s = String::from_str("UPDATE channels SET ");
    let teile = verbinden_exec(&sets, ", ");
    s.append(teile.as_str());
    s.append(" WHERE id = ?");
    Some(s)
}

/// Die Bedingungen eines Audit-Log-Filters, in Bindungsreihenfolge.
pub open spec fn audit_bedingungen(f: AuditLogFilter) -> Seq<Seq<char>> {
    falls(f.actor_id is Some, "actor_id = ?"@) + falls(f.action is Some, "action = ?"@) + falls(
        f.target_type is Some,
        "target_type = ?"@,
    ) + falls(f.target_id is Some, "target_id = ?"@) + falls(f.since is Some, "timestamp >= ?"@)
        + falls(f.until is Some, "timestamp <= ?"@)
}

/// Die WHERE-Klausel eines Audit-Log-Filters (leer ohne Bedingungen).
pub open spec fn audit_where_spec(f: AuditLogFilter) -> Seq<char> {
    if audit_bedingungen(f).len() == 0 {
        Seq::empty()
    } else {
        "WHERE "@ + verbinden(audit_bedingungen(f), " AND "@)
    }
}

/// Baut die WHERE-Klausel eines Audit-Log-Filters.
pub fn audit_where_klausel(f: &AuditLogFilter) -> (r: String)
    ensures
        r@ == audit_where_spec(*f),
{
    let mut c: Vec<&'static str> = Vec::new();
    anhaengen_falls(&mut c, f.actor_id.is_some(), "actor_id = ?");
    anhaengen_falls(&mut c, f.action.is_some(), "action = ?");
    anhaengen_falls(&mut c, f.target_type.is_some(), "target_type = ?");
    anhaengen_falls(&mut c, f.target_id.is_some(), "target_id = ?");
    anhaengen_falls(&mut c, f.since.is_some(), "timestamp >= ?");
    anhaengen_falls(&mut c, f.until.is_some(), "timestamp <= ?");
    assert(teile_sicht(c@) =~= audit_bedingungen(*f));
    if c.len() == 0 {
        return String::new();
    }
    let mut s = String::from_str("WHERE ");
    let teile = verbinden_exec(&c, " AND ");
    s.append(teile.as_str());
    s
}

/// Eine Klausel `<wort> <zahl>`, falls die Zahl gesetzt ist, sonst leer.
pub open spec fn zahl_klausel(wort: Seq<char>, z: Option<i64>) -> Seq<char> {
    match z {
        Some(v) => wort + ganzzahl_spec(v as int),
        None => Seq::empty(),
    }
}

/// Die Abfrage der Audit-Log-Eintraege (neueste zuerst, mit LIMIT und OFFSET, falls gesetzt).
pub open spec fn audit_list_sql_spec(f: AuditLogFilter) -> Seq<char> {
    "SELECT id, actor_id, action, target_type, target_id, details_json, timestamp\n             FROM audit_log\n             "@
        + audit_where_spec(f) + "\n             ORDER BY timestamp DESC\n             "@
        + zahl_klausel("LIMIT "@, f.limit) + " "@ + zahl_klausel("OFFSET "@, f.offset)
}

/// Haengt `<wort> <zahl>` an, falls die Zahl gesetzt ist.
fn zahl_klausel_anhaengen(s: &mut String, wort: &str, z: Option<i64>)
    ensures
        final(s)@ == old(s)@ + zahl_klausel(wort@, z),
{
    match z {
        Some(v) => {
            s.append(wort);
            ganzzahl_anhaengen(s, v);
        },
        None => {
            assert(old(s)@ + Seq::<char>::empty() =~= old(s)@);
        },
    }
}

/// Baut die Abfrage der Audit-Log-Eintraege.
pub fn audit_list_sql(f: &AuditLogFilter) -> (r: String)
    ensures
        r@ == audit_list_sql_spec(*f),
{
    let mut s = String::from_str(
        "SELECT id, actor_id, action, target_type, target_id, details_json, timestamp\n             FROM audit_log\n             ",
    );
    let w = audit_where_klausel(f);
    s.append(w.as_str());
    s.append("\n             ORDER BY timestamp DESC\n             ");
    zahl_klausel_anhaengen(&mut s, "LIMIT ", f.limit);
    s.append(" ");
    zahl_klausel_anhaengen(&mut s, "OFFSET ", f.offset);
    s
}

/// Die Zaehlabfrage der Audit-Log-Eintraege.
pub open spec fn audit_count_sql_spec(f: AuditLogFilter) -> Seq<char> {
    "SELECT COUNT(*) as cnt FROM audit_log "@ + audit_where_spec(f)
}

/// Baut die Zaehlabfrage der Audit-Log-Eintraege.
pub fn audit_count_sql(f: &AuditLogFilter) -> (r: String)
    ensures
        r@ == audit_count_sql_spec(*f),
{
    let mut s = String::from_str("SELECT COUNT(*) as cnt FROM audit_log ");
    let w = audit_where_klausel(f);
    s.append(w.as_str());
    s
}

/// Prueft, ob eine Einladung zum Zeitpunkt `jetzt_ms` verwendet werden darf.
///
/// Abgelaufen (Ablauf vor `jetzt_ms`) ergibt `EinladungUngueltig`; ist ein Verbrauchslimit
/// gesetzt (`max_uses > 0`) und erreicht, ergibt das `EinladungErschoepft`.
pub fn einladung_pruefen(inv: &EinladungRecord, jetzt_ms: i64) -> (r: Result<(), DbError>)
    ensures
        (inv.expires_at matches Some(e)
            && e < jetzt_ms) ==> r matches Err(DbError::EinladungUngueltig),
        !(inv.expires_at matches Some(e) && e < jetzt_ms) && inv.max_uses > 0 && inv.used_count
            >= inv.max_uses ==> r matches Err(DbError::EinladungErschoepft),
        !(inv.expires_at matches Some(e) && e < jetzt_ms) && !(inv.max_uses > 0 && inv.used_count
            >= inv.max_uses) ==> r is Ok,
{
    if let Some(ablauf) = inv.expires_at {
        if ablauf < jetzt_ms {
            return Err(DbError::EinladungUngueltig);
        }
    }
    if inv.max_uses > 0 && inv.used_count >= inv.max_uses {
        return Err(DbError::EinladungErschoepft);
    }
    Ok(())
}

/// Die Spalten- bzw. Bedingungstexte sind paarweise verschieden.
proof fn lemma_benutzer_spalten_verschieden()
    ensures
        "username = ?"@ != "password_hash = ?"@,
        "username = ?"@ != "is_active = ?"@,
        "username = ?"@ != "last_login = ?"@,
        "password_hash = ?"@ != "is_active = ?"@,
        "password_hash = ?"@ != "last_login = ?"@,
        "is_active = ?"@ != "last_login = ?"@,
{
    reveal_strlit("username = ?");
    reveal_strlit("password_hash = ?");
    reveal_strlit("is_active = ?");
    reveal_strlit("last_login = ?");
    assert("username = ?"@.len() == 12
        && "password_hash = ?"@.len() == 17
        && "is_active = ?"@.len() == 13
        && "last_login = ?"@.len() == 14);
}

/// Gesetz: jedes gesetzte Feld einer Benutzer-Aktualisierung setzt genau seine eigene Spalte
/// (`username`, `password_hash`, `is_active`, `last_login`, in dieser Reihenfolge), keine andere
/// Spalte kommt vor, und ohne gesetztes Feld gibt es keine Anweisung.
pub proof fn gesetz_benutzer_update_spalten(d: BenutzerUpdate)
    ensures
        forall|c: Seq<char>| #[trigger] benutzer_spalten(d).contains(c) <==> ((c == "username = ?"@ && d.username is Some)
            || (c == "password_hash = ?"@ && d.password_hash is Some)
            || (c == "is_active = ?"@ && d.is_active is Some)
            || (c == "last_login = ?"@ && d.last_login is Some)),
        benutzer_spalten(d).no_duplicates(),
        benutzer_spalten(d).len() == (if d.username is Some { 1int } else { 0int })
            + (if d.password_hash is Some { 1int } else { 0int })
            + (if d.is_active is Some { 1int } else { 0int })
            + (if d.last_login is Some { 1int } else { 0int }),
        (d.username is Some
            && d.password_hash is Some
            && d.is_active is Some
            && d.last_login is Some) ==> benutzer_spalten(d) == seq!["username = ?"@, "password_hash = ?"@, "is_active = ?"@, "last_login = ?"@],
        benutzer_spalten(d).len() == 1 ==> benutzer_update_sql_spec(d) == Some("UPDATE users SET "@ + benutzer_spalten(d)[0] + " WHERE id = ?"@),
        benutzer_update_sql_spec(d) is None <==> (d.username is None
            && d.password_hash is None
            && d.is_active is None
            && d.last_login is None),
{
    lemma_benutzer_spalten_verschieden();
    let s0 = Seq::<Seq<char>>::empty();
    let s1 = s0 + falls(d.username is Some, "username = ?"@);
    let s2 = s1 + falls(d.password_hash is Some, "password_hash = ?"@);
    let s3 = s2 + falls(d.is_active is Some, "is_active = ?"@);
    let s4 = s3 + falls(d.last_login is Some, "last_login = ?"@);
    lemma_falls_anhaengen(s0, d.username is Some, "username = ?"@);
    assert(!s1.contains("password_hash = ?"@));
    lemma_falls_anhaengen(s1, d.password_hash is Some, "password_hash = ?"@);
    assert(!s2.contains("is_active = ?"@));
    lemma_falls_anhaengen(s2, d.is_active is Some, "is_active = ?"@);
    assert(!s3.contains("last_login = ?"@));
    lemma_falls_anhaengen(s3, d.last_login is Some, "last_login = ?"@);
    assert(s1 =~= falls(d.username is Some, "username = ?"@));
    assert(s4 == benutzer_spalten(d));
    assert forall|c: Seq<char>| #[trigger] s4.contains(c) <==> ((c == "username = ?"@ && d.username is Some)
        || (c == "password_hash = ?"@ && d.password_hash is Some)
        || (c == "is_active = ?"@ && d.is_active is Some)
        || (c == "last_login = ?"@ && d.last_login is Some)) by {
        assert(s1.contains(c) <==> (s0.contains(c)
            || (d.username is Some && c == "username = ?"@)));
        assert(s2.contains(c) <==> (s1.contains(c)
            || (d.password_hash is Some && c == "password_hash = ?"@)));
        assert(s3.contains(c) <==> (s2.contains(c)
            || (d.is_active is Some && c == "is_active = ?"@)));
        assert(s4.contains(c) <==> (s3.contains(c)
            || (d.last_login is Some && c == "last_login = ?"@)));
        assert(!s0.contains(c));
    }
    if d.username is Some
        && d.password_hash is Some
        && d.is_active is Some
        && d.last_login is Some {
        assert(s4 =~= seq!["username = ?"@,
            "password_hash = ?"@,
            "is_active = ?"@,
            "last_login = ?"@]);
    }
    if s4.len() == 1 {
        assert(verbinden(s4, ", "@) == s4[0]);
    }
}

/// Die Spalten- bzw. Bedingungstexte sind paarweise verschieden.
proof fn lemma_kanal_spalten_verschieden()
    ensures
        "name = ?"@ != "parent_id = ?"@,
        "name = ?"@ != "topic = ?"@,
        "name = ?"@ != "password_hash = ?"@,
        "name = ?"@ != "max_clients = ?"@,
        "name = ?"@ != "is_default = ?"@,
        "name = ?"@ != "sort_order = ?"@,
        "parent_id = ?"@ != "topic = ?"@,
        "parent_id = ?"@ != "password_hash = ?"@,
        "parent_id = ?"@ != "max_clients = ?"@,
        "parent_id = ?"@ != "is_default = ?"@,
        "parent_id = ?"@ != "sort_order = ?"@,
        "topic = ?"@ != "password_hash = ?"@,
        "topic = ?"@ != "max_clients = ?"@,
        "topic = ?"@ != "is_default = ?"@,
        "topic = ?"@ != "sort_order = ?"@,
        "password_hash = ?"@ != "max_clients = ?"@,
        "password_hash = ?"@ != "is_default = ?"@,
        "password_hash = ?"@ != "sort_order = ?"@,
        "max_clients = ?"@ != "is_default = ?"@,
        "max_clients = ?"@ != "sort_order = ?"@,
        "is_default = ?"@ != "sort_order = ?"@,
{
    reveal_strlit("name = ?");
    reveal_strlit("parent_id = ?");
    reveal_strlit("topic = ?");
    reveal_strlit("password_hash = ?");
    reveal_strlit("max_clients = ?");
    reveal_strlit("is_default = ?");
    reveal_strlit("sort_order = ?");
    assert("name = ?"@.len() == 8
        && "parent_id = ?"@.len() == 13
        && "topic = ?"@.len() == 9
        && "password_hash = ?"@.len() == 17
        && "max_clients = ?"@.len() == 15
        && "is_default = ?"@.len() == 14
        && "sort_order = ?"@.len() == 14);
    assert("is_default = ?"@[0] == 'i' && "sort_order = ?"@[0] == 's');
}

/// Gesetz: jedes gesetzte Feld einer Kanal-Aktualisierung setzt genau seine eigene Spalte
/// (`name`, `parent_id`, `topic`, `password_hash`, `max_clients`, `is_default`, `sort_order`, in
/// dieser Reihenfolge), keine andere Spalte kommt vor, und ohne gesetztes Feld gibt es keine
/// Anweisung; wird nur ein Feld gesetzt, aendert die Anweisung nur diese Spalte.
pub proof fn gesetz_kanal_update_spalten(d: KanalUpdate)
    ensures
        forall|c: Seq<char>| #[trigger] kanal_spalten(d).contains(c) <==> ((c == "name = ?"@ && d.name is Some)
            || (c == "parent_id = ?"@ && d.parent_id is Some)
            || (c == "topic = ?"@ && d.topic is Some)
            || (c == "password_hash = ?"@ && d.password_hash is Some)
            || (c == "max_clients = ?"@ && d.max_clients is Some)
            || (c == "is_default = ?"@ && d.is_default is Some)
            || (c == "sort_order = ?"@ && d.sort_order is Some)),
        kanal_spalten(d).no_duplicates(),
        kanal_spalten(d).len() == (if d.name is Some { 1int } else { 0int })
            + (if d.parent_id is Some { 1int } else { 0int })
            + (if d.topic is Some { 1int } else { 0int })
            + (if d.password_hash is Some { 1int } else { 0int })
            + (if d.max_clients is Some { 1int } else { 0int })
            + (if d.is_default is Some { 1int } else { 0int })
            + (if d.sort_order is Some { 1int } else { 0int }),
        (d.name is Some
            && d.parent_id is Some
            && d.topic is Some
            && d.password_hash is Some
            && d.max_clients is Some
            && d.is_default is Some
            && d.sort_order is Some) ==> kanal_spalten(d) == seq!["name = ?"@, "parent_id = ?"@, "topic = ?"@, "password_hash = ?"@, "max_clients = ?"@, "is_default = ?"@, "sort_order = ?"@],
        kanal_spalten(d).len() == 1 ==> kanal_update_sql_spec(d) == Some("UPDATE channels SET "@ + kanal_spalten(d)[0] + " WHERE id = ?"@),
        kanal_update_sql_spec(d) is None <==> (d.name is None
            && d.parent_id is None
            && d.topic is None
            && d.password_hash is None
            && d.max_clients is None
            && d.is_default is None
            && d.sort_order is None),
{
    lemma_kanal_spalten_verschieden();
    let s0 = Seq::<Seq<char>>::empty();
    let s1 = s0 + falls(d.name is Some, "name = ?"@);
    let s2 = s1 + falls(d.parent_id is Some, "parent_id = ?"@);
    let s3 = s2 + falls(d.topic is Some, "topic = ?"@);
    let s4 = s3 + falls(d.password_hash is Some, "password_hash = ?"@);
    let s5 = s4 + falls(d.max_clients is Some, "max_clients = ?"@);
    let s6 = s5 + falls(d.is_default is Some, "is_default = ?"@);
    let s7 = s6 + falls(d.sort_order is Some, "sort_order = ?"@);
    lemma_falls_anhaengen(s0, d.name is Some, "name = ?"@);
    assert(!s1.contains("parent_id = ?"@));
    lemma_falls_anhaengen(s1, d.parent_id is Some, "parent_id = ?"@);
    assert(!s2.contains("topic = ?"@));
    lemma_falls_anhaengen(s2, d.topic is Some, "topic = ?"@);
    assert(!s3.contains("password_hash = ?"@));
    lemma_falls_anhaengen(s3, d.password_hash is Some, "password_hash = ?"@);
    assert(!s4.contains("max_clients = ?"@));
    lemma_falls_anhaengen(s4, d.max_clients is Some, "max_clients = ?"@);
    assert(!s5.contains("is_default = ?"@));
    lemma_falls_anhaengen(s5, d.is_default is Some, "is_default = ?"@);
    assert(!s6.contains("sort_order = ?"@));
    lemma_falls_anhaengen(s6, d.sort_order is Some, "sort_order = ?"@);
    assert(s1 =~= falls(d.name is Some, "name = ?"@));
    assert(s7 == kanal_spalten(d));
    assert forall|c: Seq<char>| #[trigger] s7.contains(c) <==> ((c == "name = ?"@ && d.name is Some)
        || (c == "parent_id = ?"@ && d.parent_id is Some)
        || (c == "topic = ?"@ && d.topic is Some)
        || (c == "password_hash = ?"@ && d.password_hash is Some)
        || (c == "max_clients = ?"@ && d.max_clients is Some)
        || (c == "is_default = ?"@ && d.is_default is Some)
        || (c == "sort_order = ?"@ && d.sort_order is Some)) by {
        assert(s1.contains(c) <==> (s0.contains(c) || (d.name is Some && c == "name = ?"@)));
        assert(s2.contains(c) <==> (s1.contains(c)
            || (d.parent_id is Some && c == "parent_id = ?"@)));
        assert(s3.contains(c) <==> (s2.contains(c) || (d.topic is Some && c == "topic = ?"@)));
        assert(s4.contains(c) <==> (s3.contains(c)
            || (d.password_hash is Some && c == "password_hash = ?"@)));
        assert(s5.contains(c) <==> (s4.contains(c)
            || (d.max_clients is Some && c == "max_clients = ?"@)));
        assert(s6.contains(c) <==> (s5.contains(c)
            || (d.is_default is Some && c == "is_default = ?"@)));
        assert(s7.contains(c) <==> (s6.contains(c)
            || (d.sort_order is Some && c == "sort_order = ?"@)));
        assert(!s0.contains(c));
    }
    if d.name is Some
        && d.parent_id is Some
        && d.topic is Some
        && d.password_hash is Some
        && d.max_clients is Some
        && d.is_default is Some
        && d.sort_order is Some {
        assert(s7 =~= seq!["name = ?"@,
            "parent_id = ?"@,
            "topic = ?"@,
            "password_hash = ?"@,
            "max_clients = ?"@,
            "is_default = ?"@,
            "sort_order = ?"@]);
    }
    if s7.len() == 1 {
        assert(verbinden(s7, ", "@) == s7[0]);
    }
}

/// Die Spalten- bzw. Bedingungstexte sind paarweise verschieden.
proof fn lemma_audit_bedingungen_verschieden()
    ensures
        "actor_id = ?"@ != "action = ?"@,
        "actor_id = ?"@ != "target_type = ?"@,
        "actor_id = ?"@ != "target_id = ?"@,
        "actor_id = ?"@ != "timestamp >= ?"@,
        "actor_id = ?"@ != "timestamp <= ?"@,
        "action = ?"@ != "target_type = ?"@,
        "action = ?"@ != "target_id = ?"@,
        "action = ?"@ != "timestamp >= ?"@,
        "action = ?"@ != "timestamp <= ?"@,
        "target_type = ?"@ != "target_id = ?"@,
        "target_type = ?"@ != "timestamp >= ?"@,
        "target_type = ?"@ != "timestamp <= ?"@,
        "target_id = ?"@ != "timestamp >= ?"@,
        "target_id = ?"@ != "timestamp <= ?"@,
        "timestamp >= ?"@ != "timestamp <= ?"@,
{
    reveal_strlit("actor_id = ?");
    reveal_strlit("action = ?");
    reveal_strlit("target_type = ?");
    reveal_strlit("target_id = ?");
    reveal_strlit("timestamp >= ?");
    reveal_strlit("timestamp <= ?");
    assert("actor_id = ?"@.len() == 12
        && "action = ?"@.len() == 10
        && "target_type = ?"@.len() == 15
        && "target_id = ?"@.len() == 13
        && "timestamp >= ?"@.len() == 14
        && "timestamp <= ?"@.len() == 14);
    assert("timestamp >= ?"@[10] == '>' && "timestamp <= ?"@[10] == '<');
}

/// Gesetz: jedes gesetzte Filterfeld fuegt genau seine eigene Bedingung hinzu: Akteur, Aktion,
/// Zieltyp und Ziel-Kennung vergleichen auf Gleichheit, `since` ist eine untere Schranke
/// (`timestamp >= ?`) und `until` eine obere (`timestamp <= ?`); keine andere Bedingung kommt vor,
/// und ohne gesetztes Filterfeld ist die WHERE-Klausel leer.
pub proof fn gesetz_audit_bedingungen(f: AuditLogFilter)
    ensures
        forall|c: Seq<char>| #[trigger] audit_bedingungen(f).contains(c) <==> ((c == "actor_id = ?"@ && f.actor_id is Some)
            || (c == "action = ?"@ && f.action is Some)
            || (c == "target_type = ?"@ && f.target_type is Some)
            || (c == "target_id = ?"@ && f.target_id is Some)
            || (c == "timestamp >= ?"@ && f.since is Some)
            || (c == "timestamp <= ?"@ && f.until is Some)),
        audit_bedingungen(f).no_duplicates(),
        audit_bedingungen(f).len() == (if f.actor_id is Some { 1int } else { 0int })
            + (if f.action is Some { 1int } else { 0int })
            + (if f.target_type is Some { 1int } else { 0int })
            + (if f.target_id is Some { 1int } else { 0int })
            + (if f.since is Some { 1int } else { 0int })
            + (if f.until is Some { 1int } else { 0int }),
        (f.actor_id is Some
            && f.action is Some
            && f.target_type is Some
            && f.target_id is Some
            && f.since is Some
            && f.until is Some) ==> audit_bedingungen(f) == seq!["actor_id = ?"@, "action = ?"@, "target_type = ?"@, "target_id = ?"@, "timestamp >= ?"@, "timestamp <= ?"@],
        audit_bedingungen(f).len() == 1 ==> audit_where_spec(f) == "WHERE "@ + audit_bedingungen(f)[0],
        audit_where_spec(f).len() == 0 <==> (f.actor_id is None
            && f.action is None
            && f.target_type is None
            && f.target_id is None
            && f.since is None
            && f.until is None),
{
    lemma_audit_bedingungen_verschieden();
    let s0 = Seq::<Seq<char>>::empty();
    let s1 = s0 + falls(f.actor_id is Some, "actor_id = ?"@);
    let s2 = s1 + falls(f.action is Some, "action = ?"@);
    let s3 = s2 + falls(f.target_type is Some, "target_type = ?"@);
    let s4 = s3 + falls(f.target_id is Some, "target_id = ?"@);
    let s5 = s4 + falls(f.since is Some, "timestamp >= ?"@);
    let s6 = s5 + falls(f.until is Some, "timestamp <= ?"@);
    lemma_falls_anhaengen(s0, f.actor_id is Some, "actor_id = ?"@);
    assert(!s1.contains("action = ?"@));
    lemma_falls_anhaengen(s1, f.action is Some, "action = ?"@);
    assert(!s2.contains("target_type = ?"@));
    lemma_falls_anhaengen(s2, f.target_type is Some, "target_type = ?"@);
    assert(!s3.contains("target_id = ?"@));
    lemma_falls_anhaengen(s3, f.target_id is Some, "target_id = ?"@);
    assert(!s4.contains("timestamp >= ?"@));
    lemma_falls_anhaengen(s4, f.since is Some, "timestamp >= ?"@);
    assert(!s5.contains("timestamp <= ?"@));
    lemma_falls_anhaengen(s5, f.until is Some, "timestamp <= ?"@);
    assert(s1 =~= falls(f.actor_id is Some, "actor_id = ?"@));
    assert(s6 == audit_bedingungen(f));
    assert forall|c: Seq<char>| #[trigger] s6.contains(c) <==> ((c == "actor_id = ?"@ && f.actor_id is Some)
        || (c == "action = ?"@ && f.action is Some)
        || (c == "target_type = ?"@ && f.target_type is Some)
        || (c == "target_id = ?"@ && f.target_id is Some)
        || (c == "timestamp >= ?"@ && f.since is Some)
        || (c == "timestamp <= ?"@ && f.until is Some)) by {
        assert(s1.contains(c) <==> (s0.contains(c)
            || (f.actor_id is Some && c == "actor_id = ?"@)));
        assert(s2.contains(c) <==> (s1.contains(c) || (f.action is Some && c == "action = ?"@)));
        assert(s3.contains(c) <==> (s2.contains(c)
            || (f.target_type is Some && c == "target_type = ?"@)));
        assert(s4.contains(c) <==> (s3.contains(c)
            || (f.target_id is Some && c == "target_id = ?"@)));
        assert(s5.contains(c) <==> (s4.contains(c) || (f.since is Some && c == "timestamp >= ?"@)));
        assert(s6.contains(c) <==> (s5.contains(c) || (f.until is Some && c == "timestamp <= ?"@)));
        assert(!s0.contains(c));
    }
    if f.actor_id is Some
        && f.action is Some
        && f.target_type is Some
        && f.target_id is Some
        && f.since is Some
        && f.until is Some {
        assert(s6 =~= seq!["actor_id = ?"@,
            "action = ?"@,
            "target_type = ?"@,
            "target_id = ?"@,
            "timestamp >= ?"@,
            "timestamp <= ?"@]);
    }
    if s6.len() == 1 {
        assert(verbinden(s6, " AND "@) == s6[0]);
    }
    reveal_strlit("WHERE ");
}

} // verus!
