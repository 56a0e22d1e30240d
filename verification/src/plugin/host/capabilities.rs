//! Capability-Modell: was ein Plugin darf.

use crate::plugin::manifest::Capabilities;
use crate::text::{anhaengen_falls, falls, lemma_falls_anhaengen, str_gleich, teile_sicht};
use vstd::prelude::*;

verus! {

/// Ob die benannte Faehigkeit in den Capabilities aktiviert ist; unbekannte Namen nie.
pub open spec fn faehigkeit_spec(caps: Capabilities, f: Seq<char>) -> bool {
    if f == "filesystem"@ {
        caps.filesystem
    } else if f == "network"@ {
        caps.network
    } else if f == "audio_read"@ {
        caps.audio_read
    } else if f == "audio_write"@ {
        caps.audio_write
    } else if f == "chat_read"@ {
        caps.chat_read
    } else if f == "chat_write"@ {
        caps.chat_write
    } else if f == "user_management"@ {
        caps.user_management
    } else if f == "server_config"@ {
        caps.server_config
    } else {
        false
    }
}

/// Die Namen der aktivierten Faehigkeiten in fester Reihenfolge.
pub open spec fn aktiviert_spec(caps: Capabilities) -> Seq<Seq<char>> {
    falls(caps.filesystem, "filesystem"@) + falls(caps.network, "network"@) + falls(
        caps.audio_read,
        "audio_read"@,
    ) + falls(caps.audio_write, "audio_write"@) + falls(caps.chat_read, "chat_read"@) + falls(
        caps.chat_write,
        "chat_write"@,
    ) + falls(caps.user_management, "user_management"@) + falls(
        caps.server_config,
        "server_config"@,
    )
}

/// Die acht Faehigkeitsnamen sind paarweise verschieden.
proof fn lemma_namen_verschieden()
    ensures
        "filesystem"@ != "network"@,
        "filesystem"@ != "audio_read"@,
        "filesystem"@ != "audio_write"@,
        "filesystem"@ != "chat_read"@,
        "filesystem"@ != "chat_write"@,
        "filesystem"@ != "user_management"@,
        "filesystem"@ != "server_config"@,
        "network"@ != "audio_read"@,
        "network"@ != "audio_write"@,
        "network"@ != "chat_read"@,
        "network"@ != "chat_write"@,
        "network"@ != "user_management"@,
        "network"@ != "server_config"@,
        "audio_read"@ != "audio_write"@,
        "audio_read"@ != "chat_read"@,
        "audio_read"@ != "chat_write"@,
        "audio_read"@ != "user_management"@,
        "audio_read"@ != "server_config"@,
        "audio_write"@ != "chat_read"@,
        "audio_write"@ != "chat_write"@,
        "audio_write"@ != "user_management"@,
        "audio_write"@ != "server_config"@,
        "chat_read"@ != "chat_write"@,
        "chat_read"@ != "user_management"@,
        "chat_read"@ != "server_config"@,
        "chat_write"@ != "user_management"@,
        "chat_write"@ != "server_config"@,
        "user_management"@ != "server_config"@,
{
    reveal_strlit("filesystem");
    reveal_strlit("network");
    reveal_strlit("audio_read");
    reveal_strlit("audio_write");
    reveal_strlit("chat_read");
    reveal_strlit("chat_write");
    reveal_strlit("user_management");
    reveal_strlit("server_config");
    assert("filesystem"@.len() == 10 && "network"@.len() == 7 && "audio_read"@.len() == 10);
    assert("audio_write"@.len() == 11 && "chat_read"@.len() == 9 && "chat_write"@.len() == 10);
    assert("user_management"@.len() == 15 && "server_config"@.len() == 13);
    assert("filesystem"@[0] == 'f' && "audio_read"@[0] == 'a' && "chat_write"@[0] == 'c');
}

/// Gesetz: die Liste der aktivierten Faehigkeiten enthaelt jeden Namen hoechstens einmal, und
/// genau die Namen, fuer die `hat_faehigkeit` gilt.
pub proof fn gesetz_aktivierte_faehigkeiten(caps: Capabilities)
    ensures
        aktiviert_spec(caps).no_duplicates(),
        forall|f: Seq<char>| #[trigger] aktiviert_spec(caps).contains(f) <==> faehigkeit_spec(caps, f),
{
    lemma_namen_verschieden();
    let n0 = "filesystem"@;
    let n1 = "network"@;
    let n2 = "audio_read"@;
    let n3 = "audio_write"@;
    let n4 = "chat_read"@;
    let n5 = "chat_write"@;
    let n6 = "user_management"@;
    let n7 = "server_config"@;
    let s0 = Seq::<Seq<char>>::empty();
    let s1 = s0 + falls(caps.filesystem, n0);
    let s2 = s1 + falls(caps.network, n1);
    let s3 = s2 + falls(caps.audio_read, n2);
    let s4 = s3 + falls(caps.audio_write, n3);
    let s5 = s4 + falls(caps.chat_read, n4);
    let s6 = s5 + falls(caps.chat_write, n5);
    let s7 = s6 + falls(caps.user_management, n6);
    let s8 = s7 + falls(caps.server_config, n7);
    lemma_falls_anhaengen(s0, caps.filesystem, n0);
    assert(!s1.contains(n1));
    lemma_falls_anhaengen(s1, caps.network, n1);
    assert(!s2.contains(n2));
    lemma_falls_anhaengen(s2, caps.audio_read, n2);
    assert(!s3.contains(n3));
    lemma_falls_anhaengen(s3, caps.audio_write, n3);
    assert(!s4.contains(n4));
    lemma_falls_anhaengen(s4, caps.chat_read, n4);
    assert(!s5.contains(n5));
    lemma_falls_anhaengen(s5, caps.chat_write, n5);
    assert(!s6.contains(n6));
    lemma_falls_anhaengen(s6, caps.user_management, n6);
    assert(!s7.contains(n7));
    lemma_falls_anhaengen(s7, caps.server_config, n7);
    assert(s1 =~= falls(caps.filesystem, n0));
    assert(s8 == aktiviert_spec(caps));
    assert forall|f: Seq<char>| #[trigger] s8.contains(f) <==> faehigkeit_spec(caps, f) by {
        assert(s8.contains(f) <==> (s7.contains(f) || (caps.server_config && f == n7)));
        assert(s7.contains(f) <==> (s6.contains(f) || (caps.user_management && f == n6)));
        assert(s6.contains(f) <==> (s5.contains(f) || (caps.chat_write && f == n5)));
        assert(s5.contains(f) <==> (s4.contains(f) || (caps.chat_read && f == n4)));
        assert(s4.contains(f) <==> (s3.contains(f) || (caps.audio_write && f == n3)));
        assert(s3.contains(f) <==> (s2.contains(f) || (caps.audio_read && f == n2)));
        assert(s2.contains(f) <==> (s1.contains(f) || (caps.network && f == n1)));
        assert(s1.contains(f) <==> (s0.contains(f) || (caps.filesystem && f == n0)));
        assert(!s0.contains(f));
    }
}

/// Gesetz: jeder Faehigkeitsname liest sein eigenes Feld der Capabilities, und ein unbekannter
/// Name ist nie erlaubt; die Liste der aktivierten Faehigkeiten fuehrt einen Namen genau dann,
/// wenn sein Feld gesetzt ist.
pub proof fn gesetz_faehigkeit_je_feld(caps: Capabilities)
    ensures
        faehigkeit_spec(caps, "filesystem"@) == caps.filesystem,
        faehigkeit_spec(caps, "network"@) == caps.network,
        faehigkeit_spec(caps, "audio_read"@) == caps.audio_read,
        faehigkeit_spec(caps, "audio_write"@) == caps.audio_write,
        faehigkeit_spec(caps, "chat_read"@) == caps.chat_read,
        faehigkeit_spec(caps, "chat_write"@) == caps.chat_write,
        faehigkeit_spec(caps, "user_management"@) == caps.user_management,
        faehigkeit_spec(caps, "server_config"@) == caps.server_config,
        forall|f: Seq<char>| (f != "filesystem"@ && f != "network"@ && f != "audio_read"@ && f != "audio_write"@ && f != "chat_read"@ && f != "chat_write"@ && f != "user_management"@ && f != "server_config"@) ==> !faehigkeit_spec(caps, f),
        aktiviert_spec(caps).contains("filesystem"@) == caps.filesystem,
        aktiviert_spec(caps).contains("network"@) == caps.network,
        aktiviert_spec(caps).contains("audio_read"@) == caps.audio_read,
        aktiviert_spec(caps).contains("audio_write"@) == caps.audio_write,
        aktiviert_spec(caps).contains("chat_read"@) == caps.chat_read,
        aktiviert_spec(caps).contains("chat_write"@) == caps.chat_write,
        aktiviert_spec(caps).contains("user_management"@) == caps.user_management,
        aktiviert_spec(caps).contains("server_config"@) == caps.server_config,
{
    lemma_namen_verschieden();
    gesetz_aktivierte_faehigkeiten(caps);
}

/// Die Meldung fuer eine nicht deklarierte Faehigkeit.
pub open spec fn nicht_deklariert_meldung(cap: Seq<char>) -> Seq<char> {
    "Capability '"@ + cap + "' nicht deklariert"@
}

/// Prueft ob eine bestimmte Faehigkeit in den Capabilities aktiviert ist.
pub fn hat_faehigkeit(caps: &Capabilities, faehigkeit: &str) -> (r: bool)
    ensures
        r == faehigkeit_spec(*caps, faehigkeit@),
{
    if str_gleich(faehigkeit, "filesystem") {
        caps.filesystem
    } else if str_gleich(faehigkeit, "network") {
        caps.network
    } else if str_gleich(faehigkeit, "audio_read") {
        caps.audio_read
    } else if str_gleich(faehigkeit, "audio_write") {
        caps.audio_write
    } else if str_gleich(faehigkeit, "chat_read") {
        caps.chat_read
    } else if str_gleich(faehigkeit, "chat_write") {
        caps.chat_write
    } else if str_gleich(faehigkeit, "user_management") {
        caps.user_management
    } else if str_gleich(faehigkeit, "server_config") {
        caps.server_config
    } else {
        false
    }
}

/// Alle aktivierten Capabilities als Namensliste.
pub fn aktivierte_faehigkeiten(caps: &Capabilities) -> (r: Vec<&'static str>)
    ensures
        teile_sicht(r@) == aktiviert_spec(*caps),
{
    let mut liste: Vec<&'static str> = Vec::new();
    assert(teile_sicht(liste@) =~= Seq::<Seq<char>>::empty());
    anhaengen_falls(&mut liste, caps.filesystem, "filesystem");
    anhaengen_falls(&mut liste, caps.network, "network");
    anhaengen_falls(&mut liste, caps.audio_read, "audio_read");
    anhaengen_falls(&mut liste, caps.audio_write, "audio_write");
    anhaengen_falls(&mut liste, caps.chat_read, "chat_read");
    anhaengen_falls(&mut liste, caps.chat_write, "chat_write");
    anhaengen_falls(&mut liste, caps.user_management, "user_management");
    anhaengen_falls(&mut liste, caps.server_config, "server_config");
    assert(Seq::<Seq<char>>::empty() + falls(caps.filesystem, "filesystem"@) =~= falls(
        caps.filesystem,
        "filesystem"@,
    ));
    liste
}

/// Prueft ob alle benoetigten Capabilities deklariert sind; die erste fehlende wird gemeldet.
pub fn capabilities_pruefen(deklariert: &Capabilities, benoetigt: &[&str]) -> (r: Result<
    (),
    String,
>)
    ensures
        r is Ok <==> forall|i: int|
            0 <= i < benoetigt@.len() ==> faehigkeit_spec(*deklariert, #[trigger] benoetigt@[i]@),
        r matches Err(m) ==> exists|i: int|
            0 <= i < benoetigt@.len() && !faehigkeit_spec(*deklariert, #[trigger] benoetigt@[i]@)
                && (forall|j: int| 0 <= j < i ==> faehigkeit_spec(*deklariert, benoetigt@[j]@))
                && m@ == nicht_deklariert_meldung(benoetigt@[i]@),
{
    let mut i: usize = 0;
    while i < benoetigt.len()
        invariant
            i <= benoetigt@.len(),
            forall|j: int| 0 <= j < i ==> faehigkeit_spec(*deklariert, #[trigger] benoetigt@[j]@),
        decreases benoetigt@.len() - i,
    {
        let cap = benoetigt[i];
        if !hat_faehigkeit(deklariert, cap) {
            let mut m = String::from_str("Capability '");
            m.append(cap);
            m.append("' nicht deklariert");
            return Err(m);
        }
        i = i + 1;
    }
    Ok(())
}

} // verus!
