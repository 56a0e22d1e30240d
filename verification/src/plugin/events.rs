//! Ereignisse, die Plugins abonnieren koennen, und Ergebnisse von Hook-Aufrufen.

use vstd::prelude::*;

verus! {

/// Alle Ereignisse, die das Plugin-System aussendet.
#[derive(Debug, Clone)]
pub enum PluginEvent {
    /// Benutzer tritt einem Kanal bei.
    UserJoin { user_id: String, channel_id: String },
    /// Benutzer verlaesst einen Kanal.
    UserLeave { user_id: String, channel_id: String, reason: String },
    /// Chat-Nachricht wird gesendet.
    ChatMessage { channel_id: String, sender_id: String, content: String },
    /// Sprach-Uebertragung beginnt.
    VoiceStart { user_id: String, channel_id: String },
    /// Sprach-Uebertragung endet.
    VoiceStop { user_id: String, channel_id: String },
    /// Server wird gestartet.
    ServerStart,
    /// Server wird gestoppt.
    ServerStop,
    /// Kanal wird erstellt.
    ChannelCreate { channel_id: String, name: String },
    /// Kanal wird geloescht.
    ChannelDelete { channel_id: String },
}

/// Der Abonnement-Name eines Ereignisses.
pub open spec fn event_name_spec(e: PluginEvent) -> Seq<char> {
    match e {
        PluginEvent::UserJoin { .. } => "user_join"@,
        PluginEvent::UserLeave { .. } => "user_leave"@,
        PluginEvent::ChatMessage { .. } => "chat_message"@,
        PluginEvent::VoiceStart { .. } => "voice_start"@,
        PluginEvent::VoiceStop { .. } => "voice_stop"@,
        PluginEvent::ServerStart => "server_start"@,
        PluginEvent::ServerStop => "server_stop"@,
        PluginEvent::ChannelCreate { .. } => "channel_create"@,
        PluginEvent::ChannelDelete { .. } => "channel_delete"@,
    }
}

/// Die Ereignisnamen sind paarweise verschieden.
proof fn lemma_event_namen_verschieden()
    ensures
        "user_join"@ != "user_leave"@,
        "user_join"@ != "chat_message"@,
        "user_join"@ != "voice_start"@,
        "user_join"@ != "voice_stop"@,
        "user_join"@ != "server_start"@,
        "user_join"@ != "server_stop"@,
        "user_join"@ != "channel_create"@,
        "user_join"@ != "channel_delete"@,
        "user_leave"@ != "chat_message"@,
        "user_leave"@ != "voice_start"@,
        "user_leave"@ != "voice_stop"@,
        "user_leave"@ != "server_start"@,
        "user_leave"@ != "server_stop"@,
        "user_leave"@ != "channel_create"@,
        "user_leave"@ != "channel_delete"@,
        "chat_message"@ != "voice_start"@,
        "chat_message"@ != "voice_stop"@,
        "chat_message"@ != "server_start"@,
        "chat_message"@ != "server_stop"@,
        "chat_message"@ != "channel_create"@,
        "chat_message"@ != "channel_delete"@,
        "voice_start"@ != "voice_stop"@,
        "voice_start"@ != "server_start"@,
        "voice_start"@ != "server_stop"@,
        "voice_start"@ != "channel_create"@,
        "voice_start"@ != "channel_delete"@,
        "voice_stop"@ != "server_start"@,
        "voice_stop"@ != "server_stop"@,
        "voice_stop"@ != "channel_create"@,
        "voice_stop"@ != "channel_delete"@,
        "server_start"@ != "server_stop"@,
        "server_start"@ != "channel_create"@,
        "server_start"@ != "channel_delete"@,
        "server_stop"@ != "channel_create"@,
        "server_stop"@ != "channel_delete"@,
        "channel_create"@ != "channel_delete"@,
{
    reveal_strlit("user_join");
    reveal_strlit("user_leave");
    reveal_strlit("chat_message");
    reveal_strlit("voice_start");
    reveal_strlit("voice_stop");
    reveal_strlit("server_start");
    reveal_strlit("server_stop");
    reveal_strlit("channel_create");
    reveal_strlit("channel_delete");
    assert("user_join"@.len() == 9 && "user_leave"@.len() == 10 && "chat_message"@.len() == 12);
    assert("voice_start"@.len() == 11 && "voice_stop"@.len() == 10 && "server_start"@.len() == 12);
    assert("server_stop"@.len() == 11 && "channel_create"@.len() == 14 && "channel_delete"@.len() == 14);
    assert("user_leave"@[0] == 'u' && "voice_stop"@[0] == 'v');
    assert("chat_message"@[0] == 'c' && "server_start"@[0] == 's');
    assert("voice_start"@[0] == 'v' && "server_stop"@[0] == 's');
    assert("channel_create"@[8] == 'c' && "channel_delete"@[8] == 'd');
}

/// Gesetz: jedes Ereignis traegt seinen eigenen Namen, und kein Name steht fuer zwei Arten von
/// Ereignissen.
pub proof fn gesetz_event_namen(e: PluginEvent)
    ensures
        (event_name_spec(e) == "user_join"@) == (e is UserJoin),
        (event_name_spec(e) == "user_leave"@) == (e is UserLeave),
        (event_name_spec(e) == "chat_message"@) == (e is ChatMessage),
        (event_name_spec(e) == "voice_start"@) == (e is VoiceStart),
        (event_name_spec(e) == "voice_stop"@) == (e is VoiceStop),
        (event_name_spec(e) == "server_start"@) == (e is ServerStart),
        (event_name_spec(e) == "server_stop"@) == (e is ServerStop),
        (event_name_spec(e) == "channel_create"@) == (e is ChannelCreate),
        (event_name_spec(e) == "channel_delete"@) == (e is ChannelDelete),
{
    lemma_event_namen_verschieden();
}

impl PluginEvent {
    /// Der Ereignisname fuer den Abonnement-Vergleich.
    pub fn name(&self) -> (r: &'static str)
        ensures
            r@ == event_name_spec(*self),
    {
        match self {
            PluginEvent::UserJoin { .. } => "user_join",
            PluginEvent::UserLeave { .. } => "user_leave",
            PluginEvent::ChatMessage { .. } => "chat_message",
            PluginEvent::VoiceStart { .. } => "voice_start",
            PluginEvent::VoiceStop { .. } => "voice_stop",
            PluginEvent::ServerStart => "server_start",
            PluginEvent::ServerStop => "server_stop",
            PluginEvent::ChannelCreate { .. } => "channel_create",
            PluginEvent::ChannelDelete { .. } => "channel_delete",
        }
    }
}

/// Mathematische Sicht eines Hook-Ergebnisses.
pub enum HookSicht {
    Allow,
    Deny(Seq<char>),
    Modify(Seq<u8>),
}

/// Ergebnis eines Hook-Aufrufs.
#[derive(Debug, Clone)]
pub enum HookResult {
    /// Aktion erlauben.
    Allow,
    /// Aktion verhindern, mit Begruendung.
    Deny { reason: String },
    /// Daten veraendern (etwa eine Chat-Nachricht).
    Modify { data: Vec<u8> },
}

impl View for HookResult {
    type V = HookSicht;

    open spec fn view(&self) -> HookSicht {
        match self {
            HookResult::Allow => HookSicht::Allow,
            HookResult::Deny { reason } => HookSicht::Deny(reason@),
            HookResult::Modify { data } => HookSicht::Modify(data@),
        }
    }
}

impl HookResult {
    /// Ob die Aktion erlaubt ist (`Allow` oder `Modify`).
    pub fn ist_erlaubt(&self) -> (r: bool)
        ensures
            r == !(self@ is Deny),
    {
        match self {
            HookResult::Deny { .. } => false,
            _ => true,
        }
    }

    /// Der Ablehnungsgrund, falls die Aktion verhindert wird.
    pub fn ablehnungsgrund(&self) -> (r: Option<&str>)
        ensures
            match self@ {
                HookSicht::Deny(g) => r matches Some(s) && s@ == g,
                _ => r is None,
            },
    {
        match self {
            HookResult::Deny { reason } => Some(reason.as_str()),
            _ => None,
        }
    }
}

/// Die Position des ersten `Deny`, falls es eines gibt.
pub open spec fn erstes_deny(hs: Seq<HookSicht>) -> Option<int>
    decreases hs.len(),
{
    if hs.len() == 0 {
        None
    } else {
        match erstes_deny(hs.drop_last()) {
            Some(i) => Some(i),
            None => if hs.last() is Deny {
                Some(hs.len() - 1)
            } else {
                None
            },
        }
    }
}

/// Die Position des letzten `Modify`, falls es eines gibt.
pub open spec fn letztes_modify(hs: Seq<HookSicht>) -> Option<int>
    decreases hs.len(),
{
    if hs.len() == 0 {
        None
    } else if hs.last() is Modify {
        Some(hs.len() - 1)
    } else {
        letztes_modify(hs.drop_last())
    }
}

/// Das kombinierte Ergebnis: das erste `Deny`; sonst das letzte `Modify`; sonst `Allow`.
pub open spec fn kombiniert_spec(hs: Seq<HookSicht>) -> HookSicht {
    match erstes_deny(hs) {
        Some(i) => hs[i],
        None => match letztes_modify(hs) {
            Some(i) => hs[i],
            None => HookSicht::Allow,
        },
    }
}

/// Die letzte Modify-Position ist ein Modify, und danach steht keines; ohne sie gibt es keins.
pub proof fn lemma_letztes_modify(hs: Seq<HookSicht>)
    ensures
        letztes_modify(hs) matches Some(i) ==> 0 <= i < hs.len() && hs[i] is Modify && forall|j: int|
            i < j < hs.len() ==> !(#[trigger] hs[j] is Modify),
        letztes_modify(hs) is None ==> forall|j: int| 0 <= j < hs.len() ==> !(#[trigger] hs[j] is Modify),
    decreases hs.len(),
{
    if hs.len() > 0 {
        lemma_letztes_modify(hs.drop_last());
        assert forall|j: int| 0 <= j < hs.len() - 1 implies #[trigger] hs[j] == hs.drop_last()[j] by {}
    }
}

/// Die erste Deny-Position ist ein Deny, und davor steht keines; ohne sie gibt es keins.
pub proof fn lemma_erstes_deny(hs: Seq<HookSicht>)
    ensures
        erstes_deny(hs) matches Some(i) ==> 0 <= i < hs.len() && hs[i] is Deny && forall|j: int|
            0 <= j < i ==> !(#[trigger] hs[j] is Deny),
        erstes_deny(hs) is None ==> forall|j: int| 0 <= j < hs.len() ==> !(#[trigger] hs[j] is Deny),
    decreases hs.len(),
{
    if hs.len() > 0 {
        lemma_erstes_deny(hs.drop_last());
        assert forall|j: int| 0 <= j < hs.len() - 1 implies #[trigger] hs[j] == hs.drop_last()[j] by {}
    }
}

/// Gesetz: das Kombinieren ergibt genau dann eine Ablehnung, wenn eines der Ergebnisse ablehnt,
/// und dann die erste. Lehnt keines ab, ergibt es genau dann eine Aenderung, wenn eines der
/// Ergebnisse aendert, und dann die letzte; sonst `Allow`.
pub proof fn gesetz_erstes_deny_gewinnt(hs: Seq<HookSicht>)
    ensures
        (kombiniert_spec(hs) is Deny) <==> exists|j: int| 0 <= j < hs.len() && #[trigger] hs[j] is Deny,
        kombiniert_spec(hs) is Deny ==> exists|j: int|
            0 <= j < hs.len() && hs[j] == kombiniert_spec(hs) && forall|m: int|
                0 <= m < j ==> !(#[trigger] hs[m] is Deny),
        !(kombiniert_spec(hs) is Deny) ==> ((kombiniert_spec(hs) is Modify) <==> exists|j: int|
            0 <= j < hs.len() && #[trigger] hs[j] is Modify),
        kombiniert_spec(hs) is Modify ==> exists|j: int|
            0 <= j < hs.len() && hs[j] == kombiniert_spec(hs) && forall|m: int|
                j < m < hs.len() ==> !(#[trigger] hs[m] is Modify),
        kombiniert_spec(hs) is Allow <==> forall|j: int|
            0 <= j < hs.len() ==> !(#[trigger] hs[j] is Deny) && !(hs[j] is Modify),
{
    lemma_erstes_deny(hs);
    lemma_letztes_modify(hs);
}

/// Die Sicht einer Liste von Hook-Ergebnissen.
pub open spec fn hooks_sicht(v: Seq<HookResult>) -> Seq<HookSicht> {
    v.map_values(|h: HookResult| h@)
}

/// Kombiniert Hook-Ergebnisse: das erste `Deny` gewinnt; ohne `Deny` gewinnt das letzte
/// `Modify`, sonst `Allow`.
#[verifier::loop_isolation(false)]
pub fn hook_ergebnisse_kombinieren(ergebnisse: Vec<HookResult>) -> (r: HookResult)
    ensures
        r@ == kombiniert_spec(hooks_sicht(ergebnisse@)),
{
    let ghost hs = hooks_sicht(ergebnisse@);
    let mut ergebnisse = ergebnisse;
    let mut letztes: Option<usize> = None;
    let mut i: usize = 0;
    while i < ergebnisse.len()
        invariant
            i <= ergebnisse@.len(),
            hs == hooks_sicht(ergebnisse@),
            erstes_deny(hs.take(i as int)) is None,
            match letztes {
                Some(m) => letztes_modify(hs.take(i as int)) == Some(m as int),
                None => letztes_modify(hs.take(i as int)) is None,
            },
        decreases ergebnisse@.len() - i,
    {
        let ghost t = hs.take(i + 1);
        assert(t.drop_last() =~= hs.take(i as int));
        assert(t.last() == ergebnisse@[i as int]@);
        let ist_deny = match &ergebnisse[i] {
            HookResult::Deny { .. } => true,
            _ => false,
        };
        let ist_modify = match &ergebnisse[i] {
            HookResult::Modify { .. } => true,
            _ => false,
        };
        if ist_deny {
            proof {
                assert(erstes_deny(t) == Some(i as int));
                lemma_erstes_deny_fortsetzung(hs, i as int);
            }
            let ghost vorher = ergebnisse@;
            let e = ergebnisse.remove(i);
            assert(e == vorher[i as int]);
            assert(hs[i as int] == vorher[i as int]@);
            assert(kombiniert_spec(hs) == hs[i as int]);
            return e;
        }
        if ist_modify {
            letztes = Some(i);
        }
        i = i + 1;
    }
    assert(hs.take(i as int) =~= hs);
    proof {
        lemma_letztes_modify(hs);
    }
    match letztes {
        Some(m) => {
            let ghost vorher = ergebnisse@;
            let e = ergebnisse.remove(m);
            assert(e == vorher[m as int]);
            assert(hs[m as int] == vorher[m as int]@);
            e
        },
        None => HookResult::Allow,
    }
}

/// Steht das erste Deny eines Anfangsstuecks an Position `i`, so ist es das erste Deny insgesamt.
proof fn lemma_erstes_deny_fortsetzung(hs: Seq<HookSicht>, i: int)
    requires
        0 <= i < hs.len(),
        erstes_deny(hs.take(i + 1)) == Some(i),
    ensures
        erstes_deny(hs) == Some(i),
    decreases hs.len(),
{
    if hs.len() > i + 1 {
        assert(hs.drop_last().take(i + 1) =~= hs.take(i + 1));
        lemma_erstes_deny_fortsetzung(hs.drop_last(), i);
    } else {
        assert(hs.take(i + 1) =~= hs);
    }
}

} // verus!
