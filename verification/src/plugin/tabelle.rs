//! Nebenlaeufige Tabellen (`dashmap::DashMap`) und was ihre Aufzaehlung liefert.

use vstd::prelude::*;

verus! {

/// Eine nebenlaeufige Hash-Tabelle (`dashmap::DashMap`).
#[verifier::external_type_specification]
#[verifier::external_body]
#[verifier::reject_recursive_types(K)]
#[verifier::reject_recursive_types(V)]
#[verifier::reject_recursive_types(S)]
pub struct FremdDashMap<K, V, S>(dashmap::DashMap<K, V, S>);

/// `werte` zaehlt die Werte von `inhalt` unter den Schluesseln `ks` auf, jeden Schluessel
/// hoechstens einmal.
pub open spec fn aufzaehlung_ueber<V>(werte: Seq<V>, inhalt: Map<u128, V>, ks: Seq<u128>) -> bool {
    &&& ks.len() == werte.len()
    &&& ks.no_duplicates()
    &&& forall|i: int|
        0 <= i < ks.len() ==> #[trigger] inhalt.contains_key(ks[i]) && werte[i] == inhalt[ks[i]]
}

/// `werte` sind alle Werte von `inhalt`, in irgendeiner Reihenfolge.
pub open spec fn aufzaehlung<V>(werte: Seq<V>, inhalt: Map<u128, V>) -> bool {
    exists|ks: Seq<u128>|
        aufzaehlung_ueber(werte, inhalt, ks) && forall|k: u128|
            inhalt.contains_key(k) ==> #[trigger] ks.contains(k)
}

} // verus!
