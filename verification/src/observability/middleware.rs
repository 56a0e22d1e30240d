//! Einteilung gemessener Antwortzeiten in Histogramm-Buckets.

use vstd::prelude::*;

verus! {

/// Der Bucket-Name fuer eine Dauer in Millisekunden.
pub open spec fn dauer_bucket_spec(dauer_ms: u64) -> Seq<char> {
    if dauer_ms <= 1 {
        "<=1ms"@
    } else if dauer_ms <= 5 {
        "<=5ms"@
    } else if dauer_ms <= 10 {
        "<=10ms"@
    } else if dauer_ms <= 25 {
        "<=25ms"@
    } else if dauer_ms <= 50 {
        "<=50ms"@
    } else if dauer_ms <= 100 {
        "<=100ms"@
    } else if dauer_ms <= 250 {
        "<=250ms"@
    } else if dauer_ms <= 500 {
        "<=500ms"@
    } else if dauer_ms <= 1000 {
        "<=1s"@
    } else {
        ">1s"@
    }
}

/// Gibt den Histogramm-Bucket fuer eine Dauer (in ms) zurueck.
pub fn dauer_bucket(dauer_ms: u64) -> (r: &'static str)
    ensures
        r@ == dauer_bucket_spec(dauer_ms),
        r@.len() > 0,
{
    proof {
        reveal_strlit("<=1ms");
        reveal_strlit("<=5ms");
        reveal_strlit("<=10ms");
        reveal_strlit("<=25ms");
        reveal_strlit("<=50ms");
        reveal_strlit("<=100ms");
        reveal_strlit("<=250ms");
        reveal_strlit("<=500ms");
        reveal_strlit("<=1s");
        reveal_strlit(">1s");
    }
    if dauer_ms <= 1 {
        "<=1ms"
    } else if dauer_ms <= 5 {
        "<=5ms"
    } else if dauer_ms <= 10 {
        "<=10ms"
    } else if dauer_ms <= 25 {
        "<=25ms"
    } else if dauer_ms <= 50 {
        "<=50ms"
    } else if dauer_ms <= 100 {
        "<=100ms"
    } else if dauer_ms <= 250 {
        "<=250ms"
    } else if dauer_ms <= 500 {
        "<=500ms"
    } else if dauer_ms <= 1000 {
        "<=1s"
    } else {
        ">1s"
    }
}

} // verus!
