//! Typen anderer Crates, die Werte der Bibliothek unveraendert mit sich fuehren.

use vstd::prelude::*;

verus! {

/// Ein beliebiger JSON-Wert (`serde_json::Value`); die Bibliothek reicht ihn nur weiter.
#[verifier::external_type_specification]
#[verifier::external_body]
pub struct FremdJsonWert(serde_json::Value);

/// `Clone::clone` fuer `serde_json::Value`: die abgeleitete Implementierung liefert eine
/// gleiche Kopie des Wertes.
pub assume_specification[ <serde_json::Value as Clone>::clone ](v: &serde_json::Value) -> (r:
    serde_json::Value)
    ensures
        r == *v,
;

} // verus!
