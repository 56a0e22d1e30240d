//! Textbausteine: Dezimaldarstellung von Zahlen, Vergleich und Suche in Zeichenketten.

use vstd::prelude::*;
use vstd::string::StrSliceExecFns;

verus! {

/// Das Zeichen der Dezimalziffer `d` (0..=9).
pub open spec fn ziffer_zeichen(d: int) -> char {
    if d == 0 { '0' }
    else if d == 1 { '1' }
    else if d == 2 { '2' }
    else if d == 3 { '3' }
    else if d == 4 { '4' }
    else if d == 5 { '5' }
    else if d == 6 { '6' }
    else if d == 7 { '7' }
    else if d == 8 { '8' }
    else { '9' }
}

/// Dezimaldarstellung einer natuerlichen Zahl ohne fuehrende Nullen.
pub open spec fn dezimal_spec(n: nat) -> Seq<char>
    decreases n,
{
    if n < 10 {
        seq![ziffer_zeichen(n as int)]
    } else {
        dezimal_spec(n / 10) + seq![ziffer_zeichen((n % 10) as int)]
    }
}

/// Dezimaldarstellung einer ganzen Zahl, negative Zahlen mit fuehrendem Minus.
pub open spec fn ganzzahl_spec(n: int) -> Seq<char> {
    if n < 0 {
        seq!['-'] + dezimal_spec((-n) as nat)
    } else {
        dezimal_spec(n as nat)
    }
}

/// Die Ziffer `d` als Zeichenkette.
fn ziffer_str(d: u64) -> (r: &'static str)
    requires
        d < 10,
    ensures
        r@ == seq![ziffer_zeichen(d as int)],
{
    if d == 0 {
        proof { reveal_strlit("0"); }
        "0"
    } else if d == 1 {
        proof { reveal_strlit("1"); }
        "1"
    } else if d == 2 {
        proof { reveal_strlit("2"); }
        "2"
    } else if d == 3 {
        proof { reveal_strlit("3"); }
        "3"
    } else if d == 4 {
        proof { reveal_strlit("4"); }
        "4"
    } else if d == 5 {
        proof { reveal_strlit("5"); }
        "5"
    } else if d == 6 {
        proof { reveal_strlit("6"); }
        "6"
    } else if d == 7 {
        proof { reveal_strlit("7"); }
        "7"
    } else if d == 8 {
        proof { reveal_strlit("8"); }
        "8"
    } else {
        proof { reveal_strlit("9"); }
        "9"
    }
}

/// Haengt die Dezimaldarstellung von `n` an `s` an.
pub fn dezimal_anhaengen(s: &mut String, n: u64)
    ensures
        final(s)@ == old(s)@ + dezimal_spec(n as nat),
    decreases n,
{
    if n >= 10 {
        dezimal_anhaengen(s, n / 10);
    }
    let z = ziffer_str(n % 10);
    s.append(z);
    proof {
        if n >= 10 {
            assert(dezimal_spec(n as nat) == dezimal_spec((n / 10) as nat) + seq![
                ziffer_zeichen((n % 10) as int),
            ]);
        }
    }
}

/// Haengt die Dezimaldarstellung der ganzen Zahl `n` an `s` an.
pub fn ganzzahl_anhaengen(s: &mut String, n: i64)
    ensures
        final(s)@ == old(s)@ + ganzzahl_spec(n as int),
{
    if n < 0 {
        proof { reveal_strlit("-"); }
        s.append("-");
        let betrag: u64 = (0i128 - (n as i128)) as u64;
        dezimal_anhaengen(s, betrag);
    } else {
        dezimal_anhaengen(s, n as u64);
    }
}

/// Dezimaldarstellung von `n` als neue Zeichenkette.
pub fn dezimal(n: u64) -> (r: String)
    ensures
        r@ == dezimal_spec(n as nat),
{
    let mut s = String::new();
    dezimal_anhaengen(&mut s, n);
    s
}

/// Prueft zwei Zeichenketten auf Gleichheit.
pub fn str_gleich(a: &str, b: &str) -> (r: bool)
    ensures
        r == (a@ == b@),
{
    let la = a.unicode_len();
    let lb = b.unicode_len();
    if la != lb {
        return false;
    }
    let mut i: usize = 0;
    while i < la
        invariant
            la == a@.len(),
            lb == b@.len(),
            la == lb,
            i <= la,
            forall|j: int| 0 <= j < i ==> a@[j] == b@[j],
        decreases la - i,
    {
        if a.get_char(i) != b.get_char(i) {
            return false;
        }
        i = i + 1;
    }
    assert(a@ =~= b@);
    true
}

/// `muster` kommt ab Position `pos` in `text` vor.
pub open spec fn kommt_vor_ab(text: Seq<char>, muster: Seq<char>, pos: int) -> bool {
    0 <= pos && pos + muster.len() <= text.len() && text.subrange(pos, pos + muster.len()) == muster
}

/// `muster` kommt irgendwo in `text` vor.
pub open spec fn enthaelt_spec(text: Seq<char>, muster: Seq<char>) -> bool {
    exists|pos: int| kommt_vor_ab(text, muster, pos)
}

/// Prueft ob `muster` ab Position `pos` in `text` steht.
fn steht_ab(text: &str, tl: usize, muster: &str, ml: usize, pos: usize) -> (r: bool)
    requires
        tl == text@.len(),
        ml == muster@.len(),
        pos + ml <= tl,
    ensures
        r == kommt_vor_ab(text@, muster@, pos as int),
{
    let mut j: usize = 0;
    while j < ml
        invariant
            tl == text@.len(),
            ml == muster@.len(),
            pos + ml <= tl,
            j <= ml,
            forall|k: int| 0 <= k < j ==> text@[pos + k] == muster@[k],
        decreases ml - j,
    {
        if text.get_char(pos + j) != muster.get_char(j) {
            assert(text@.subrange(pos as int, pos + ml)[j as int] != muster@[j as int]);
            return false;
        }
        j = j + 1;
    }
    assert(text@.subrange(pos as int, pos + ml) =~= muster@);
    true
}

/// Prueft ob `muster` als zusammenhaengender Teil in `text` vorkommt.
pub fn enthaelt(text: &str, muster: &str) -> (r: bool)
    ensures
        r == enthaelt_spec(text@, muster@),
{
    let tl = text.unicode_len();
    let ml = muster.unicode_len();
    if ml > tl {
        return false;
    }
    let grenze = tl - ml;
    let mut pos: usize = 0;
    loop
        invariant
            tl == text@.len(),
            ml == muster@.len(),
            grenze == tl - ml,
            pos <= grenze,
            forall|p: int| 0 <= p < pos ==> !kommt_vor_ab(text@, muster@, p),
        ensures
            forall|p: int| 0 <= p <= grenze ==> !kommt_vor_ab(text@, muster@, p),
        decreases grenze - pos,
    {
        if steht_ab(text, tl, muster, ml, pos) {
            return true;
        }
        if pos == grenze {
            break;
        }
        pos = pos + 1;
    }
    assert forall|p: int| !kommt_vor_ab(text@, muster@, p) by {
        if 0 <= p && p + ml <= tl {
            assert(p <= grenze);
        }
    }
    false
}

/// Die Teile, verbunden durch das Trennzeichen.
pub open spec fn verbinden(teile: Seq<Seq<char>>, sep: Seq<char>) -> Seq<char>
    decreases teile.len(),
{
    if teile.len() == 0 {
        Seq::empty()
    } else if teile.len() == 1 {
        teile[0]
    } else {
        verbinden(teile.drop_last(), sep) + sep + teile.last()
    }
}

/// Die Zeichenfolgen einer Liste von Textstuecken.
pub open spec fn teile_sicht(v: Seq<&str>) -> Seq<Seq<char>> {
    v.map_values(|t: &str| t@)
}

/// Das Stueck `t`, falls `bedingung` gilt, sonst nichts.
pub open spec fn falls(bedingung: bool, t: Seq<char>) -> Seq<Seq<char>> {
    if bedingung {
        seq![t]
    } else {
        Seq::empty()
    }
}

/// Verbindet Textstuecke mit einem Trennzeichen.
pub fn verbinden_exec(teile: &Vec<&str>, sep: &str) -> (r: String)
    ensures
        r@ == verbinden(teile_sicht(teile@), sep@),
{
    let mut s = String::new();
    let mut i: usize = 0;
    while i < teile.len()
        invariant
            i <= teile@.len(),
            s@ == verbinden(teile_sicht(teile@.take(i as int)), sep@),
        decreases teile@.len() - i,
    {
        let ghost alt = teile_sicht(teile@.take(i as int));
        let ghost neu = teile_sicht(teile@.take(i + 1));
        assert(neu.drop_last() =~= alt);
        assert(neu.last() == teile@[i as int]@);
        if i > 0 {
            s.append(sep);
        } else {
            assert(neu =~= seq![teile@[0]@]);
        }
        s.append(teile[i]);
        i = i + 1;
    }
    assert(teile@.take(i as int) =~= teile@);
    s
}

/// Haengt `t` an, falls `bedingung` gilt.
pub fn anhaengen_falls(v: &mut Vec<&'static str>, bedingung: bool, t: &'static str)
    ensures
        teile_sicht(final(v)@) == teile_sicht(old(v)@) + falls(bedingung, t@),
{
    let ghost alt = v@;
    if bedingung {
        v.push(t);
        assert(teile_sicht(v@) =~= teile_sicht(alt) + seq![t@]);
    } else {
        assert(teile_sicht(v@) =~= teile_sicht(alt) + Seq::<Seq<char>>::empty());
    }
}

/// Die Zeichenfolgen einer Liste von Zeichenketten.
pub open spec fn strings_sicht(v: Seq<String>) -> Seq<Seq<char>> {
    v.map_values(|s: String| s@)
}

/// Kopiert eine Liste von Zeichenketten.
pub fn strings_kopieren(v: &Vec<String>) -> (r: Vec<String>)
    ensures
        strings_sicht(r@) == strings_sicht(v@),
{
    let mut r: Vec<String> = Vec::new();
    let mut i: usize = 0;
    while i < v.len()
        invariant
            i <= v@.len(),
            r@.len() == i,
            forall|j: int| 0 <= j < i ==> r@[j]@ == v@[j]@,
        decreases v@.len() - i,
    {
        r.push(v[i].clone());
        i = i + 1;
    }
    assert(strings_sicht(r@) =~= strings_sicht(v@));
    r
}

/// Ein Stueck, das noch nicht vorkommt, haelt eine Folge ohne Wiederholungen frei davon; die
/// Folge enthaelt danach genau ihre bisherigen Stuecke und, falls `b` gilt, `t`.
pub(crate) proof fn lemma_falls_anhaengen(s: Seq<Seq<char>>, b: bool, t: Seq<char>)
    requires
        s.no_duplicates(),
        !s.contains(t),
    ensures
        (s + falls(b, t)).no_duplicates(),
        (s + falls(b, t)).len() == s.len() + (if b { 1int } else { 0int }),
        forall|f: Seq<char>| #[trigger] (s + falls(b, t)).contains(f) <==> (s.contains(f) || (b && f == t)),
{
    let r = s + falls(b, t);
    assert forall|f: Seq<char>| #[trigger] r.contains(f) <==> (s.contains(f) || (b && f == t)) by {
        if r.contains(f) {
            let i = choose|i: int| 0 <= i < r.len() && r[i] == f;
            if i >= s.len() {
                assert(r[i] == falls(b, t)[i - s.len()]);
            } else {
                assert(r[i] == s[i]);
            }
        }
        if s.contains(f) {
            let i = choose|i: int| 0 <= i < s.len() && s[i] == f;
            assert(r[i] == s[i]);
        }
        if b && f == t {
            assert(r[s.len() as int] == t);
        }
    }
    assert forall|i: int, j: int| 0 <= i < r.len() && 0 <= j < r.len() && i != j implies r[i] != r[j] by {
        if i < s.len() && j < s.len() {
            assert(r[i] == s[i] && r[j] == s[j]);
        } else if i < s.len() {
            assert(r[i] == s[i]);
        } else if j < s.len() {
            assert(r[j] == s[j]);
        }
    }
}

} // verus!
