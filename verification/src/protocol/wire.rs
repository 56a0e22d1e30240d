//! Wire-Format fuer TCP-Verbindungen: Laenge (u32 big-endian) gefolgt vom Payload.
//!
//! ```text
//! +--------+--------+--------+--------+----...----+
//! | Laenge (u32 BE), 4 Bytes          | Payload    |
//! +--------+--------+--------+--------+----...----+
//! ```
//!
//! Die Laenge zaehlt nur die Payload-Bytes. Die maximale Frame-Groesse ist konfigurierbar
//! (Standard: 1 MB). Hier wird nur gerahmt und geprueft; der Payload (JSON) wird ausserhalb
//! der Bibliothek in Werte umgewandelt.

use crate::protocol::voice::{be32_bytes, be32_wert, lemma_be32};
use crate::text::{dezimal_anhaengen, dezimal_spec};
use vstd::prelude::*;

verus! {

/// Standard-maximale Frame-Groesse (1 MB).
pub const DEFAULT_MAX_FRAME_SIZE: usize = 1048576;

/// Groesse des Laengen-Felds in Bytes.
pub const LENGTH_FIELD_SIZE: usize = 4;

/// Fehler beim Rahmen von Nachrichten.
#[derive(Debug, Clone, Copy, PartialEq, Eq, Structural)]
pub enum FrameFehler {
    /// Das Laengenfeld eines empfangenen Frames ueberschreitet das Maximum.
    FrameZuGross { laenge: usize, maximum: usize },
    /// Eine zu sendende Nachricht ueberschreitet das Maximum.
    NachrichtZuGross { laenge: usize, maximum: usize },
}

/// Der Meldungstext eines Frame-Fehlers.
pub open spec fn frame_meldung_spec(f: FrameFehler) -> Seq<char> {
    match f {
        FrameFehler::FrameZuGross { laenge, maximum } => "Frame zu gross: "@ + dezimal_spec(
            laenge as nat,
        ) + " Bytes (Maximum: "@ + dezimal_spec(maximum as nat) + " Bytes)"@,
        FrameFehler::NachrichtZuGross { laenge, maximum } => "Nachricht zu gross: "@
            + dezimal_spec(laenge as nat) + " Bytes (Maximum: "@ + dezimal_spec(maximum as nat)
            + " Bytes)"@,
    }
}

impl FrameFehler {
    /// Menschenlesbare Fehlermeldung.
    pub fn meldung(&self) -> (r: String)
        ensures
            r@ == frame_meldung_spec(*self),
    {
        let (mut s, laenge, maximum) = match *self {
            FrameFehler::FrameZuGross { laenge, maximum } => (
                String::from_str("Frame zu gross: "),
                laenge,
                maximum,
            ),
            FrameFehler::NachrichtZuGross { laenge, maximum } => (
                String::from_str("Nachricht zu gross: "),
                laenge,
                maximum,
            ),
        };
        dezimal_anhaengen(&mut s, laenge as u64);
        s.append(" Bytes (Maximum: ");
        dezimal_anhaengen(&mut s, maximum as u64);
        s.append(" Bytes)");
        s
    }
}

/// Der Wert des Laengenfelds am Anfang von `b` (mindestens 4 Bytes).
pub open spec fn laengenfeld(b: Seq<u8>) -> nat {
    be32_wert(b[0], b[1], b[2], b[3]) as nat
}

/// Was die Pruefung eines vierbytigen Laengenfelds ergibt.
pub open spec fn laenge_pruefen_spec(kopf: Seq<u8>, max: usize) -> Result<usize, FrameFehler> {
    if laengenfeld(kopf) > max {
        Err(FrameFehler::FrameZuGross { laenge: laengenfeld(kopf) as usize, maximum: max })
    } else {
        Ok(laengenfeld(kopf) as usize)
    }
}

/// Was das Dekodieren des ersten Frames eines Empfangspuffers ergibt:
/// `Ok(None)` solange der Frame unvollstaendig ist, sonst sein Payload.
pub open spec fn frame_aus(b: Seq<u8>, max: usize) -> Result<Option<Seq<u8>>, FrameFehler> {
    if b.len() < 4 {
        Ok(None)
    } else if laengenfeld(b) > max {
        Err(FrameFehler::FrameZuGross { laenge: laengenfeld(b) as usize, maximum: max })
    } else if b.len() < 4 + laengenfeld(b) {
        Ok(None)
    } else {
        Ok(Some(b.subrange(4, 4 + laengenfeld(b) as int)))
    }
}

/// Die Bytes eines Frames mit dem Payload `p`; das Laengenfeld traegt `p.len()` modulo 2^32.
pub open spec fn frame_bytes(p: Seq<u8>) -> Seq<u8> {
    be32_bytes(p.len() as u32) + p
}

/// Gesetz: ein Frame beginnt mit der Laenge des Payloads als vierbytige big-endian-Zahl
/// (hoechstwertiges Byte zuerst), gefolgt vom unveraenderten Payload.
pub proof fn gesetz_frame_aufbau(p: Seq<u8>)
    requires
        p.len() < 0x100000000,
    ensures
        frame_bytes(p).len() == 4 + p.len(),
        frame_bytes(p)[0] * 0x1000000 + frame_bytes(p)[1] * 0x10000 + frame_bytes(p)[2] * 0x100
            + frame_bytes(p)[3] == p.len(),
        frame_bytes(p).skip(4) == p,
{
    let l = p.len() as u32;
    lemma_be32(l);
    assert(frame_bytes(p).skip(4) =~= p);
}

/// Was das Kodieren eines Payloads ergibt.
pub open spec fn frame_kodieren_spec(p: Seq<u8>, max: usize) -> Result<Seq<u8>, FrameFehler> {
    if p.len() > max {
        Err(FrameFehler::NachrichtZuGross { laenge: p.len() as usize, maximum: max })
    } else {
        Ok(frame_bytes(p))
    }
}

/// Gesetz: ein kodierter Frame wird, gefolgt von beliebigen weiteren Bytes, als derselbe
/// Payload dekodiert, solange seine Laenge das Maximum und 2^32 nicht erreicht.
pub proof fn gesetz_frame_rundreise(p: Seq<u8>, rest: Seq<u8>, max: usize)
    requires
        p.len() <= max,
        p.len() < 0x100000000,
    ensures
        frame_kodieren_spec(p, max) == Ok::<Seq<u8>, FrameFehler>(frame_bytes(p)),
        frame_aus(frame_bytes(p) + rest, max) == Ok::<Option<Seq<u8>>, FrameFehler>(Some(p)),
{
    let b = frame_bytes(p) + rest;
    let l = p.len() as u32;
    assert(l == p.len());
    lemma_be32(l);
    assert(b[0] == be32_bytes(l)[0] && b[1] == be32_bytes(l)[1]);
    assert(b[2] == be32_bytes(l)[2] && b[3] == be32_bytes(l)[3]);
    assert(laengenfeld(b) == p.len());
    assert(b.subrange(4, 4 + p.len() as int) =~= p);
}

/// Gesetz: jeder echte Anfang eines kodierten Frames gilt als unvollstaendig.
pub proof fn gesetz_frame_unvollstaendig(p: Seq<u8>, k: int, max: usize)
    requires
        p.len() <= max,
        p.len() < 0x100000000,
        0 <= k < 4 + p.len(),
    ensures
        frame_aus(frame_bytes(p).take(k), max) == Ok::<Option<Seq<u8>>, FrameFehler>(None),
{
    let b = frame_bytes(p).take(k);
    if k >= 4 {
        let l = p.len() as u32;
        lemma_be32(l);
        assert(b[0] == be32_bytes(l)[0] && b[1] == be32_bytes(l)[1]);
        assert(b[2] == be32_bytes(l)[2] && b[3] == be32_bytes(l)[3]);
        assert(laengenfeld(b) == p.len());
    }
}

/// Die Bytes mehrerer Frames hintereinander, in der Reihenfolge der Payloads.
pub open spec fn frames_bytes(ps: Seq<Seq<u8>>) -> Seq<u8>
    decreases ps.len(),
{
    if ps.len() == 0 {
        Seq::empty()
    } else {
        frame_bytes(ps[0]) + frames_bytes(ps.drop_first())
    }
}

/// Gesetz: einen weiteren Frame anzuhaengen ergibt die Bytes aller Frames in ihrer Reihenfolge;
/// nacheinander in einen leeren Puffer kodierte Payloads liegen dort also als `frames_bytes`.
pub proof fn gesetz_frames_anhaengen(ps: Seq<Seq<u8>>, p: Seq<u8>)
    ensures
        frames_bytes(ps.push(p)) == frames_bytes(ps) + frame_bytes(p),
        frames_bytes(Seq::<Seq<u8>>::empty()) == Seq::<u8>::empty(),
    decreases ps.len(),
{
    if ps.len() == 0 {
        assert(ps.push(p).drop_first() =~= Seq::<Seq<u8>>::empty());
        assert(frames_bytes(ps.push(p).drop_first()) == Seq::<u8>::empty());
        assert(frames_bytes(ps.push(p)) =~= frame_bytes(p));
        assert(frames_bytes(ps) + frame_bytes(p) =~= frame_bytes(p));
    } else {
        gesetz_frames_anhaengen(ps.drop_first(), p);
        assert(ps.push(p).drop_first() =~= ps.drop_first().push(p));
        assert(ps.push(p)[0] == ps[0]);
        assert(frames_bytes(ps.push(p)) =~= frames_bytes(ps) + frame_bytes(p));
    }
}

/// Gesetz: liegen mehrere kodierte Frames hintereinander im Empfangspuffer, liefert das
/// Dekodieren sie in ihrer Reihenfolge; nach dem `i`-ten Frame, dessen
/// `LENGTH_FIELD_SIZE + payload.len()` Bytes verbraucht werden, beginnt der Puffer mit dem
/// naechsten, und nach dem letzten bleibt genau der Rest. Ein leerer Rest ist unvollstaendig.
pub proof fn gesetz_frames_nacheinander(ps: Seq<Seq<u8>>, rest: Seq<u8>, max: usize)
    requires
        forall|i: int| 0 <= i < ps.len() ==> (#[trigger] ps[i]).len() <= max && ps[i].len() < 0x100000000,
    ensures
        forall|i: int|
            0 <= i < ps.len() ==> {
                let b = #[trigger] frames_bytes(ps.skip(i)) + rest;
                &&& frame_aus(b, max) == Ok::<Option<Seq<u8>>, FrameFehler>(Some(ps[i]))
                &&& b.skip(4 + ps[i].len() as int) == frames_bytes(ps.skip(i + 1)) + rest
            },
        frames_bytes(ps.skip(0)) == frames_bytes(ps),
        frames_bytes(ps.skip(ps.len() as int)) + rest == rest,
        frame_aus(Seq::<u8>::empty(), max) == Ok::<Option<Seq<u8>>, FrameFehler>(None),
{
    assert forall|i: int| 0 <= i < ps.len() implies {
        let b = #[trigger] frames_bytes(ps.skip(i)) + rest;
        &&& frame_aus(b, max) == Ok::<Option<Seq<u8>>, FrameFehler>(Some(ps[i]))
        &&& b.skip(4 + ps[i].len() as int) == frames_bytes(ps.skip(i + 1)) + rest
    } by {
        let t = ps.skip(i);
        assert(t[0] == ps[i]);
        assert(t.drop_first() =~= ps.skip(i + 1));
        let nach = frames_bytes(ps.skip(i + 1)) + rest;
        assert(frames_bytes(t) + rest =~= frame_bytes(ps[i]) + nach);
        gesetz_frame_rundreise(ps[i], nach, max);
        assert((frame_bytes(ps[i]) + nach).skip(4 + ps[i].len() as int) =~= nach);
    }
    assert(ps.skip(0) =~= ps);
    assert(ps.skip(ps.len() as int) =~= Seq::<Seq<u8>>::empty());
    assert(frames_bytes(Seq::<Seq<u8>>::empty()) + rest =~= rest);
}

/// Prueft ein vierbytiges Laengenfeld gegen die maximale Frame-Groesse.
pub fn laenge_pruefen(kopf: &[u8], max: usize) -> (r: Result<usize, FrameFehler>)
    requires
        kopf@.len() >= 4,
    ensures
        r == laenge_pruefen_spec(kopf@, max),
{
    let laenge: u32 = (kopf[0] as u32) * 0x1000000 + (kopf[1] as u32) * 0x10000 + (kopf[2] as u32)
        * 0x100 + (kopf[3] as u32);
    if laenge as u64 > max as u64 {
        Err(FrameFehler::FrameZuGross { laenge: laenge as usize, maximum: max })
    } else {
        Ok(laenge as usize)
    }
}

/// Rahmt einen Payload: Laengenfeld (big-endian) gefolgt vom Payload.
pub fn frame_kodieren(payload: &[u8], max: usize) -> (r: Result<Vec<u8>, FrameFehler>)
    ensures
        match r {
            Ok(v) => frame_kodieren_spec(payload@, max) == Ok::<Seq<u8>, FrameFehler>(v@),
            Err(e) => frame_kodieren_spec(payload@, max) == Err::<Seq<u8>, FrameFehler>(e),
        },
{
    let laenge = payload.len();
    if laenge > max {
        return Err(FrameFehler::NachrichtZuGross { laenge, maximum: max });
    }
    let l = laenge as u32;
    let mut buf: Vec<u8> = Vec::new();
    buf.push((l / 0x1000000) as u8);
    buf.push(((l / 0x10000) % 256) as u8);
    buf.push(((l / 0x100) % 256) as u8);
    buf.push((l % 256) as u8);
    let mut i: usize = 0;
    while i < laenge
        invariant
            laenge == payload@.len(),
            l == laenge as u32,
            i <= laenge,
            buf@ == be32_bytes(l) + payload@.take(i as int),
        decreases laenge - i,
    {
        buf.push(payload[i]);
        i = i + 1;
        assert(payload@.take(i as int) =~= payload@.take((i - 1) as int).push(payload@[i - 1]));
    }
    assert(payload@.take(i as int) =~= payload@);
    Ok(buf)
}

/// Codec fuer frame-basierte TCP-Verbindungen.
#[derive(Debug, Clone)]
pub struct FrameCodec {
    /// Maximale erlaubte Frame-Groesse in Bytes.
    max_frame_size: usize,
}

impl FrameCodec {
    /// Die konfigurierte maximale Frame-Groesse.
    pub closed spec fn maximum(&self) -> usize {
        self.max_frame_size
    }

    /// Erstellt einen neuen `FrameCodec` mit der Standard-Maximalgroesse.
    pub fn new() -> (r: Self)
        ensures
            r.maximum() == DEFAULT_MAX_FRAME_SIZE,
    {
        FrameCodec { max_frame_size: DEFAULT_MAX_FRAME_SIZE }
    }

    /// Erstellt einen `FrameCodec` mit benutzerdefinierter maximaler Frame-Groesse.
    pub fn with_max_size(max_frame_size: usize) -> (r: Self)
        ensures
            r.maximum() == max_frame_size,
    {
        FrameCodec { max_frame_size }
    }

    /// Gibt die konfigurierte maximale Frame-Groesse zurueck.
    pub fn max_frame_size(&self) -> (r: usize)
        ensures
            r == self.maximum(),
    {
        self.max_frame_size
    }

    /// Dekodiert den ersten Frame im Empfangspuffer: `Ok(None)` solange er unvollstaendig ist,
    /// sonst sein Payload. Der Frame belegt `LENGTH_FIELD_SIZE + payload.len()` Bytes.
    pub fn dekodieren(&self, puffer: &[u8]) -> (r: Result<Option<Vec<u8>>, FrameFehler>)
        ensures
            match r {
                Ok(Some(v)) => frame_aus(puffer@, self.maximum()) == Ok::<
                    Option<Seq<u8>>,
                    FrameFehler,
                >(Some(v@)),
                Ok(None) => frame_aus(puffer@, self.maximum()) == Ok::<
                    Option<Seq<u8>>,
                    FrameFehler,
                >(None),
                Err(e) => frame_aus(puffer@, self.maximum()) == Err::<Option<Seq<u8>>, FrameFehler>(
                    e,
                ),
            },
    {
        if puffer.len() < LENGTH_FIELD_SIZE {
            return Ok(None);
        }
        let laenge = match laenge_pruefen(puffer, self.max_frame_size) {
            Ok(l) => l,
            Err(e) => {
                return Err(e);
            },
        };
        if puffer.len() - LENGTH_FIELD_SIZE < laenge {
            return Ok(None);
        }
        let teil = vstd::slice::slice_subrange(puffer, LENGTH_FIELD_SIZE, LENGTH_FIELD_SIZE + laenge);
        Ok(Some(vstd::slice::slice_to_vec(teil)))
    }

    /// Dekodiert den ersten Frame eines Empfangspuffers und verbraucht ihn: bei einem
    /// vollstaendigen Frame werden Laengenfeld und Payload aus dem Puffer entfernt und der
    /// Payload geliefert; solange der Frame unvollstaendig ist oder bei einem Fehler bleibt der
    /// Puffer unveraendert.
    pub fn decode(&self, puffer: &mut Vec<u8>) -> (r: Result<Option<Vec<u8>>, FrameFehler>)
        ensures
            match r {
                Ok(Some(v)) => frame_aus(old(puffer)@, self.maximum()) == Ok::<
                    Option<Seq<u8>>,
                    FrameFehler,
                >(Some(v@)) && final(puffer)@ == old(puffer)@.skip(4 + v@.len() as int),
                Ok(None) => frame_aus(old(puffer)@, self.maximum()) == Ok::<
                    Option<Seq<u8>>,
                    FrameFehler,
                >(None) && final(puffer)@ == old(puffer)@,
                Err(e) => frame_aus(old(puffer)@, self.maximum()) == Err::<
                    Option<Seq<u8>>,
                    FrameFehler,
                >(e) && final(puffer)@ == old(puffer)@,
            },
    {
        let r = self.dekodieren(puffer.as_slice());
        match r {
            Ok(Some(v)) => {
                let gesamt = puffer.len();
                assert(LENGTH_FIELD_SIZE + v@.len() <= gesamt);
                let n = LENGTH_FIELD_SIZE + v.len();
                let rest = vstd::slice::slice_to_vec(
                    vstd::slice::slice_subrange(puffer.as_slice(), n, puffer.len()),
                );
                assert(rest@ =~= old(puffer)@.skip(4 + v@.len() as int));
                *puffer = rest;
                Ok(Some(v))
            },
            Ok(None) => Ok(None),
            Err(e) => Err(e),
        }
    }

    /// Rahmt einen Payload und haengt den Frame an den Sendepuffer an; ist der Payload groesser
    /// als das Maximum, bleibt der Puffer unveraendert und der Fehler wird gemeldet.
    pub fn encode(&self, payload: &[u8], ziel: &mut Vec<u8>) -> (r: Result<(), FrameFehler>)
        ensures
            r is Ok <==> payload@.len() <= self.maximum(),
            r is Ok ==> final(ziel)@ == old(ziel)@ + frame_bytes(payload@),
            r matches Err(e) ==> e == (FrameFehler::NachrichtZuGross {
                laenge: payload@.len() as usize,
                maximum: self.maximum(),
            }) && final(ziel)@ == old(ziel)@,
    {
        match frame_kodieren(payload, self.max_frame_size) {
            Ok(v) => {
                let mut v = v;
                ziel.append(&mut v);
                Ok(())
            },
            Err(e) => Err(e),
        }
    }

    /// Rahmt einen Payload gemaess der konfigurierten Maximalgroesse.
    pub fn kodieren(&self, payload: &[u8]) -> (r: Result<Vec<u8>, FrameFehler>)
        ensures
            match r {
                Ok(v) => frame_kodieren_spec(payload@, self.maximum()) == Ok::<Seq<u8>, FrameFehler>(
                    v@,
                ),
                Err(e) => frame_kodieren_spec(payload@, self.maximum()) == Err::<
                    Seq<u8>,
                    FrameFehler,
                >(e),
            },
    {
        frame_kodieren(payload, self.max_frame_size)
    }
}

impl Default for FrameCodec {
    fn default() -> (r: Self)
        ensures
            r.maximum() == DEFAULT_MAX_FRAME_SIZE,
    {
        FrameCodec::new()
    }
}

} // verus!
