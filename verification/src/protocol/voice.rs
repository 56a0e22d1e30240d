//! Voice-Protokoll (UDP): binaere Paketstruktur fuer die Audio-Uebertragung.
//!
//! Paketformat (Header = 16 Bytes, alle Mehrbyte-Felder big-endian):
//!
//! ```text
//! Offset  Len  Beschreibung
//!  0       1   Version
//!  1       1   PacketType (0 = Audio, 1 = Silence, 2 = FEC)
//!  2       2   Flags
//!  4       4   Sequenznummer
//!  8       4   Zeitstempel (48 kHz-Ticks)
//! 12       4   SSRC
//! 16+      N   Nutzdaten (Opus-Bytes)
//! ```

use crate::kern::{ChannelId, UserId};
use crate::text::{dezimal_anhaengen, dezimal_spec};
use vstd::prelude::*;

verus! {

/// Aktuelle Protokollversion.
pub const PROTOKOLL_VERSION: u8 = 1;

/// Maximale Nutzdaten-Laenge (typisches Opus-MTU-Limit).
pub const MAX_NUTZDATEN_LAENGE: usize = 1280;

/// Header-Groesse in Bytes.
pub const HEADER_GROESSE: usize = 16;

/// Bit-Masken fuer das Flags-Feld im Voice-Paket-Header.
pub struct VoiceFlags;

impl VoiceFlags {
    /// Paket ist DTLS/E2E verschluesselt.
    pub const ENCRYPTED: u16 = 0x0001;
    /// Paket enthaelt Forward-Error-Correction-Daten.
    pub const FEC: u16 = 0x0002;
    /// Discontinuous Transmission (Silence-Paket).
    pub const DTX: u16 = 0x0004;
    /// KeyFrame fuer E2E-Verschluesselung.
    pub const KEY_FRAME: u16 = 0x0008;
    /// Beginn einer Sprechsequenz.
    pub const SPEAKING_START: u16 = 0x0010;
    /// Ende einer Sprechsequenz.
    pub const SPEAKING_STOP: u16 = 0x0020;
}

/// Art des Voice-Paketes.
#[derive(Debug, Clone, Copy, PartialEq, Eq, Structural)]
pub enum PacketType {
    /// Normales Opus-Audio-Paket.
    Audio,
    /// Silence / Comfort-Noise (DTX).
    Silence,
    /// Forward-Error-Correction-Daten.
    Fec,
}

/// Der Byte-Code eines Pakettyps auf der Leitung.
pub open spec fn typ_code(t: PacketType) -> u8 {
    match t {
        PacketType::Audio => 0,
        PacketType::Silence => 1,
        PacketType::Fec => 2,
    }
}

/// Der Pakettyp zu einem Byte-Code, falls bekannt.
pub open spec fn typ_aus_code(b: u8) -> Option<PacketType> {
    if b == 0 {
        Some(PacketType::Audio)
    } else if b == 1 {
        Some(PacketType::Silence)
    } else if b == 2 {
        Some(PacketType::Fec)
    } else {
        None
    }
}

impl PacketType {
    /// Konvertiert ein Byte in einen `PacketType`.
    pub fn from_u8(byte: u8) -> (r: Option<Self>)
        ensures
            r == typ_aus_code(byte),
    {
        match byte {
            0 => Some(PacketType::Audio),
            1 => Some(PacketType::Silence),
            2 => Some(PacketType::Fec),
            _ => None,
        }
    }

    /// Der Byte-Code dieses Pakettyps.
    pub fn als_u8(self) -> (r: u8)
        ensures
            r == typ_code(self),
    {
        match self {
            PacketType::Audio => 0,
            PacketType::Silence => 1,
            PacketType::Fec => 2,
        }
    }
}

/// Fehler beim Dekodieren von Voice-Paketen.
#[derive(Debug, Clone, Copy, PartialEq, Eq, Structural)]
pub enum VoiceFehler {
    /// Das Slice ist kuerzer als der Header.
    HeaderZuKurz { laenge: usize },
    /// Die Version im Header ist nicht `PROTOKOLL_VERSION`.
    UngueltigeVersion { version: u8 },
    /// Der Pakettyp-Code ist unbekannt.
    UnbekannterPacketType { code: u8 },
    /// Die Nutzdaten ueberschreiten `MAX_NUTZDATEN_LAENGE`.
    NutzdatenZuLang { laenge: usize },
}

/// Der Meldungstext eines Voice-Fehlers.
pub open spec fn voice_meldung_spec(f: VoiceFehler) -> Seq<char> {
    match f {
        VoiceFehler::HeaderZuKurz { laenge } =>
            "Header zu kurz: "@ + dezimal_spec(laenge as nat) + " Bytes (erwartet 16)"@,
        VoiceFehler::UngueltigeVersion { version } =>
            "Ungueltige Protokollversion: "@ + dezimal_spec(version as nat) + " (erwartet 1)"@,
        VoiceFehler::UnbekannterPacketType { code } =>
            "Unbekannter PacketType: "@ + dezimal_spec(code as nat),
        VoiceFehler::NutzdatenZuLang { laenge } =>
            "Nutzdaten zu lang: "@ + dezimal_spec(laenge as nat) + " Bytes (Maximum 1280)"@,
    }
}

impl VoiceFehler {
    /// Menschenlesbare Fehlermeldung.
    pub fn meldung(&self) -> (r: String)
        ensures
            r@ == voice_meldung_spec(*self),
    {
        match *self {
            VoiceFehler::HeaderZuKurz { laenge } => {
                let mut s = String::from_str("Header zu kurz: ");
                dezimal_anhaengen(&mut s, laenge as u64);
                s.append(" Bytes (erwartet 16)");
                s
            },
            VoiceFehler::UngueltigeVersion { version } => {
                let mut s = String::from_str("Ungueltige Protokollversion: ");
                dezimal_anhaengen(&mut s, version as u64);
                s.append(" (erwartet 1)");
                s
            },
            VoiceFehler::UnbekannterPacketType { code } => {
                let mut s = String::from_str("Unbekannter PacketType: ");
                dezimal_anhaengen(&mut s, code as u64);
                s
            },
            VoiceFehler::NutzdatenZuLang { laenge } => {
                let mut s = String::from_str("Nutzdaten zu lang: ");
                dezimal_anhaengen(&mut s, laenge as u64);
                s.append(" Bytes (Maximum 1280)");
                s
            },
        }
    }
}

/// 16-Byte-Header eines Voice-UDP-Pakets.
#[derive(Debug, Clone, Copy, PartialEq, Eq, Structural)]
pub struct VoicePacketHeader {
    /// Protokollversion (muss `PROTOKOLL_VERSION` sein).
    pub version: u8,
    /// Pakettyp.
    pub packet_type: PacketType,
    /// Flags-Bitmaske (siehe `VoiceFlags`).
    pub flags: u16,
    /// Monoton steigende Sequenznummer (fuer den Jitter-Buffer).
    pub sequence: u32,
    /// RTP-kompatibler Zeitstempel (48 kHz-Ticks).
    pub timestamp: u32,
    /// Synchronisation Source: eindeutige Senderkennung.
    pub ssrc: u32,
}

/// Die zwei Bytes von `v` in big-endian-Reihenfolge.
pub open spec fn be16_bytes(v: u16) -> Seq<u8> {
    seq![(v / 256) as u8, (v % 256) as u8]
}

/// Die vier Bytes von `v` in big-endian-Reihenfolge.
pub open spec fn be32_bytes(v: u32) -> Seq<u8> {
    seq![
        (v / 0x1000000) as u8,
        ((v / 0x10000) % 256) as u8,
        ((v / 0x100) % 256) as u8,
        (v % 256) as u8,
    ]
}

/// Der Wert zweier big-endian-Bytes.
pub open spec fn be16_wert(a: u8, b: u8) -> u16 {
    (a * 256 + b) as u16
}

/// Der Wert vierer big-endian-Bytes.
pub open spec fn be32_wert(a: u8, b: u8, c: u8, d: u8) -> u32 {
    (a * 0x1000000 + b * 0x10000 + c * 0x100 + d) as u32
}

/// Die 16 Bytes, zu denen ein Header kodiert wird.
pub open spec fn header_bytes(h: VoicePacketHeader) -> Seq<u8> {
    seq![h.version, typ_code(h.packet_type)] + be16_bytes(h.flags) + be32_bytes(h.sequence)
        + be32_bytes(h.timestamp) + be32_bytes(h.ssrc)
}

/// Was das Dekodieren eines Headers aus den Bytes `b` ergibt.
pub open spec fn header_aus_bytes(b: Seq<u8>) -> Result<VoicePacketHeader, VoiceFehler> {
    if b.len() < 16 {
        Err(VoiceFehler::HeaderZuKurz { laenge: b.len() as usize })
    } else if b[0] != PROTOKOLL_VERSION {
        Err(VoiceFehler::UngueltigeVersion { version: b[0] })
    } else if typ_aus_code(b[1]) is None {
        Err(VoiceFehler::UnbekannterPacketType { code: b[1] })
    } else {
        Ok(
            VoicePacketHeader {
                version: b[0],
                packet_type: typ_aus_code(b[1]).unwrap(),
                flags: be16_wert(b[2], b[3]),
                sequence: be32_wert(b[4], b[5], b[6], b[7]),
                timestamp: be32_wert(b[8], b[9], b[10], b[11]),
                ssrc: be32_wert(b[12], b[13], b[14], b[15]),
            },
        )
    }
}

/// Zerlegen in Bytes und Zusammensetzen ergibt den Wert zurueck (16 Bit).
proof fn lemma_be16(v: u16)
    ensures
        be16_wert(be16_bytes(v)[0], be16_bytes(v)[1]) == v,
{
    assert(((v / 256) as u8) * 256 + ((v % 256) as u8) == v) by (nonlinear_arith);
}

/// Zerlegen in Bytes und Zusammensetzen ergibt den Wert zurueck (32 Bit).
pub(crate) proof fn lemma_be32(v: u32)
    ensures
        be32_wert(be32_bytes(v)[0], be32_bytes(v)[1], be32_bytes(v)[2], be32_bytes(v)[3]) == v,
{
    let a = (v / 0x1000000) as u8;
    let b = ((v / 0x10000) % 256) as u8;
    let c = ((v / 0x100) % 256) as u8;
    let d = (v % 256) as u8;
    assert(a * 0x1000000 + b * 0x10000 + c * 0x100 + d == v) by (nonlinear_arith)
        requires
            a == v / 0x1000000,
            b == (v / 0x10000) % 256,
            c == (v / 0x100) % 256,
            d == v % 256,
            v < 0x100000000,
    ;
}

/// Zusammensetzen und wieder Zerlegen ergibt die Bytes zurueck (16 Bit).
proof fn lemma_be16_rueck(a: u8, b: u8)
    ensures
        be16_bytes(be16_wert(a, b)) == seq![a, b],
{
    let v = a * 256 + b;
    assert(v / 256 == a && v % 256 == b) by (nonlinear_arith)
        requires
            v == a * 256 + b,
            0 <= a < 256,
            0 <= b < 256,
    ;
    assert(be16_bytes(be16_wert(a, b)) =~= seq![a, b]);
}

/// Zusammensetzen und wieder Zerlegen ergibt die Bytes zurueck (32 Bit).
proof fn lemma_be32_rueck(a: u8, b: u8, c: u8, d: u8)
    ensures
        be32_bytes(be32_wert(a, b, c, d)) == seq![a, b, c, d],
{
    let v = a * 0x1000000 + b * 0x10000 + c * 0x100 + d;
    assert(v / 0x1000000 == a && (v / 0x10000) % 256 == b && (v / 0x100) % 256 == c && v % 256
        == d) by (nonlinear_arith)
        requires
            v == a * 0x1000000 + b * 0x10000 + c * 0x100 + d,
            0 <= a < 256,
            0 <= b < 256,
            0 <= c < 256,
            0 <= d < 256,
    ;
    assert(be32_bytes(be32_wert(a, b, c, d)) =~= seq![a, b, c, d]);
}

/// Gesetz: ein Header mit gueltiger Version wird nach dem Kodieren unveraendert dekodiert.
pub proof fn gesetz_header_rundreise(h: VoicePacketHeader)
    requires
        h.version == PROTOKOLL_VERSION,
    ensures
        header_aus_bytes(header_bytes(h)) == Ok::<VoicePacketHeader, VoiceFehler>(h),
{
    let b = header_bytes(h);
    lemma_be16(h.flags);
    lemma_be32(h.sequence);
    lemma_be32(h.timestamp);
    lemma_be32(h.ssrc);
    assert(b[2] == be16_bytes(h.flags)[0] && b[3] == be16_bytes(h.flags)[1]);
    assert(b[4] == be32_bytes(h.sequence)[0] && b[5] == be32_bytes(h.sequence)[1]);
    assert(b[6] == be32_bytes(h.sequence)[2] && b[7] == be32_bytes(h.sequence)[3]);
    assert(b[8] == be32_bytes(h.timestamp)[0] && b[9] == be32_bytes(h.timestamp)[1]);
    assert(b[10] == be32_bytes(h.timestamp)[2] && b[11] == be32_bytes(h.timestamp)[3]);
    assert(b[12] == be32_bytes(h.ssrc)[0] && b[13] == be32_bytes(h.ssrc)[1]);
    assert(b[14] == be32_bytes(h.ssrc)[2] && b[15] == be32_bytes(h.ssrc)[3]);
}

/// Gesetz: was erfolgreich als Header dekodiert wird, kodiert wieder genau zu den ersten 16 Bytes.
pub proof fn gesetz_header_eindeutig(b: Seq<u8>)
    requires
        header_aus_bytes(b) is Ok,
    ensures
        header_bytes(header_aus_bytes(b)->Ok_0) == b.take(16),
{
    let h = header_aus_bytes(b)->Ok_0;
    lemma_be16_rueck(b[2], b[3]);
    lemma_be32_rueck(b[4], b[5], b[6], b[7]);
    lemma_be32_rueck(b[8], b[9], b[10], b[11]);
    lemma_be32_rueck(b[12], b[13], b[14], b[15]);
    assert(typ_code(h.packet_type) == b[1]);
    assert(header_bytes(h) =~= b.take(16));
}

/// Gesetz: der Pakettyp steht als zweites Byte auf der Leitung, mit festen Codes: Audio ist 0,
/// Silence 1 und FEC 2. Ein kodierter Header traegt den Code seines Typs, und ein dekodierter
/// Header hat den Typ, den das Byte nennt; jedes andere Byte wird abgelehnt.
pub proof fn gesetz_pakettyp_codes(h: VoicePacketHeader, b: Seq<u8>, x: u8)
    ensures
        (typ_aus_code(x) == Some(PacketType::Audio)) == (x == 0),
        (typ_aus_code(x) == Some(PacketType::Silence)) == (x == 1),
        (typ_aus_code(x) == Some(PacketType::Fec)) == (x == 2),
        typ_aus_code(x) is None <==> x > 2,
        (header_bytes(h)[1] == 0) == (h.packet_type == PacketType::Audio),
        (header_bytes(h)[1] == 1) == (h.packet_type == PacketType::Silence),
        (header_bytes(h)[1] == 2) == (h.packet_type == PacketType::Fec),
        header_aus_bytes(b) matches Ok(k) ==> {
            &&& (b[1] == 0) == (k.packet_type == PacketType::Audio)
            &&& (b[1] == 1) == (k.packet_type == PacketType::Silence)
            &&& (b[1] == 2) == (k.packet_type == PacketType::Fec)
        },
        b.len() >= 16 && b[0] == 1 ==> (header_aus_bytes(b) is Ok <==> b[1] <= 2),
{
}

/// Gesetz: die Felder stehen big-endian auf der Leitung: Byte 0 ist die Version, Bytes 2-3 die
/// Flags, 4-7 die Sequenznummer, 8-11 der Zeitstempel und 12-15 die SSRC, jeweils das
/// hoechstwertige Byte zuerst.
pub proof fn gesetz_header_byte_reihenfolge(h: VoicePacketHeader)
    ensures
        header_bytes(h).len() == 16,
        header_bytes(h)[0] == h.version,
        header_bytes(h)[2] * 256 + header_bytes(h)[3] == h.flags,
        header_bytes(h)[4] * 0x1000000 + header_bytes(h)[5] * 0x10000 + header_bytes(h)[6] * 0x100
            + header_bytes(h)[7] == h.sequence,
        header_bytes(h)[8] * 0x1000000 + header_bytes(h)[9] * 0x10000 + header_bytes(h)[10] * 0x100
            + header_bytes(h)[11] == h.timestamp,
        header_bytes(h)[12] * 0x1000000 + header_bytes(h)[13] * 0x10000 + header_bytes(h)[14]
            * 0x100 + header_bytes(h)[15] == h.ssrc,
{
    let b = header_bytes(h);
    lemma_be16(h.flags);
    lemma_be32(h.sequence);
    lemma_be32(h.timestamp);
    lemma_be32(h.ssrc);
    assert(b[2] == be16_bytes(h.flags)[0] && b[3] == be16_bytes(h.flags)[1]);
    assert(b[4] == be32_bytes(h.sequence)[0] && b[5] == be32_bytes(h.sequence)[1]);
    assert(b[6] == be32_bytes(h.sequence)[2] && b[7] == be32_bytes(h.sequence)[3]);
    assert(b[8] == be32_bytes(h.timestamp)[0] && b[9] == be32_bytes(h.timestamp)[1]);
    assert(b[10] == be32_bytes(h.timestamp)[2] && b[11] == be32_bytes(h.timestamp)[3]);
    assert(b[12] == be32_bytes(h.ssrc)[0] && b[13] == be32_bytes(h.ssrc)[1]);
    assert(b[14] == be32_bytes(h.ssrc)[2] && b[15] == be32_bytes(h.ssrc)[3]);
    assert((b[2] * 256 + b[3]) as u16 == b[2] * 256 + b[3]);
}

impl VoicePacketHeader {
    /// Header-Groesse in Bytes.
    pub const SIZE: usize = 16;

    /// Erstellt einen neuen Header mit der aktuellen Protokollversion.
    pub fn new(packet_type: PacketType, flags: u16, sequence: u32, timestamp: u32, ssrc: u32) -> (r:
        Self)
        ensures
            r == (VoicePacketHeader {
                version: PROTOKOLL_VERSION,
                packet_type,
                flags,
                sequence,
                timestamp,
                ssrc,
            }),
    {
        VoicePacketHeader { version: PROTOKOLL_VERSION, packet_type, flags, sequence, timestamp, ssrc }
    }

    /// Serialisiert den Header in ein 16-Byte-Array (big-endian).
    pub fn encode(&self) -> (r: [u8; 16])
        ensures
            r@ == header_bytes(*self),
    {
        let f = self.flags;
        let s = self.sequence;
        let t = self.timestamp;
        let q = self.ssrc;
        let r = [
            self.version,
            self.packet_type.als_u8(),
            (f / 256) as u8,
            (f % 256) as u8,
            (s / 0x1000000) as u8,
            ((s / 0x10000) % 256) as u8,
            ((s / 0x100) % 256) as u8,
            (s % 256) as u8,
            (t / 0x1000000) as u8,
            ((t / 0x10000) % 256) as u8,
            ((t / 0x100) % 256) as u8,
            (t % 256) as u8,
            (q / 0x1000000) as u8,
            ((q / 0x10000) % 256) as u8,
            ((q / 0x100) % 256) as u8,
            (q % 256) as u8,
        ];
        assert(r@ =~= header_bytes(*self));
        r
    }

    /// Deserialisiert einen Header aus einem Byte-Slice.
    ///
    /// Fehler: Slice kuerzer als 16 Bytes, falsche Version, unbekannter Pakettyp.
    pub fn decode(buf: &[u8]) -> (r: Result<Self, VoiceFehler>)
        ensures
            r == header_aus_bytes(buf@),
    {
        if buf.len() < HEADER_GROESSE {
            return Err(VoiceFehler::HeaderZuKurz { laenge: buf.len() });
        }
        let version = buf[0];
        if version != PROTOKOLL_VERSION {
            return Err(VoiceFehler::UngueltigeVersion { version });
        }
        let packet_type = match PacketType::from_u8(buf[1]) {
            Some(t) => t,
            None => {
                return Err(VoiceFehler::UnbekannterPacketType { code: buf[1] });
            },
        };
        let flags = (buf[2] as u16) * 256 + (buf[3] as u16);
        let sequence = (buf[4] as u32) * 0x1000000 + (buf[5] as u32) * 0x10000 + (buf[6] as u32)
            * 0x100 + (buf[7] as u32);
        let timestamp = (buf[8] as u32) * 0x1000000 + (buf[9] as u32) * 0x10000 + (buf[10] as u32)
            * 0x100 + (buf[11] as u32);
        let ssrc = (buf[12] as u32) * 0x1000000 + (buf[13] as u32) * 0x10000 + (buf[14] as u32)
            * 0x100 + (buf[15] as u32);
        Ok(VoicePacketHeader { version, packet_type, flags, sequence, timestamp, ssrc })
    }

    /// Prueft ob ein bestimmtes Flag gesetzt ist.
    pub fn hat_flag(&self, flag: u16) -> (r: bool)
        ensures
            r == (self.flags & flag != 0),
    {
        self.flags & flag != 0
    }
}

/// Vollstaendiges Voice-UDP-Paket (Header + Opus-Nutzdaten).
#[derive(Debug, Clone, PartialEq, Eq)]
pub struct VoicePacket {
    /// 16-Byte-Header.
    pub header: VoicePacketHeader,
    /// Opus-Nutzdaten (hoechstens `MAX_NUTZDATEN_LAENGE` Bytes).
    pub payload: Vec<u8>,
}

/// Die Bytes eines kodierten Paketes: Header gefolgt von den Nutzdaten.
pub open spec fn paket_bytes(h: VoicePacketHeader, payload: Seq<u8>) -> Seq<u8> {
    header_bytes(h) + payload
}

/// Was das Dekodieren eines Paketes aus den Bytes `b` ergibt: Header und Nutzdaten.
pub open spec fn paket_aus_bytes(b: Seq<u8>) -> Result<(VoicePacketHeader, Seq<u8>), VoiceFehler> {
    match header_aus_bytes(b) {
        Err(e) => Err(e),
        Ok(h) => if b.len() - 16 > MAX_NUTZDATEN_LAENGE {
            Err(VoiceFehler::NutzdatenZuLang { laenge: (b.len() - 16) as usize })
        } else {
            Ok((h, b.skip(16)))
        },
    }
}

/// Gesetz: ein gueltiges Paket wird nach dem Kodieren unveraendert dekodiert.
pub proof fn gesetz_paket_rundreise(h: VoicePacketHeader, payload: Seq<u8>)
    requires
        h.version == PROTOKOLL_VERSION,
        payload.len() <= MAX_NUTZDATEN_LAENGE,
    ensures
        paket_aus_bytes(paket_bytes(h, payload)) == Ok::<(VoicePacketHeader, Seq<u8>), VoiceFehler>(
            (h, payload),
        ),
{
    let b = paket_bytes(h, payload);
    gesetz_header_rundreise(h);
    assert(header_bytes(h).len() == 16);
    assert(b.take(16) =~= header_bytes(h));
    assert forall|i: int| 0 <= i < 16 implies b[i] == header_bytes(h)[i] by {}
    assert(header_aus_bytes(b) == header_aus_bytes(header_bytes(h)));
    assert(b.skip(16) =~= payload);
}

/// Gesetz: was erfolgreich als Paket dekodiert wird, kodiert wieder genau zu denselben Bytes.
pub proof fn gesetz_paket_eindeutig(b: Seq<u8>)
    requires
        paket_aus_bytes(b) is Ok,
    ensures
        paket_bytes(paket_aus_bytes(b)->Ok_0.0, paket_aus_bytes(b)->Ok_0.1) == b,
{
    gesetz_header_eindeutig(b);
    assert(b.take(16) + b.skip(16) =~= b);
}

/// Haengt die Bytes `s` an `v` an.
fn bytes_anhaengen(v: &mut Vec<u8>, s: &[u8])
    ensures
        final(v)@ == old(v)@ + s@,
{
    let mut i: usize = 0;
    while i < s.len()
        invariant
            i <= s@.len(),
            v@ == old(v)@ + s@.take(i as int),
        decreases s@.len() - i,
    {
        v.push(s[i]);
        i = i + 1;
        assert(s@.take(i as int) =~= s@.take((i - 1) as int).push(s@[i - 1]));
    }
    assert(s@.take(i as int) =~= s@);
}

impl VoicePacket {
    /// Erstellt ein normales Opus-Audio-Paket (ohne Flags).
    pub fn neu_audio(sequence: u32, timestamp: u32, ssrc: u32, payload: Vec<u8>) -> (r: Self)
        ensures
            r.header == (VoicePacketHeader {
                version: PROTOKOLL_VERSION,
                packet_type: PacketType::Audio,
                flags: 0,
                sequence,
                timestamp,
                ssrc,
            }),
            r.payload == payload,
    {
        VoicePacket {
            header: VoicePacketHeader::new(PacketType::Audio, 0, sequence, timestamp, ssrc),
            payload,
        }
    }

    /// Erstellt ein Silence/DTX-Paket ohne Nutzdaten.
    pub fn neu_silence(sequence: u32, timestamp: u32, ssrc: u32) -> (r: Self)
        ensures
            r.header == (VoicePacketHeader {
                version: PROTOKOLL_VERSION,
                packet_type: PacketType::Silence,
                flags: VoiceFlags::DTX,
                sequence,
                timestamp,
                ssrc,
            }),
            r.payload@ == Seq::<u8>::empty(),
    {
        VoicePacket {
            header: VoicePacketHeader::new(
                PacketType::Silence,
                VoiceFlags::DTX,
                sequence,
                timestamp,
                ssrc,
            ),
            payload: Vec::new(),
        }
    }

    /// Serialisiert das gesamte Paket: die 16 Bytes des Headers, dann die Nutzdaten.
    pub fn encode(&self) -> (r: Vec<u8>)
        ensures
            r@ == paket_bytes(self.header, self.payload@),
            r@ == header_bytes(self.header) + self.payload@,
            r@.len() == HEADER_GROESSE + self.payload@.len(),
    {
        let mut buf: Vec<u8> = Vec::new();
        let kopf = self.header.encode();
        bytes_anhaengen(&mut buf, &kopf);
        bytes_anhaengen(&mut buf, self.payload.as_slice());
        assert(header_bytes(self.header).len() == 16);
        buf
    }

    /// Deserialisiert ein Paket aus einem Byte-Slice und validiert es.
    pub fn decode(buf: &[u8]) -> (r: Result<Self, VoiceFehler>)
        ensures
            match r {
                Ok(p) => paket_aus_bytes(buf@) == Ok::<(VoicePacketHeader, Seq<u8>), VoiceFehler>(
                    (p.header, p.payload@),
                ),
                Err(e) => paket_aus_bytes(buf@) == Err::<(VoicePacketHeader, Seq<u8>), VoiceFehler>(
                    e,
                ),
            },
    {
        let header = match VoicePacketHeader::decode(buf) {
            Ok(h) => h,
            Err(e) => {
                return Err(e);
            },
        };
        let laenge = buf.len() - HEADER_GROESSE;
        if laenge > MAX_NUTZDATEN_LAENGE {
            return Err(VoiceFehler::NutzdatenZuLang { laenge });
        }
        let rest = vstd::slice::slice_subrange(buf, HEADER_GROESSE, buf.len());
        let payload = vstd::slice::slice_to_vec(rest);
        assert(payload@ =~= buf@.skip(16));
        Ok(VoicePacket { header, payload })
    }

    /// Gesamtgroesse des Paketes in Bytes.
    pub fn groesse(&self) -> (r: usize)
        requires
            self.payload@.len() + HEADER_GROESSE <= usize::MAX,
        ensures
            r == HEADER_GROESSE + self.payload@.len(),
    {
        HEADER_GROESSE + self.payload.len()
    }

    /// Prueft ob die Sprachaktivitaet beginnt.
    pub fn spricht_start(&self) -> (r: bool)
        ensures
            r == (self.header.flags & VoiceFlags::SPEAKING_START != 0),
    {
        self.header.hat_flag(VoiceFlags::SPEAKING_START)
    }

    /// Prueft ob die Sprachaktivitaet endet.
    pub fn spricht_stop(&self) -> (r: bool)
        ensures
            r == (self.header.flags & VoiceFlags::SPEAKING_STOP != 0),
    {
        self.header.hat_flag(VoiceFlags::SPEAKING_STOP)
    }
}

/// Codec fuer Audio-Pakete (Signaling-Ebene).
#[derive(Debug, Clone, Copy, PartialEq, Eq, Structural)]
pub enum AudioCodec {
    /// Opus: Standard-Codec fuer Sprache.
    Opus,
    /// PCMU (G.711): Fallback fuer maximale Kompatibilitaet.
    Pcmu,
}

impl Default for AudioCodec {
    /// Der Standard-Codec (Opus).
    fn default() -> (r: Self)
        ensures
            r == AudioCodec::Opus,
    {
        AudioCodec::Opus
    }
}

/// High-Level Voice-Paket fuer Signaling (Metadaten ueber Pakete).
#[derive(Debug, Clone)]
pub struct VoicePaket {
    /// Absender.
    pub user_id: UserId,
    /// Ziel-Kanal.
    pub kanal_id: ChannelId,
    /// Monoton steigender Sequenzzaehler.
    pub sequenz: u32,
    /// RTP-kompatibler Zeitstempel.
    pub zeitstempel: u32,
    /// Verwendeter Codec.
    pub codec: AudioCodec,
    /// Rohe Codec-Nutzdaten.
    pub nutzdaten: Vec<u8>,
}

impl VoicePaket {
    /// Erstellt ein neues Opus-Voice-Paket.
    pub fn neu_opus(
        user_id: UserId,
        kanal_id: ChannelId,
        sequenz: u32,
        zeitstempel: u32,
        nutzdaten: Vec<u8>,
    ) -> (r: Self)
        ensures
            r.user_id == user_id,
            r.kanal_id == kanal_id,
            r.sequenz == sequenz,
            r.zeitstempel == zeitstempel,
            r.codec == AudioCodec::Opus,
            r.nutzdaten == nutzdaten,
    {
        VoicePaket { user_id, kanal_id, sequenz, zeitstempel, codec: AudioCodec::Opus, nutzdaten }
    }

    /// Die Nutzdaten-Laenge in Bytes.
    pub fn nutzdaten_laenge(&self) -> (r: usize)
        ensures
            r == self.nutzdaten@.len(),
    {
        self.nutzdaten.len()
    }
}

} // verus!
