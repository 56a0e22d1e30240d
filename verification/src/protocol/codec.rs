//! Codec-Konfiguration fuer die Audio-Uebertragung: Opus-Parameter, Presets und Aushandlung.

use crate::text::{dezimal_anhaengen, dezimal_spec};
use vstd::prelude::*;

verus! {

/// Abtastrate fuer Opus.
#[derive(Debug, Clone, Copy, PartialEq, Eq, Structural)]
pub enum SampleRate {
    /// 8 kHz: Schmalband (Telefon-Qualitaet).
    Hz8000,
    /// 12 kHz: Mittelband.
    Hz12000,
    /// 16 kHz: Breitband.
    Hz16000,
    /// 24 kHz: Superbreitband.
    Hz24000,
    /// 48 kHz: Vollband (Standard).
    Hz48000,
}

/// Die Abtastrate in Hertz.
pub open spec fn hz_spec(r: SampleRate) -> u32 {
    match r {
        SampleRate::Hz8000 => 8000,
        SampleRate::Hz12000 => 12000,
        SampleRate::Hz16000 => 16000,
        SampleRate::Hz24000 => 24000,
        SampleRate::Hz48000 => 48000,
    }
}

impl SampleRate {
    /// Die Abtastrate in Hertz.
    pub fn hz(self) -> (r: u32)
        ensures
            r == hz_spec(self),
    {
        match self {
            SampleRate::Hz8000 => 8000,
            SampleRate::Hz12000 => 12000,
            SampleRate::Hz16000 => 16000,
            SampleRate::Hz24000 => 24000,
            SampleRate::Hz48000 => 48000,
        }
    }
}

impl Default for SampleRate {
    fn default() -> (r: Self)
        ensures
            r == SampleRate::Hz48000,
    {
        SampleRate::Hz48000
    }
}

/// Anzahl der Audio-Kanaele.
#[derive(Debug, Clone, Copy, PartialEq, Eq, Structural)]
pub enum ChannelCount {
    /// Mono (1 Kanal), fuer Sprache empfohlen.
    Mono,
    /// Stereo (2 Kanaele), fuer Musik.
    Stereo,
}

impl ChannelCount {
    /// Die Anzahl der Kanaele.
    pub fn anzahl(self) -> (r: u8)
        ensures
            r == (match self {
                ChannelCount::Mono => 1u8,
                ChannelCount::Stereo => 2u8,
            }),
    {
        match self {
            ChannelCount::Mono => 1,
            ChannelCount::Stereo => 2,
        }
    }
}

impl Default for ChannelCount {
    fn default() -> (r: Self)
        ensures
            r == ChannelCount::Mono,
    {
        ChannelCount::Mono
    }
}

/// Opus-Anwendungsmodus.
#[derive(Debug, Clone, Copy, PartialEq, Eq, Structural)]
pub enum OpusApplication {
    /// Optimiert fuer Sprachverstaendlichkeit (VOIP).
    Voip,
    /// Optimiert fuer allgemeine Audio-Qualitaet (Musik).
    Audio,
    /// Minimale Verarbeitungsverzoegerung.
    RestrictedLowdelay,
}

impl Default for OpusApplication {
    fn default() -> (r: Self)
        ensures
            r == OpusApplication::Voip,
    {
        OpusApplication::Voip
    }
}

/// Frame-Groesse in Millisekunden.
#[derive(Debug, Clone, Copy, PartialEq, Eq, Structural)]
pub enum FrameSizeMs {
    /// 2,5 ms: minimale Latenz.
    Ms2_5,
    /// 5 ms.
    Ms5,
    /// 10 ms.
    Ms10,
    /// 20 ms: Standard.
    Ms20,
    /// 40 ms.
    Ms40,
    /// 60 ms: maximale Kompression.
    Ms60,
}

/// Die Frame-Groesse in Zehntelmillisekunden.
pub open spec fn zehntel_ms_spec(f: FrameSizeMs) -> u32 {
    match f {
        FrameSizeMs::Ms2_5 => 25,
        FrameSizeMs::Ms5 => 50,
        FrameSizeMs::Ms10 => 100,
        FrameSizeMs::Ms20 => 200,
        FrameSizeMs::Ms40 => 400,
        FrameSizeMs::Ms60 => 600,
    }
}

/// Die Anzahl der Samples eines Frames der Groesse `f` bei der Abtastrate `r`.
pub open spec fn samples_spec(f: FrameSizeMs, r: SampleRate) -> int {
    zehntel_ms_spec(f) * hz_spec(r) / 10000
}

/// Gesetz: jede Abtastrate hat die Hertz-Zahl ihres Namens, und ein Frame haelt so viele
/// Samples, wie in seine Dauer passen: bei `n` Millisekunden `n * hz / 1000` (2,5 ms sind ein
/// Vierhundertstel einer Sekunde, 60 ms drei Fuenfzigstel).
pub proof fn gesetz_frame_dauer(r: SampleRate)
    ensures
        hz_spec(SampleRate::Hz8000) == 8000,
        hz_spec(SampleRate::Hz12000) == 12000,
        hz_spec(SampleRate::Hz16000) == 16000,
        hz_spec(SampleRate::Hz24000) == 24000,
        hz_spec(SampleRate::Hz48000) == 48000,
        samples_spec(FrameSizeMs::Ms2_5, r) * 400 == hz_spec(r),
        samples_spec(FrameSizeMs::Ms5, r) * 200 == hz_spec(r),
        samples_spec(FrameSizeMs::Ms10, r) * 100 == hz_spec(r),
        samples_spec(FrameSizeMs::Ms20, r) * 50 == hz_spec(r),
        samples_spec(FrameSizeMs::Ms40, r) * 25 == hz_spec(r),
        samples_spec(FrameSizeMs::Ms60, r) * 50 == 3 * hz_spec(r),
{
}

impl FrameSizeMs {
    /// Die Frame-Groesse in Zehntelmillisekunden.
    pub fn zehntel_ms(self) -> (r: u32)
        ensures
            r == zehntel_ms_spec(self),
    {
        match self {
            FrameSizeMs::Ms2_5 => 25,
            FrameSizeMs::Ms5 => 50,
            FrameSizeMs::Ms10 => 100,
            FrameSizeMs::Ms20 => 200,
            FrameSizeMs::Ms40 => 400,
            FrameSizeMs::Ms60 => 600,
        }
    }

    /// Die Anzahl der Samples pro Frame bei gegebener Abtastrate
    /// (Zehntelmillisekunden mal Hertz durch 10000, abgerundet).
    pub fn samples_per_frame(&self, sample_rate: SampleRate) -> (r: u32)
        ensures
            r == zehntel_ms_spec(*self) * hz_spec(sample_rate) / 10000,
            r == samples_spec(*self, sample_rate),
    {
        let rate = sample_rate.hz();
        let ms_x10 = self.zehntel_ms();
        assert(ms_x10 * rate <= 600 * 48000) by (nonlinear_arith)
            requires
                ms_x10 <= 600,
                rate <= 48000,
        ;
        ms_x10 * rate / 10000
    }
}

impl Default for FrameSizeMs {
    fn default() -> (r: Self)
        ensures
            r == FrameSizeMs::Ms20,
    {
        FrameSizeMs::Ms20
    }
}

/// Vollstaendige Opus-Codec-Konfiguration.
#[derive(Debug, Clone, Copy, PartialEq, Eq, Structural)]
pub struct OpusConfig {
    /// Ziel-Bitrate in kbps (6 bis 510).
    pub bitrate_kbps: u16,
    /// Abtastrate.
    pub sample_rate: SampleRate,
    /// Anzahl der Kanaele.
    pub channels: ChannelCount,
    /// Frame-Groesse.
    pub frame_size: FrameSizeMs,
    /// Anwendungsmodus.
    pub application: OpusApplication,
    /// Forward Error Correction aktiv.
    pub fec_enabled: bool,
    /// Discontinuous Transmission aktiv.
    pub dtx_enabled: bool,
    /// Komplexitaet (0 bis 10).
    pub complexity: u8,
    /// Variable Bitrate aktiv.
    pub vbr_enabled: bool,
}

/// Was die Validierung einer Opus-Konfiguration ergibt (Fehlermeldung als Zeichenfolge).
pub open spec fn opus_validierung_spec(c: OpusConfig) -> Result<(), Seq<char>> {
    if c.bitrate_kbps < 6 || c.bitrate_kbps > 510 {
        Err(
            "Bitrate muss zwischen 6 und 510 kbps liegen (war: "@ + dezimal_spec(
                c.bitrate_kbps as nat,
            ) + ")"@,
        )
    } else if c.complexity > 10 {
        Err(
            "Komplexitaet muss zwischen 0 und 10 liegen (war: "@ + dezimal_spec(
                c.complexity as nat,
            ) + ")"@,
        )
    } else {
        Ok(())
    }
}

/// Gesetz: eine Konfiguration besteht die Validierung genau dann, wenn die Bitrate zwischen 6 und
/// 510 kbps und die Komplexitaet hoechstens 10 ist; eine falsche Bitrate wird vor einer falschen
/// Komplexitaet gemeldet.
pub proof fn gesetz_opus_grenzen(c: OpusConfig)
    ensures
        opus_validierung_spec(c) is Ok <==> (6 <= c.bitrate_kbps <= 510 && c.complexity <= 10),
        (c.bitrate_kbps < 6 || c.bitrate_kbps > 510) ==> opus_validierung_spec(c) == Err::<
            (),
            Seq<char>,
        >(
            "Bitrate muss zwischen 6 und 510 kbps liegen (war: "@ + dezimal_spec(
                c.bitrate_kbps as nat,
            ) + ")"@,
        ),
{
}

impl OpusConfig {
    /// Validiert die Konfiguration: Bitrate 6..=510 kbps, Komplexitaet 0..=10.
    pub fn validieren(&self) -> (r: Result<(), String>)
        ensures
            match r {
                Ok(()) => opus_validierung_spec(*self) == Ok::<(), Seq<char>>(()),
                Err(m) => opus_validierung_spec(*self) == Err::<(), Seq<char>>(m@),
            },
    {
        if self.bitrate_kbps < 6 || self.bitrate_kbps > 510 {
            let mut s = String::from_str("Bitrate muss zwischen 6 und 510 kbps liegen (war: ");
            dezimal_anhaengen(&mut s, self.bitrate_kbps as u64);
            s.append(")");
            return Err(s);
        }
        if self.complexity > 10 {
            let mut s = String::from_str("Komplexitaet muss zwischen 0 und 10 liegen (war: ");
            dezimal_anhaengen(&mut s, self.complexity as u64);
            s.append(")");
            return Err(s);
        }
        Ok(())
    }
}

/// Vordefinierte Audio-Konfigurationen fuer haeufige Anwendungsfaelle.
#[derive(Debug, Clone, Copy, PartialEq, Eq, Structural)]
pub enum AudioPreset {
    /// Sprache: niedrige Bitrate, niedrige Latenz, FEC aktiv.
    Speech,
    /// Ausgewogener Kompromiss zwischen Qualitaet und Bandbreite.
    Balanced,
    /// Musik: hohe Bitrate, Stereo, keine Silence-Suppression.
    Music,
    /// Minimale Bandbreite: sehr niedrige Bitrate, DTX aktiv.
    LowBandwidth,
}

/// Die Konfiguration eines Presets.
pub open spec fn preset_config_spec(p: AudioPreset) -> OpusConfig {
    match p {
        AudioPreset::Speech => OpusConfig {
            bitrate_kbps: 32,
            sample_rate: SampleRate::Hz16000,
            channels: ChannelCount::Mono,
            frame_size: FrameSizeMs::Ms20,
            application: OpusApplication::Voip,
            fec_enabled: true,
            dtx_enabled: true,
            complexity: 8,
            vbr_enabled: true,
        },
        AudioPreset::Balanced => OpusConfig {
            bitrate_kbps: 64,
            sample_rate: SampleRate::Hz48000,
            channels: ChannelCount::Mono,
            frame_size: FrameSizeMs::Ms20,
            application: OpusApplication::Voip,
            fec_enabled: true,
            dtx_enabled: false,
            complexity: 9,
            vbr_enabled: true,
        },
        AudioPreset::Music => OpusConfig {
            bitrate_kbps: 192,
            sample_rate: SampleRate::Hz48000,
            channels: ChannelCount::Stereo,
            frame_size: FrameSizeMs::Ms20,
            application: OpusApplication::Audio,
            fec_enabled: false,
            dtx_enabled: false,
            complexity: 10,
            vbr_enabled: false,
        },
        AudioPreset::LowBandwidth => OpusConfig {
            bitrate_kbps: 12,
            sample_rate: SampleRate::Hz8000,
            channels: ChannelCount::Mono,
            frame_size: FrameSizeMs::Ms40,
            application: OpusApplication::Voip,
            fec_enabled: false,
            dtx_enabled: true,
            complexity: 5,
            vbr_enabled: true,
        },
    }
}

/// Gesetz: die Konfiguration jedes Presets besteht die Validierung.
pub proof fn gesetz_presets_gueltig(p: AudioPreset)
    ensures
        opus_validierung_spec(preset_config_spec(p)) == Ok::<(), Seq<char>>(()),
{
}

impl AudioPreset {
    /// Gibt die vordefinierte `OpusConfig` fuer dieses Preset zurueck.
    pub fn config(&self) -> (r: OpusConfig)
        ensures
            r == preset_config_spec(*self),
    {
        match self {
            AudioPreset::Speech => OpusConfig {
                bitrate_kbps: 32,
                sample_rate: SampleRate::Hz16000,
                channels: ChannelCount::Mono,
                frame_size: FrameSizeMs::Ms20,
                application: OpusApplication::Voip,
                fec_enabled: true,
                dtx_enabled: true,
                complexity: 8,
                vbr_enabled: true,
            },
            AudioPreset::Balanced => OpusConfig {
                bitrate_kbps: 64,
                sample_rate: SampleRate::Hz48000,
                channels: ChannelCount::Mono,
                frame_size: FrameSizeMs::Ms20,
                application: OpusApplication::Voip,
                fec_enabled: true,
                dtx_enabled: false,
                complexity: 9,
                vbr_enabled: true,
            },
            AudioPreset::Music => OpusConfig {
                bitrate_kbps: 192,
                sample_rate: SampleRate::Hz48000,
                channels: ChannelCount::Stereo,
                frame_size: FrameSizeMs::Ms20,
                application: OpusApplication::Audio,
                fec_enabled: false,
                dtx_enabled: false,
                complexity: 10,
                vbr_enabled: false,
            },
            AudioPreset::LowBandwidth => OpusConfig {
                bitrate_kbps: 12,
                sample_rate: SampleRate::Hz8000,
                channels: ChannelCount::Mono,
                frame_size: FrameSizeMs::Ms40,
                application: OpusApplication::Voip,
                fec_enabled: false,
                dtx_enabled: true,
                complexity: 5,
                vbr_enabled: true,
            },
        }
    }

    /// Der menschenlesbare Name des Presets.
    pub fn bezeichnung(&self) -> (r: &'static str)
        ensures
            r@ == (match *self {
                AudioPreset::Speech => "Sprache"@,
                AudioPreset::Balanced => "Ausgewogen"@,
                AudioPreset::Music => "Musik"@,
                AudioPreset::LowBandwidth => "Niedrige Bandbreite"@,
            }),
            r@.len() > 0,
    {
        match self {
            AudioPreset::Speech => {
                proof { reveal_strlit("Sprache"); }
                "Sprache"
            },
            AudioPreset::Balanced => {
                proof { reveal_strlit("Ausgewogen"); }
                "Ausgewogen"
            },
            AudioPreset::Music => {
                proof { reveal_strlit("Musik"); }
                "Musik"
            },
            AudioPreset::LowBandwidth => {
                proof { reveal_strlit("Niedrige Bandbreite"); }
                "Niedrige Bandbreite"
            },
        }
    }
}

/// Codec-Aushandlung: gewuenschte Konfiguration des Clients.
#[derive(Debug, Clone)]
pub struct CodecNegotiationRequest {
    /// Gewuenschte Konfiguration des Clients.
    pub requested: OpusConfig,
    /// Optional: Preset als Kurzform.
    pub preset_hint: Option<AudioPreset>,
    /// Unterstuetzte Abtastraten (in Praeferenz-Reihenfolge).
    pub supported_sample_rates: Vec<SampleRate>,
    /// Maximale Bitrate, die der Client senden kann (kbps).
    pub max_upload_kbps: u16,
    /// Maximale Bitrate, die der Client empfangen kann (kbps).
    pub max_download_kbps: u16,
}

/// Status der Codec-Aushandlung.
#[derive(Debug, Clone, Copy, PartialEq, Eq, Structural)]
pub enum NegotiationStatus {
    /// Gewuenschte Konfiguration akzeptiert.
    Accepted,
    /// Konfiguration angepasst.
    Adjusted,
    /// Keine kompatible Konfiguration gefunden.
    Rejected,
}

/// Antwort des Servers auf eine Codec-Aushandlung.
#[derive(Debug, Clone)]
pub struct CodecNegotiationResponse {
    /// Status der Aushandlung.
    pub status: NegotiationStatus,
    /// Vom Server erlaubte Konfiguration.
    pub accepted: OpusConfig,
    /// Grund fuer Anpassungen.
    pub adjustment_reason: Option<String>,
    /// Serverseitige Bitraten-Obergrenze (kbps).
    pub server_max_bitrate_kbps: u16,
}

} // verus!
