use speakeasy::protocol::codec::{
    AudioPreset, ChannelCount, FrameSizeMs, OpusApplication, SampleRate,
};
use speakeasy::protocol::control::{
    ControlMessage, ControlPayload, ErrorCode, ProtokollVersion,
};
use speakeasy::protocol::crypto::CryptoMode;
use speakeasy::protocol::voice::{
    AudioCodec, PacketType, VoiceFehler, VoiceFlags, VoicePacket, VoicePacketHeader, VoicePaket,
    MAX_NUTZDATEN_LAENGE,
};
use speakeasy::protocol::wire::{FrameCodec, FrameFehler, DEFAULT_MAX_FRAME_SIZE, LENGTH_FIELD_SIZE};
use speakeasy::kern::{ChannelId, UserId};

// --- voice ---

#[test]
fn header_encode_decode_round_trip() {
    let header = VoicePacketHeader::new(PacketType::Audio, VoiceFlags::FEC, 42, 6720, 0xDEAD);
    let encoded = header.encode();
    assert_eq!(encoded.len(), VoicePacketHeader::SIZE);
    let decoded = VoicePacketHeader::decode(&encoded).expect("Decode muss erfolgreich sein");
    assert_eq!(header, decoded);
}

#[test]
fn header_groesse_ist_16_bytes() {
    let header = VoicePacketHeader::new(PacketType::Audio, 0, 0, 0, 0);
    assert_eq!(header.encode().len(), 16);
}

#[test]
fn header_big_endian_byte_reihenfolge() {
    let header =
        VoicePacketHeader::new(PacketType::Audio, 0x0102, 0x01020304, 0x05060708, 0x090A0B0C);
    let bytes = header.encode();
    assert_eq!(bytes[2], 0x01);
    assert_eq!(bytes[3], 0x02);
    assert_eq!(bytes[4], 0x01);
    assert_eq!(bytes[7], 0x04);
    assert_eq!(bytes[8], 0x05);
    assert_eq!(bytes[11], 0x08);
    assert_eq!(bytes[12], 0x09);
    assert_eq!(bytes[15], 0x0C);
}

#[test]
fn header_decode_falsche_version() {
    let mut bytes = VoicePacketHeader::new(PacketType::Audio, 0, 1, 0, 0).encode();
    bytes[0] = 99;
    let result = VoicePacketHeader::decode(&bytes);
    assert!(result.is_err());
}

#[test]
fn header_decode_zu_kurz() {
    let bytes = [0u8; 8];
    let result = VoicePacketHeader::decode(&bytes);
    assert!(result.is_err());
}

#[test]
fn header_decode_unbekannter_packet_type() {
    let mut bytes = VoicePacketHeader::new(PacketType::Audio, 0, 0, 0, 0).encode();
    bytes[1] = 255;
    let result = VoicePacketHeader::decode(&bytes);
    assert!(result.is_err());
}

#[test]
fn voice_packet_encode_decode_round_trip() {
    let payload = vec![0xAB; 120];
    let paket = VoicePacket::neu_audio(100, 4800, 0xCAFE, payload.clone());
    let encoded = paket.encode();
    assert_eq!(encoded.len(), VoicePacketHeader::SIZE + 120);
    let decoded = VoicePacket::decode(&encoded).expect("Decode muss erfolgreich sein");
    assert_eq!(decoded.header, paket.header);
    assert_eq!(decoded.payload, payload);
}

#[test]
fn voice_packet_silence_hat_dtx_flag() {
    let paket = VoicePacket::neu_silence(5, 240, 0x1234);
    assert!(paket.header.hat_flag(VoiceFlags::DTX));
    assert_eq!(paket.header.packet_type, PacketType::Silence);
    assert!(paket.payload.is_empty());
}

#[test]
fn voice_packet_zu_grosse_nutzdaten() {
    let header = VoicePacketHeader::new(PacketType::Audio, 0, 0, 0, 0);
    let mut buf = header.encode().to_vec();
    buf.extend(vec![0u8; MAX_NUTZDATEN_LAENGE + 1]);
    let result = VoicePacket::decode(&buf);
    assert!(result.is_err());
}

#[test]
fn voice_packet_leere_nutzdaten_ok() {
    let paket = VoicePacket::neu_audio(0, 0, 0, vec![]);
    let encoded = paket.encode();
    assert_eq!(encoded.len(), VoicePacketHeader::SIZE);
    let decoded = VoicePacket::decode(&encoded).unwrap();
    assert!(decoded.payload.is_empty());
}

#[test]
fn flags_kombination() {
    let flags = VoiceFlags::ENCRYPTED | VoiceFlags::FEC;
    let header = VoicePacketHeader::new(PacketType::Audio, flags, 0, 0, 0);
    assert!(header.hat_flag(VoiceFlags::ENCRYPTED));
    assert!(header.hat_flag(VoiceFlags::FEC));
    assert!(!header.hat_flag(VoiceFlags::DTX));
    assert!(!header.hat_flag(VoiceFlags::SPEAKING_START));
}

#[test]
fn voice_paket_erstellen() {
    let uid = UserId::new();
    let cid = ChannelId::new();
    let paket = VoicePaket::neu_opus(uid, cid, 1, 160, vec![0xAB; 60]);
    assert_eq!(paket.codec, AudioCodec::Opus);
    assert_eq!(paket.nutzdaten_laenge(), 60);
}

#[test]
fn voice_fehler_varianten_und_meldungen() {
    assert_eq!(
        VoicePacketHeader::decode(&[0u8; 8]),
        Err(VoiceFehler::HeaderZuKurz { laenge: 8 })
    );
    let mut bytes = VoicePacketHeader::new(PacketType::Fec, 0, 0, 0, 0).encode();
    bytes[0] = 7;
    assert_eq!(
        VoicePacketHeader::decode(&bytes),
        Err(VoiceFehler::UngueltigeVersion { version: 7 })
    );
    bytes[0] = 1;
    bytes[1] = 3;
    assert_eq!(
        VoicePacketHeader::decode(&bytes),
        Err(VoiceFehler::UnbekannterPacketType { code: 3 })
    );
    assert_eq!(
        VoiceFehler::HeaderZuKurz { laenge: 8 }.meldung(),
        "Header zu kurz: 8 Bytes (erwartet 16)"
    );
    assert_eq!(
        VoiceFehler::NutzdatenZuLang { laenge: 1281 }.meldung(),
        "Nutzdaten zu lang: 1281 Bytes (Maximum 1280)"
    );
}

#[test]
fn voice_packet_maximale_nutzdaten_ok() {
    let paket = VoicePacket::neu_audio(1, 2, 3, vec![7u8; MAX_NUTZDATEN_LAENGE]);
    let encoded = paket.encode();
    let decoded = VoicePacket::decode(&encoded).unwrap();
    assert_eq!(decoded, paket);
    assert_eq!(paket.groesse(), VoicePacketHeader::SIZE + MAX_NUTZDATEN_LAENGE);
}

#[test]
fn header_kodierung_exakte_bytes() {
    let header = VoicePacketHeader::new(PacketType::Silence, VoiceFlags::DTX, 2, 3, 4);
    assert_eq!(header.encode(), [1, 1, 0, 4, 0, 0, 0, 2, 0, 0, 0, 3, 0, 0, 0, 4]);
}

#[test]
fn spricht_start_und_stop_flags() {
    let mut paket = VoicePacket::neu_audio(0, 0, 0, vec![1]);
    assert!(!paket.spricht_start());
    paket.header.flags = VoiceFlags::SPEAKING_START;
    assert!(paket.spricht_start());
    assert!(!paket.spricht_stop());
    paket.header.flags = VoiceFlags::SPEAKING_STOP;
    assert!(paket.spricht_stop());
}

// --- wire ---

fn frame_von(payload: &[u8]) -> Vec<u8> {
    let mut v = (payload.len() as u32).to_be_bytes().to_vec();
    v.extend_from_slice(payload);
    v
}

#[test]
fn frame_codec_encode_decode_round_trip() {
    let codec = FrameCodec::new();
    let nachricht = b"{\"request_id\":42,\"payload\":{\"type\":\"ping\"}}".to_vec();
    let buf = codec.kodieren(&nachricht).unwrap();
    let payload_len = u32::from_be_bytes([buf[0], buf[1], buf[2], buf[3]]) as usize;
    assert!(payload_len > 0);
    assert_eq!(buf.len(), LENGTH_FIELD_SIZE + payload_len);
    let decoded = codec.dekodieren(&buf).unwrap().expect("Muss eine Nachricht enthalten");
    assert_eq!(decoded, nachricht);
}

#[test]
fn frame_codec_unvollstaendiger_frame() {
    let codec = FrameCodec::new();
    let buf = codec.kodieren(b"{\"request_id\":1}").unwrap();
    let half = buf.len() / 2;
    let result = codec.dekodieren(&buf[..half]).unwrap();
    assert!(result.is_none());
}

#[test]
fn frame_codec_zu_wenig_bytes_fuer_laengenfeld() {
    let codec = FrameCodec::new();
    let result = codec.dekodieren(&[0x00, 0x00]).unwrap();
    assert!(result.is_none());
}

#[test]
fn frame_codec_ablehnung_zu_grosser_frame() {
    let codec = FrameCodec::with_max_size(100);
    let buf = frame_von(&[b'x'; 200]);
    let result = codec.dekodieren(&buf);
    assert!(result.is_err());
    assert_eq!(result, Err(FrameFehler::FrameZuGross { laenge: 200, maximum: 100 }));
}

#[test]
fn frame_codec_ablehnung_beim_encode_zu_grosse_nachricht() {
    let codec = FrameCodec::with_max_size(10);
    let result = codec.kodieren(b"{\"request_id\":1,\"payload\":{}}");
    assert!(result.is_err());
}

#[test]
fn frame_codec_mehrere_nachrichten_im_buffer() {
    let codec = FrameCodec::new();
    let mut buf: Vec<u8> = Vec::new();
    for i in 0..3u8 {
        buf.extend(codec.kodieren(&[i; 5]).unwrap());
    }
    for i in 0..3u8 {
        let msg = codec.dekodieren(&buf).unwrap().expect("Nachricht erwartet");
        assert_eq!(msg, vec![i; 5]);
        buf.drain(..LENGTH_FIELD_SIZE + msg.len());
    }
    assert!(buf.is_empty());
}

#[test]
fn frames_verschiedener_laenge_nacheinander() {
    let codec = FrameCodec::with_max_size(8);
    let payloads: Vec<Vec<u8>> = vec![vec![], vec![1, 2], vec![3]];
    let mut buf: Vec<u8> = Vec::new();
    for p in &payloads {
        buf.extend(codec.kodieren(p).unwrap());
    }
    buf.extend([0, 0]);
    for p in &payloads {
        let msg = codec.dekodieren(&buf).unwrap().expect("Nachricht erwartet");
        assert_eq!(&msg, p);
        buf.drain(..LENGTH_FIELD_SIZE + msg.len());
    }
    assert_eq!(buf, vec![0, 0]);
    assert_eq!(codec.dekodieren(&buf).unwrap(), None);
}

#[test]
fn frame_codec_puffer_kodieren_und_verbrauchen() {
    let codec = FrameCodec::with_max_size(6);
    let mut puffer: Vec<u8> = Vec::new();
    for i in 0..3u8 {
        codec.encode(&[i; 5], &mut puffer).unwrap();
    }
    assert_eq!(
        codec.encode(&[7; 7], &mut puffer),
        Err(FrameFehler::NachrichtZuGross { laenge: 7, maximum: 6 })
    );
    assert_eq!(puffer.len(), 3 * (LENGTH_FIELD_SIZE + 5));
    let halb = puffer[..6].to_vec();
    let mut teil = halb.clone();
    assert_eq!(codec.decode(&mut teil), Ok(None));
    assert_eq!(teil, halb);
    for i in 0..3u8 {
        assert_eq!(codec.decode(&mut puffer), Ok(Some(vec![i; 5])));
    }
    assert!(puffer.is_empty());
    assert_eq!(codec.decode(&mut puffer), Ok(None));
    let mut zu_gross = vec![0, 0, 0, 9, 1];
    assert_eq!(
        codec.decode(&mut zu_gross),
        Err(FrameFehler::FrameZuGross { laenge: 9, maximum: 6 })
    );
    assert_eq!(zu_gross, vec![0, 0, 0, 9, 1]);
}

#[test]
fn frame_codec_default_max_size() {
    let codec = FrameCodec::new();
    assert_eq!(codec.max_frame_size(), DEFAULT_MAX_FRAME_SIZE);
}

#[test]
fn frame_fehler_meldungen() {
    assert_eq!(
        FrameFehler::FrameZuGross { laenge: 200, maximum: 100 }.meldung(),
        "Frame zu gross: 200 Bytes (Maximum: 100 Bytes)"
    );
    assert_eq!(
        FrameFehler::NachrichtZuGross { laenge: 11, maximum: 10 }.meldung(),
        "Nachricht zu gross: 11 Bytes (Maximum: 10 Bytes)"
    );
}

#[test]
fn frame_exakte_grenze() {
    let codec = FrameCodec::with_max_size(3);
    assert_eq!(codec.kodieren(b"abc").unwrap(), vec![0, 0, 0, 3, b'a', b'b', b'c']);
    assert_eq!(
        codec.kodieren(b"abcd"),
        Err(FrameFehler::NachrichtZuGross { laenge: 4, maximum: 3 })
    );
    assert_eq!(codec.dekodieren(&[0, 0, 0, 3, 1, 2, 3, 9]).unwrap(), Some(vec![1, 2, 3]));
}

// --- codec ---

#[test]
fn speech_preset_konfiguration() {
    let config = AudioPreset::Speech.config();
    assert_eq!(config.bitrate_kbps, 32);
    assert_eq!(config.sample_rate, SampleRate::Hz16000);
    assert_eq!(config.channels, ChannelCount::Mono);
    assert!(config.fec_enabled);
    assert!(config.dtx_enabled);
    assert_eq!(config.application, OpusApplication::Voip);
}

#[test]
fn balanced_preset_konfiguration() {
    let config = AudioPreset::Balanced.config();
    assert_eq!(config.bitrate_kbps, 64);
    assert_eq!(config.sample_rate, SampleRate::Hz48000);
    assert!(config.fec_enabled);
    assert!(!config.dtx_enabled);
}

#[test]
fn music_preset_konfiguration() {
    let config = AudioPreset::Music.config();
    assert_eq!(config.bitrate_kbps, 192);
    assert_eq!(config.channels, ChannelCount::Stereo);
    assert!(!config.fec_enabled);
    assert!(!config.dtx_enabled);
    assert_eq!(config.application, OpusApplication::Audio);
    assert!(!config.vbr_enabled);
}

#[test]
fn low_bandwidth_preset_konfiguration() {
    let config = AudioPreset::LowBandwidth.config();
    assert_eq!(config.bitrate_kbps, 12);
    assert_eq!(config.sample_rate, SampleRate::Hz8000);
    assert!(config.dtx_enabled);
    assert!(!config.fec_enabled);
}

#[test]
fn alle_presets_validierbar() {
    let presets = [
        AudioPreset::Speech,
        AudioPreset::Balanced,
        AudioPreset::Music,
        AudioPreset::LowBandwidth,
    ];
    for preset in &presets {
        let config = preset.config();
        assert!(config.validieren().is_ok(), "Preset {:?} hat ungueltige Konfiguration", preset);
    }
}

#[test]
fn opus_config_validierung_ungueltige_bitrate() {
    let mut config = AudioPreset::Speech.config();
    config.bitrate_kbps = 5;
    assert!(config.validieren().is_err());
    config.bitrate_kbps = 511;
    assert!(config.validieren().is_err());
}

#[test]
fn opus_config_validierung_ungueltige_komplexitaet() {
    let mut config = AudioPreset::Balanced.config();
    config.complexity = 11;
    assert!(config.validieren().is_err());
}

#[test]
fn frame_size_samples_per_frame() {
    let samples = FrameSizeMs::Ms20.samples_per_frame(SampleRate::Hz48000);
    assert_eq!(samples, 960);
    let samples = FrameSizeMs::Ms10.samples_per_frame(SampleRate::Hz16000);
    assert_eq!(samples, 160);
}

#[test]
fn frame_size_zehntel_ms_und_kleinster_frame() {
    assert_eq!(FrameSizeMs::Ms2_5.zehntel_ms(), 25);
    assert_eq!(FrameSizeMs::Ms60.zehntel_ms(), 600);
    assert_eq!(FrameSizeMs::Ms2_5.samples_per_frame(SampleRate::Hz48000), 120);
    assert_eq!(FrameSizeMs::Ms60.samples_per_frame(SampleRate::Hz8000), 480);
}

#[test]
fn preset_bezeichnungen_nicht_leer() {
    let presets = [
        AudioPreset::Speech,
        AudioPreset::Balanced,
        AudioPreset::Music,
        AudioPreset::LowBandwidth,
    ];
    for preset in &presets {
        assert!(!preset.bezeichnung().is_empty());
    }
}

// --- crypto ---

#[test]
fn crypto_mode_display_und_parse() {
    assert_eq!(CryptoMode::Unverschluesselt.als_str(), "none");
    assert_eq!(CryptoMode::Dtls.als_str(), "dtls");
    assert_eq!(CryptoMode::E2E.als_str(), "e2e");
    let parsed: CryptoMode = "dtls".parse().unwrap();
    assert_eq!(parsed, CryptoMode::Dtls);
    let err = "invalid".parse::<CryptoMode>();
    assert!(err.is_err());
}

#[test]
fn crypto_mode_default_ist_none() {
    assert_eq!(CryptoMode::default(), CryptoMode::Unverschluesselt);
}

#[test]
fn crypto_mode_name_rundreise() {
    for m in [CryptoMode::Unverschluesselt, CryptoMode::Dtls, CryptoMode::E2E] {
        assert_eq!(CryptoMode::aus_str(m.als_str()), Ok(m));
    }
}

// --- control ---

#[test]
fn control_nachrichten_konstruktoren() {
    let ping = ControlMessage::ping(7, 999888777);
    assert_eq!(ping.request_id, 7);
    match ping.payload {
        ControlPayload::Ping(p) => assert_eq!(p.timestamp_ms, 999888777),
        _ => panic!("Ping erwartet"),
    }
    let pong = ControlMessage::pong(8, 1, 2);
    match pong.payload {
        ControlPayload::Pong(p) => {
            assert_eq!(p.echo_timestamp_ms, 1);
            assert_eq!(p.server_timestamp_ms, 2);
        }
        _ => panic!("Pong erwartet"),
    }
    let err = ControlMessage::error(9, ErrorCode::NotFound, "weg");
    match err.payload {
        ControlPayload::Error(e) => {
            assert_eq!(e.code, ErrorCode::NotFound);
            assert_eq!(e.message, "weg");
            assert!(e.details.is_none());
        }
        _ => panic!("Error erwartet"),
    }
    assert_eq!(ProtokollVersion::aktuell(), ProtokollVersion { major: 1, minor: 0 });
}
