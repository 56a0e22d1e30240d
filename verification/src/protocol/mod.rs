//! Netzwerkprotokoll: Voice-Pakete (UDP), Frames (TCP), Steuerungsnachrichten, Codecs.

pub mod voice;
pub mod wire;
pub mod codec;
pub mod crypto;
pub mod control;
