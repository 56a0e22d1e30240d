//! Control-Protokoll (TCP/TLS): Steuerungsnachrichten zwischen Client und Server.
//!
//! Jede Nachricht traegt eine `request_id`, die der Server in die Antwort kopiert, damit der
//! Client Anfrage und Antwort zuordnen kann.

use crate::kern::{ChannelId, ServerId, UserId};
use vstd::prelude::*;

verus! {

/// Standardisierte Fehler-Codes fuer Error-Responses.
#[derive(Debug, Clone, Copy, PartialEq, Eq, Structural)]
pub enum ErrorCode {
    // Allgemein
    InternalError,
    InvalidRequest,
    NotFound,
    PermissionDenied,
    RateLimited,
    // Auth
    InvalidCredentials,
    SessionExpired,
    AlreadyLoggedIn,
    // Channel
    ChannelFull,
    ChannelPasswordRequired,
    // Server
    ServerFull,
    Banned,
}

/// Login-Anfrage vom Client
#[derive(Debug, Clone)]
pub struct LoginRequest {
    /// Benutzername
    pub username: String,
    /// Passwort (Klartext – wird serverseitig gehasht verglichen)
    pub password: String,
    /// Optionaler API-Token statt Passwort
    pub token: Option<String>,
    /// Client-Version fuer Kompatibilitaetspruefung
    pub client_version: String,
    /// Anzeigename (kann vom Username abweichen)
    pub display_name: Option<String>,
}

/// Erfolgreiche Login-Antwort
#[derive(Debug, Clone)]
pub struct LoginResponse {
    /// Zugewiesene User-ID
    pub user_id: UserId,
    /// Session-Token fuer weitere Anfragen
    pub session_token: String,
    /// Server-ID
    pub server_id: ServerId,
    /// Ablaufzeit des Session-Tokens (Unix-Timestamp)
    pub expires_at: u64,
    /// Zugewiesene Server-Gruppen
    pub server_groups: Vec<String>,
}

/// Logout-Anfrage (Client trennt Verbindung sauber)
#[derive(Debug, Clone)]
pub struct LogoutRequest {
    pub reason: Option<String>,
}

/// Logout-Bestaetigung
#[derive(Debug, Clone)]
pub struct LogoutResponse {
    pub success: bool,
}

// ---------------------------------------------------------------------------
// Channel-Nachrichten
// ---------------------------------------------------------------------------

/// Kanal-Informationen
#[derive(Debug, Clone)]
pub struct ChannelInfo {
    pub channel_id: ChannelId,
    pub name: String,
    pub description: Option<String>,
    pub parent_id: Option<ChannelId>,
    pub sort_order: i32,
    pub max_clients: Option<u32>,
    pub current_clients: u32,
    pub password_protected: bool,
    pub codec: String,
    pub codec_quality: u8,
}

/// Liste aller Kanaele
#[derive(Debug, Clone)]
pub struct ChannelListResponse {
    pub channels: Vec<ChannelInfo>,
}

/// Kanal beitreten
#[derive(Debug, Clone)]
pub struct ChannelJoinRequest {
    pub channel_id: ChannelId,
    pub password: Option<String>,
}

/// Bestaetigung des Kanal-Beitritts
#[derive(Debug, Clone)]
pub struct ChannelJoinResponse {
    pub channel_id: ChannelId,
    /// Andere Clients im Kanal
    pub clients: Vec<ClientInfo>,
}

/// Kanal verlassen
#[derive(Debug, Clone)]
pub struct ChannelLeaveRequest {
    pub channel_id: ChannelId,
}

/// Kanal erstellen
#[derive(Debug, Clone)]
pub struct ChannelCreateRequest {
    pub name: String,
    pub description: Option<String>,
    pub parent_id: Option<ChannelId>,
    pub password: Option<String>,
    pub max_clients: Option<u32>,
    pub sort_order: Option<i32>,
}

/// Antwort auf Kanal-Erstellung
#[derive(Debug, Clone)]
pub struct ChannelCreateResponse {
    pub channel_id: ChannelId,
}

/// Kanal bearbeiten
#[derive(Debug, Clone)]
pub struct ChannelEditRequest {
    pub channel_id: ChannelId,
    pub name: Option<String>,
    pub description: Option<String>,
    pub password: Option<String>,
    pub max_clients: Option<u32>,
    pub sort_order: Option<i32>,
}

/// Kanal loeschen
#[derive(Debug, Clone)]
pub struct ChannelDeleteRequest {
    pub channel_id: ChannelId,
    /// Ziel-Kanal fuer verbleibende Clients (None = Server-Root)
    pub move_clients_to: Option<ChannelId>,
}

// ---------------------------------------------------------------------------
// Client-Nachrichten
// ---------------------------------------------------------------------------

/// Client-Informationen
#[derive(Debug, Clone)]
pub struct ClientInfo {
    pub user_id: UserId,
    pub username: String,
    pub display_name: String,
    pub channel_id: Option<ChannelId>,
    pub server_groups: Vec<String>,
    pub is_muted: bool,
    pub is_deafened: bool,
    pub is_input_muted: bool,
}

/// Liste aller verbundenen Clients
#[derive(Debug, Clone)]
pub struct ClientListResponse {
    pub clients: Vec<ClientInfo>,
}

/// Client kicken
#[derive(Debug, Clone)]
pub struct ClientKickRequest {
    pub target_user_id: UserId,
    pub reason: Option<String>,
    pub from_channel_only: bool,
}

/// Client bannen
#[derive(Debug, Clone)]
pub struct ClientBanRequest {
    pub target_user_id: UserId,
    pub reason: Option<String>,
    /// Bann-Dauer in Sekunden (None = dauerhaft)
    pub duration_secs: Option<u64>,
    pub ban_ip: bool,
}

/// Client in anderen Kanal verschieben
#[derive(Debug, Clone)]
pub struct ClientMoveRequest {
    pub target_user_id: UserId,
    pub target_channel_id: ChannelId,
    pub reason: Option<String>,
}

/// Client anklopfen (Poke)
#[derive(Debug, Clone)]
pub struct ClientPokeRequest {
    pub target_user_id: UserId,
    pub message: String,
}

/// Eigene Client-Informationen aktualisieren
#[derive(Debug, Clone)]
pub struct ClientUpdateRequest {
    pub display_name: Option<String>,
    pub is_input_muted: Option<bool>,
    pub is_output_muted: Option<bool>,
}

// ---------------------------------------------------------------------------
// Server-Nachrichten
// ---------------------------------------------------------------------------

/// Server-Informationen
#[derive(Debug, Clone)]
pub struct ServerInfoResponse {
    pub server_id: ServerId,
    pub name: String,
    pub welcome_message: Option<String>,
    pub max_clients: u32,
    pub current_clients: u32,
    pub version: String,
    pub uptime_secs: u64,
    pub host_message: Option<String>,
}

/// Server-Konfiguration bearbeiten
#[derive(Debug, Clone)]
pub struct ServerEditRequest {
    pub name: Option<String>,
    pub welcome_message: Option<String>,
    pub max_clients: Option<u32>,
    pub host_message: Option<String>,
}

/// Server herunterfahren (Admin)
#[derive(Debug, Clone)]
pub struct ServerStopRequest {
    pub reason: Option<String>,
    /// Verzoegerung in Sekunden bevor der Server stoppt
    pub delay_secs: u32,
}

// ---------------------------------------------------------------------------
// Permission-Nachrichten
// ---------------------------------------------------------------------------

/// Permission-Eintrag
#[derive(Debug, Clone)]
pub struct PermissionEntry {
    pub permission: String,
    pub value: PermissionValue,
}

/// Permission-Wert (TriState + optionale Limits)
#[derive(Debug, Clone, Copy, PartialEq, Eq, Structural)]
pub enum PermissionValue {
    Grant,
    Deny,
    Skip,
    IntLimit(i64),
}

/// Liste der Permissions fuer eine Gruppe/User
#[derive(Debug, Clone)]
pub struct PermissionListResponse {
    pub target: String,
    pub permissions: Vec<PermissionEntry>,
}

/// Permission hinzufuegen
#[derive(Debug, Clone)]
pub struct PermissionAddRequest {
    pub target: String,
    pub permission: String,
    pub value: PermissionValue,
}

/// Permission entfernen
#[derive(Debug, Clone)]
pub struct PermissionRemoveRequest {
    pub target: String,
    pub permission: String,
}

// ---------------------------------------------------------------------------
// File-Nachrichten
// ---------------------------------------------------------------------------

/// Datei-Eintrag
#[derive(Debug, Clone)]
pub struct FileEntry {
    pub file_id: String,
    pub name: String,
    pub size_bytes: u64,
    pub channel_id: ChannelId,
    pub uploaded_by: UserId,
    pub uploaded_at: u64,
    pub mime_type: Option<String>,
}

/// Dateiliste eines Kanals
#[derive(Debug, Clone)]
pub struct FileListResponse {
    pub channel_id: ChannelId,
    pub files: Vec<FileEntry>,
}

/// Datei-Upload initiieren
#[derive(Debug, Clone)]
pub struct FileUploadRequest {
    pub channel_id: ChannelId,
    pub filename: String,
    pub size_bytes: u64,
    pub mime_type: Option<String>,
    /// Checksum (SHA-256 hex) fuer Integritaetspruefung
    pub checksum: Option<String>,
}

/// Upload-Token erhalten
#[derive(Debug, Clone)]
pub struct FileUploadResponse {
    pub file_id: String,
    /// Upload-URL (HTTP/S3)
    pub upload_url: String,
    /// Token gueltigkeit in Sekunden
    pub expires_in_secs: u64,
}

/// Datei loeschen
#[derive(Debug, Clone)]
pub struct FileDeleteRequest {
    pub file_id: String,
}

// ---------------------------------------------------------------------------
// Voice-Setup (UDP Port Negotiation)
// ---------------------------------------------------------------------------

/// Voice-Verbindung initialisieren (UDP Port Negotiation)
#[derive(Debug, Clone)]
pub struct VoiceInitRequest {
    /// UDP-Port des Clients (fuer STUN/ICE)
    pub client_udp_port: u16,
    /// Bevorzugter Codec (wird bestaetigt oder abgelehnt)
    pub preferred_codec: String,
    /// DTLS-Fingerprint des Clients (fuer DTLS-Handshake)
    pub dtls_fingerprint: Option<String>,
}

/// Voice-Setup Bestaetigung vom Server
#[derive(Debug, Clone)]
pub struct VoiceReadyResponse {
    /// UDP-Port des Servers
    pub server_udp_port: u16,
    /// Server-IP (fuer direkte Verbindung)
    pub server_ip: String,
    /// Zugewiesene SSRC fuer diesen Client
    pub ssrc: u32,
    /// Akzeptierter Codec
    pub codec: String,
    /// DTLS-Fingerprint des Servers
    pub server_dtls_fingerprint: Option<String>,
    /// Krypto-Modus
    pub crypto_mode: String,
}

/// Voice-Verbindung trennen
#[derive(Debug, Clone)]
pub struct VoiceDisconnectRequest {
    pub reason: Option<String>,
}

// ---------------------------------------------------------------------------
// Keepalive
// ---------------------------------------------------------------------------

/// Ping (Client -> Server oder Server -> Client)
#[derive(Debug, Clone)]
pub struct PingMessage {
    /// Unix-Timestamp in Millisekunden fuer RTT-Messung
    pub timestamp_ms: u64,
}

/// Pong-Antwort (spiegelt Timestamp zurueck)
#[derive(Debug, Clone)]
pub struct PongMessage {
    /// Originaler Timestamp aus dem Ping
    pub echo_timestamp_ms: u64,
    /// Server-eigener Timestamp
    pub server_timestamp_ms: u64,
}

// ---------------------------------------------------------------------------
// Haupt-Enum: ControlMessage
// ---------------------------------------------------------------------------

/// Alle moeglichen Control-Nachrichten (typsicher via Tagged Enum)
#[derive(Debug, Clone)]
pub enum ControlPayload {
    // Auth
    Login(LoginRequest),
    LoginResponse(LoginResponse),
    Logout(LogoutRequest),
    LogoutResponse(LogoutResponse),

    // Channel
    ChannelList,
    ChannelListResponse(ChannelListResponse),
    ChannelJoin(ChannelJoinRequest),
    ChannelJoinResponse(ChannelJoinResponse),
    ChannelLeave(ChannelLeaveRequest),
    ChannelCreate(ChannelCreateRequest),
    ChannelCreateResponse(ChannelCreateResponse),
    ChannelEdit(ChannelEditRequest),
    ChannelDelete(ChannelDeleteRequest),

    // Client
    ClientList,
    ClientListResponse(ClientListResponse),
    ClientKick(ClientKickRequest),
    ClientBan(ClientBanRequest),
    ClientMove(ClientMoveRequest),
    ClientPoke(ClientPokeRequest),
    ClientUpdate(ClientUpdateRequest),

    // Server
    ServerInfo,
    ServerInfoResponse(ServerInfoResponse),
    ServerEdit(ServerEditRequest),
    ServerStop(ServerStopRequest),

    // Permission
    PermissionList { target: String },
    PermissionListResponse(PermissionListResponse),
    PermissionAdd(PermissionAddRequest),
    PermissionRemove(PermissionRemoveRequest),

    // File
    FileList { channel_id: ChannelId },
    FileListResponse(FileListResponse),
    FileUpload(FileUploadRequest),
    FileUploadResponse(FileUploadResponse),
    FileDelete(FileDeleteRequest),

    // Voice Setup
    VoiceInit(VoiceInitRequest),
    VoiceReady(VoiceReadyResponse),
    VoiceDisconnect(VoiceDisconnectRequest),

    // Keepalive
    Ping(PingMessage),
    Pong(PongMessage),

    // Error
    Error(ErrorResponse),
}

/// Standardisierte Fehler-Antwort.
#[derive(Debug, Clone)]
pub struct ErrorResponse {
    pub code: ErrorCode,
    pub message: String,
    /// Optionale maschinenlesbare Details.
    pub details: Option<serde_json::Value>,
}

/// Control-Protokoll-Nachricht mit Request/Response-Zuordnung.
#[derive(Debug, Clone)]
pub struct ControlMessage {
    /// Nachrichten-ID fuer die Zuordnung von Anfrage und Antwort.
    pub request_id: u32,
    /// Inhalt der Nachricht.
    pub payload: ControlPayload,
}

impl ControlMessage {
    /// Erstellt eine neue Control-Nachricht.
    pub fn new(request_id: u32, payload: ControlPayload) -> (r: Self)
        ensures
            r.request_id == request_id,
            r.payload == payload,
    {
        ControlMessage { request_id, payload }
    }

    /// Erstellt eine Ping-Nachricht.
    pub fn ping(request_id: u32, timestamp_ms: u64) -> (r: Self)
        ensures
            r.request_id == request_id,
            r.payload == ControlPayload::Ping(PingMessage { timestamp_ms }),
    {
        ControlMessage::new(request_id, ControlPayload::Ping(PingMessage { timestamp_ms }))
    }

    /// Erstellt eine Pong-Antwort, die den Zeitstempel des Pings spiegelt.
    pub fn pong(request_id: u32, echo_timestamp_ms: u64, server_timestamp_ms: u64) -> (r: Self)
        ensures
            r.request_id == request_id,
            r.payload == ControlPayload::Pong(
                PongMessage { echo_timestamp_ms, server_timestamp_ms },
            ),
    {
        ControlMessage::new(
            request_id,
            ControlPayload::Pong(PongMessage { echo_timestamp_ms, server_timestamp_ms }),
        )
    }

    /// Erstellt eine Fehler-Antwort ohne Details.
    pub fn error(request_id: u32, code: ErrorCode, message: &str) -> (r: Self)
        ensures
            r.request_id == request_id,
            r.payload matches ControlPayload::Error(e) && e.code == code && e.message@ == message@
                && e.details is None,
    {
        ControlMessage::new(
            request_id,
            ControlPayload::Error(
                ErrorResponse { code, message: String::from_str(message), details: None },
            ),
        )
    }
}

/// Typ einer Protokoll-Nachricht (altes Control-Protokoll).
#[derive(Debug, Clone, Copy, PartialEq, Eq, Structural)]
pub enum MessageType {
    Anfrage,
    Antwort,
    Benachrichtigung,
    Fehler,
}

/// Befehle (altes Control-Protokoll).
#[derive(Debug, Clone, Copy, PartialEq, Eq, Structural)]
pub enum CommandType {
    Handshake,
    Ping,
    Pong,
    Trennen,
    Login,
    Logout,
    TokenErneuern,
    KanalListe,
    KanalBetreten,
    KanalVerlassen,
    KanalErstellen,
    KanalLoeschen,
    BenutzerInfo,
    BenutzerAktualisieren,
    ServerInfo,
    Kicken,
    Bannen,
}

/// Protokollversion (altes Control-Protokoll).
#[derive(Debug, Clone, Copy, PartialEq, Eq, Structural)]
pub struct ProtokollVersion {
    pub major: u16,
    pub minor: u16,
}

impl ProtokollVersion {
    /// Die aktuelle Version 1.0.
    pub fn aktuell() -> (r: Self)
        ensures
            r == (ProtokollVersion { major: 1, minor: 0 }),
    {
        ProtokollVersion { major: 1, minor: 0 }
    }
}

} // verus!
