//! Host-API-Funktionen, die WASM-Plugins aufrufen koennen.
//!
//! Jede Funktion prueft zuerst die Capability des aufrufenden Plugins.

use vstd::prelude::*;

verus! {

/// Log-Level fuer `speakeasy_log` (Zahlenwerte 0 bis 4).
#[derive(Debug, Clone, Copy, PartialEq, Eq, Structural)]
pub enum LogLevel {
    Trace,
    Debug,
    Info,
    Warn,
    Error,
}

impl LogLevel {
    /// Das Level zu seinem Zahlenwert; unbekannte Werte ergeben `Info`.
    pub fn from_i32(v: i32) -> (r: Self)
        ensures
            r == (if v == 0 {
                LogLevel::Trace
            } else if v == 1 {
                LogLevel::Debug
            } else if v == 3 {
                LogLevel::Warn
            } else if v == 4 {
                LogLevel::Error
            } else {
                LogLevel::Info
            }),
    {
        match v {
            0 => LogLevel::Trace,
            1 => LogLevel::Debug,
            2 => LogLevel::Info,
            3 => LogLevel::Warn,
            4 => LogLevel::Error,
            _ => LogLevel::Info,
        }
    }
}

/// Ergebnis eines Host-API-Aufrufs.
#[derive(Debug, Clone, PartialEq, Eq)]
pub enum ApiErgebnis {
    /// Aufruf erfolgreich.
    Erfolg,
    /// Aufruf abgelehnt (fehlende Capability).
    ZugriffVerweigert,
    /// Ungueltige Parameter.
    UngueltigeParameter,
    /// Interner Fehler.
    Fehler(String),
}

impl ApiErgebnis {
    /// Der Rueckgabewert an das WASM-Modul.
    pub fn als_i32(&self) -> (r: i32)
        ensures
            r == match *self {
                ApiErgebnis::Erfolg => 0,
                ApiErgebnis::ZugriffVerweigert => -1,
                ApiErgebnis::UngueltigeParameter => -2,
                ApiErgebnis::Fehler(_) => -3int,
            },
    {
        match self {
            ApiErgebnis::Erfolg => 0,
            ApiErgebnis::ZugriffVerweigert => -1,
            ApiErgebnis::UngueltigeParameter => -2,
            ApiErgebnis::Fehler(_) => -3,
        }
    }
}

/// Kontext fuer Host-API-Aufrufe: Plugin-Name und Capabilities.
#[derive(Debug, Clone)]
pub struct ApiKontext {
    pub plugin_name: String,
    pub chat_read: bool,
    pub chat_write: bool,
    pub user_management: bool,
    pub server_config: bool,
    pub network: bool,
}

impl ApiKontext {
    /// Kontext ohne jede Capability.
    pub fn neu(plugin_name: &str) -> (r: Self)
        ensures
            r.plugin_name@ == plugin_name@,
            !r.chat_read,
            !r.chat_write,
            !r.user_management,
            !r.server_config,
            !r.network,
    {
        ApiKontext {
            plugin_name: String::from_str(plugin_name),
            chat_read: false,
            chat_write: false,
            user_management: false,
            server_config: false,
            network: false,
        }
    }
}

/// `Erfolg` falls erlaubt, sonst `ZugriffVerweigert`.
pub open spec fn erlaubt_wenn(erlaubt: bool) -> ApiErgebnis {
    if erlaubt {
        ApiErgebnis::Erfolg
    } else {
        ApiErgebnis::ZugriffVerweigert
    }
}

/// `speakeasy_send_message`: braucht `chat_write`.
pub fn host_send_message(kontext: &ApiKontext, channel_id: &str, nachricht: &str) -> (r:
    ApiErgebnis)
    ensures
        r == erlaubt_wenn(kontext.chat_write),
{
    if !kontext.chat_write {
        return ApiErgebnis::ZugriffVerweigert;
    }
    ApiErgebnis::Erfolg
}

/// `speakeasy_get_user_info`: braucht `chat_read` oder `user_management`.
pub fn host_get_user_info(kontext: &ApiKontext, user_id: &str) -> (r: ApiErgebnis)
    ensures
        r == erlaubt_wenn(kontext.chat_read || kontext.user_management),
{
    if !kontext.chat_read && !kontext.user_management {
        return ApiErgebnis::ZugriffVerweigert;
    }
    ApiErgebnis::Erfolg
}

/// `speakeasy_kick_user`: braucht `user_management`.
pub fn host_kick_user(kontext: &ApiKontext, user_id: &str, grund: &str) -> (r: ApiErgebnis)
    ensures
        r == erlaubt_wenn(kontext.user_management),
{
    if !kontext.user_management {
        return ApiErgebnis::ZugriffVerweigert;
    }
    ApiErgebnis::Erfolg
}

/// `speakeasy_move_user`: braucht `user_management`.
pub fn host_move_user(kontext: &ApiKontext, user_id: &str, channel_id: &str) -> (r: ApiErgebnis)
    ensures
        r == erlaubt_wenn(kontext.user_management),
{
    if !kontext.user_management {
        return ApiErgebnis::ZugriffVerweigert;
    }
    ApiErgebnis::Erfolg
}

/// `speakeasy_get_channel_users`: braucht `chat_read` oder `user_management`.
pub fn host_get_channel_users(kontext: &ApiKontext, channel_id: &str) -> (r: ApiErgebnis)
    ensures
        r == erlaubt_wenn(kontext.chat_read || kontext.user_management),
{
    if !kontext.chat_read && !kontext.user_management {
        return ApiErgebnis::ZugriffVerweigert;
    }
    ApiErgebnis::Erfolg
}

/// `speakeasy_read_config`: braucht `server_config`.
pub fn host_read_config(kontext: &ApiKontext, schluessel: &str) -> (r: ApiErgebnis)
    ensures
        r == erlaubt_wenn(kontext.server_config),
{
    if !kontext.server_config {
        return ApiErgebnis::ZugriffVerweigert;
    }
    ApiErgebnis::Erfolg
}

} // verus!
