//! Health-Check: Status, Antwort und Zustand.

use vstd::prelude::*;

verus! {

/// Ein Zeitpunkt der monotonen Uhr (`std::time::Instant`).
#[verifier::external_type_specification]
#[verifier::external_body]
pub struct FremdZeitpunkt(std::time::Instant);

/// Der aktuelle Zeitpunkt der monotonen Uhr (`Instant::now`); haengt von der Uhr ab, es wird
/// nichts ueber ihn behauptet.
#[verifier::external_body]
fn jetzt() -> std::time::Instant {
    std::time::Instant::now()
}

/// Ganze Sekunden seit `start` (`Instant::elapsed` und `Duration::as_secs`); haengt von der Uhr
/// ab, es wird nichts ueber den Wert behauptet.
#[verifier::external_body]
fn sekunden_seit(start: &std::time::Instant) -> u64 {
    start.elapsed().as_secs()
}

/// Status des Health-Checks.
#[derive(Debug, Clone, Copy, PartialEq, Eq, Structural)]
pub enum HealthStatus {
    Healthy,
    Degraded,
    Unhealthy,
}

/// Antwort des Health-Check-Endpunkts.
#[derive(Debug, Clone)]
pub struct HealthResponse {
    pub status: HealthStatus,
    pub version: String,
    pub uptime_seconds: u64,
    pub db_connected: bool,
}

/// Zustand fuer den Health-Check: Startzeitpunkt und Datenbank-Verbindungsstatus.
///
/// Der Zustand ist ein Wert mit einem einzigen Eigentuemer, keine geteilte Zelle: er wird ueber
/// `&mut self` geaendert und hat keine Kopie, die einen veralteten Stand behalten koennte.
/// Handler, die ihn gemeinsam nutzen, erreichen ihn hinter einer gemeinsamen Sperre; jeder
/// liest dann den zuletzt gesetzten Stand.
#[derive(Debug)]
pub struct HealthState {
    pub start_time: std::time::Instant,
    pub db_connected: bool,
}

/// Der Status zu einem Verbindungsstand: verbunden ist gesund, sonst eingeschraenkt.
pub open spec fn health_status_spec(db_verbunden: bool) -> HealthStatus {
    if db_verbunden {
        HealthStatus::Healthy
    } else {
        HealthStatus::Degraded
    }
}

/// Der HTTP-Statuscode zu einem Health-Status (200 auch bei eingeschraenktem Betrieb).
pub open spec fn http_status_spec(s: HealthStatus) -> u16 {
    match s {
        HealthStatus::Healthy => 200,
        HealthStatus::Degraded => 200,
        HealthStatus::Unhealthy => 503,
    }
}

/// Der HTTP-Statuscode zu einem Health-Status.
pub fn http_status_fuer(s: HealthStatus) -> (r: u16)
    ensures
        r == http_status_spec(s),
{
    match s {
        HealthStatus::Healthy => 200,
        HealthStatus::Degraded => 200,
        HealthStatus::Unhealthy => 503,
    }
}

impl HealthState {
    /// Erstellt den Zustand zum jetzigen Zeitpunkt, Datenbank als verbunden.
    pub fn neu() -> (r: Self)
        ensures
            r.db_connected,
    {
        HealthState { start_time: jetzt(), db_connected: true }
    }

    /// Sekunden seit dem Start (von der Uhr abhaengig).
    pub fn uptime_seconds(&self) -> u64 {
        sekunden_seit(&self.start_time)
    }

    /// Ob die Datenbank als verbunden gilt.
    pub fn db_verbunden(&self) -> (r: bool)
        ensures
            r == self.db_connected,
    {
        self.db_connected
    }

    /// Setzt den Datenbank-Verbindungsstatus.
    pub fn db_status_setzen(&mut self, verbunden: bool)
        ensures
            final(self).db_connected == verbunden,
            final(self).start_time == old(self).start_time,
    {
        self.db_connected = verbunden;
    }

    /// Die Antwort des Health-Checks fuer die angegebene Version.
    pub fn antwort(&self, version: &str) -> (r: HealthResponse)
        ensures
            r.status == health_status_spec(self.db_connected),
            r.version@ == version@,
            r.db_connected == self.db_connected,
    {
        let db_connected = self.db_verbunden();
        let status = if db_connected {
            HealthStatus::Healthy
        } else {
            HealthStatus::Degraded
        };
        HealthResponse {
            status,
            version: String::from_str(version),
            uptime_seconds: self.uptime_seconds(),
            db_connected,
        }
    }
}

} // verus!
