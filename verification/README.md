# speakeasy

Bibliothek des Sprachkonferenz-Servers Speakeasy, in Verus geschrieben und bewiesen.

- `src/protocol`: Voice-Pakete (16-Byte-Header, big-endian), Rahmen der TCP-Nachrichten,
  Opus-Konfiguration und Presets, Krypto-Modi, Control-Nachrichten.
- `src/db`: Modelle, Aufloesung effektiver Berechtigungen (Individual, Kanal-Gruppe,
  Kanal-Default, Server-Gruppen, Server-Default; auf einer Ebene Deny vor Grant vor Skip), Aufbau der
  dynamischen SQL-Anweisungen, Einladungsregeln, Lesen und Schreiben der Spaltenwerte.
- `src/observability`: Health-Antwort, Log-Konfiguration, Zeit-Buckets.
- `src/plugin`: Manifest-Pruefung, Capabilities und Sandbox, Host-API-Rechte, Ed25519-Signaturen,
  Registry und Plugin-Manager (auf `dashmap`), wasmtime-Engine.
- `src/kern.rs`, `src/text.rs`: Kennungen und Textbausteine.

`app/` verbindet die Bibliothek mit ihrer Umgebung: SQLite-Repositories (sqlx), JSON-Form
und TCP-Transport der Control-Nachrichten, HTTP-Endpunkte (axum, prometheus), Logging,
Laden von Plugin-Verzeichnissen, wasmtime-Store.

Gesetze der Bibliothek stehen als `gesetz_*`-Beweisfunktionen neben dem Code, den sie betreffen.
