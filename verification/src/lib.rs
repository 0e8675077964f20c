//! Process lifecycle and liveness monitoring for an administrative backend.
//!
//! The library tracks externally launched OS processes: a registry of process
//! records is the single source of truth for which processes are monitored, a
//! notification hub fans status events and a live-process count out to
//! subscribers over broadcast channels, and a per-process monitor decides on
//! each polling tick whether a process is still alive and tears its record
//! down when it is not. The controller ties these together and offers the
//! launch / status / stop / subscribe surface.
//!
//! Everything that talks to the operating system (spawning, probing pids,
//! terminating process trees) or to the session and application stores stays
//! outside: callers perform those effects and hand the results in as plain
//! values, so every decision the library makes is verified.

pub mod channels;
pub mod controller;
pub mod hub;
pub mod models;
pub mod probe;
pub mod routes;
pub mod table;

pub use models::ProcessInfo;
pub use models::ProcessStatus;
