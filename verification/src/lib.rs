//! In-memory accounting core for a packet relayer: per-path backlogs of
//! pending packet sequence numbers, submit/confirm latency correlation,
//! time-windowed fee-reward sums, and failure counters, all exposed through a
//! pull-based metrics registry.
pub mod backlog;
pub mod broadcast_error;
pub mod clock;
pub mod labels;
pub mod laws;
pub mod metrics;
pub mod path_identifier;
pub mod state;
pub mod text;
pub mod store;

pub use broadcast_error::BroadcastError;
pub use path_identifier::PathIdentifier;
pub use state::{TelemetryState, WorkerType};
