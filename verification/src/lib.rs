//! The core of a lightweight uptime monitor: per-service probe scheduling,
//! the shared status table with its transition detection, and the fan-out
//! of a detected transition to the service's notification channels.
//!
//! The library holds every decision the monitor makes and proves what each
//! one returns or changes. The probes, timers, queues and webhook calls
//! around it are plain I/O: they hand their results in as plain values and
//! perform what the library decides.

pub mod checker;
pub mod config;
pub mod notifications;
pub mod notifier;
pub mod registry;
