//! Ephemeral message lifecycle: per-chat disappearing-message timers,
//! local redaction of expired messages, selection of server-side
//! deletion work, and the wake-up horizon for the next local expiry.
//!
//! The persistent store, the event bus and the outbound pipeline are
//! collaborators: this crate models their state as plain rows, events
//! and prepared messages, and proves what each operation does to them.

pub mod chat;
pub mod expiry;
pub mod scheduler;
pub mod stock;
pub mod store;
pub mod timer;

pub use timer::OutOfRangeError;
pub use timer::Timer;
