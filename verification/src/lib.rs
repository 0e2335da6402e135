//! Decision core of a lid-close session-locking agent.
//!
//! The agent subscribes a hidden message endpoint to two power-notification
//! classes and locks the interactive session when the monitored condition
//! (lid closed / display off) is reported for a local session. Everything
//! the agent decides — the lock-or-ignore policy, the per-message state
//! machine, payload decoding, startup classification, log-line formatting —
//! lives here with contracts; the platform plumbing around it only performs
//! the actions this library chooses.

pub mod callback;
pub mod clock;
pub mod decimal;
pub mod policy;
pub mod startup;
pub mod timefmt;
pub mod wide;
