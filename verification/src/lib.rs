//! A small state-transition library with two parts: a guarded counter whose
//! two operations are open only to authenticated callers, and the per-tick
//! decision logic of a background worker that selects exactly one signing
//! identity from a key store and reports the outcome of signing a fixed
//! message through leveled log entries.

pub mod counter;
pub mod hexenc;
pub mod worker;
