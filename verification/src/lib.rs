//! A minimal event-history recorder for embedded hosts: a fixed-capacity
//! circular log of short byte strings, a lifetime push counter, and a static
//! identification banner.
//!
//! The ring and the counter are plain values here; the host embeds them in
//! whatever shared storage it has and serializes pushes itself (the lock
//! discipline is modelled by `spin`).

pub mod banner;
pub mod laws;
pub mod recorder;
pub mod ring;
pub mod spin;
