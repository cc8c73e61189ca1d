//! Presence-status engine: OAuth credential lifecycle, status derivation and
//! rendering for a remote display, and the poll loop's failure policy.

pub mod cli;
mod clock;
pub mod oauth;
pub mod poll;
pub mod status;
pub mod text;
