//! Startup sequencing for a desktop shell application that launches a bundled
//! sidecar process (a CORS proxy) alongside its GUI.
//!
//! The library models the launch procedure as a small linear state machine:
//! install capability plugins (logging only in debug configuration, then shell
//! execution), spawn the sidecar exactly once, and enter the GUI run loop.
//! Every failure during that sequence is fatal: the machine emits a
//! diagnostic-carrying termination action and stops. An unverified driver
//! performs each emitted action against the GUI framework and reports the
//! outcome back to the machine.

pub mod properties;
pub mod sequencer;
pub mod sidecar;
