//! tongue: one command switches the typing mode `vi | en | zh` — system keyboard
//! layout and the external Vietnamese input method together — and the result is
//! read back from the machine before success is reported.
//!
//! This crate holds every decision the tool makes, each with a contract: the mode
//! table, status inference and rendering, the reconcile state machine, the config
//! schema and defaults, the doctor findings, the pipe-bridge framing, the VKey
//! shared-memory parser and the Windows HKL normalisation. The binary around it
//! (`app/`) only reads the machine and performs the actions the library decides.
use vstd::prelude::*;

pub mod text;
pub mod mode;
pub mod status;
pub mod backend;
pub mod doctor;
pub mod config;
pub mod reconcile;
pub mod command;

verus! {

} // verus!
