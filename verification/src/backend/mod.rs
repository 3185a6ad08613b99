//! The parts of the backends that decide rather than touch the system: HKL
//! normalisation and the VKey shared-memory parser (Windows), the pipe bridge's
//! framing, and the findings and choices of the macOS input-method backends —
//! and the two traits through which the binary's backends are driven.
use vstd::prelude::*;

pub mod hkl;
pub mod vkey_shm;
pub mod pipe_proto;
pub mod macos;
pub mod windows;

verus! {

/// `anyhow::Error`, the error type of the backend traits.
#[verifier::external_type_specification]
#[verifier::external_body]
pub struct ExAnyhowError(anyhow::Error);

/// The system's keyboard layout (macOS input source, Windows input locale): one
/// of the two levers of a mode.
pub trait Layout {
    /// The identifier of the layout in use.
    fn current(&self) -> Result<String, anyhow::Error>;

    /// Switches to the layout `id`.
    fn select(&self, id: &str) -> Result<(), anyhow::Error>;
}

/// The external Vietnamese input method: the other lever of a mode. Reconcile
/// only sees this trait, which is what lets it be driven by fakes.
pub trait Ime {
    /// Whether the input method is on.
    fn is_on(&self) -> Result<bool, anyhow::Error>;

    /// Turns the input method on or off.
    fn set(&self, on: bool) -> Result<(), anyhow::Error>;

    /// This backend's own part of `tongue doctor`, so that doctor needs to know
    /// no app by name; `fix` allows repairing what is safe. By default a backend
    /// has nothing of its own to check.
    fn diagnose(&self, _fix: bool) -> (r: Result<Vec<crate::doctor::Finding>, anyhow::Error>)
        default_ensures
            r matches Ok(fs) && fs@.len() == 0,
    {
        Ok(Vec::new())
    }
}

} // verus!
