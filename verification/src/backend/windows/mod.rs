//! Windows backend: the decisions and findings around VKey, and the name of the
//! per-user bridge pipe.
use vstd::prelude::*;

pub mod layout;
pub mod pipe;
pub mod vkey;

verus! {

} // verus!
