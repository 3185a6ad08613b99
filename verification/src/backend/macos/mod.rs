//! macOS input-method backends: the decisions and findings of each.
use vstd::prelude::*;

pub mod hotkey;
pub mod chord;
pub mod app;
pub mod system;
pub mod gonhanh;

verus! {

} // verus!
