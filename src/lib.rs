//! Decisions of a command-line helper that installs the Wine compatibility
//! layer when it is missing and runs a Windows installer under it.
//!
//! Everything here works on plain values: the host program performs each
//! file check, prompt and process launch that the session asks for and hands
//! the outcome back.
use vstd::prelude::*;

pub mod text;
pub mod os_release;
pub mod install;
pub mod locate;
pub mod launch;
pub mod session;

verus! {

} // verus!
