//! The target platform, for the decisions that depend on the operating
//! system.

use vstd::prelude::*;

verus! {

/// The operating system the program runs on, as far as the library's
/// decisions depend on it: only Windows has the registry and the native
/// messaging host registration.
#[derive(Clone, Copy, Debug, PartialEq, Eq, Structural)]
pub enum Platform {
    Windows,
    Other,
}

} // verus!
