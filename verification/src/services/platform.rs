//! The system the application runs on.

use vstd::prelude::*;

verus! {

/// The systems whose conventions the engine knows.
#[derive(Debug, Clone, Copy, PartialEq, Eq, Structural)]
pub enum Platform {
    Windows,
    MacOs,
    Linux,
}

} // verus!
