//! The library's error type.

use vstd::prelude::*;

verus! {

/// Signals a failed operation: a rejected re-registration or an asset
/// that could not be decoded.
#[derive(Debug, Copy, Clone, PartialEq, Eq, Structural)]
pub struct Error {}

} // verus!
