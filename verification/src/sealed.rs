//! A trait that only this crate can implement.
use vstd::prelude::*;

verus! {

/// Implemented by this crate's key types and by nothing outside the crate,
/// since this module is private.
pub trait Sealed {}

} // verus!
