//! The seal behind [`Unique`](crate::Unique).
use crate::token::Token;
use vstd::prelude::*;

verus! {

/// Private side of [`Unique`](crate::Unique).
///
/// The module is not reachable from outside the crate, so no foreign type can
/// implement this trait, and with it none can implement the public one.
pub trait Unique {
    /// The token at which the implementing type was specialised.
    spec fn token() -> Token;
}

} // verus!
