//! Marker types that are told apart by the place in the program text at which
//! they were minted.
//!
//! A [`Template`] is specialised at the coordinates of one place in the source:
//! column, line and a number that stands for the file. Two specialisations at
//! different coordinates are different types, so a generic container tagged
//! with one can never be confused with the same container tagged with the
//! other, and a function can demand that two of its arguments carry one tag.
//! A tag holds nothing and costs nothing when the program runs.
//!
//! [`Unique`] is the bound to write where a tag must have been minted in this
//! way. It is sealed: the specialisations of [`Template`] are its only
//! implementors.
//!
//! The coordinates of a place, taken together, are its [`Token`]. What makes a
//! tag unique is that its coordinates are those of the place where it is
//! named, and nothing in the types can check that: whoever writes coordinates
//! out by hand, at a second place, names the first place's tag again.
use vstd::prelude::*;

mod pvt;
pub mod template;
pub mod token;

pub use template::Template;
pub use token::Token;

verus! {

/// The capability of being a minted tag.
///
/// It asks for nothing but the private trait of the same name, which only
/// this crate can implement, and every implementor of that trait has it.
pub trait Unique: pvt::Unique {

}

impl<T: pvt::Unique> Unique for T {

}

/// The token at which the tag was specialised.
pub open spec fn token_of<Tag: Unique>() -> Token {
    Tag::token()
}

} // verus!
