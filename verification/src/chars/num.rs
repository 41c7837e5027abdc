//! The decimal digits as types.

use vstd::prelude::*;
use crate::chars::Token;

verus! {

/// The character `0`.
pub type Zero = Token<48>;

/// The character `1`.
pub type One = Token<49>;

/// The character `2`.
pub type Two = Token<50>;

/// The character `3`.
pub type Three = Token<51>;

/// The character `4`.
pub type Four = Token<52>;

/// The character `5`.
pub type Five = Token<53>;

/// The character `6`.
pub type Six = Token<54>;

/// The character `7`.
pub type Seven = Token<55>;

/// The character `8`.
pub type Eight = Token<56>;

/// The character `9`.
pub type Nine = Token<57>;

} // verus!
