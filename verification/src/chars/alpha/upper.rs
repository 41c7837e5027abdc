//! The letters of the Latin alphabet in upper case, as types.

use vstd::prelude::*;
use crate::chars::Token;

verus! {

/// The letter `A`.
pub type A = Token<65>;

/// The letter `B`.
pub type B = Token<66>;

/// The letter `C`.
pub type C = Token<67>;

/// The letter `D`.
pub type D = Token<68>;

/// The letter `E`.
pub type E = Token<69>;

/// The letter `F`.
pub type F = Token<70>;

/// The letter `G`.
pub type G = Token<71>;

/// The letter `H`.
pub type H = Token<72>;

/// The letter `I`.
pub type I = Token<73>;

/// The letter `J`.
pub type J = Token<74>;

/// The letter `K`.
pub type K = Token<75>;

/// The letter `L`.
pub type L = Token<76>;

/// The letter `M`.
pub type M = Token<77>;

/// The letter `N`.
pub type N = Token<78>;

/// The letter `O`.
pub type O = Token<79>;

/// The letter `P`.
pub type P = Token<80>;

/// The letter `Q`.
pub type Q = Token<81>;

/// The letter `R`.
pub type R = Token<82>;

/// The letter `S`.
pub type S = Token<83>;

/// The letter `T`.
pub type T = Token<84>;

/// The letter `U`.
pub type U = Token<85>;

/// The letter `V`.
pub type V = Token<86>;

/// The letter `W`.
pub type W = Token<87>;

/// The letter `X`.
pub type X = Token<88>;

/// The letter `Y`.
pub type Y = Token<89>;

/// The letter `Z`.
pub type Z = Token<90>;

} // verus!
