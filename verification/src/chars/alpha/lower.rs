//! The letters of the Latin alphabet in lower case, as types.

use vstd::prelude::*;
use crate::chars::Token;

verus! {

/// The letter `a`.
pub type A = Token<97>;

/// The letter `b`.
pub type B = Token<98>;

/// The letter `c`.
pub type C = Token<99>;

/// The letter `d`.
pub type D = Token<100>;

/// The letter `e`.
pub type E = Token<101>;

/// The letter `f`.
pub type F = Token<102>;

/// The letter `g`.
pub type G = Token<103>;

/// The letter `h`.
pub type H = Token<104>;

/// The letter `i`.
pub type I = Token<105>;

/// The letter `j`.
pub type J = Token<106>;

/// The letter `k`.
pub type K = Token<107>;

/// The letter `l`.
pub type L = Token<108>;

/// The letter `m`.
pub type M = Token<109>;

/// The letter `n`.
pub type N = Token<110>;

/// The letter `o`.
pub type O = Token<111>;

/// The letter `p`.
pub type P = Token<112>;

/// The letter `q`.
pub type Q = Token<113>;

/// The letter `r`.
pub type R = Token<114>;

/// The letter `s`.
pub type S = Token<115>;

/// The letter `t`.
pub type T = Token<116>;

/// The letter `u`.
pub type U = Token<117>;

/// The letter `v`.
pub type V = Token<118>;

/// The letter `w`.
pub type W = Token<119>;

/// The letter `x`.
pub type X = Token<120>;

/// The letter `y`.
pub type Y = Token<121>;

/// The letter `z`.
pub type Z = Token<122>;

} // verus!
