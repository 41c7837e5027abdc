//! The letters of the Latin alphabet as types, in either case.

use vstd::prelude::*;
use crate::chars::Letter;

pub mod lower;
pub mod upper;

verus! {

/// The letter `a` or `A`.
pub type A = Letter<97, 65>;

/// The letter `b` or `B`.
pub type B = Letter<98, 66>;

/// The letter `c` or `C`.
pub type C = Letter<99, 67>;

/// The letter `d` or `D`.
pub type D = Letter<100, 68>;

/// The letter `e` or `E`.
pub type E = Letter<101, 69>;

/// The letter `f` or `F`.
pub type F = Letter<102, 70>;

/// The letter `g` or `G`.
pub type G = Letter<103, 71>;

/// The letter `h` or `H`.
pub type H = Letter<104, 72>;

/// The letter `i` or `I`.
pub type I = Letter<105, 73>;

/// The letter `j` or `J`.
pub type J = Letter<106, 74>;

/// The letter `k` or `K`.
pub type K = Letter<107, 75>;

/// The letter `l` or `L`.
pub type L = Letter<108, 76>;

/// The letter `m` or `M`.
pub type M = Letter<109, 77>;

/// The letter `n` or `N`.
pub type N = Letter<110, 78>;

/// The letter `o` or `O`.
pub type O = Letter<111, 79>;

/// The letter `p` or `P`.
pub type P = Letter<112, 80>;

/// The letter `q` or `Q`.
pub type Q = Letter<113, 81>;

/// The letter `r` or `R`.
pub type R = Letter<114, 82>;

/// The letter `s` or `S`.
pub type S = Letter<115, 83>;

/// The letter `t` or `T`.
pub type T = Letter<116, 84>;

/// The letter `u` or `U`.
pub type U = Letter<117, 85>;

/// The letter `v` or `V`.
pub type V = Letter<118, 86>;

/// The letter `w` or `W`.
pub type W = Letter<119, 87>;

/// The letter `x` or `X`.
pub type X = Letter<120, 88>;

/// The letter `y` or `Y`.
pub type Y = Letter<121, 89>;

/// The letter `z` or `Z`.
pub type Z = Letter<122, 90>;

} // verus!
