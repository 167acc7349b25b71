//! Management stats: the persistent side of the player, used for upgrades.

use crate::bigrat::BigRat;
use vstd::prelude::*;

verus! {

#[derive(Debug, Clone, PartialEq)]
pub struct BaseAttack(pub BigRat);

#[derive(Debug, Clone, PartialEq)]
pub struct BaseDefense(pub BigRat);

#[derive(Debug, Clone, PartialEq)]
pub struct BaseSpeed(pub BigRat);

#[derive(Debug, Clone, PartialEq)]
pub struct BaseHp(pub BigRat);

/// Experience accumulator; spent by the upgrade engine, never negative.
#[derive(Debug, Clone, PartialEq)]
pub struct Experience(pub BigRat);

#[derive(Debug, Clone, PartialEq)]
pub struct Level(pub u32);

/// Rebirth points granted at the most recent rebirth.
#[derive(Debug, Clone, PartialEq)]
pub struct RebirthPoints(pub BigRat);

} // verus!
