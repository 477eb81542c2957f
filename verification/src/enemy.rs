//! Enemy component.

use vstd::prelude::*;

verus! {

/// An enemy's combat stats.
#[derive(Debug, PartialEq, Eq, Structural, Clone, Copy)]
pub struct Enemy {
    pub hp: i32,
    pub attack: i32,
}

} // verus!
