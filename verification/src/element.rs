//! Elemental damage rules.

use vstd::prelude::*;
use crate::rational::{Q, Rat};

verus! {

/// An elemental affinity of an attack or a target.
#[derive(Debug, PartialEq, Eq, Structural, Clone, Copy)]
pub enum Element {
    Fire,
    Water,
    Electric,
    Earth,
}

/// The damage multiplier of an attack element against a target element:
/// one half when weak, one when neutral, three halves when strong.
pub open spec fn spec_damage_multiplier(attack: Element, target: Element) -> Rat {
    match (attack, target) {
        (Element::Fire, Element::Water) => Rat { n: 1, d: 2 },
        (Element::Fire, Element::Electric) => Rat { n: 3, d: 2 },
        (Element::Fire, Element::Earth) => Rat { n: 1, d: 1 },
        (Element::Water, Element::Fire) => Rat { n: 3, d: 2 },
        (Element::Water, Element::Electric) => Rat { n: 1, d: 1 },
        (Element::Water, Element::Earth) => Rat { n: 1, d: 2 },
        (Element::Electric, Element::Fire) => Rat { n: 1, d: 2 },
        (Element::Electric, Element::Water) => Rat { n: 3, d: 2 },
        (Element::Electric, Element::Earth) => Rat { n: 1, d: 1 },
        (Element::Earth, Element::Fire) => Rat { n: 1, d: 1 },
        (Element::Earth, Element::Water) => Rat { n: 3, d: 2 },
        (Element::Earth, Element::Electric) => Rat { n: 1, d: 2 },
        _ => Rat { n: 1, d: 1 },
    }
}

impl Element {
    /// The damage multiplier against another element, as an exact fraction.
    pub fn damage_multiplier(&self, other: &Element) -> (r: Q)
        ensures
            r.wf(),
            r@ == spec_damage_multiplier(*self, *other),
    {
        match (self, other) {
            (Element::Fire, Element::Water) => Q::new(1, 2),
            (Element::Fire, Element::Electric) => Q::new(3, 2),
            (Element::Fire, Element::Earth) => Q::new(1, 1),
            (Element::Water, Element::Fire) => Q::new(3, 2),
            (Element::Water, Element::Electric) => Q::new(1, 1),
            (Element::Water, Element::Earth) => Q::new(1, 2),
            (Element::Electric, Element::Fire) => Q::new(1, 2),
            (Element::Electric, Element::Water) => Q::new(3, 2),
            (Element::Electric, Element::Earth) => Q::new(1, 1),
            (Element::Earth, Element::Fire) => Q::new(1, 1),
            (Element::Earth, Element::Water) => Q::new(3, 2),
            (Element::Earth, Element::Electric) => Q::new(1, 2),
            _ => Q::new(1, 1),
        }
    }
}

} // verus!
