//! Small shared components.

use vstd::prelude::*;

verus! {

/// A button component carrying the state value to request when the button
/// is pressed.
#[derive(Debug, Clone, Copy)]
pub struct StateOnPress<S> {
    pub action: S,
}

impl<S> StateOnPress<S> {
    pub fn from(state: S) -> (r: Self)
        ensures
            r.action == state,
    {
        Self { action: state }
    }
}

} // verus!
