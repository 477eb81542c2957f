//! Loading screen.

use vstd::prelude::*;
use crate::progress::{spec_fraction, ProgressTracker};
use crate::rational::{rat_mul, Q, Rat};
use crate::registry::{ObjectEntry, ScopedRegistry};
use crate::state::{AppState, Scope};

verus! {

/// The plugin that installs the loading screen under its bound state.
pub struct LoadscreenPlugin {
    pub state: AppState,
}

/// The live objects of the loading screen: camera, the bar's container and
/// the growing indicator inside it.
#[derive(Debug, PartialEq, Eq, Structural, Clone, Copy)]
pub struct LoadingScreen {
    pub camera: u64,
    pub container: u64,
    pub indicator: u64,
}

/// Spawn the loading screen, scoped to the given loading state.
pub fn setup_loadscreen(registry: &mut ScopedRegistry, state: AppState) -> (screen: LoadingScreen)
    requires
        old(registry).next_id + 3 <= u64::MAX,
    ensures
        final(registry).next_id == old(registry).next_id + 3,
        final(registry).entries@ == old(registry).entries@.push(
            ObjectEntry { id: screen.camera, scope: Some(Scope::Top(state)) },
        ).push(ObjectEntry { id: screen.container, scope: Some(Scope::Top(state)) }).push(
            ObjectEntry { id: screen.indicator, scope: Some(Scope::Top(state)) },
        ),
        screen.camera == old(registry).next_id,
        screen.container == old(registry).next_id + 1,
        screen.indicator == old(registry).next_id + 2,
{
    let camera = registry.register(Some(Scope::Top(state)));
    let container = registry.register(Some(Scope::Top(state)));
    let indicator = registry.register(Some(Scope::Top(state)));
    LoadingScreen { camera, container, indicator }
}

/// The width of the loading indicator, as a percentage of the bar: the
/// progress fraction times one hundred.
pub fn update_loading_pct(tracker: &ProgressTracker) -> (width: Q)
    requires
        tracker.wf(),
    ensures
        width.wf(),
        width@ == rat_mul(spec_fraction(*tracker), Rat { n: 100, d: 1 }),
{
    let f = tracker.fraction();
    proof {
        assert(f@.n * 100 <= i64::MAX && f@.n * 100 >= i64::MIN) by (nonlinear_arith)
            requires
                0 <= f@.n <= 0xffff_ffffu64,
        ;
        assert(f@.d * 1 == f@.d) by (nonlinear_arith);
    }
    f.mul(&Q::new(100, 1))
}

} // verus!
