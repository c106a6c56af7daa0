//! When an asset changes it may need to reload and rebind to the pipeline.
//! This trait is used for signalling such a reload.

use vstd::prelude::*;

use crate::renderer::Renderer;

verus! {

/// Denotes the kinds of reload/changes of data that can occur.
#[derive(Debug, Clone, Copy, Eq, PartialEq, Structural)]
pub enum ReloadKind {
    /// No change occurred in the last load
    NoChange,
    /// Data was updated but a rebind was not required
    Update,
    /// Data was updated in a way that requires a rebind
    Reload,
}

/// Used to track the state of reloads.
#[derive(Debug, Clone, Copy, Eq, PartialEq, Structural)]
pub struct ReloadState {
    /// The last cycle that an update occurred
    pub last_update_cycle: usize,
    /// The last cycle that a reload occurred
    pub last_reload_cycle: usize,
    /// Requires an update this frame
    pub requires_update: bool,
    /// Requires a reload this frame
    pub requires_reload: bool,
}

impl Default for ReloadState {
    /// A fresh tracker: no update or reload seen or pending.
    fn default() -> (r: Self)
        ensures
            r == ReloadState::initial(),
    {
        ReloadState {
            last_update_cycle: 0,
            last_reload_cycle: 0,
            requires_update: false,
            requires_reload: false,
        }
    }
}

impl ReloadState {
    /// The state of a fresh tracker.
    pub open spec fn initial() -> Self {
        ReloadState {
            last_update_cycle: 0,
            last_reload_cycle: 0,
            requires_update: false,
            requires_reload: false,
        }
    }

    /// The kind of change that has occurred since the given cycle: a reload
    /// outweighs an update, an update outweighs no change.
    pub open spec fn spec_changes_since(self, cycle: usize) -> ReloadKind {
        if self.last_reload_cycle >= cycle {
            ReloadKind::Reload
        } else if self.last_update_cycle >= cycle {
            ReloadKind::Update
        } else {
            ReloadKind::NoChange
        }
    }

    /// The state after the per-frame bookkeeping: pending flags are folded
    /// into the last-cycle counters and cleared.
    pub open spec fn spec_cycled(self, cycle: usize) -> Self {
        ReloadState {
            last_update_cycle: if self.requires_update {
                cycle
            } else {
                self.last_update_cycle
            },
            last_reload_cycle: if self.requires_reload {
                cycle
            } else {
                self.last_reload_cycle
            },
            requires_update: false,
            requires_reload: false,
        }
    }
}

/// Describes an object that has GPU-representable data that may update and
/// needs periodic (re-)loading.
///
/// A loading function should call [`Reloadable::flag_updated`] or
/// [`Reloadable::flag_reload`] depending on whether an update occurred or a
/// rebind is required.
pub trait Reloadable: Sized {
    /// The reload-tracking state carried by the object.
    spec fn spec_reload_state(&self) -> ReloadState;

    /// A reference to the reload-tracking state.
    fn reload_state(&self) -> (r: &ReloadState)
        ensures
            *r == self.spec_reload_state(),
    ;

    /// Replaces the reload-tracking state.
    fn set_reload_state(&mut self, state: ReloadState)
        ensures
            final(self).spec_reload_state() == state,
    ;

    /// Flags data updates that do not require a rebind as happening this
    /// frame.
    fn flag_updated(&mut self)
        ensures
            final(self).spec_reload_state() == (ReloadState {
                requires_update: true,
                ..old(self).spec_reload_state()
            }),
    {
        let mut state = *self.reload_state();
        state.requires_update = true;
        self.set_reload_state(state);
    }

    /// Flags data updates that require a rebind as happening this frame.
    fn flag_reload(&mut self)
        ensures
            final(self).spec_reload_state() == (ReloadState {
                requires_reload: true,
                ..old(self).spec_reload_state()
            }),
    {
        let mut state = *self.reload_state();
        state.requires_reload = true;
        self.set_reload_state(state);
    }

    /// Should be called each frame to correctly track the reload state:
    /// pending flags are recorded against the renderer's current cycle.
    fn cycle(&mut self, renderer: &Renderer)
        ensures
            final(self).spec_reload_state() == old(self).spec_reload_state().spec_cycled(
                renderer.cycle,
            ),
    {
        let mut state = *self.reload_state();
        if state.requires_update {
            state.last_update_cycle = renderer.cycle();
            state.requires_update = false;
        }
        if state.requires_reload {
            state.last_reload_cycle = renderer.cycle();
            state.requires_reload = false;
        }
        self.set_reload_state(state);
    }

    /// Gets the kind of changes that have occurred since a certain cycle.
    fn changes_since(&self, cycle: usize) -> (r: ReloadKind)
        ensures
            r == self.spec_reload_state().spec_changes_since(cycle),
    {
        let state = self.reload_state();
        if state.last_reload_cycle >= cycle {
            ReloadKind::Reload
        } else if state.last_update_cycle >= cycle {
            ReloadKind::Update
        } else {
            ReloadKind::NoChange
        }
    }
}

} // verus!
