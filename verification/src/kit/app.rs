//! Generic host-neutral app shapes: a core holding validated state, and a
//! context pairing a core with injected ports.
use vstd::prelude::*;

verus! {

/// Generic host-neutral app context.
///
/// Apps commonly need the same shape: a host-neutral core plus injected ports.
/// Concrete app crates still own the core type, port traits, state, and
/// use-cases.
#[derive(Debug, Clone)]
pub struct StandardAppContext<TCore, TPorts> {
    core: TCore,
    ports: TPorts,
}

impl<TCore, TPorts> StandardAppContext<TCore, TPorts> {
    /// The host-neutral app core.
    pub closed spec fn spec_core(&self) -> TCore {
        self.core
    }

    /// The injected ports.
    pub closed spec fn spec_ports(&self) -> TPorts {
        self.ports
    }

    /// Constructs an app context from a core and typed ports.
    pub fn new(core: TCore, ports: TPorts) -> (r: Self)
        ensures
            r.spec_core() == core,
            r.spec_ports() == ports,
    {
        StandardAppContext { core, ports }
    }

    /// Returns the host-neutral app core.
    pub fn app_core(&self) -> (r: &TCore)
        ensures
            *r == self.spec_core(),
    {
        &self.core
    }

    /// Returns injected app ports.
    pub fn ports(&self) -> (r: &TPorts)
        ensures
            *r == self.spec_ports(),
    {
        &self.ports
    }
}

/// Generic host-neutral app core wrapper: a core object containing validated
/// app state.
#[derive(Debug, Clone, Copy, PartialEq, Eq)]
pub struct StandardAppCore<TState> {
    state: TState,
}

impl<TState> StandardAppCore<TState> {
    /// The app-owned state.
    pub closed spec fn spec_state(&self) -> TState {
        self.state
    }

    /// Constructs an app core from app-owned state.
    pub fn new(state: TState) -> (r: Self)
        ensures
            r.spec_state() == state,
    {
        StandardAppCore { state }
    }

    /// Returns the app-owned state.
    pub fn state(&self) -> (r: &TState)
        ensures
            *r == self.spec_state(),
    {
        &self.state
    }
}

} // verus!

verus! {

/// Empty custom config for apps that only use the standard config envelope.
#[derive(Debug, Clone, Copy, Default, PartialEq, Eq)]
pub struct NoAppCustomConfig {}

} // verus!

