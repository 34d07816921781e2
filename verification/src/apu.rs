//! The audio subsystem stub: it holds no channel state here and only
//! records that it has been initialized.

use vstd::prelude::*;

verus! {

pub struct Apu {
    pub initialized: bool,
}

impl Apu {
    /// Creates the APU but does not initialize it. Please run
    /// [`Self::initialize`] to initialize the APU.
    pub fn new() -> (r: Apu)
        ensures
            !r.initialized,
    {
        Apu { initialized: false }
    }

    /// Initialize the APU.
    pub fn initialize(&mut self)
        ensures
            final (self).initialized,
    {
        self.initialized = true;
    }

    /// Returns the state of initialization.
    pub fn initialized(&self) -> (r: bool)
        ensures
            r == self.initialized,
    {
        self.initialized
    }
}

} // verus!
