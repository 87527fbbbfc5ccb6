//! The active extension slot: holds exactly one module at a time, hands
//! readers a complete module and replaces it whole.
use vstd::prelude::*;
use vstd::rwlock::RwLockPredicate;

use crate::engine::{is_extension, Module};

verus! {

/// The holder of the currently active module. Its view is the bytes that
/// module was compiled from.
pub struct ActiveSlot {
    module: Module,
}

impl View for ActiveSlot {
    type V = Seq<u8>;

    closed spec fn view(&self) -> Seq<u8> {
        self.module@
    }
}

impl ActiveSlot {
    /// A slot holding `module`.
    pub fn new(module: Module) -> (s: ActiveSlot)
        ensures
            s@ == module@,
    {
        ActiveSlot { module }
    }

    /// A reference to the active module, whole, for one invocation.
    pub fn read(&self) -> (m: Module)
        ensures
            m@ == self@,
    {
        self.module.share()
    }

    /// Replaces the active module in one step; readers holding the old
    /// module keep it.
    pub fn swap(&mut self, module: Module)
        ensures
            final(self)@ == module@,
    {
        self.module = module;
    }
}

/// What the lock around the slot keeps true: the active module is compiled
/// from extension bytes.
pub struct ExtensionSlot;

impl RwLockPredicate<ActiveSlot> for ExtensionSlot {
    open spec fn inv(self, v: ActiveSlot) -> bool {
        is_extension(v@)
    }
}

} // verus!
