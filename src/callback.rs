//! The bookkeeping behind callbacks that the bus invokes on its own threads.
//!
//! Each registration is given a token. The bus hands the token back with
//! every invocation, and an invocation is honoured only while its token is
//! the current one and the slot has not been closed. A closed slot turns
//! every late invocation into a dropped one.
use vstd::prelude::*;

verus! {

/// The registration state of one endpoint's callback.
pub struct CallbackSlot {
    generation: u64,
    live: bool,
}

impl CallbackSlot {
    /// The token of the current registration.
    pub closed spec fn spec_generation(&self) -> u64 {
        self.generation
    }

    /// Whether a registration is current and the slot is open.
    pub closed spec fn spec_live(&self) -> bool {
        self.live
    }

    /// Whether an invocation carrying `token` is to be honoured.
    pub open spec fn spec_accepts(&self, token: u64) -> bool {
        self.spec_live() && token == self.spec_generation()
    }

    /// A slot with nothing registered.
    pub fn new() -> (r: CallbackSlot)
        ensures
            !r.spec_live(),
            r.spec_generation() == 0,
    {
        CallbackSlot { generation: 0, live: false }
    }

    /// Registers a callback, replacing any earlier one, and returns the
    /// token the bus is to hand back with each invocation.
    pub fn register(&mut self) -> (token: u64)
        requires
            old(self).spec_generation() < u64::MAX,
        ensures
            token == old(self).spec_generation() + 1,
            final(self).spec_generation() == token,
            final(self).spec_live(),
    {
        self.generation = self.generation + 1;
        self.live = true;
        self.generation
    }

    /// Whether another registration can be given a fresh token.
    pub fn can_register(&self) -> (r: bool)
        ensures
            r == (self.spec_generation() < u64::MAX),
    {
        self.generation < u64::MAX
    }

    /// Whether an invocation carrying `token` is to be honoured.
    pub fn accepts(&self, token: u64) -> (r: bool)
        ensures
            r == self.spec_accepts(token),
    {
        self.live && token == self.generation
    }

    /// Closes the slot: no invocation is honoured after this.
    pub fn close(&mut self)
        ensures
            !final(self).spec_live(),
            final(self).spec_generation() == old(self).spec_generation(),
    {
        self.live = false;
    }

    pub fn is_live(&self) -> (r: bool)
        ensures
            r == self.spec_live(),
    {
        self.live
    }
}

} // verus!
