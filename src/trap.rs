//! Trap entry: which context a trap interrupted.
//!
//! The machine has a single trap vector and no privilege bits to tell a
//! kernel trap from an application trap, so the scratch register carries it:
//! zero while the kernel runs, the kernel's stack pointer while an
//! application runs.

use vstd::prelude::*;

verus! {

/// Mode bit of the trap vector register that selects direct, non-vectored
/// CLIC dispatch.
pub const CLIC_DIRECT_MODE: usize = 2;

/// The context that was executing when a trap happened.
#[derive(PartialEq, Eq, Structural, Clone, Copy, Debug)]
pub enum TrapOrigin {
    Kernel,
    App,
}

/// The origin that a scratch value stands for.
pub open spec fn origin_of(mscratch: usize) -> TrapOrigin {
    if mscratch == 0 {
        TrapOrigin::Kernel
    } else {
        TrapOrigin::App
    }
}

/// The value for the trap vector register: the handler's address with the
/// direct-mode bit set.
pub fn trap_vector(handler_address: usize) -> (r: usize)
    ensures
        r == handler_address | CLIC_DIRECT_MODE,
{
    handler_address | CLIC_DIRECT_MODE
}

/// The scratch register that records who is running.
pub struct TrapState {
    pub mscratch: usize,
}

impl TrapState {
    /// At boot the kernel runs, so the scratch register is zero.
    pub fn new() -> (r: TrapState)
        ensures
            r.mscratch == 0,
            origin_of(r.mscratch) == TrapOrigin::Kernel,
    {
        TrapState { mscratch: 0 }
    }

    /// Which context is running.
    pub fn running(&self) -> (r: TrapOrigin)
        ensures
            r == origin_of(self.mscratch),
    {
        if self.mscratch == 0 {
            TrapOrigin::Kernel
        } else {
            TrapOrigin::App
        }
    }

    /// Dispatch an application from the kernel: the scratch register keeps
    /// the kernel stack pointer, which cannot be zero, to find it again on
    /// the next trap.
    pub fn enter_app(&mut self, kernel_stack_pointer: usize)
        requires
            origin_of(old(self).mscratch) == TrapOrigin::Kernel,
            kernel_stack_pointer != 0,
        ensures
            final(self).mscratch == kernel_stack_pointer,
            origin_of(final(self).mscratch) == TrapOrigin::App,
    {
        self.mscratch = kernel_stack_pointer;
    }

    /// Take a trap. Answers the context it interrupted and the scratch value,
    /// which is the kernel stack pointer to resume on for an application
    /// trap. Afterwards the kernel runs, so the next trap is seen as a kernel
    /// trap until an application is dispatched again.
    pub fn take_trap(&mut self) -> (r: (TrapOrigin, usize))
        ensures
            r.0 == origin_of(old(self).mscratch),
            r.1 == old(self).mscratch,
            final(self).mscratch == 0,
    {
        let origin = self.running();
        let saved = self.mscratch;
        self.mscratch = 0;
        (origin, saved)
    }
}

} // verus!
