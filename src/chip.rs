//! The chip: its interrupt lines and the router that services them.

use vstd::prelude::*;
use crate::clic::{in_mask, Clic, ClicState, MTIP, NUM_LINES};
use crate::syscall::SysCall;

verus! {

/// The lines this chip uses: the machine timer (7) and the local lines 16
/// to 32, that is the UART and sixteen GPIO pins.
pub const IN_USE_INTERRUPTS: u64 = 0x1_FFFF_0080;

/// Index of the UART interrupt.
pub const UART0: u32 = 16;

/// Index of the interrupt of GPIO pin 0; pin `n` has index `GPIO0 + n`.
pub const GPIO0: u32 = 17;

/// Number of GPIO pins with an interrupt.
pub const NUM_GPIO: u32 = 16;

/// The peripheral whose handler services an interrupt line.
#[derive(PartialEq, Eq, Structural, Clone, Copy, Debug)]
pub enum InterruptSource {
    MachineTimer,
    Gpio { pin: u32 },
    Uart0,
}

/// The handler for interrupt `index`, if the chip has one.
pub open spec fn source_of(index: u32) -> Option<InterruptSource> {
    if index == MTIP {
        Some(InterruptSource::MachineTimer)
    } else if index == UART0 {
        Some(InterruptSource::Uart0)
    } else if GPIO0 <= index < GPIO0 + NUM_GPIO {
        Some(InterruptSource::Gpio { pin: (index - GPIO0) as u32 })
    } else {
        None
    }
}

/// Map an interrupt index to the peripheral that handles it; `None` marks an
/// index with no handler.
pub fn interrupt_source(index: u32) -> (r: Option<InterruptSource>)
    ensures
        r == source_of(index),
{
    if index == MTIP {
        Some(InterruptSource::MachineTimer)
    } else if index == UART0 {
        Some(InterruptSource::Uart0)
    } else if GPIO0 <= index && index < GPIO0 + NUM_GPIO {
        Some(InterruptSource::Gpio { pin: index - GPIO0 })
    } else {
        None
    }
}

/// The indices below `n` of lines in use that are pending, in ascending
/// order.
pub open spec fn pending_below(s: ClicState, n: int) -> Seq<u32>
    decreases n,
{
    if n <= 0 {
        Seq::empty()
    } else if s.fires(n - 1) {
        pending_below(s, n - 1).push((n - 1) as u32)
    } else {
        pending_below(s, n - 1)
    }
}

/// The state after every line in use has been serviced: their pending bits
/// are clear, all else is as it was.
pub open spec fn serviced(s: ClicState) -> ClicState {
    ClicState { pending: Seq::new(NUM_LINES as nat, |i: int| s.pending[i] && !s.in_use[i]), ..s }
}

/// Where no line fires between `a` and `b`, the list up to `b` is the list
/// up to `a`.
proof fn lemma_pending_below_skip(s: ClicState, a: int, b: int)
    requires
        0 <= a <= b,
        forall|j: int| a <= j < b ==> !#[trigger] s.fires(j),
    ensures
        pending_below(s, b) == pending_below(s, a),
    decreases b - a,
{
    if a < b {
        lemma_pending_below_skip(s, a, b - 1);
    }
}

/// The arty-exx chip.
pub struct ArtyExx {
    pub userspace_kernel_boundary: SysCall,
    pub clic: Clic,
}

impl ArtyExx {
    pub open spec fn wf(&self) -> bool {
        self.clic.wf()
    }

    /// The chip with the lines of `IN_USE_INTERRUPTS` in use, all clear and
    /// disabled.
    pub fn new() -> (r: ArtyExx)
        ensures
            r.wf(),
            forall|i: int| 0 <= i < NUM_LINES ==> r.clic@.in_use[i] == in_mask(IN_USE_INTERRUPTS, i),
            forall|i: int| 0 <= i < NUM_LINES ==> !r.clic@.pending[i] && !r.clic@.enabled[i],
    {
        ArtyExx { userspace_kernel_boundary: SysCall::new(), clic: Clic::new(IN_USE_INTERRUPTS) }
    }

    /// Enable every interrupt line that the chip uses.
    pub fn enable_all_interrupts(&mut self)
        requires
            old(self).wf(),
        ensures
            final(self).wf(),
            final(self).clic@ == old(self).clic@.all_enabled(),
    {
        self.clic.enable_all();
    }

    /// The boundary through which processes are run.
    pub fn userspace_kernel_boundary(&self) -> (r: &SysCall)
        ensures
            r == &self.userspace_kernel_boundary,
    {
        &self.userspace_kernel_boundary
    }

    /// Whether a line in use is pending.
    pub fn has_pending_interrupts(&self) -> (r: bool)
        requires
            self.wf(),
        ensures
            r == self.clic@.any_pending(),
    {
        self.clic.has_pending()
    }

    /// Service every pending line in use: take the next pending line,
    /// complete it, and go on until none is left. Answers the serviced
    /// indices in the order they were taken, which is ascending; the caller
    /// runs each one's handler (see `interrupt_source`).
    pub fn service_pending_interrupts(&mut self) -> (r: Vec<u32>)
        requires
            old(self).wf(),
        ensures
            final(self).wf(),
            final(self).clic@ == serviced(old(self).clic@),
            r@ == pending_below(old(self).clic@, NUM_LINES as int),
    {
        let ghost s0 = self.clic@;
        let mut done: Vec<u32> = Vec::new();
        let ghost mut bound: int = 0;
        loop
            invariant
                self.wf(),
                s0 == old(self).clic@,
                s0.wf(),
                0 <= bound <= NUM_LINES,
                self.clic@.in_use == s0.in_use,
                self.clic@.enabled == s0.enabled,
                forall|j: int|
                    0 <= j < NUM_LINES ==> #[trigger] self.clic@.pending[j] == (s0.pending[j] && !(
                    s0.in_use[j] && j < bound)),
                done@ == pending_below(s0, bound),
            decreases NUM_LINES - bound,
        {
            match self.clic.next_pending() {
                Some(index) => {
                    proof {
                        let i = index as int;
                        assert(bound <= i) by {
                            if i < bound {
                                assert(self.clic@.fires(i));
                            }
                        }
                        assert forall|j: int| bound <= j < i implies !#[trigger] s0.fires(j) by {
                            assert(!self.clic@.fires(j));
                        }
                        lemma_pending_below_skip(s0, bound, i);
                        assert(s0.fires(i));
                    }
                    done.push(index);
                    self.clic.complete(index);
                    proof {
                        let old_bound = bound;
                        bound = index as int + 1;
                        assert forall|j: int| 0 <= j < NUM_LINES implies #[trigger] self.clic@.pending[j]
                            == (s0.pending[j] && !(s0.in_use[j] && j < bound)) by {
                            if old_bound <= j && j < index as int {
                                assert(!s0.fires(j));
                            }
                        }
                    }
                },
                None => {
                    proof {
                        assert forall|j: int| bound <= j < NUM_LINES implies !#[trigger] s0.fires(j) by {
                            assert(!self.clic@.fires(j));
                        }
                        lemma_pending_below_skip(s0, bound, NUM_LINES as int);
                        assert forall|j: int| 0 <= j < NUM_LINES implies self.clic@.pending[j]
                            == serviced(s0).pending[j] by {
                            assert(!self.clic@.fires(j));
                            if bound <= j {
                                assert(!s0.fires(j));
                            }
                        }
                        assert(self.clic@.pending =~= serviced(s0).pending);
                        assert(self.clic@ =~= serviced(s0));
                    }
                    return done;
                },
            }
        }
    }
}


/// The chip's part of handling a trap taken while the kernel ran: disable
/// every line that is pending and enabled, so that returning from the trap
/// does not take the same interrupt again at once. The pending bits stay set
/// for the main loop to service.
pub fn start_trap_rust(chip: &mut ArtyExx)
    requires
        old(chip).wf(),
    ensures
        final(chip).wf(),
        final(chip).clic@ == old(chip).clic@.pending_disabled(),
        forall|i: int|
            0 <= i < NUM_LINES ==> !(#[trigger] final(chip).clic@.pending[i]
                && final(chip).clic@.enabled[i]),
{
    chip.clic.disable_pending();
}

} // verus!
