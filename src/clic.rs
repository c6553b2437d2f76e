//! Core-local interrupt controller (CLIC).
//!
//! The register block holds, for every interrupt index, a pending bit set by
//! hardware, an enable bit set by software, and whether the platform uses the
//! line. Four fixed machine-level lines (software 3, timer 7, external 11,
//! CLIC-software 12) are followed by the local lines 16 up to 143. Indices
//! between them name no register.

use vstd::prelude::*;

verus! {

/// Size of the interrupt index space.
pub const NUM_LINES: usize = 144;

/// Index of the machine software interrupt.
pub const MSIP: u32 = 3;

/// Index of the machine timer interrupt.
pub const MTIP: u32 = 7;

/// Index of the machine external interrupt.
pub const MEIP: u32 = 11;

/// Index of the CLIC software interrupt.
pub const CSIP: u32 = 12;

/// Index of the first local interrupt line.
pub const LOCAL_BASE: u32 = 16;

/// Whether `i` names a line of the register block.
pub open spec fn has_line(i: int) -> bool {
    i == 3 || i == 7 || i == 11 || i == 12 || (16 <= i < 144)
}

/// Whether bit `i` of an in-use mask selects line `i`.
pub open spec fn in_mask(mask: u64, i: int) -> bool {
    has_line(i) && 0 <= i < 64 && (mask >> (i as u64)) & 1u64 == 1u64
}

/// The observable state of the controller, one entry per index.
pub struct ClicState {
    pub in_use: Seq<bool>,
    pub pending: Seq<bool>,
    pub enabled: Seq<bool>,
}

impl ClicState {
    /// Every array covers the index space; indices without a register read
    /// as clear; only lines in use are ever enabled.
    pub open spec fn wf(self) -> bool {
        &&& self.in_use.len() == NUM_LINES
        &&& self.pending.len() == NUM_LINES
        &&& self.enabled.len() == NUM_LINES
        &&& forall|i: int| 0 <= i < NUM_LINES && !has_line(i) ==> !#[trigger] self.in_use[i]
        &&& forall|i: int| 0 <= i < NUM_LINES && !has_line(i) ==> !#[trigger] self.pending[i]
        &&& forall|i: int| 0 <= i < NUM_LINES && !has_line(i) ==> !#[trigger] self.enabled[i]
        &&& forall|i: int| 0 <= i < NUM_LINES && #[trigger] self.enabled[i] ==> self.in_use[i]
    }

    /// Line `i` is in use and pending.
    pub open spec fn fires(self, i: int) -> bool {
        0 <= i < NUM_LINES && self.in_use[i] && self.pending[i]
    }

    /// Some line in use is pending.
    pub open spec fn any_pending(self) -> bool {
        exists|i: int| #[trigger] self.fires(i)
    }

    /// `i` is the lowest index of a line in use that is pending.
    pub open spec fn first_pending(self, i: int) -> bool {
        &&& self.fires(i)
        &&& forall|j: int| 0 <= j < i ==> !#[trigger] self.fires(j)
    }

    /// The state after every pending bit is cleared.
    pub open spec fn cleared(self) -> ClicState {
        ClicState { pending: Seq::new(NUM_LINES as nat, |i: int| false), ..self }
    }

    /// The state after every line in use is enabled.
    pub open spec fn all_enabled(self) -> ClicState {
        ClicState { enabled: self.in_use, ..self }
    }

    /// The state after every line is disabled.
    pub open spec fn all_disabled(self) -> ClicState {
        ClicState { enabled: Seq::new(NUM_LINES as nat, |i: int| false), ..self }
    }

    /// The state after every line that is both pending and enabled is disabled.
    pub open spec fn pending_disabled(self) -> ClicState {
        ClicState {
            enabled: Seq::new(NUM_LINES as nat, |i: int| self.enabled[i] && !self.pending[i]),
            ..self
        }
    }

    /// The state after the pending bit of `index` is cleared, where `index`
    /// names a line; any other index leaves the state as it is.
    pub open spec fn completed(self, index: int) -> ClicState {
        if has_line(index) {
            ClicState { pending: self.pending.update(index, false), ..self }
        } else {
            self
        }
    }

    /// The state after hardware asserts the pending bit of `index`, where
    /// `index` names a line; any other index leaves the state as it is.
    pub open spec fn raised(self, index: int) -> ClicState {
        if has_line(index) {
            ClicState { pending: self.pending.update(index, true), ..self }
        } else {
            self
        }
    }
}

/// Whether `index` names a line of the register block.
pub fn has_line_at(index: u32) -> (r: bool)
    ensures
        r == has_line(index as int),
{
    index == MSIP || index == MTIP || index == MEIP || index == CSIP || (LOCAL_BASE <= index
        && index < NUM_LINES as u32)
}

/// The interrupt controller of one hart.
pub struct Clic {
    in_use: Vec<bool>,
    pending: Vec<bool>,
    enabled: Vec<bool>,
}

impl View for Clic {
    type V = ClicState;

    closed spec fn view(&self) -> ClicState {
        ClicState { in_use: self.in_use@, pending: self.pending@, enabled: self.enabled@ }
    }
}

impl Clic {
    pub open spec fn wf(&self) -> bool {
        self@.wf()
    }

    /// A controller whose lines in use are those selected by the bits of
    /// `in_use_interrupts` (bit `i` for index `i`, so only lines below 64 can
    /// be chosen; bits of indices without a register are ignored). Every line
    /// starts clear and disabled.
    pub fn new(in_use_interrupts: u64) -> (r: Clic)
        ensures
            r.wf(),
            forall|i: int| 0 <= i < NUM_LINES ==> r@.in_use[i] == in_mask(in_use_interrupts, i),
            forall|i: int| 0 <= i < NUM_LINES ==> !r@.pending[i] && !r@.enabled[i],
    {
        let mut in_use: Vec<bool> = Vec::new();
        let mut pending: Vec<bool> = Vec::new();
        let mut enabled: Vec<bool> = Vec::new();
        let mut i: usize = 0;
        while i < NUM_LINES
            invariant
                i <= NUM_LINES,
                in_use@.len() == i,
                pending@.len() == i,
                enabled@.len() == i,
                forall|j: int| 0 <= j < i ==> in_use@[j] == in_mask(in_use_interrupts, j),
                forall|j: int| 0 <= j < i ==> !pending@[j] && !enabled@[j],
            decreases NUM_LINES - i,
        {
            let used = has_line_at(i as u32) && i < 64 && (in_use_interrupts >> (i as u64)) & 1u64
                == 1u64;
            in_use.push(used);
            pending.push(false);
            enabled.push(false);
            i = i + 1;
        }
        let r = Clic { in_use, pending, enabled };
        assert forall|j: int| 0 <= j < NUM_LINES && #[trigger] r@.enabled[j] implies r@.in_use[j] by {}
        assert forall|j: int| 0 <= j < NUM_LINES && !has_line(j) implies !#[trigger] r@.in_use[j] by {
            assert(r@.in_use[j] == in_mask(in_use_interrupts, j));
        }
        r
    }

    /// Clear the pending bit of every line: the fixed machine-level lines
    /// and every local line.
    pub fn clear_all_pending(&mut self)
        requires
            old(self).wf(),
        ensures
            final(self).wf(),
            final(self)@ == old(self)@.cleared(),
    {
        let ghost s0 = self@;
        let mut i: usize = 0;
        while i < NUM_LINES
            invariant
                i <= NUM_LINES,
                s0.wf(),
                self.in_use@ == s0.in_use,
                self.enabled@ == s0.enabled,
                self.pending@.len() == NUM_LINES,
                forall|j: int| 0 <= j < i ==> !self.pending@[j],
                forall|j: int| i <= j < NUM_LINES ==> self.pending@[j] == s0.pending[j],
            decreases NUM_LINES - i,
        {
            self.pending[i] = false;
            i = i + 1;
        }
        assert(self@.pending =~= s0.cleared().pending);
        assert(self@ =~= s0.cleared());
    }

    /// Enable exactly the lines in use. Lines that are not in use stay masked.
    pub fn enable_all(&mut self)
        requires
            old(self).wf(),
        ensures
            final(self).wf(),
            final(self)@ == old(self)@.all_enabled(),
    {
        let ghost s0 = self@;
        let mut i: usize = 0;
        while i < NUM_LINES
            invariant
                i <= NUM_LINES,
                s0.wf(),
                self.in_use@ == s0.in_use,
                self.pending@ == s0.pending,
                self.enabled@.len() == NUM_LINES,
                forall|j: int| 0 <= j < i ==> self.enabled@[j] == s0.in_use[j],
                forall|j: int| i <= j < NUM_LINES ==> self.enabled@[j] == s0.enabled[j],
            decreases NUM_LINES - i,
        {
            let used = self.in_use[i];
            self.enabled[i] = used;
            i = i + 1;
        }
        assert(self@.enabled =~= s0.all_enabled().enabled);
        assert(self@ =~= s0.all_enabled());
    }

    /// Disable every line that is both pending and enabled, so that a line
    /// that fired cannot fire again before its handler has run. Pending bits
    /// are left as they are.
    pub fn disable_pending(&mut self)
        requires
            old(self).wf(),
        ensures
            final(self).wf(),
            final(self)@ == old(self)@.pending_disabled(),
    {
        let ghost s0 = self@;
        let mut i: usize = 0;
        while i < NUM_LINES
            invariant
                i <= NUM_LINES,
                s0.wf(),
                self.in_use@ == s0.in_use,
                self.pending@ == s0.pending,
                self.enabled@.len() == NUM_LINES,
                forall|j: int|
                    0 <= j < i ==> self.enabled@[j] == (s0.enabled[j] && !s0.pending[j]),
                forall|j: int| i <= j < NUM_LINES ==> self.enabled@[j] == s0.enabled[j],
            decreases NUM_LINES - i,
        {
            if self.pending[i] && self.enabled[i] {
                self.enabled[i] = false;
            }
            i = i + 1;
        }
        assert(self@.enabled =~= s0.pending_disabled().enabled);
        assert(self@ =~= s0.pending_disabled());
    }

    /// Disable every line.
    pub fn disable_all(&mut self)
        requires
            old(self).wf(),
        ensures
            final(self).wf(),
            final(self)@ == old(self)@.all_disabled(),
    {
        let ghost s0 = self@;
        let mut i: usize = 0;
        while i < NUM_LINES
            invariant
                i <= NUM_LINES,
                s0.wf(),
                self.in_use@ == s0.in_use,
                self.pending@ == s0.pending,
                self.enabled@.len() == NUM_LINES,
                forall|j: int| 0 <= j < i ==> !self.enabled@[j],
                forall|j: int| i <= j < NUM_LINES ==> self.enabled@[j] == s0.enabled[j],
            decreases NUM_LINES - i,
        {
            self.enabled[i] = false;
            i = i + 1;
        }
        assert(self@.enabled =~= s0.all_disabled().enabled);
        assert(self@ =~= s0.all_disabled());
    }

    /// The lowest index of a line in use that is pending, or `None` where no
    /// such line is pending. Since the fixed lines come first in the index
    /// space, they win over every local line, in the order software, timer,
    /// external, CLIC-software.
    pub fn next_pending(&self) -> (r: Option<u32>)
        requires
            self.wf(),
        ensures
            match r {
                Some(i) => self@.first_pending(i as int),
                None => !self@.any_pending(),
            },
    {
        let mut i: usize = 0;
        while i < NUM_LINES
            invariant
                i <= NUM_LINES,
                self.wf(),
                forall|j: int| 0 <= j < i ==> !#[trigger] self@.fires(j),
            decreases NUM_LINES - i,
        {
            if self.in_use[i] && self.pending[i] {
                return Some(i as u32);
            }
            i = i + 1;
        }
        None
    }

    /// Clear the pending bit of the line that `index` names. An index that
    /// names no line leaves the controller as it is.
    pub fn complete(&mut self, index: u32)
        requires
            old(self).wf(),
        ensures
            final(self).wf(),
            final(self)@ == old(self)@.completed(index as int),
    {
        if has_line_at(index) {
            self.pending[index as usize] = false;
        }
    }

    /// Whether any line in use is pending.
    pub fn has_pending(&self) -> (r: bool)
        requires
            self.wf(),
        ensures
            r == self@.any_pending(),
    {
        match self.next_pending() {
            Some(_) => true,
            None => false,
        }
    }

    /// Hardware asserts the pending bit of the line that `index` names,
    /// whether or not the line is in use or enabled. An index that names no
    /// line leaves the controller as it is.
    pub fn set_pending(&mut self, index: u32)
        requires
            old(self).wf(),
        ensures
            final(self).wf(),
            final(self)@ == old(self)@.raised(index as int),
    {
        if has_line_at(index) {
            self.pending[index as usize] = true;
        }
    }

    /// Whether the pending bit of `index` is set; `false` for an index
    /// outside the index space.
    pub fn is_pending(&self, index: u32) -> (r: bool)
        requires
            self.wf(),
        ensures
            r == (index < NUM_LINES && self@.pending[index as int]),
    {
        index < NUM_LINES as u32 && self.pending[index as usize]
    }

    /// Whether the enable bit of `index` is set; `false` for an index outside
    /// the index space.
    pub fn is_enabled(&self, index: u32) -> (r: bool)
        requires
            self.wf(),
        ensures
            r == (index < NUM_LINES && self@.enabled[index as int]),
    {
        index < NUM_LINES as u32 && self.enabled[index as usize]
    }

    /// Whether `index` is a line in use.
    pub fn is_in_use(&self, index: u32) -> (r: bool)
        requires
            self.wf(),
        ensures
            r == (index < NUM_LINES && self@.in_use[index as int]),
    {
        index < NUM_LINES as u32 && self.in_use[index as usize]
    }
}


/// After every pending bit is cleared, no line in use is pending and no line
/// at all reads as pending.
pub proof fn lemma_clear_all_pending_quiets(s: ClicState)
    requires
        s.wf(),
    ensures
        s.cleared().wf(),
        !s.cleared().any_pending(),
        forall|i: int| 0 <= i < NUM_LINES ==> !#[trigger] s.cleared().pending[i],
{
}

/// Enabling every line in use and then disabling every line leaves every
/// line, in use or not, disabled.
pub proof fn lemma_enable_all_then_disable_all(s: ClicState)
    requires
        s.wf(),
    ensures
        s.all_enabled().wf(),
        s.all_enabled().all_disabled().wf(),
        forall|i: int| 0 <= i < NUM_LINES ==> !#[trigger] s.all_enabled().all_disabled().enabled[i],
{
}

/// Among lines that fire, one has the lowest index.
proof fn lemma_lowest_firing_line(s: ClicState, k: int)
    requires
        s.fires(k),
    ensures
        exists|i: int| s.first_pending(i),
    decreases k,
{
    if exists|j: int| 0 <= j < k && #[trigger] s.fires(j) {
        let j = choose|j: int| 0 <= j < k && #[trigger] s.fires(j);
        lemma_lowest_firing_line(s, j);
    } else {
        assert(s.first_pending(k));
    }
}

/// A line in use is pending exactly when a lowest such line exists, and that
/// line is unique: the scan for the next pending line answers `None` exactly
/// when nothing in use is pending.
pub proof fn lemma_first_pending_exists_iff_pending(s: ClicState)
    ensures
        s.any_pending() <==> exists|i: int| s.first_pending(i),
        forall|i: int, j: int| s.first_pending(i) && s.first_pending(j) ==> i == j,
{
    if s.any_pending() {
        let k = choose|k: int| #[trigger] s.fires(k);
        lemma_lowest_firing_line(s, k);
    }
    assert forall|i: int, j: int| s.first_pending(i) && s.first_pending(j) implies i == j by {
        if i < j {
            assert(!s.fires(i));
        } else if j < i {
            assert(!s.fires(j));
        }
    }
}

/// The next pending line is in use and pending; once it is completed, the
/// next pending line, if any, has a higher index. Repeated scans, each
/// followed by completing the line found, thus visit lines in ascending order.
pub proof fn lemma_next_pending_ascends(s: ClicState, i: int)
    requires
        s.wf(),
        s.first_pending(i),
    ensures
        s.in_use[i],
        s.pending[i],
        s.any_pending(),
        s.completed(i).wf(),
        forall|j: int| #[trigger] s.completed(i).first_pending(j) ==> i < j,
{
    assert(has_line(i));
    assert forall|j: int| #[trigger] s.completed(i).first_pending(j) implies i < j by {
        if j < i {
            assert(s.fires(j));
        }
    }
}

/// Completing an index twice has the same effect as completing it once, and
/// leaves the pending bit of a line clear.
pub proof fn lemma_complete_idempotent(s: ClicState, index: int)
    requires
        s.wf(),
    ensures
        s.completed(index).completed(index) == s.completed(index),
        has_line(index) ==> !s.completed(index).pending[index],
{
    if has_line(index) {
        assert(s.completed(index).completed(index).pending =~= s.completed(index).pending);
    }
}

/// Completing an index that names no line changes nothing.
pub proof fn lemma_complete_unmapped_is_noop(s: ClicState, index: int)
    requires
        !has_line(index),
    ensures
        s.completed(index) == s,
{
}

} // verus!
