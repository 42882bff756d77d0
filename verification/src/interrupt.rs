//! Critical sections: reentrant interrupt masking.
//!
//! Entering a critical section disables global interrupt delivery and bumps a
//! process-wide nesting counter; leaving one decrements the counter, and only
//! the exit that brings the counter back to zero re-enables delivery. The
//! token type [`CriticalSection`] is the capability that the mutual-exclusion
//! wrappers in `mutex` demand: it cannot be fabricated (its field is private)
//! and it is consumed by value on exit, so the number of exits can never
//! exceed the number of entries.

use vstd::prelude::*;

use crate::mcu::Mcu;

verus! {

/// The interrupt-masking state of the device: whether delivery is enabled
/// and how many critical sections are open.
pub struct IntState {
    /// Whether global interrupt delivery is enabled.
    pub enabled: bool,
    /// How many critical sections are currently open.
    pub depth: nat,
}

/// The interrupt-masking state of a modeled microcontroller.
pub open spec fn int_state(m: Mcu) -> IntState {
    IntState { enabled: m.interrupts_enabled, depth: m.critical_depth as nat }
}

/// What entering a critical section does: delivery is disabled and the
/// nesting counter grows by one.
pub open spec fn spec_enter(s: IntState) -> IntState {
    IntState { enabled: false, depth: s.depth + 1 }
}

/// What leaving a critical section does when `s.depth >= 1`: the nesting
/// counter shrinks by one, and delivery is re-enabled exactly when this exit
/// closes the outermost section.
pub open spec fn spec_exit(s: IntState) -> IntState {
    IntState {
        enabled: if s.depth == 1 {
            true
        } else {
            s.enabled
        },
        depth: (s.depth - 1) as nat,
    }
}

/// `spec_enter` applied `n` times.
pub open spec fn spec_enter_n(s: IntState, n: nat) -> IntState
    decreases n,
{
    if n == 0 {
        s
    } else {
        spec_enter_n(spec_enter(s), (n - 1) as nat)
    }
}

/// `spec_exit` applied `n` times.
pub open spec fn spec_exit_n(s: IntState, n: nat) -> IntState
    decreases n,
{
    if n == 0 {
        s
    } else {
        spec_exit_n(spec_exit(s), (n - 1) as nat)
    }
}

/// A capability witnessing that global interrupt delivery is disabled. It
/// exists only between a [`CriticalSection::new`] and the matching
/// [`CriticalSection::exit`]; holding one is what permits touching state
/// shared with interrupt handlers (see `mutex`). The single private field
/// keeps it from being constructed anywhere else, and exiting consumes it.
pub struct CriticalSection {
    _token: (),
}

impl CriticalSection {
    /// Enters a critical section: disables global interrupt delivery and
    /// increments the nesting counter. Every register cell and the transmit
    /// log stay as they were.
    pub fn new(mcu: &mut Mcu) -> (cs: CriticalSection)
        requires
            old(mcu).wf(),
            old(mcu).critical_depth < usize::MAX,
        ensures
            final(mcu).wf(),
            int_state(*final(mcu)) == spec_enter(int_state(*old(mcu))),
            !final(mcu).interrupts_enabled,
            final(mcu).critical_depth == old(mcu).critical_depth + 1,
            final(mcu).regs@ == old(mcu).regs@,
            final(mcu).tx@ == old(mcu).tx@,
    {
        mcu.interrupts_enabled = false;
        mcu.critical_depth = mcu.critical_depth + 1;
        CriticalSection { _token: () }
    }

    /// Leaves a critical section: decrements the nesting counter, and
    /// re-enables global interrupt delivery exactly when this exit closes
    /// the outermost section. Consumes the token, so no exit can happen
    /// without a matching entry. Every register cell and the transmit log
    /// stay as they were.
    pub fn exit(self, mcu: &mut Mcu)
        requires
            old(mcu).wf(),
            old(mcu).critical_depth >= 1,
        ensures
            final(mcu).wf(),
            int_state(*final(mcu)) == spec_exit(int_state(*old(mcu))),
            final(mcu).critical_depth == old(mcu).critical_depth - 1,
            final(mcu).interrupts_enabled == (old(mcu).critical_depth == 1
                || old(mcu).interrupts_enabled),
            final(mcu).regs@ == old(mcu).regs@,
            final(mcu).tx@ == old(mcu).tx@,
    {
        if mcu.critical_depth == 1 {
            mcu.interrupts_enabled = true;
        }
        mcu.critical_depth = mcu.critical_depth - 1;
    }
}

/// After `n >= 1` entries the counter sits at `s.depth + n` and delivery is
/// disabled: interrupts stay masked throughout every intermediate nesting
/// level.
pub proof fn lemma_enter_n_disables(s: IntState, n: nat)
    requires
        n >= 1,
    ensures
        spec_enter_n(s, n) == (IntState { enabled: false, depth: s.depth + n }),
    decreases n,
{
    if n == 1 {
        assert(spec_enter_n(spec_enter(s), 0) == spec_enter(s));
    } else {
        lemma_enter_n_disables(spec_enter(s), (n - 1) as nat);
    }
}

/// Exiting as many times as the counter is deep, starting with delivery
/// masked, closes every section and re-enables delivery.
proof fn lemma_exit_n_restores(s: IntState, n: nat)
    requires
        n >= 1,
        s.depth == n,
        !s.enabled,
    ensures
        spec_exit_n(s, n) == (IntState { enabled: true, depth: 0 }),
    decreases n,
{
    if n == 1 {
        assert(spec_exit_n(spec_exit(s), 0) == spec_exit(s));
    } else {
        lemma_exit_n_restores(spec_exit(s), (n - 1) as nat);
    }
}

/// Nested critical sections restore the caller's state: from the main flow
/// (delivery enabled, no section open), entering `n` times and then exiting
/// `n` times leaves the interrupt-enable flag exactly as it was, interrupts
/// stay disabled throughout every intermediate level, and the counter —
/// which never goes below zero, since every exit consumes a token of a
/// matching entry — ends back at zero.
pub proof fn lemma_nested_sections_restore(s: IntState, n: nat)
    requires
        s.enabled,
        s.depth == 0,
    ensures
        spec_exit_n(spec_enter_n(s, n), n) == s,
        forall|k: nat| 1 <= k <= n ==> !spec_enter_n(s, k).enabled,
{
    if n >= 1 {
        lemma_enter_n_disables(s, n);
        lemma_exit_n_restores(spec_enter_n(s, n), n);
    }
    assert forall|k: nat| 1 <= k <= n implies !spec_enter_n(s, k).enabled by {
        lemma_enter_n_disables(s, k);
    }
}

} // verus!
