//! Interrupt-driven suspension primitive: a single-resolution condition
//! bound to one interrupt line.
//!
//! An interrupt line re-invokes a poll step every time it fires. The poll
//! step reads the bound hardware status flag and, the first time it observes
//! the flag set, acknowledges it (asks the caller to clear it) and resolves
//! the condition; after that, further firings are ignored. The runtime that
//! actually dispatches interrupts lives outside this crate and calls `fire`
//! with the flag value it read.

use vstd::prelude::*;

verus! {

/// The interrupt line that delivers the oscillator-ready and PLL-ready
/// signals.
pub const RCC_INTERRUPT_LINE: u32 = 5;

/// The vector-table position of the system tick exception that drives the
/// periodic timer.
pub const SYS_TICK_EXCEPTION_LINE: u32 = 15;

/// Identity of one interrupt line, held by whatever polls it.
///
/// Deliberately neither `Clone` nor `Copy`: attaching a condition or a
/// stream consumes the signal, so each line has exactly one active poll at a
/// time, enforced by ownership transfer rather than by runtime checks.
pub struct InterruptSignal {
    pub line: u32,
}

impl InterruptSignal {
    /// Takes the identity of an interrupt line. Enabling the line is the
    /// caller's responsibility; a firing before attachment is lost.
    pub fn bind(line: u32) -> (s: Self)
        ensures
            s.line == line,
    {
        InterruptSignal { line }
    }
}

/// Resolution state of an [`AwaitableCondition`].
#[derive(Clone, Copy, Debug, PartialEq, Eq, Structural)]
pub enum CondState {
    /// The hardware condition has not been observed yet.
    Pending,
    /// The hardware condition was observed once; the condition is settled.
    Resolved,
}

/// What one firing of the bound interrupt did.
#[derive(Clone, Copy, Debug, PartialEq, Eq, Structural)]
pub struct FireOutcome {
    /// True exactly when this firing moved the condition to `Resolved`.
    pub resolved_now: bool,
    /// True exactly when the caller must clear (acknowledge) the status flag.
    pub clear_flag: bool,
}

/// A single-resolution asynchronous value: the awaiting task suspends until
/// the bound hardware condition becomes true exactly once.
pub struct AwaitableCondition {
    pub state: CondState,
    /// The interrupt line whose firings poll this condition, owned
    /// exclusively for the condition's lifetime.
    pub signal: InterruptSignal,
}

/// The state after one firing with the given status-flag value: a pending
/// condition resolves when the flag is set; a resolved condition never
/// changes again.
pub open spec fn cond_step(state: CondState, flag_set: bool) -> CondState {
    match state {
        CondState::Pending => if flag_set {
            CondState::Resolved
        } else {
            CondState::Pending
        },
        CondState::Resolved => CondState::Resolved,
    }
}

/// The state after a whole sequence of firings.
pub open spec fn cond_run(state: CondState, flags: Seq<bool>) -> CondState
    decreases flags.len(),
{
    if flags.len() == 0 {
        state
    } else {
        cond_run(cond_step(state, flags[0]), flags.drop_first())
    }
}

/// How many firings of the sequence resolve the condition.
pub open spec fn resolution_count(state: CondState, flags: Seq<bool>) -> nat
    decreases flags.len(),
{
    if flags.len() == 0 {
        0
    } else {
        (if state is Pending && flags[0] {
            1nat
        } else {
            0nat
        }) + resolution_count(cond_step(state, flags[0]), flags.drop_first())
    }
}

impl AwaitableCondition {
    /// Binds a fresh, pending condition to an interrupt line, consuming the
    /// line's signal. Enabling the line, and polling the flag once for an
    /// already-true condition, is the caller's responsibility (see
    /// [`Self::attach_polled`]).
    pub fn attach(signal: InterruptSignal) -> (cond: Self)
        ensures
            cond.state is Pending,
            cond.signal == signal,
    {
        AwaitableCondition { state: CondState::Pending, signal }
    }

    /// Binds a condition and polls the status flag once, synchronously,
    /// before any firing: a condition that is already true at attachment
    /// resolves immediately instead of waiting for an interrupt that may
    /// never come (the flag being already set raises no new firing).
    pub fn attach_polled(signal: InterruptSignal, flag_set: bool) -> (r: (Self, FireOutcome))
        ensures
            r.0.state == cond_step(CondState::Pending, flag_set),
            r.0.signal == signal,
            r.1.resolved_now == flag_set,
            r.1.clear_flag == flag_set,
    {
        let mut cond = AwaitableCondition { state: CondState::Pending, signal };
        let out = cond.fire(flag_set);
        (cond, out)
    }

    /// One firing of the bound interrupt: the caller hands in the status
    /// flag it read, and clears the flag exactly when the outcome asks it to.
    pub fn fire(&mut self, flag_set: bool) -> (out: FireOutcome)
        ensures
            final(self).state == cond_step(old(self).state, flag_set),
            final(self).signal == old(self).signal,
            out.resolved_now == (old(self).state is Pending && flag_set),
            out.clear_flag == (old(self).state is Pending && flag_set),
    {
        match self.state {
            CondState::Pending => {
                if flag_set {
                    self.state = CondState::Resolved;
                    FireOutcome { resolved_now: true, clear_flag: true }
                } else {
                    FireOutcome { resolved_now: false, clear_flag: false }
                }
            },
            CondState::Resolved => FireOutcome { resolved_now: false, clear_flag: false },
        }
    }

    /// Whether the awaiting task may resume.
    pub fn is_resolved(&self) -> (r: bool)
        ensures
            r == (self.state is Resolved),
    {
        match self.state {
            CondState::Pending => false,
            CondState::Resolved => true,
        }
    }
}

/// A resolved condition stays resolved under every further firing sequence.
pub proof fn lemma_resolved_is_terminal(flags: Seq<bool>)
    ensures
        cond_run(CondState::Resolved, flags) == CondState::Resolved,
    decreases flags.len(),
{
    if flags.len() > 0 {
        lemma_resolved_is_terminal(flags.drop_first());
    }
}

/// A condition resolves at most once over any firing sequence, and a
/// condition that is already resolved never resolves again, however many
/// times the interrupt fires.
pub proof fn lemma_resolves_at_most_once(state: CondState, flags: Seq<bool>)
    ensures
        resolution_count(state, flags) <= 1,
        state is Resolved ==> resolution_count(state, flags) == 0,
    decreases flags.len(),
{
    if flags.len() > 0 {
        lemma_resolves_at_most_once(cond_step(state, flags[0]), flags.drop_first());
    }
}

} // verus!
