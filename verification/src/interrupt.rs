//! What the handler of external interrupts does with a claim.
//!
//! The handler claims the pending source from the interrupt controller,
//! serves it, and completes the claim by writing the same number back. It
//! knows two sources, the two timers. To serve one is to clear its pending
//! flag and to wait until the flag reads clear.

use vstd::prelude::*;
use crate::timer::PendingFlags;
use crate::timer::TimerUnit;

verus! {

/// The source number of the first timer at the interrupt controller.
pub const TIMER0_SOURCE: u16 = 75;

/// The source number of the second timer at the interrupt controller.
pub const TIMER1_SOURCE: u16 = 76;

/// One step of the handler, for the caller to carry out.
#[derive(Clone, Copy, PartialEq, Eq, Debug)]
pub enum TrapAccess {
    /// Clear the pending flag of this timer, and of no other.
    ClearPending(TimerUnit),
    /// Read the pending flag of this timer until it is clear.
    AwaitClear(TimerUnit),
    /// Write this number to the completion register.
    Complete(u16),
}

/// A claim that names neither timer. The handler stops on it.
#[derive(Clone, Copy, PartialEq, Eq, Debug)]
pub struct UnexpectedClaim {
    pub claim: u16,
}

/// What the handler can change: the pending flags of the timers, and the
/// numbers written to the completion register so far.
pub struct TrapState {
    pub pending: PendingFlags,
    pub completed: Seq<u16>,
}

impl TrapState {
    /// The state once `access` has been carried out.
    pub open spec fn after(self, access: TrapAccess) -> TrapState {
        match access {
            TrapAccess::ClearPending(TimerUnit::Timer0) => TrapState {
                pending: PendingFlags { timer0: false, ..self.pending },
                ..self
            },
            TrapAccess::ClearPending(TimerUnit::Timer1) => TrapState {
                pending: PendingFlags { timer1: false, ..self.pending },
                ..self
            },
            TrapAccess::AwaitClear(_) => self,
            TrapAccess::Complete(claim) => TrapState {
                completed: self.completed.push(claim),
                ..self
            },
        }
    }

    /// The state once the handler has run on `claim`: the three steps of
    /// [`service_accesses`] for a timer, nothing for any other claim.
    pub open spec fn after_trap(self, claim: u16) -> TrapState {
        match spec_timer_of_source(claim) {
            Some(unit) => self.after(TrapAccess::ClearPending(unit)).after(
                TrapAccess::AwaitClear(unit),
            ).after(TrapAccess::Complete(claim)),
            None => self,
        }
    }
}

/// The timer that a source number stands for.
pub open spec fn spec_timer_of_source(source: u16) -> Option<TimerUnit> {
    if source == TIMER0_SOURCE {
        Some(TimerUnit::Timer0)
    } else if source == TIMER1_SOURCE {
        Some(TimerUnit::Timer1)
    } else {
        None
    }
}

/// The steps that serve `unit` and complete `claim`, in their order.
pub open spec fn service_accesses(unit: TimerUnit, claim: u16) -> Seq<TrapAccess> {
    seq![TrapAccess::ClearPending(unit), TrapAccess::AwaitClear(unit), TrapAccess::Complete(claim)]
}

/// The timer that a source number stands for.
#[verifier::when_used_as_spec(spec_timer_of_source)]
pub fn timer_of_source(source: u16) -> (unit: Option<TimerUnit>)
    ensures
        unit == spec_timer_of_source(source),
{
    if source == TIMER0_SOURCE {
        Some(TimerUnit::Timer0)
    } else if source == TIMER1_SOURCE {
        Some(TimerUnit::Timer1)
    } else {
        None
    }
}

/// The steps of the handler for the number that it read from the claim
/// register. A claim that names no timer is an error, and there is no step
/// to take for it: nothing is cleared and nothing is completed.
pub fn service_claim(claim: u16) -> (r: Result<[TrapAccess; 3], UnexpectedClaim>)
    ensures
        r is Ok <==> claim == TIMER0_SOURCE || claim == TIMER1_SOURCE,
        r matches Ok(accesses) ==> timer_of_source(claim) matches Some(unit) && accesses@
            == service_accesses(unit, claim),
        r matches Err(e) ==> e.claim == claim,
{
    match timer_of_source(claim) {
        Some(unit) => {
            let accesses = [
                TrapAccess::ClearPending(unit),
                TrapAccess::AwaitClear(unit),
                TrapAccess::Complete(claim),
            ];
            assert(accesses@ =~= service_accesses(unit, claim));
            Ok(accesses)
        },
        None => Err(UnexpectedClaim { claim }),
    }
}

/// A claim of the first timer clears that timer's pending flag and leaves
/// the second timer's as it was; a claim of the second timer does the same
/// the other way round. Either is completed with its own number, once.
pub proof fn lemma_claim_clears_one_flag(state: TrapState, claim: u16)
    requires
        claim == TIMER0_SOURCE || claim == TIMER1_SOURCE,
    ensures
        claim == TIMER0_SOURCE ==> !state.after_trap(claim).pending.timer0 && state.after_trap(
            claim,
        ).pending.timer1 == state.pending.timer1,
        claim == TIMER1_SOURCE ==> !state.after_trap(claim).pending.timer1 && state.after_trap(
            claim,
        ).pending.timer0 == state.pending.timer0,
        state.after_trap(claim).completed == state.completed.push(claim),
{
}

/// A claim that names no timer changes no flag and completes nothing.
pub proof fn lemma_unexpected_claim_changes_nothing(state: TrapState, claim: u16)
    requires
        claim != TIMER0_SOURCE,
        claim != TIMER1_SOURCE,
    ensures
        state.after_trap(claim) == state,
{
}

} // verus!
