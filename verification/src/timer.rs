//! The two countdown timers of the timer block.
//!
//! A timer here touches no register. Each operation names the accesses that
//! make it up, and [`TimerBlockState::after`] says what an access does to the
//! timers as software sees them.

use vstd::prelude::*;
use d1_pac::TIMER;
pub use d1_pac::timer::tmr_ctrl::TMR_CLK_PRES_A as TimerPrescaler;
pub use d1_pac::timer::tmr_ctrl::TMR_CLK_SRC_A as TimerSource;
pub use d1_pac::timer::tmr_ctrl::TMR_MODE_A as TimerMode;

mod sealed;

verus! {

/// `d1_pac::TIMER`, the owner of the timer block's registers. There is one
/// in a program; the library passes it on and reads nothing from it.
#[verifier::external_type_specification]
#[verifier::external_body]
pub struct ExTimerBlock(d1_pac::TIMER);

/// `d1_pac::timer::tmr_ctrl::TMR_CLK_SRC_A`, the clock that a timer counts.
#[verifier::external_type_specification]
#[verifier::external_body]
pub struct ExTimerSource(d1_pac::timer::tmr_ctrl::TMR_CLK_SRC_A);

/// `d1_pac::timer::tmr_ctrl::TMR_CLK_PRES_A`, the divider of that clock.
#[verifier::external_type_specification]
#[verifier::external_body]
pub struct ExTimerPrescaler(d1_pac::timer::tmr_ctrl::TMR_CLK_PRES_A);

/// `d1_pac::timer::tmr_ctrl::TMR_MODE_A`: counting down once, or again and
/// again.
#[verifier::external_type_specification]
#[verifier::external_body]
pub struct ExTimerMode(d1_pac::timer::tmr_ctrl::TMR_MODE_A);

/// One of the two timers, as the name of its registers.
#[derive(Clone, Copy, PartialEq, Eq, Debug)]
pub enum TimerUnit {
    Timer0,
    Timer1,
}

/// One access to the registers of a timer, for the caller to carry out.
#[derive(Clone, Copy, PartialEq, Eq, Debug)]
pub enum TimerAccess {
    /// Change the clock source in the control register, and nothing else in
    /// it.
    SelectSource(TimerUnit, TimerSource),
    /// Change the prescaler in the control register, and nothing else in it.
    SelectPrescaler(TimerUnit, TimerPrescaler),
    /// Change the counting mode in the control register, and nothing else in
    /// it.
    SelectMode(TimerUnit, TimerMode),
    /// Write the interval register.
    WriteInterval(TimerUnit, u32),
    /// Ask in one write of the control register for the interval to be
    /// loaded and for counting to start.
    ReloadAndEnable(TimerUnit),
    /// Read the current value register.
    ReadValue(TimerUnit),
    /// Clear the pending flag of this timer, and of no other.
    ClearPending(TimerUnit),
}

impl TimerAccess {
    /// The timer whose registers the access goes to.
    pub open spec fn unit(self) -> TimerUnit {
        match self {
            TimerAccess::SelectSource(unit, _) => unit,
            TimerAccess::SelectPrescaler(unit, _) => unit,
            TimerAccess::SelectMode(unit, _) => unit,
            TimerAccess::WriteInterval(unit, _) => unit,
            TimerAccess::ReloadAndEnable(unit) => unit,
            TimerAccess::ReadValue(unit) => unit,
            TimerAccess::ClearPending(unit) => unit,
        }
    }
}

/// The pending flags of both timers, as one read of the status register
/// gives them.
#[derive(Clone, Copy, PartialEq, Eq, Debug)]
pub struct PendingFlags {
    pub timer0: bool,
    pub timer1: bool,
}

impl PendingFlags {
    /// The flag of one timer.
    pub open spec fn spec_of(self, unit: TimerUnit) -> bool {
        match unit {
            TimerUnit::Timer0 => self.timer0,
            TimerUnit::Timer1 => self.timer1,
        }
    }

    /// The flag of one timer.
    #[verifier::when_used_as_spec(spec_of)]
    pub fn of(self, unit: TimerUnit) -> (pending: bool)
        ensures
            pending == self.spec_of(unit),
    {
        match unit {
            TimerUnit::Timer0 => self.timer0,
            TimerUnit::Timer1 => self.timer1,
        }
    }
}

/// One timer as software sees it.
pub struct TimerState {
    pub source: TimerSource,
    pub prescaler: TimerPrescaler,
    pub mode: TimerMode,
    pub interval: u32,
    pub value: u32,
    pub enabled: bool,
    pub pending: bool,
}

/// Both timers as software sees them.
pub struct TimerBlockState {
    pub timer0: TimerState,
    pub timer1: TimerState,
}

impl TimerState {
    /// The timer once `access` has been carried out on it, before the next
    /// tick of its clock.
    pub open spec fn after(self, access: TimerAccess) -> TimerState {
        match access {
            TimerAccess::SelectSource(_, source) => TimerState { source: source, ..self },
            TimerAccess::SelectPrescaler(_, prescaler) => TimerState {
                prescaler: prescaler,
                ..self
            },
            TimerAccess::SelectMode(_, mode) => TimerState { mode: mode, ..self },
            TimerAccess::WriteInterval(_, interval) => TimerState { interval: interval, ..self },
            TimerAccess::ReloadAndEnable(_) => TimerState {
                value: self.interval,
                enabled: true,
                ..self
            },
            TimerAccess::ReadValue(_) => self,
            TimerAccess::ClearPending(_) => TimerState { pending: false, ..self },
        }
    }
}

impl TimerBlockState {
    /// One of the two timers.
    pub open spec fn of(self, unit: TimerUnit) -> TimerState {
        match unit {
            TimerUnit::Timer0 => self.timer0,
            TimerUnit::Timer1 => self.timer1,
        }
    }

    /// The pending flags that a read of the status register gives.
    pub open spec fn pending(self) -> PendingFlags {
        PendingFlags { timer0: self.timer0.pending, timer1: self.timer1.pending }
    }

    /// The timers once `access` has been carried out: the timer that it
    /// names changes, the other does not.
    pub open spec fn after(self, access: TimerAccess) -> TimerBlockState {
        match access.unit() {
            TimerUnit::Timer0 => TimerBlockState { timer0: self.timer0.after(access), ..self },
            TimerUnit::Timer1 => TimerBlockState { timer1: self.timer1.after(access), ..self },
        }
    }

    /// The timers once `accesses` have been carried out one after the other.
    pub open spec fn after_all(self, accesses: Seq<TimerAccess>) -> TimerBlockState
        decreases accesses.len(),
    {
        if accesses.len() == 0 {
            self
        } else {
            self.after(accesses[0]).after_all(accesses.skip(1))
        }
    }

    /// What a read of the current value register of `unit` returns.
    pub open spec fn value_read(self, unit: TimerUnit) -> u32 {
        self.of(unit).value
    }
}

/// The accesses that start a countdown of `interval` ticks on `unit`: the
/// interval first, the request to load it and count after it.
pub open spec fn start_accesses(unit: TimerUnit, interval: u32) -> Seq<TimerAccess> {
    seq![TimerAccess::WriteInterval(unit, interval), TimerAccess::ReloadAndEnable(unit)]
}

/// The first timer of the block.
pub struct Timer0 {
    _x: (),
}

/// The second timer of the block.
pub struct Timer1 {
    _x: (),
}

/// The two timers, each to be handed to the code that drives it.
pub struct Timers {
    pub timer0: Timer0,
    pub timer1: Timer1,
}

impl sealed::TimerSealed for Timer0 {
    open spec fn spec_unit() -> TimerUnit {
        TimerUnit::Timer0
    }

    fn unit(&self) -> TimerUnit {
        TimerUnit::Timer0
    }
}

impl sealed::TimerSealed for Timer1 {
    open spec fn spec_unit() -> TimerUnit {
        TimerUnit::Timer1
    }

    fn unit(&self) -> TimerUnit {
        TimerUnit::Timer1
    }
}

/// What either timer can do. The two differ in the registers that their
/// accesses name and in nothing else.
pub trait Timer: sealed::TimerSealed {
    /// Selects the clock that the timer counts.
    fn set_source(&mut self, variant: TimerSource) -> (access: TimerAccess)
        ensures
            access == TimerAccess::SelectSource(Self::spec_unit(), variant),
    {
        TimerAccess::SelectSource(self.unit(), variant)
    }

    /// Selects the divider of that clock.
    fn set_prescaler(&mut self, variant: TimerPrescaler) -> (access: TimerAccess)
        ensures
            access == TimerAccess::SelectPrescaler(Self::spec_unit(), variant),
    {
        TimerAccess::SelectPrescaler(self.unit(), variant)
    }

    /// Selects whether the timer counts down once or again and again.
    fn set_mode(&mut self, variant: TimerMode) -> (access: TimerAccess)
        ensures
            access == TimerAccess::SelectMode(Self::spec_unit(), variant),
    {
        TimerAccess::SelectMode(self.unit(), variant)
    }

    /// Starts a countdown of `interval` ticks. The interval is written
    /// before the timer is asked to load it, so that it never counts from an
    /// interval of an earlier start.
    fn start_counter(&mut self, interval: u32) -> (accesses: [TimerAccess; 2])
        ensures
            accesses@ == start_accesses(Self::spec_unit(), interval),
    {
        let unit = self.unit();
        let accesses = [
            TimerAccess::WriteInterval(unit, interval),
            TimerAccess::ReloadAndEnable(unit),
        ];
        assert(accesses@ =~= start_accesses(Self::spec_unit(), interval));
        accesses
    }

    /// The read that gives the ticks that are left.
    fn current_value(&self) -> (access: TimerAccess)
        ensures
            access == TimerAccess::ReadValue(Self::spec_unit()),
    {
        TimerAccess::ReadValue(self.unit())
    }

    /// Given the pending flags as they were just read, says whether this
    /// timer's interrupt was pending, and if so names the access that clears
    /// it.
    fn get_and_clear_interrupt(&mut self, flags: PendingFlags) -> (r: (bool, Option<TimerAccess>))
        ensures
            r.0 == flags.of(Self::spec_unit()),
            r.0 ==> r.1 == Some(TimerAccess::ClearPending(Self::spec_unit())),
            !r.0 ==> r.1 is None,
    {
        let unit = self.unit();
        if flags.of(unit) {
            (true, Some(TimerAccess::ClearPending(unit)))
        } else {
            (false, None)
        }
    }
}

impl Timer for Timer0 {

}

impl Timer for Timer1 {

}

impl Timers {
    /// Takes the timer block from its owner and gives out its two timers.
    pub fn new(_periph: TIMER) -> (timers: Timers) {
        Timers { timer0: Timer0 { _x: () }, timer1: Timer1 { _x: () } }
    }
}

/// Right after a start, before the timer's clock ticks, a read of the
/// current value gives the interval of that start, whatever the timer held
/// before; and the timer counts.
pub proof fn lemma_value_after_start(state: TimerBlockState, unit: TimerUnit, interval: u32)
    ensures
        state.after_all(start_accesses(unit, interval)).value_read(unit) == interval,
        state.after_all(start_accesses(unit, interval)).after(
            TimerAccess::ReadValue(unit),
        ).value_read(unit) == interval,
        state.after_all(start_accesses(unit, interval)).of(unit).enabled,
        state.after_all(start_accesses(unit, interval)).of(unit).interval == interval,
{
    lemma_after_two(
        state,
        TimerAccess::WriteInterval(unit, interval),
        TimerAccess::ReloadAndEnable(unit),
    );
}

/// Two accesses in a row.
proof fn lemma_after_two(state: TimerBlockState, first: TimerAccess, second: TimerAccess)
    ensures
        state.after_all(seq![first, second]) == state.after(first).after(second),
{
    let both = seq![first, second];
    reveal_with_fuel(TimerBlockState::after_all, 3);
    assert(both.skip(1) =~= seq![second]);
    assert(both.skip(1).skip(1) =~= Seq::<TimerAccess>::empty());
    assert(both[0] == first);
    assert(both.skip(1)[0] == second);
}

/// An access changes nothing of the timer that it does not name: the two
/// timers share no state.
pub proof fn lemma_other_timer_untouched(state: TimerBlockState, access: TimerAccess)
    ensures
        access.unit() == TimerUnit::Timer0 ==> state.after(access).timer1 == state.timer1,
        access.unit() == TimerUnit::Timer1 ==> state.after(access).timer0 == state.timer0,
{
}

/// Clearing the pending flag of one timer leaves it clear in the next read
/// of the status register, and leaves the flag of the other timer as it was.
pub proof fn lemma_clear_pending(state: TimerBlockState, unit: TimerUnit)
    ensures
        !state.after(TimerAccess::ClearPending(unit)).pending().of(unit),
        unit == TimerUnit::Timer0 ==> state.after(
            TimerAccess::ClearPending(unit),
        ).pending().timer1 == state.pending().timer1,
        unit == TimerUnit::Timer1 ==> state.after(
            TimerAccess::ClearPending(unit),
        ).pending().timer0 == state.pending().timer0,
{
}

/// The two timers behave alike: what an access does to the timer that it
/// names does not depend on which of the two that is.
pub proof fn lemma_timers_alike(state: TimerBlockState, access: TimerAccess)
    ensures
        state.after(access).of(access.unit()) == state.of(access.unit()).after(access),
{
}

} // verus!
