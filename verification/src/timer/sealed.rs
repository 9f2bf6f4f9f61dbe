//! What tells the two timers apart. Only the timers of this crate have it.

use vstd::prelude::*;
use crate::timer::TimerUnit;

verus! {

pub trait TimerSealed {
    /// The registers that the accesses of this timer go to.
    spec fn spec_unit() -> TimerUnit;

    /// The registers that the accesses of this timer go to.
    fn unit(&self) -> (unit: TimerUnit)
        ensures
            unit == Self::spec_unit(),
    ;
}

} // verus!
