use d1_playground::interrupt::{
    service_claim, timer_of_source, TrapAccess, UnexpectedClaim, TIMER0_SOURCE, TIMER1_SOURCE,
};
use d1_playground::timer::TimerUnit;

fn run(accesses: &[TrapAccess], pending: (bool, bool)) -> ((bool, bool), Vec<u16>) {
    let mut pending = pending;
    let mut completed = Vec::new();
    for access in accesses {
        match *access {
            TrapAccess::ClearPending(TimerUnit::Timer0) => pending.0 = false,
            TrapAccess::ClearPending(TimerUnit::Timer1) => pending.1 = false,
            TrapAccess::AwaitClear(TimerUnit::Timer0) => assert!(!pending.0),
            TrapAccess::AwaitClear(TimerUnit::Timer1) => assert!(!pending.1),
            TrapAccess::Complete(claim) => completed.push(claim),
        }
    }
    (pending, completed)
}

#[test]
fn source_numbers() {
    assert_eq!(TIMER0_SOURCE, 75);
    assert_eq!(TIMER1_SOURCE, 76);
    assert_eq!(timer_of_source(75), Some(TimerUnit::Timer0));
    assert_eq!(timer_of_source(76), Some(TimerUnit::Timer1));
    assert_eq!(timer_of_source(0), None);
    assert_eq!(timer_of_source(74), None);
    assert_eq!(timer_of_source(77), None);
    assert_eq!(timer_of_source(99), None);
}

#[test]
fn claim_of_timer0_is_served_and_completed() {
    assert_eq!(
        service_claim(75),
        Ok([
            TrapAccess::ClearPending(TimerUnit::Timer0),
            TrapAccess::AwaitClear(TimerUnit::Timer0),
            TrapAccess::Complete(75),
        ])
    );
}

#[test]
fn claim_of_timer1_is_served_and_completed() {
    assert_eq!(
        service_claim(76),
        Ok([
            TrapAccess::ClearPending(TimerUnit::Timer1),
            TrapAccess::AwaitClear(TimerUnit::Timer1),
            TrapAccess::Complete(76),
        ])
    );
}

#[test]
fn claim_of_timer0_leaves_timer1_pending() {
    let accesses = service_claim(75).unwrap();
    assert_eq!(run(&accesses, (true, true)), ((false, true), vec![75]));
    assert_eq!(run(&accesses, (true, false)), ((false, false), vec![75]));
}

#[test]
fn claim_of_timer1_leaves_timer0_pending() {
    let accesses = service_claim(76).unwrap();
    assert_eq!(run(&accesses, (true, true)), ((true, false), vec![76]));
    assert_eq!(run(&accesses, (false, true)), ((false, false), vec![76]));
}

#[test]
fn unregistered_source_is_fatal() {
    for claim in [0u16, 1, 74, 77, 99, 1023, u16::MAX] {
        assert_eq!(service_claim(claim), Err(UnexpectedClaim { claim }));
    }
}
