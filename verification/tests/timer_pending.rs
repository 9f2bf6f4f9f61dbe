use d1_playground::timer::{PendingFlags, Timer, TimerAccess, TimerUnit, Timers};

#[test]
fn pending_flags_by_timer() {
    let flags = PendingFlags { timer0: true, timer1: false };
    assert!(flags.of(TimerUnit::Timer0));
    assert!(!flags.of(TimerUnit::Timer1));
}

#[test]
fn a_timer_clears_its_own_interrupt_only() {
    let Timers { mut timer0, mut timer1 } =
        Timers::new(d1_pac::Peripherals::take().unwrap().TIMER);
    let none = PendingFlags { timer0: false, timer1: false };
    let first = PendingFlags { timer0: true, timer1: false };
    let second = PendingFlags { timer0: false, timer1: true };
    let both = PendingFlags { timer0: true, timer1: true };
    let clear0 = Some(TimerAccess::ClearPending(TimerUnit::Timer0));
    let clear1 = Some(TimerAccess::ClearPending(TimerUnit::Timer1));
    assert_eq!(timer0.get_and_clear_interrupt(none), (false, None));
    assert_eq!(timer0.get_and_clear_interrupt(first), (true, clear0));
    assert_eq!(timer0.get_and_clear_interrupt(second), (false, None));
    assert_eq!(timer0.get_and_clear_interrupt(both), (true, clear0));
    assert_eq!(timer1.get_and_clear_interrupt(none), (false, None));
    assert_eq!(timer1.get_and_clear_interrupt(first), (false, None));
    assert_eq!(timer1.get_and_clear_interrupt(second), (true, clear1));
    assert_eq!(timer1.get_and_clear_interrupt(both), (true, clear1));
}
