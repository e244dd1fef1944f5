use async_stm32f1xx::interrupt::{Interrupt, Slot};
use async_stm32f1xx::poll::Poll;
use async_stm32f1xx::timer::{AsyncTimer, TimerId, Wait};
use async_stm32f1xx::vector::Vector;

#[test]
fn timers_park_in_the_slot_of_their_own_vector() {
    assert_eq!(TimerId::Tim2.waker_slot(), Slot { interrupt: Interrupt::Tim2, index: 0 });
    assert_eq!(TimerId::Tim3.waker_slot(), Slot { interrupt: Interrupt::Tim3, index: 0 });
}

#[test]
fn async_timer_gives_access_to_its_timer() {
    let mut timer = AsyncTimer::new(5u32);
    assert_eq!(*timer.as_ref(), 5);
    *timer.as_mut() = 6;
    assert_eq!(*timer.as_ref(), 6);
    assert_eq!(timer.release(), 6);
}

#[test]
fn a_new_delay_is_armed() {
    let mut timer = AsyncTimer::new(0u32);
    let delay = timer.delay_for();
    assert!(!delay.completion.is_terminated());
}

#[test]
fn a_delay_pends_while_the_countdown_runs() {
    let mut timer = AsyncTimer::new(0u32);
    let mut delay = timer.delay_for();
    assert_eq!(delay.poll(Wait::NotYet), Poll::Pending);
    assert_eq!(delay.poll(Wait::NotYet), Poll::Pending);
    assert!(!delay.completion.is_terminated());
}

#[test]
fn a_delay_resolves_when_the_countdown_has_elapsed() {
    let mut timer = AsyncTimer::new(0u32);
    let mut delay = timer.delay_for();
    assert_eq!(delay.poll(Wait::NotYet), Poll::Pending);
    assert_eq!(delay.poll(Wait::Done), Poll::Ready(()));
    // From here on a poll is a contract violation: the caller sees it here.
    assert!(delay.completion.is_terminated());
}

#[test]
fn a_delay_holds_the_timer_and_hands_it_back() {
    let mut timer = AsyncTimer::new(1u32);
    {
        let mut delay = timer.delay_for();
        assert_eq!(*delay.as_ref(), 1);
        *delay.as_mut() += 1;
        assert_eq!(delay.poll(Wait::Done), Poll::Ready(()));
        assert_eq!(*delay.as_ref(), 2);
    }
    assert_eq!(timer.release(), 2);
}

#[test]
fn each_delay_on_a_timer_is_armed_anew() {
    let mut timer = AsyncTimer::new(0u32);
    for _ in 0..3 {
        let mut delay = timer.delay_for();
        assert!(!delay.completion.is_terminated());
        assert_eq!(delay.poll(Wait::Done), Poll::Ready(()));
        assert!(delay.completion.is_terminated());
    }
}

#[test]
fn a_delay_resolves_once_and_not_before_the_countdown_has_elapsed() {
    let ticks: u32 = 5;
    let slot = TimerId::Tim2.waker_slot();
    let mut vector: Vector<u32> = Vector::new(slot.interrupt.slots());
    // The timer is its countdown: it has elapsed when it has reached 0.
    let mut timer = AsyncTimer::new(ticks);
    let mut delay = timer.delay_for();

    let mut runnable = true;
    let mut resumes = 0;
    let mut resolved_at = Vec::new();
    for tick in 0..ticks + 4 {
        if *delay.as_ref() > 0 {
            *delay.as_mut() -= 1;
            if *delay.as_ref() == 0 {
                vector.raise();
            }
        }
        if let Some(resumed) = vector.fire() {
            assert_eq!(resumed, vec![slot.index]);
            resumes += 1;
            runnable = true;
        }
        if runnable && !delay.completion.is_terminated() {
            runnable = false;
            let outcome = if vector.is_requested() {
                vector.acknowledge();
                Wait::Done
            } else {
                Wait::NotYet
            };
            match delay.poll(outcome) {
                Poll::Ready(()) => resolved_at.push(tick + 1),
                Poll::Pending => vector.install(slot.index, 1),
            }
        }
    }
    assert_eq!(resumes, 1);
    assert_eq!(resolved_at, vec![ticks]);
    assert!(delay.completion.is_terminated());
}
