use async_stm32f1xx::exti::{waker_slot, AsyncPin};
use async_stm32f1xx::interrupt::{Interrupt, Slot};
use async_stm32f1xx::poll::Poll;
use async_stm32f1xx::vector::Vector;

#[test]
fn lines_5_to_9_share_a_vector() {
    for line in 5u8..=9 {
        assert_eq!(
            waker_slot(line),
            Some(Slot { interrupt: Interrupt::Exti9_5, index: (line - 5) as usize })
        );
    }
    assert_eq!(waker_slot(5), Some(Slot { interrupt: Interrupt::Exti9_5, index: 0 }));
    assert_eq!(waker_slot(9), Some(Slot { interrupt: Interrupt::Exti9_5, index: 4 }));
}

#[test]
fn lines_10_to_15_share_a_vector() {
    for line in 10u8..=15 {
        assert_eq!(
            waker_slot(line),
            Some(Slot { interrupt: Interrupt::Exti15_10, index: (line - 10) as usize })
        );
    }
    assert_eq!(waker_slot(10), Some(Slot { interrupt: Interrupt::Exti15_10, index: 0 }));
    assert_eq!(waker_slot(15), Some(Slot { interrupt: Interrupt::Exti15_10, index: 5 }));
}

#[test]
fn other_lines_have_no_slot() {
    for line in 0u8..5 {
        assert_eq!(waker_slot(line), None);
    }
    assert_eq!(waker_slot(16), None);
    assert_eq!(waker_slot(255), None);
}

#[test]
fn every_slot_of_a_line_exists_on_its_vector() {
    for line in 0u8..=255 {
        if let Some(slot) = waker_slot(line) {
            assert!(slot.index < slot.interrupt.slots());
        }
    }
}

#[test]
fn async_pin_gives_access_to_its_pin() {
    let mut pin = AsyncPin::new(7u8);
    assert_eq!(*pin.as_ref(), 7);
    *pin.as_mut() = 8;
    assert_eq!(*pin.as_ref(), 8);
}

#[test]
fn a_trigger_pends_while_the_pending_bit_is_clear() {
    let mut pin = AsyncPin::new(7u8);
    let mut trigger = pin.trigger();
    assert!(!trigger.completion.is_terminated());
    assert_eq!(trigger.poll(false), Poll::Pending);
    assert!(!trigger.completion.is_terminated());
}

#[test]
fn a_trigger_resolves_when_the_pending_bit_is_set() {
    let mut pin = AsyncPin::new(7u8);
    let mut trigger = pin.trigger();
    assert_eq!(trigger.poll(false), Poll::Pending);
    assert_eq!(trigger.poll(true), Poll::Ready(()));
    // From here on a poll is a contract violation: the caller sees it here.
    assert!(trigger.completion.is_terminated());
}

#[test]
fn a_trigger_holds_the_pin_and_hands_it_back() {
    let mut pin = AsyncPin::new(7u8);
    {
        let mut trigger = pin.trigger();
        assert_eq!(*trigger.as_ref(), 7);
        *trigger.as_mut() = 9;
        assert_eq!(trigger.poll(true), Poll::Ready(()));
    }
    assert_eq!(*pin.as_ref(), 9);
}

#[test]
fn a_spurious_wakeup_on_a_shared_vector_only_costs_a_recheck() {
    let here = waker_slot(7).unwrap();
    let there = waker_slot(9).unwrap();
    assert_eq!(here.interrupt, there.interrupt);
    let mut vector: Vector<u32> = Vector::new(here.interrupt.slots());
    let mut pin = AsyncPin::new(0u8);
    let mut trigger = pin.trigger();

    // Both lines wait; the edge comes on the other line.
    assert_eq!(trigger.poll(false), Poll::Pending);
    vector.install(here.index, 1);
    vector.install(there.index, 2);
    vector.raise();
    assert_eq!(vector.fire(), Some(vec![here.index, there.index]));

    // This line's pending bit is still clear: the trigger pends again.
    assert_eq!(trigger.poll(false), Poll::Pending);
    assert!(!trigger.completion.is_terminated());
}
