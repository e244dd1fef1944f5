use async_stm32f1xx::waker::{IsrStep, Step, WakerSlots};

#[test]
fn installation_steps_come_in_order() {
    let mut steps = vec![Step::first()];
    while let Some(next) = steps[steps.len() - 1].next() {
        steps.push(next);
    }
    assert_eq!(
        steps,
        vec![
            Step::Mask,
            Step::AcquireFence,
            Step::Store,
            Step::Unpend,
            Step::ReleaseFence,
            Step::Unmask,
        ]
    );
}

#[test]
fn installation_begins_with_the_mask_and_ends_with_the_unmask() {
    assert_eq!(Step::first(), Step::Mask);
    assert_eq!(Step::ReleaseFence.next(), Some(Step::Unmask));
    assert_eq!(Step::Unmask.next(), None);
}

#[test]
fn the_store_stands_between_the_fences() {
    assert_eq!(Step::AcquireFence.next(), Some(Step::Store));
    assert_eq!(Step::Store.next(), Some(Step::Unpend));
    assert_eq!(Step::Unpend.next(), Some(Step::ReleaseFence));
}

#[test]
fn slots_start_empty() {
    let slots: WakerSlots<u32> = WakerSlots::new(5);
    assert_eq!(slots.len(), 5);
    for index in 0..5 {
        assert_eq!(slots.get(index), None);
    }
}

#[test]
fn a_vector_without_slots_has_none() {
    let slots: WakerSlots<u32> = WakerSlots::new(0);
    assert_eq!(slots.len(), 0);
    assert_eq!(slots.get(0), None);
    assert_eq!(slots.dispatch_step(0), IsrStep::Mask);
}

#[test]
fn store_fills_one_slot_only() {
    let mut slots: WakerSlots<u32> = WakerSlots::new(3);
    slots.store(1, 42);
    assert_eq!(slots.get(0), None);
    assert_eq!(slots.get(1), Some(&42));
    assert_eq!(slots.get(2), None);
}

#[test]
fn store_overwrites_what_was_there() {
    let mut slots: WakerSlots<u32> = WakerSlots::new(1);
    slots.store(0, 1);
    slots.store(0, 2);
    assert_eq!(slots.get(0), Some(&2));
}

#[test]
fn get_beyond_the_slots_is_none() {
    let mut slots: WakerSlots<u32> = WakerSlots::new(2);
    slots.store(1, 9);
    assert_eq!(slots.get(2), None);
    assert_eq!(slots.get(usize::MAX), None);
}

#[test]
fn dispatch_masks_when_no_slot_is_occupied() {
    let slots: WakerSlots<u32> = WakerSlots::new(6);
    assert_eq!(slots.dispatch_step(0), IsrStep::Mask);
}

#[test]
fn dispatch_resumes_the_occupied_slots_in_rising_order_then_masks() {
    let mut slots: WakerSlots<u32> = WakerSlots::new(5);
    slots.store(3, 30);
    slots.store(1, 10);
    assert_eq!(slots.dispatch_step(0), IsrStep::Resume(1));
    assert_eq!(slots.dispatch_step(2), IsrStep::Resume(3));
    assert_eq!(slots.dispatch_step(4), IsrStep::Mask);
}

#[test]
fn dispatch_from_an_occupied_slot_resumes_that_slot() {
    let mut slots: WakerSlots<u32> = WakerSlots::new(2);
    slots.store(0, 7);
    slots.store(1, 8);
    assert_eq!(slots.dispatch_step(0), IsrStep::Resume(0));
    assert_eq!(slots.dispatch_step(1), IsrStep::Resume(1));
    assert_eq!(slots.dispatch_step(2), IsrStep::Mask);
}

#[test]
fn dispatch_beyond_the_slots_masks() {
    let mut slots: WakerSlots<u32> = WakerSlots::new(1);
    slots.store(0, 7);
    assert_eq!(slots.dispatch_step(1), IsrStep::Mask);
    assert_eq!(slots.dispatch_step(usize::MAX), IsrStep::Mask);
}

#[test]
fn dispatch_leaves_the_continuation_in_its_slot() {
    let mut slots: WakerSlots<u32> = WakerSlots::new(1);
    slots.store(0, 7);
    assert_eq!(slots.dispatch_step(0), IsrStep::Resume(0));
    assert_eq!(slots.get(0), Some(&7));
    assert_eq!(slots.dispatch_step(0), IsrStep::Resume(0));
}
