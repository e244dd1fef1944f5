use async_stm32f1xx::interrupt::{Interrupt, Slot};

#[test]
fn a_vector_of_one_source_has_one_slot() {
    for interrupt in [
        Interrupt::Tim2,
        Interrupt::Tim3,
        Interrupt::Dma1Channel2,
        Interrupt::Dma1Channel3,
        Interrupt::Dma1Channel4,
        Interrupt::Dma1Channel5,
        Interrupt::Dma1Channel6,
        Interrupt::Dma1Channel7,
    ] {
        assert_eq!(interrupt.slots(), 1);
    }
}

#[test]
fn the_shared_vectors_have_a_slot_for_each_line() {
    assert_eq!(Interrupt::Exti9_5.slots(), 5);
    assert_eq!(Interrupt::Exti15_10.slots(), 6);
}

#[test]
fn slots_compare_by_vector_and_index() {
    let slot = Slot { interrupt: Interrupt::Exti9_5, index: 2 };
    assert_eq!(slot, Slot { interrupt: Interrupt::Exti9_5, index: 2 });
    assert_ne!(slot, Slot { interrupt: Interrupt::Exti9_5, index: 3 });
    assert_ne!(slot, Slot { interrupt: Interrupt::Exti15_10, index: 2 });
}
