use async_stm32f1xx::poll::{Completion, Poll};
use async_stm32f1xx::vector::Vector;

#[test]
fn a_vector_is_masked_and_idle_after_reset() {
    let vector: Vector<u32> = Vector::new(1);
    assert!(vector.is_masked());
    assert!(!vector.is_pending());
    assert!(!vector.is_requested());
    assert_eq!(vector.slots().len(), 1);
    assert_eq!(vector.slots().get(0), None);
}

#[test]
fn install_stores_the_continuation_and_unmasks() {
    let mut vector: Vector<u32> = Vector::new(1);
    vector.install(0, 7);
    assert!(!vector.is_masked());
    assert!(!vector.is_pending());
    assert!(!vector.is_requested());
    assert_eq!(vector.slots().get(0), Some(&7));
}

#[test]
fn install_overwrites_the_continuation_of_an_earlier_cycle() {
    let mut vector: Vector<u32> = Vector::new(1);
    vector.install(0, 7);
    vector.install(0, 8);
    assert_eq!(vector.slots().get(0), Some(&8));
}

#[test]
fn without_an_event_nothing_is_resumed() {
    let mut vector: Vector<u32> = Vector::new(1);
    vector.install(0, 7);
    assert_eq!(vector.fire(), None);
    assert!(!vector.is_masked());
}

#[test]
fn an_event_after_the_install_resumes_exactly_once() {
    let mut vector: Vector<u32> = Vector::new(1);
    vector.install(0, 7);
    vector.raise();
    assert!(vector.is_pending());
    assert_eq!(vector.fire(), Some(vec![0]));
    assert!(vector.is_masked());
    // The vector stays masked until the next install: no second resume.
    assert_eq!(vector.fire(), None);
    vector.raise();
    assert_eq!(vector.fire(), None);
}

#[test]
fn an_event_before_the_mask_is_not_lost() {
    let mut vector: Vector<u32> = Vector::new(1);
    // The event occurs after the task checked the flag and before it masks.
    vector.raise();
    assert_eq!(vector.fire(), None);
    vector.install(0, 7);
    assert!(vector.is_pending());
    assert_eq!(vector.fire(), Some(vec![0]));
    assert_eq!(vector.fire(), None);
}

#[test]
fn an_event_between_mask_and_unpend_is_not_lost() {
    let mut vector: Vector<u32> = Vector::new(1);
    vector.mask();
    vector.raise();
    assert_eq!(vector.fire(), None);
    vector.store(0, 7);
    vector.unpend();
    assert!(vector.is_pending());
    vector.unmask();
    assert_eq!(vector.fire(), Some(vec![0]));
    assert_eq!(vector.fire(), None);
}

#[test]
fn an_event_between_unpend_and_unmask_is_not_lost() {
    let mut vector: Vector<u32> = Vector::new(1);
    vector.mask();
    vector.store(0, 7);
    vector.unpend();
    vector.raise();
    assert_eq!(vector.fire(), None);
    vector.unmask();
    assert_eq!(vector.fire(), Some(vec![0]));
    assert_eq!(vector.fire(), None);
}

#[test]
fn the_service_routine_cannot_run_inside_the_critical_section() {
    let mut vector: Vector<u32> = Vector::new(1);
    vector.install(0, 7);
    vector.mask();
    vector.raise();
    assert_eq!(vector.fire(), None);
    vector.store(0, 8);
    assert_eq!(vector.fire(), None);
    vector.unpend();
    assert_eq!(vector.fire(), None);
    vector.unmask();
    // Only the continuation of the new cycle is there to resume.
    assert_eq!(vector.fire(), Some(vec![0]));
    assert_eq!(vector.slots().get(0), Some(&8));
}

#[test]
fn a_consumed_event_that_is_still_latched_is_discarded() {
    let mut vector: Vector<u32> = Vector::new(1);
    vector.install(0, 7);
    vector.raise();
    assert_eq!(vector.fire(), Some(vec![0]));
    // The event occurs again while the vector is masked, and the task
    // consumes it without having been resumed for it.
    vector.raise();
    vector.acknowledge();
    assert!(vector.is_pending());
    assert!(!vector.is_requested());
    vector.install(0, 8);
    assert!(!vector.is_pending());
    assert_eq!(vector.fire(), None);
}

#[test]
fn acknowledge_clears_the_request_and_keeps_the_latch() {
    let mut vector: Vector<u32> = Vector::new(1);
    vector.raise();
    assert!(vector.is_requested());
    assert!(vector.is_pending());
    vector.acknowledge();
    assert!(!vector.is_requested());
    assert!(vector.is_pending());
    assert!(vector.is_masked());
}

#[test]
fn every_install_cycle_gets_its_own_resume() {
    let mut vector: Vector<u32> = Vector::new(1);
    let mut resumes = 0;
    for cycle in 0..4 {
        vector.install(0, cycle);
        assert_eq!(vector.fire(), None);
        vector.raise();
        if let Some(resumed) = vector.fire() {
            assert_eq!(resumed, vec![0]);
            assert_eq!(vector.slots().get(0), Some(&cycle));
            resumes += 1;
        }
        assert_eq!(vector.fire(), None);
        vector.acknowledge();
    }
    assert_eq!(resumes, 4);
}

#[test]
fn a_shared_vector_resumes_every_occupied_slot() {
    let mut vector: Vector<u32> = Vector::new(5);
    vector.install(3, 30);
    vector.install(1, 10);
    vector.raise();
    // The routine does not tell the sources apart: both tasks are resumed
    // and each checks its own flag.
    assert_eq!(vector.fire(), Some(vec![1, 3]));
    assert!(vector.is_masked());
    assert_eq!(vector.fire(), None);
}

#[test]
fn a_vector_with_no_occupied_slot_is_masked_by_its_service_routine() {
    let mut vector: Vector<u32> = Vector::new(6);
    vector.unmask();
    vector.raise();
    assert_eq!(vector.fire(), Some(vec![]));
    assert!(vector.is_masked());
}

#[test]
fn an_abandoned_continuation_stays_in_its_slot() {
    let mut vector: Vector<u32> = Vector::new(5);
    vector.install(0, 1);
    // The task of slot 0 gives up; another task installs on the same vector.
    vector.install(4, 2);
    vector.raise();
    assert_eq!(vector.fire(), Some(vec![0, 4]));
    assert_eq!(vector.slots().get(0), Some(&1));
}

#[test]
fn a_poll_that_finds_the_flag_clear_installs_and_pends() {
    let mut vector: Vector<u32> = Vector::new(1);
    let mut completion = Completion::armed();
    assert_eq!(vector.poll_one_shot(&mut completion, 0, 7), Poll::Pending);
    assert!(!completion.is_terminated());
    assert!(!vector.is_masked());
    assert_eq!(vector.slots().get(0), Some(&7));
}

#[test]
fn a_poll_that_finds_the_flag_set_consumes_it_and_is_ready() {
    let mut vector: Vector<u32> = Vector::new(1);
    let mut completion = Completion::armed();
    vector.raise();
    assert_eq!(vector.poll_one_shot(&mut completion, 0, 7), Poll::Ready(()));
    assert!(completion.is_terminated());
    assert!(!vector.is_requested());
    // Nothing was installed: the vector is as masked as it was.
    assert!(vector.is_masked());
    assert_eq!(vector.slots().get(0), None);
}

#[test]
fn a_task_is_resumed_once_and_completes_once_whenever_the_event_comes() {
    for event_at in 0..6 {
        let mut vector: Vector<u32> = Vector::new(1);
        let mut completion = Completion::armed();
        let mut runnable = true;
        let mut resumes = 0;
        let mut completed_at = Vec::new();
        for now in 0..8 {
            if now == event_at {
                vector.raise();
            }
            if let Some(resumed) = vector.fire() {
                assert_eq!(resumed, vec![0]);
                resumes += 1;
                runnable = true;
            }
            if runnable && !completion.is_terminated() {
                runnable = false;
                if vector.poll_one_shot(&mut completion, 0, 7) == Poll::Ready(()) {
                    completed_at.push(now);
                }
            }
        }
        // The first poll comes at 0: an event that is there by then is found
        // without a resume, a later one costs exactly one.
        assert_eq!(completed_at, vec![event_at]);
        assert_eq!(resumes, if event_at == 0 { 0 } else { 1 });
    }
}
