use async_stm32f1xx::poll::{Completion, Poll};

#[test]
fn completion_starts_armed() {
    let completion = Completion::armed();
    assert!(!completion.is_terminated());
}

#[test]
fn completion_stays_armed_while_the_flag_is_clear() {
    let mut completion = Completion::armed();
    assert_eq!(completion.observe(false), Poll::Pending);
    assert!(!completion.is_terminated());
    assert_eq!(completion.observe(false), Poll::Pending);
    assert!(!completion.is_terminated());
}

#[test]
fn completion_is_terminated_once_it_reported_ready() {
    let mut completion = Completion::armed();
    assert_eq!(completion.observe(false), Poll::Pending);
    assert_eq!(completion.observe(true), Poll::Ready(()));
    // From here on a poll is a contract violation: the caller sees it here.
    assert!(completion.is_terminated());
}
