use liltcp::notify::{until_either, Either, Notifier};
use liltcp::step::Step;

#[test]
fn new_notifier_is_idle() {
    let mut notifier = Notifier::new();
    assert!(!notifier.is_pending());
    assert_eq!(notifier.until_next(), Step::Pending);
}

#[test]
fn set_before_poll_completes_next_wait() {
    let mut notifier = Notifier::new();
    notifier.set();
    assert!(notifier.is_pending());
    assert_eq!(notifier.until_next(), Step::Ready(()));
}

#[test]
fn observation_clears_the_signal() {
    let mut notifier = Notifier::new();
    notifier.set();
    assert_eq!(notifier.until_next(), Step::Ready(()));
    assert!(!notifier.is_pending());
}

#[test]
fn one_set_resumes_exactly_once() {
    let mut notifier = Notifier::new();
    notifier.set();
    assert_eq!(notifier.until_next(), Step::Ready(()));
    assert_eq!(notifier.until_next(), Step::Pending);
    assert_eq!(notifier.until_next(), Step::Pending);
}

#[test]
fn set_is_idempotent() {
    let mut notifier = Notifier::new();
    notifier.set();
    notifier.set();
    notifier.set();
    assert_eq!(notifier.until_next(), Step::Ready(()));
    assert_eq!(notifier.until_next(), Step::Pending);
}

#[test]
fn set_after_a_wait_is_not_lost() {
    let mut notifier = Notifier::new();
    assert_eq!(notifier.until_next(), Step::Pending);
    notifier.set();
    assert_eq!(notifier.until_next(), Step::Ready(()));
}

#[test]
fn resumptions_never_exceed_sets() {
    // true stands for a set, false for a poll
    let events = [true, false, false, true, true, false, true, false, false, false, true];
    let mut notifier = Notifier::new();
    let mut sets = 0;
    let mut resumed = 0;
    for set in events {
        if set {
            notifier.set();
            sets += 1;
        } else if notifier.until_next().is_ready() {
            resumed += 1;
        }
        assert!(resumed <= sets);
    }
    assert_eq!(sets, 5);
    assert_eq!(resumed, 3);
    assert!(notifier.is_pending());
}

#[test]
fn either_prefers_the_first() {
    let mut first = Notifier::new();
    let mut second = Notifier::new();
    first.set();
    second.set();
    assert_eq!(until_either(&mut first, &mut second), Step::Ready(Either::First));
    assert!(!first.is_pending());
    assert!(second.is_pending());
    assert_eq!(until_either(&mut first, &mut second), Step::Ready(Either::Second));
    assert_eq!(until_either(&mut first, &mut second), Step::Pending);
}

#[test]
fn either_reports_the_second_alone() {
    let mut first = Notifier::new();
    let mut second = Notifier::new();
    second.set();
    assert_eq!(until_either(&mut first, &mut second), Step::Ready(Either::Second));
    assert!(!second.is_pending());
}

#[test]
fn either_waits_when_neither_fired() {
    let mut first = Notifier::new();
    let mut second = Notifier::new();
    assert_eq!(until_either(&mut first, &mut second), Step::Pending);
    assert!(!first.is_pending());
    assert!(!second.is_pending());
}
