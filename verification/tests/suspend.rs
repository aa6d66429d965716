use liltcp::step::Step;
use liltcp::suspend::{Delay, Yield, DELAY_POLLS};

#[test]
fn yield_is_pending_once() {
    let mut turn = Yield::new();
    assert_eq!(turn.poll(), Step::Pending);
    assert_eq!(turn.poll(), Step::Ready(()));
    assert_eq!(turn.poll(), Step::Ready(()));
}

#[test]
fn delay_completes_on_the_hundredth_poll() {
    assert_eq!(DELAY_POLLS, 100);
    let mut delay = Delay::new();
    for _ in 0..99 {
        assert_eq!(delay.poll(), Step::Pending);
    }
    assert_eq!(delay.poll(), Step::Ready(()));
}
