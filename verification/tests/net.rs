use liltcp::net::{
    until_deadline_or, wait_millis, LinkChange, LinkMonitor, NetAction, NetEvent, NetPhase,
    NetStep, NetTask, Wake, DEFAULT_POLL_DELAY_MS,
};
use liltcp::notify::Notifier;
use liltcp::step::Step;

#[test]
fn wait_defaults_to_one_millisecond() {
    assert_eq!(DEFAULT_POLL_DELAY_MS, 1);
    assert_eq!(wait_millis(None), 1);
    assert_eq!(wait_millis(Some(0)), 0);
    assert_eq!(wait_millis(Some(250)), 250);
}

#[test]
fn link_monitor_reports_edges() {
    let mut monitor = LinkMonitor::new();
    assert!(!monitor.is_up());
    assert_eq!(monitor.update(false), LinkChange::Unchanged);
    assert_eq!(monitor.update(true), LinkChange::Up);
    assert!(monitor.is_up());
    assert_eq!(monitor.update(true), LinkChange::Unchanged);
    assert_eq!(monitor.update(false), LinkChange::Down);
    assert!(!monitor.is_up());
}

#[test]
fn wait_ends_on_deadline_and_keeps_the_signal() {
    let mut notifier = Notifier::new();
    notifier.set();
    assert_eq!(until_deadline_or(true, &mut notifier), Step::Ready(Wake::Deadline));
    assert!(notifier.is_pending());
}

#[test]
fn wait_ends_on_notification() {
    let mut notifier = Notifier::new();
    notifier.set();
    assert_eq!(until_deadline_or(false, &mut notifier), Step::Ready(Wake::Notified));
    assert!(!notifier.is_pending());
    assert_eq!(until_deadline_or(false, &mut notifier), Step::Pending);
}

#[test]
fn net_task_runs_its_cycle_with_link_up() {
    let mut task = NetTask::new();
    assert_eq!(task.phase(), NetPhase::QueryingDelay);
    assert!(!task.link_up());
    assert_eq!(
        task.step(NetEvent::Delay(Some(40))),
        NetStep { action: NetAction::Wait { millis: 40 }, link: LinkChange::Unchanged }
    );
    assert_eq!(
        task.step(NetEvent::Resumed),
        NetStep { action: NetAction::PollLink, link: LinkChange::Unchanged }
    );
    assert_eq!(
        task.step(NetEvent::Link(true)),
        NetStep { action: NetAction::PollEngine, link: LinkChange::Up }
    );
    assert!(task.link_up());
    assert_eq!(
        task.step(NetEvent::Polled(true)),
        NetStep { action: NetAction::QueryDelay, link: LinkChange::Unchanged }
    );
    assert_eq!(task.phase(), NetPhase::QueryingDelay);
}

#[test]
fn net_task_skips_the_engine_while_the_link_is_down() {
    let mut task = NetTask::new();
    assert_eq!(task.step(NetEvent::Delay(None)).action, NetAction::Wait { millis: 1 });
    assert_eq!(task.step(NetEvent::Resumed).action, NetAction::PollLink);
    assert_eq!(
        task.step(NetEvent::Link(false)),
        NetStep { action: NetAction::QueryDelay, link: LinkChange::Unchanged }
    );
    assert_eq!(task.phase(), NetPhase::QueryingDelay);
}

#[test]
fn net_task_reports_the_link_going_down() {
    let mut task = NetTask::new();
    task.step(NetEvent::Delay(None));
    task.step(NetEvent::Resumed);
    task.step(NetEvent::Link(true));
    task.step(NetEvent::Polled(false));
    task.step(NetEvent::Delay(Some(3)));
    task.step(NetEvent::Resumed);
    assert_eq!(
        task.step(NetEvent::Link(false)),
        NetStep { action: NetAction::QueryDelay, link: LinkChange::Down }
    );
    assert!(!task.link_up());
}

#[test]
fn net_task_knows_which_outcome_it_waits_for() {
    let mut task = NetTask::new();
    assert!(task.expects(NetEvent::Delay(None)));
    assert!(!task.expects(NetEvent::Resumed));
    assert!(!task.expects(NetEvent::Link(true)));
    assert!(!task.expects(NetEvent::Polled(true)));
    task.step(NetEvent::Delay(None));
    assert!(task.expects(NetEvent::Resumed));
    assert!(!task.expects(NetEvent::Delay(None)));
    task.step(NetEvent::Resumed);
    assert!(task.expects(NetEvent::Link(false)));
    task.step(NetEvent::Link(true));
    assert!(task.expects(NetEvent::Polled(false)));
}
