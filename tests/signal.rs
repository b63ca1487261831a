use tps6699x::controller::Controller;
use tps6699x::event::{any_port_matches, command_completed, zero_snapshot, IntEventBus1, CMD_1_COMPLETED_BIT};

fn done() -> IntEventBus1 {
    IntEventBus1 { bits: CMD_1_COMPLETED_BIT }
}

#[test]
fn reset_discards_stale_snapshot() {
    let mut c = Controller::new(2);
    c.signal([done(), IntEventBus1::new_zero()]);
    c.reset_signal();
    assert_eq!(c.poll_interrupt(&|_p: u8, _e: IntEventBus1| true), None);
    let fresh = [IntEventBus1::new_zero(), done()];
    c.signal(fresh);
    assert_eq!(c.poll_interrupt(&|_p: u8, _e: IntEventBus1| true), Some(fresh));
}

#[test]
fn pending_snapshot_is_seen_without_reset() {
    let mut c = Controller::new(2);
    let s = [done(), IntEventBus1::new_zero()];
    c.signal(s);
    assert_eq!(c.poll_interrupt(&|p: u8, e: IntEventBus1| p == 0 && e.cmd_1_completed()), Some(s));
    assert_eq!(c.poll_interrupt(&|_p: u8, _e: IntEventBus1| true), None);
}

#[test]
fn last_publish_wins() {
    let mut c = Controller::new(2);
    let first = [done(), IntEventBus1::new_zero()];
    let second = [IntEventBus1::new_zero(), IntEventBus1 { bits: 1 }];
    c.signal(first);
    c.signal(second);
    assert_eq!(c.poll_interrupt(&|_p: u8, _e: IntEventBus1| true), Some(second));
}

#[test]
fn unmatched_snapshot_is_consumed() {
    let mut c = Controller::new(2);
    c.signal([IntEventBus1 { bits: 1 }, IntEventBus1::new_zero()]);
    assert_eq!(c.poll_interrupt(&|_p: u8, e: IntEventBus1| e.cmd_1_completed()), None);
    assert_eq!(c.poll_interrupt(&|_p: u8, _e: IntEventBus1| true), None);
}

#[test]
fn predicate_sees_port_ids() {
    let s = [IntEventBus1::new_zero(), IntEventBus1 { bits: 3 }];
    assert!(any_port_matches(&s, &|p: u8, e: IntEventBus1| p == 1 && e.bits == 3));
    assert!(!any_port_matches(&s, &|p: u8, e: IntEventBus1| p == 0 && e.bits == 3));
    assert!(!any_port_matches(&zero_snapshot(), &|_p: u8, e: IntEventBus1| e.bits != 0));
}

#[test]
fn completion_is_per_port() {
    let s = [IntEventBus1::new_zero(), done()];
    assert!(command_completed(&s, 1));
    assert!(!command_completed(&s, 0));
    assert!(!command_completed(&s, 2));
    let other_bits = [IntEventBus1 { bits: !CMD_1_COMPLETED_BIT }, IntEventBus1::new_zero()];
    assert!(!command_completed(&other_bits, 0));
}
