use tps6699x::controller::Controller;
use tps6699x::event::{IntEventBus1, CMD_1_COMPLETED_BIT};
use tps6699x::scan::{InterruptScan, ScanAction};
use tps6699x::PdError;

fn zero() -> IntEventBus1 {
    IntEventBus1::new_zero()
}

#[test]
fn all_disabled_publishes_zero_without_reads() {
    let mut s = InterruptScan::new([false, false], 2);
    assert_eq!(s.next_action(), ScanAction::Publish);
    assert_eq!(s.flags(), [zero(), zero()]);
}

#[test]
fn shared_line_deasserted_skips_later_port() {
    let mut s = InterruptScan::new([true, true], 2);
    assert_eq!(s.next_action(), ScanAction::SamplePin { port: 0 });
    assert_eq!(s.pin_sampled(Some(false)), Ok(ScanAction::ClearInterrupt { port: 0 }));
    let cause = IntEventBus1 { bits: CMD_1_COMPLETED_BIT };
    assert_eq!(s.interrupt_cleared(cause), ScanAction::SamplePin { port: 1 });
    // clearing port 0 released the line: port 1 is skipped
    assert_eq!(s.pin_sampled(Some(true)), Ok(ScanAction::Publish));
    assert_eq!(s.flags(), [cause, zero()]);
}

#[test]
fn both_ports_cleared_while_line_asserted() {
    let mut s = InterruptScan::new([true, true], 2);
    assert_eq!(s.next_action(), ScanAction::SamplePin { port: 0 });
    assert_eq!(s.pin_sampled(Some(false)), Ok(ScanAction::ClearInterrupt { port: 0 }));
    let a = IntEventBus1 { bits: 4 };
    let b = IntEventBus1 { bits: 8 };
    assert_eq!(s.interrupt_cleared(a), ScanAction::SamplePin { port: 1 });
    assert_eq!(s.pin_sampled(Some(false)), Ok(ScanAction::ClearInterrupt { port: 1 }));
    assert_eq!(s.interrupt_cleared(b), ScanAction::Publish);
    assert_eq!(s.flags(), [a, b]);
}

#[test]
fn scan_stops_at_port_count() {
    let mut s = InterruptScan::new([true, true], 1);
    assert_eq!(s.next_action(), ScanAction::SamplePin { port: 0 });
    assert_eq!(s.pin_sampled(Some(false)), Ok(ScanAction::ClearInterrupt { port: 0 }));
    assert_eq!(s.interrupt_cleared(IntEventBus1 { bits: 2 }), ScanAction::Publish);
    assert_eq!(s.flags(), [IntEventBus1 { bits: 2 }, zero()]);
}

#[test]
fn out_of_order_events_change_nothing() {
    let mut s = InterruptScan::new([true, false], 2);
    assert_eq!(s.interrupt_cleared(IntEventBus1 { bits: 2 }), ScanAction::Publish);
    assert_eq!(s.next_action(), ScanAction::SamplePin { port: 0 });
    assert_eq!(s.interrupt_cleared(IntEventBus1 { bits: 2 }), ScanAction::SamplePin { port: 0 });
    assert_eq!(s.flags(), [zero(), zero()]);
}

#[test]
fn disabled_port_cause_is_not_reported() {
    // a 2-port controller with port 1 masked; the interrupt's cause is port 1's only
    let mut c = Controller::new(2);
    let _g = c.enable_interrupt_guarded(1, false).unwrap();
    let mut s = InterruptScan::new(c.interrupts_enabled(), c.num_ports());
    assert_eq!(s.next_action(), ScanAction::SamplePin { port: 0 });
    // the line is asserted, so port 0's cause register is read: it holds nothing
    assert_eq!(s.pin_sampled(Some(false)), Ok(ScanAction::ClearInterrupt { port: 0 }));
    assert_eq!(s.interrupt_cleared(zero()), ScanAction::Publish);
    let flags = s.flags();
    c.signal(flags);
    assert_eq!(flags, [zero(), zero()]);
    assert_eq!(c.interrupts_enabled(), [true, false]);
}

#[test]
fn unreadable_line_fails_scan() {
    let mut s = InterruptScan::new([true, true], 2);
    assert_eq!(s.next_action(), ScanAction::SamplePin { port: 0 });
    assert_eq!(s.pin_sampled(None), Err(PdError::Failed));
    assert_eq!(s.action(), ScanAction::SamplePin { port: 0 });
}
