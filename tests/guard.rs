use tps6699x::controller::Controller;
use tps6699x::guard::InterruptGuard;
use tps6699x::{PdError, MAX_SUPPORTED_PORTS, TPS66993_NUM_PORTS, TPS66994_NUM_PORTS};

#[test]
fn new_controller_enables_all_interrupts() {
    let c = Controller::new(2);
    assert_eq!(c.num_ports(), 2);
    assert_eq!(c.interrupts_enabled(), [true; MAX_SUPPORTED_PORTS]);
}

#[test]
fn chip_variants_have_their_port_counts() {
    assert_eq!(Controller::new_tps66993().num_ports(), TPS66993_NUM_PORTS);
    assert_eq!(Controller::new_tps66994().num_ports(), TPS66994_NUM_PORTS);
}

#[test]
fn port_guard_restores_port_and_leaves_others() {
    let mut c = Controller::new(2);
    c.enable_interrupts([true, false]);
    let g = c.enable_interrupt_guarded(0, false).unwrap();
    assert_eq!(c.interrupts_enabled(), [false, false]);
    g.release(&mut c);
    assert_eq!(c.interrupts_enabled(), [true, false]);

    let g = c.enable_interrupt_guarded(1, true).unwrap();
    assert_eq!(c.interrupts_enabled(), [true, true]);
    g.release(&mut c);
    assert_eq!(c.interrupts_enabled(), [true, false]);
}

#[test]
fn port_guard_rejects_port_out_of_range() {
    let mut c = Controller::new(1);
    let r = c.enable_interrupt_guarded(1, false);
    assert_eq!(r.err(), Some(PdError::InvalidPort));
    assert_eq!(c.interrupts_enabled(), [true, true]);
}

#[test]
fn guard_installs_mask_and_release_restores() {
    let mut c = Controller::new(2);
    let g = c.enable_interrupts_guarded([false, true]);
    assert_eq!(c.interrupts_enabled(), [false, true]);
    assert_eq!(g.target_state(), [true, true]);
    g.release(&mut c);
    assert_eq!(c.interrupts_enabled(), [true, true]);
}

#[test]
fn disable_all_guard_restores_captured_mask() {
    let mut c = Controller::new(2);
    c.enable_interrupts([false, true]);
    let g = c.disable_all_interrupts_guarded();
    assert_eq!(c.interrupts_enabled(), [false, false]);
    g.release(&mut c);
    assert_eq!(c.interrupts_enabled(), [false, true]);
}

#[test]
fn overlapping_guards_restore_their_own_snapshots() {
    let mut c = Controller::new(2);
    let a = InterruptGuard::new(&mut c, [false, true]);
    let b = InterruptGuard::new(&mut c, [false, false]);
    a.release(&mut c);
    assert_eq!(c.interrupts_enabled(), [true, true]);
    b.release(&mut c);
    assert_eq!(c.interrupts_enabled(), [false, true]);
}
