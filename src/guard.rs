//! Scoped interrupt masking: a guard captures the mask it finds, installs
//! another, and puts the captured one back when it is released.
use vstd::prelude::*;

use crate::controller::{all_disabled, port_guarded_mask, Controller, ControllerView};
use crate::{PdError, MAX_SUPPORTED_PORTS};

verus! {

/// Holds the mask observed before it installed its own; releasing it
/// reinstalls exactly that mask.
pub struct InterruptGuard {
    target_state: [bool; MAX_SUPPORTED_PORTS],
}

impl View for InterruptGuard {
    /// The mask this guard restores.
    type V = Seq<bool>;

    closed spec fn view(&self) -> Seq<bool> {
        self.target_state@
    }
}

impl InterruptGuard {
    /// Captures the controller's mask, then installs `enabled`.
    pub fn new(controller: &mut Controller, enabled: [bool; MAX_SUPPORTED_PORTS]) -> (r: InterruptGuard)
        requires
            old(controller)@.wf(),
        ensures
            final(controller)@.wf(),
            final(controller)@ == old(controller)@.with_mask(enabled@),
            r@ == old(controller)@.enabled,
    {
        let target_state = controller.interrupts_enabled();
        controller.enable_interrupts(enabled);
        InterruptGuard { target_state }
    }

    /// Ends the guard's scope: reinstalls the captured mask, whatever the
    /// mask is now.
    pub fn release(self, controller: &mut Controller)
        requires
            old(controller)@.wf(),
        ensures
            final(controller)@.wf(),
            final(controller)@ == old(controller)@.with_mask(self@),
    {
        controller.enable_interrupts(self.target_state);
    }

    /// The mask this guard will reinstall.
    pub fn target_state(&self) -> (r: [bool; MAX_SUPPORTED_PORTS])
        ensures
            r@ == self@,
    {
        self.target_state
    }
}

impl Controller {
    /// Installs `enabled` as the mask for the lifetime of the returned guard.
    pub fn enable_interrupts_guarded(&mut self, enabled: [bool; MAX_SUPPORTED_PORTS]) -> (r: InterruptGuard)
        requires
            old(self)@.wf(),
        ensures
            final(self)@.wf(),
            final(self)@ == old(self)@.with_mask(enabled@),
            r@ == old(self)@.enabled,
    {
        InterruptGuard::new(self, enabled)
    }

    /// Sets one port's interrupt state for the lifetime of the returned
    /// guard; the other ports keep the state they have now.
    pub fn enable_interrupt_guarded(&mut self, port: u8, enabled: bool) -> (r: Result<InterruptGuard, PdError>)
        requires
            old(self)@.wf(),
        ensures
            final(self)@.wf(),
            port >= old(self)@.num_ports ==> r == Err::<InterruptGuard, PdError>(PdError::InvalidPort)
                && final(self)@ == old(self)@,
            port < old(self)@.num_ports ==> (r matches Ok(g) && g@ == old(self)@.enabled
                && final(self)@ == old(self)@.with_mask(
                port_guarded_mask(old(self)@.enabled, port as int, enabled),
            )),
    {
        if port as usize >= self.num_ports() {
            return Err(PdError::InvalidPort);
        }
        let mut state = self.interrupts_enabled();
        state[port as usize] = enabled;
        assert(state@ =~= port_guarded_mask(old(self)@.enabled, port as int, enabled));
        Ok(self.enable_interrupts_guarded(state))
    }

    /// Disables every port's interrupts for the lifetime of the returned
    /// guard.
    pub fn disable_all_interrupts_guarded(&mut self) -> (r: InterruptGuard)
        requires
            old(self)@.wf(),
        ensures
            final(self)@.wf(),
            final(self)@ == old(self)@.with_mask(all_disabled()),
            r@ == old(self)@.enabled,
    {
        let r = self.enable_interrupts_guarded([false; MAX_SUPPORTED_PORTS]);
        assert(final(self)@.enabled =~= all_disabled());
        r
    }
}

/// A single-port guard on a valid port changes that port's entry alone while
/// it lives, and releasing it brings back the state it found, exactly.
pub proof fn lemma_port_guard_restores(v: ControllerView, port: int, enabled: bool)
    requires
        v.wf(),
        0 <= port < v.num_ports,
    ensures
        port_guarded_mask(v.enabled, port, enabled)[port] == enabled,
        forall|i: int|
            0 <= i < MAX_SUPPORTED_PORTS && i != port ==> #[trigger] port_guarded_mask(
                v.enabled,
                port,
                enabled,
            )[i] == v.enabled[i],
        v.with_mask(port_guarded_mask(v.enabled, port, enabled)).with_mask(v.enabled) == v,
{
}

/// Reading the mask right after a guard installed `mask` gives `mask`;
/// releasing the guard gives back the mask from before it.
pub proof fn lemma_guard_install_then_release(v: ControllerView, mask: Seq<bool>)
    requires
        v.wf(),
        mask.len() == MAX_SUPPORTED_PORTS,
    ensures
        v.with_mask(mask).enabled == mask,
        v.with_mask(mask).with_mask(v.enabled) == v,
{
}

} // verus!
