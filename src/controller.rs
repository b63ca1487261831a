//! The state shared by the command issuer and the interrupt servicer: the
//! configured port count, the per-port interrupt mask and the single-slot
//! event mailbox; and the guard that restores a captured mask.
use vstd::prelude::*;

use crate::event::{any_port_matches, IntEventBus1, Snapshot};
use crate::{PdError, MAX_SUPPORTED_PORTS, TPS66993_NUM_PORTS, TPS66994_NUM_PORTS};

verus! {

/// The mathematical model of a [`Controller`].
pub struct ControllerView {
    /// One enable flag per port slot.
    pub enabled: Seq<bool>,
    /// The snapshot published and not yet taken, if any.
    pub pending: Option<Snapshot>,
    /// The configured port count.
    pub num_ports: nat,
}

impl ControllerView {
    pub open spec fn wf(self) -> bool {
        &&& self.enabled.len() == MAX_SUPPORTED_PORTS
        &&& self.num_ports <= MAX_SUPPORTED_PORTS
    }

    /// The same state with the mask replaced by `mask`.
    pub open spec fn with_mask(self, mask: Seq<bool>) -> ControllerView {
        ControllerView { enabled: mask, ..self }
    }

    /// The same state with the mailbox holding `pending`.
    pub open spec fn with_pending(self, pending: Option<Snapshot>) -> ControllerView {
        ControllerView { pending, ..self }
    }
}

/// A mask with every port slot enabled.
pub open spec fn all_enabled() -> Seq<bool> {
    Seq::new(MAX_SUPPORTED_PORTS as nat, |i: int| true)
}

/// A mask with every port slot disabled.
pub open spec fn all_disabled() -> Seq<bool> {
    Seq::new(MAX_SUPPORTED_PORTS as nat, |i: int| false)
}

/// The mask that a single-port guard installs: `mask` with only `port`'s
/// entry set to `enabled`.
pub open spec fn port_guarded_mask(mask: Seq<bool>, port: int, enabled: bool) -> Seq<bool> {
    mask.update(port, enabled)
}

/// Resetting the mailbox discards whatever was pending, so a waiter that
/// resets first sees only snapshots published after the reset; without the
/// reset, the snapshot already pending is the first one a waiter sees.
pub proof fn lemma_reset_discards_stale(v: ControllerView, later: Snapshot)
    requires
        v.wf(),
    ensures
        v.with_pending(None).pending is None,
        v.with_pending(None).with_pending(Some(later)).pending == Some(later),
        v.with_pending(None).with_pending(Some(later)).enabled == v.enabled,
{
}

/// The shared device-coordination state.
pub struct Controller {
    interrupts_enabled: [bool; MAX_SUPPORTED_PORTS],
    pending: Option<Snapshot>,
    num_ports: usize,
}

impl View for Controller {
    type V = ControllerView;

    closed spec fn view(&self) -> ControllerView {
        ControllerView {
            enabled: self.interrupts_enabled@,
            pending: self.pending,
            num_ports: self.num_ports as nat,
        }
    }
}

impl Controller {
    /// A controller for `num_ports` ports, all interrupts enabled, nothing
    /// published.
    pub fn new(num_ports: usize) -> (r: Controller)
        requires
            num_ports <= MAX_SUPPORTED_PORTS,
        ensures
            r@.wf(),
            r@ == (ControllerView { enabled: all_enabled(), pending: None, num_ports: num_ports as nat }),
    {
        let r = Controller {
            interrupts_enabled: [true; MAX_SUPPORTED_PORTS],
            pending: None,
            num_ports,
        };
        assert(r@.enabled =~= all_enabled());
        r
    }

    /// A controller for the single-port chip variant.
    pub fn new_tps66993() -> (r: Controller)
        ensures
            r@.wf(),
            r@ == (ControllerView {
                enabled: all_enabled(),
                pending: None,
                num_ports: TPS66993_NUM_PORTS as nat,
            }),
    {
        Self::new(TPS66993_NUM_PORTS)
    }

    /// A controller for the dual-port chip variant.
    pub fn new_tps66994() -> (r: Controller)
        ensures
            r@.wf(),
            r@ == (ControllerView {
                enabled: all_enabled(),
                pending: None,
                num_ports: TPS66994_NUM_PORTS as nat,
            }),
    {
        Self::new(TPS66994_NUM_PORTS)
    }

    /// The configured port count.
    pub fn num_ports(&self) -> (r: usize)
        ensures
            r == self@.num_ports,
    {
        self.num_ports
    }

    /// A copy of the current mask, read slot by slot.
    pub fn interrupts_enabled(&self) -> (r: [bool; MAX_SUPPORTED_PORTS])
        ensures
            r@ == self@.enabled,
    {
        let mut copy = [false; MAX_SUPPORTED_PORTS];
        let mut i: usize = 0;
        while i < MAX_SUPPORTED_PORTS
            invariant
                i <= MAX_SUPPORTED_PORTS,
                forall|j: int| 0 <= j < i ==> copy[j] == self.interrupts_enabled[j],
            decreases MAX_SUPPORTED_PORTS - i,
        {
            copy[i] = self.interrupts_enabled[i];
            i = i + 1;
        }
        assert(copy@ =~= self@.enabled);
        copy
    }

    /// Installs `enabled` as the mask, slot by slot.
    pub fn enable_interrupts(&mut self, enabled: [bool; MAX_SUPPORTED_PORTS])
        requires
            old(self)@.wf(),
        ensures
            final(self)@.wf(),
            final(self)@ == old(self)@.with_mask(enabled@),
    {
        let mut i: usize = 0;
        while i < MAX_SUPPORTED_PORTS
            invariant
                i <= MAX_SUPPORTED_PORTS,
                self.num_ports == old(self).num_ports,
                self.pending == old(self).pending,
                forall|j: int| 0 <= j < i ==> self.interrupts_enabled[j] == enabled[j],
                forall|j: int|
                    i <= j < MAX_SUPPORTED_PORTS ==> self.interrupts_enabled[j]
                        == old(self).interrupts_enabled[j],
            decreases MAX_SUPPORTED_PORTS - i,
        {
            self.interrupts_enabled[i] = enabled[i];
            i = i + 1;
        }
        assert(self@.enabled =~= enabled@);
    }

    /// Publishes a snapshot, overwriting any that was not yet taken.
    pub fn signal(&mut self, s: Snapshot)
        requires
            old(self)@.wf(),
        ensures
            final(self)@.wf(),
            final(self)@ == old(self)@.with_pending(Some(s)),
    {
        self.pending = Some(s);
    }

    /// Discards any snapshot that was not yet taken.
    pub fn reset_signal(&mut self)
        requires
            old(self)@.wf(),
        ensures
            final(self)@.wf(),
            final(self)@ == old(self)@.with_pending(None),
    {
        self.pending = None;
    }

    /// Takes the pending snapshot, if any, and hands it out where `f` holds
    /// for some port slot of it. A snapshot that matches no slot is consumed
    /// all the same: a waiter goes on to the next one.
    pub fn poll_interrupt<F: Fn(u8, IntEventBus1) -> bool>(&mut self, f: &F) -> (r: Option<Snapshot>)
        requires
            old(self)@.wf(),
            forall|p: u8, e: IntEventBus1| #[trigger] f.requires((p, e)),
        ensures
            final(self)@.wf(),
            final(self)@ == old(self)@.with_pending(None),
            old(self)@.pending is None ==> r is None,
            r matches Some(s) ==> old(self)@.pending == Some(s) && exists|i: int|
                0 <= i < MAX_SUPPORTED_PORTS && #[trigger] f.ensures((i as u8, s[i]), true),
            old(self)@.pending matches Some(s) ==> r is None ==> forall|i: int|
                0 <= i < MAX_SUPPORTED_PORTS ==> #[trigger] f.ensures((i as u8, s[i]), false),
    {
        let taken = self.pending;
        self.pending = None;
        match taken {
            Some(s) => {
                if any_port_matches(&s, f) {
                    Some(s)
                } else {
                    None
                }
            },
            None => None,
        }
    }
}

} // verus!
