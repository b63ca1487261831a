//! The decisions of interrupt servicing, as a state machine. The servicer
//! asks for the next action, performs it (sample the shared interrupt line,
//! read-and-clear one port's cause) and hands the outcome back; when the
//! machine says to publish, its snapshot is complete.
use vstd::prelude::*;

use crate::event::{zero_snapshot, IntEventBus1, Snapshot};
use crate::{PdError, MAX_SUPPORTED_PORTS};

verus! {

/// What the servicer has to do next.
#[derive(Clone, Copy, Debug, PartialEq, Eq, Structural)]
pub enum ScanAction {
    /// Sample the interrupt line before servicing `port`.
    SamplePin { port: usize },
    /// Read and clear `port`'s interrupt cause.
    ClearInterrupt { port: usize },
    /// The scan is over: publish the snapshot.
    Publish,
}

/// Where a scan stands.
#[derive(Clone, Copy, Debug, PartialEq, Eq, Structural)]
pub enum ScanPhase {
    /// Looking for the next enabled port.
    Seek,
    /// Waiting for the line's level before servicing the current port.
    Sampling,
    /// Waiting for the current port's cleared cause.
    Clearing,
    /// Every port has been visited.
    Finished,
}

/// The mathematical model of an [`InterruptScan`].
pub struct ScanView {
    pub enabled: Seq<bool>,
    pub num_ports: nat,
    pub port: nat,
    pub phase: ScanPhase,
    pub flags: Seq<IntEventBus1>,
}

/// The first port at or after `from` whose interrupts are enabled, or
/// `num_ports` where there is none.
pub open spec fn next_enabled(enabled: Seq<bool>, num_ports: nat, from: nat) -> nat
    decreases num_ports - from,
{
    if from >= num_ports {
        from
    } else if enabled[from as int] {
        from
    } else {
        next_enabled(enabled, num_ports, from + 1)
    }
}

impl ScanView {
    pub open spec fn wf(self) -> bool {
        &&& self.enabled.len() == MAX_SUPPORTED_PORTS
        &&& self.flags.len() == MAX_SUPPORTED_PORTS
        &&& self.num_ports <= MAX_SUPPORTED_PORTS
        &&& self.port <= self.num_ports
        &&& (self.phase is Sampling || self.phase is Clearing) ==> self.port < self.num_ports
            && self.enabled[self.port as int]
        &&& self.phase is Finished ==> self.port == self.num_ports
        &&& forall|i: int| self.port <= i < MAX_SUPPORTED_PORTS ==> (#[trigger] self.flags[i]).is_zero()
        &&& forall|i: int|
            0 <= i < self.port && !self.enabled[i] ==> (#[trigger] self.flags[i]).is_zero()
    }

    /// The action this state asks for.
    pub open spec fn action(self) -> ScanAction {
        match self.phase {
            ScanPhase::Sampling => ScanAction::SamplePin { port: self.port as usize },
            ScanPhase::Clearing => ScanAction::ClearInterrupt { port: self.port as usize },
            _ => ScanAction::Publish,
        }
    }

    /// The state reached from a seeking state: the next enabled port, or
    /// the end of the scan.
    pub open spec fn seek(self) -> ScanView {
        let p = next_enabled(self.enabled, self.num_ports, self.port);
        ScanView {
            port: p,
            phase: if p < self.num_ports {
                ScanPhase::Sampling
            } else {
                ScanPhase::Finished
            },
            ..self
        }
    }

    /// The state reached once the line's level is known: a line that is not
    /// asserted (high) moves on to the next port with the slot left empty.
    pub open spec fn after_pin(self, high: bool) -> ScanView {
        if high {
            ScanView { port: self.port + 1, phase: ScanPhase::Seek, ..self }.seek()
        } else {
            ScanView { phase: ScanPhase::Clearing, ..self }
        }
    }

    /// The state reached once the current port's cause has been read and
    /// cleared: the cause fills that port's slot.
    pub open spec fn after_clear(self, cause: IntEventBus1) -> ScanView {
        ScanView {
            port: self.port + 1,
            phase: ScanPhase::Seek,
            flags: self.flags.update(self.port as int, cause),
            ..self
        }.seek()
    }
}

proof fn lemma_next_enabled(enabled: Seq<bool>, num_ports: nat, from: nat)
    requires
        from <= num_ports,
    ensures
        from <= next_enabled(enabled, num_ports, from) <= num_ports,
        next_enabled(enabled, num_ports, from) < num_ports ==> enabled[next_enabled(
            enabled,
            num_ports,
            from,
        ) as int],
        forall|i: int|
            from <= i < next_enabled(enabled, num_ports, from) ==> !(#[trigger] enabled[i]),
    decreases num_ports - from,
{
    if from < num_ports && !enabled[from as int] {
        lemma_next_enabled(enabled, num_ports, from + 1);
    }
}

/// With every port's interrupts disabled, a scan that starts goes straight
/// to publishing an all-empty snapshot: it never samples the line nor reads
/// a cause register.
pub proof fn lemma_all_disabled_scan(v: ScanView)
    requires
        v.wf(),
        v.phase is Seek,
        v.port == 0,
        forall|i: int| 0 <= i < v.num_ports ==> !(#[trigger] v.enabled[i]),
    ensures
        v.seek().phase is Finished,
        v.seek().action() == ScanAction::Publish,
        forall|i: int| 0 <= i < MAX_SUPPORTED_PORTS ==> (#[trigger] v.seek().flags[i]).is_zero(),
{
    lemma_next_enabled(v.enabled, v.num_ports, 0);
}

/// A finished scan's snapshot is empty in the slot of every port that was
/// disabled and of every slot at or beyond the port count.
pub proof fn lemma_published_slots(v: ScanView)
    requires
        v.wf(),
        v.phase is Finished,
    ensures
        v.action() == ScanAction::Publish,
        forall|i: int|
            0 <= i < MAX_SUPPORTED_PORTS && (i >= v.num_ports || !v.enabled[i])
                ==> (#[trigger] v.flags[i]).is_zero(),
{
}

/// One pass of interrupt servicing over a controller's ports.
pub struct InterruptScan {
    enabled: [bool; MAX_SUPPORTED_PORTS],
    num_ports: usize,
    port: usize,
    phase: ScanPhase,
    flags: Snapshot,
}

impl View for InterruptScan {
    type V = ScanView;

    closed spec fn view(&self) -> ScanView {
        ScanView {
            enabled: self.enabled@,
            num_ports: self.num_ports as nat,
            port: self.port as nat,
            phase: self.phase,
            flags: self.flags@,
        }
    }
}

impl InterruptScan {
    /// A scan over `num_ports` ports with the mask `enabled`, read once at
    /// its start; every slot starts empty.
    pub fn new(enabled: [bool; MAX_SUPPORTED_PORTS], num_ports: usize) -> (r: InterruptScan)
        requires
            num_ports <= MAX_SUPPORTED_PORTS,
        ensures
            r@.wf(),
            r@ == (ScanView {
                enabled: enabled@,
                num_ports: num_ports as nat,
                port: 0,
                phase: ScanPhase::Seek,
                flags: r@.flags,
            }),
            forall|i: int| 0 <= i < MAX_SUPPORTED_PORTS ==> (#[trigger] r@.flags[i]).is_zero(),
    {
        InterruptScan { enabled, num_ports, port: 0, phase: ScanPhase::Seek, flags: zero_snapshot() }
    }

    /// Moves a seeking scan to the next enabled port, or to its end, and
    /// returns the action now due. A scan in another phase is left as it
    /// is.
    pub fn next_action(&mut self) -> (r: ScanAction)
        requires
            old(self)@.wf(),
        ensures
            final(self)@.wf(),
            old(self)@.phase is Seek ==> final(self)@ == old(self)@.seek(),
            !(old(self)@.phase is Seek) ==> final(self)@ == old(self)@,
            r == final(self)@.action(),
    {
        if self.phase == ScanPhase::Seek {
            proof {
                lemma_next_enabled(self@.enabled, self@.num_ports, self@.port);
            }
            while self.port < self.num_ports && !self.enabled[self.port]
                invariant
                    old(self)@.wf(),
                    self.num_ports == old(self).num_ports,
                    self.enabled == old(self).enabled,
                    self.flags == old(self).flags,
                    self.phase == old(self).phase,
                    old(self).port <= self.port <= self.num_ports,
                    next_enabled(self@.enabled, self@.num_ports, self@.port) == next_enabled(
                        old(self)@.enabled,
                        old(self)@.num_ports,
                        old(self)@.port,
                    ),
                decreases self.num_ports - self.port,
            {
                self.port = self.port + 1;
            }
            if self.port < self.num_ports {
                self.phase = ScanPhase::Sampling;
            } else {
                self.phase = ScanPhase::Finished;
            }
        }
        self.action()
    }

    /// Records the level of the interrupt line sampled for the current port
    /// (`Some(true)`: high, not asserted; `None`: the line could not be
    /// read) and returns the action now due. An unreadable line fails the
    /// scan with [`PdError::Failed`] and nothing is to be published. Outside
    /// the sampling phase nothing changes.
    pub fn pin_sampled(&mut self, level: Option<bool>) -> (r: Result<ScanAction, PdError>)
        requires
            old(self)@.wf(),
        ensures
            final(self)@.wf(),
            old(self)@.phase is Sampling && level is None ==> r == Err::<ScanAction, PdError>(
                PdError::Failed,
            ) && final(self)@ == old(self)@,
            old(self)@.phase is Sampling && level is Some ==> final(self)@ == old(self)@.after_pin(
                level->0,
            ) && r == Ok::<ScanAction, PdError>(final(self)@.action()),
            !(old(self)@.phase is Sampling) ==> final(self)@ == old(self)@ && r == Ok::<
                ScanAction,
                PdError,
            >(final(self)@.action()),
    {
        if self.phase == ScanPhase::Sampling {
            match level {
                None => {
                    return Err(PdError::Failed);
                },
                Some(true) => {
                    self.port = self.port + 1;
                    self.phase = ScanPhase::Seek;
                    return Ok(self.next_action());
                },
                Some(false) => {
                    self.phase = ScanPhase::Clearing;
                },
            }
        }
        Ok(self.action())
    }

    /// Records the cause read and cleared for the current port and returns
    /// the action now due. Outside the clearing phase nothing changes.
    pub fn interrupt_cleared(&mut self, cause: IntEventBus1) -> (r: ScanAction)
        requires
            old(self)@.wf(),
        ensures
            final(self)@.wf(),
            old(self)@.phase is Clearing ==> final(self)@ == old(self)@.after_clear(cause),
            !(old(self)@.phase is Clearing) ==> final(self)@ == old(self)@,
            r == final(self)@.action(),
    {
        if self.phase == ScanPhase::Clearing {
            self.flags[self.port] = cause;
            self.port = self.port + 1;
            self.phase = ScanPhase::Seek;
            return self.next_action();
        }
        self.action()
    }

    /// The action the scan currently asks for.
    pub fn action(&self) -> (r: ScanAction)
        ensures
            r == self@.action(),
    {
        match self.phase {
            ScanPhase::Sampling => ScanAction::SamplePin { port: self.port },
            ScanPhase::Clearing => ScanAction::ClearInterrupt { port: self.port },
            _ => ScanAction::Publish,
        }
    }

    /// The snapshot gathered so far; complete once the scan asks to publish.
    pub fn flags(&self) -> (r: Snapshot)
        ensures
            r@ == self@.flags,
    {
        self.flags
    }
}

} // verus!
