//! The command protocol as a state machine: send under the device lock,
//! wait without it for the port's completion event, then read the result
//! under the lock again. A deadline may end it in any phase.
use vstd::prelude::*;

use crate::event::{command_completed, completes_command, Snapshot};
use crate::PdError;

verus! {

/// Where a command stands.
#[derive(Clone, Copy, Debug, PartialEq, Eq, Structural)]
pub enum CommandPhase {
    /// The command is to be sent to the port (device lock held).
    Send,
    /// Waiting for a snapshot that reports the port's completion (no lock).
    Wait,
    /// The result is to be read from the port (device lock held).
    Read,
    /// The result has been read.
    Done,
    /// The deadline passed first.
    TimedOut,
}

/// The mathematical model of a [`CommandExec`].
pub struct CommandView {
    pub port: u8,
    /// The deadline, in timer ticks, for the whole command.
    pub deadline_ticks: u64,
    pub phase: CommandPhase,
    /// The snapshot that ended the wait, once one has.
    pub completion: Option<Snapshot>,
}

impl CommandView {
    pub open spec fn wf(self) -> bool {
        &&& (self.phase is Send || self.phase is Wait) ==> self.completion is None
        &&& (self.phase is Read || self.phase is Done) ==> (self.completion matches Some(s)
            && completes_command(s, self.port as int))
    }

    /// Whether this phase performs a bus transaction, and so holds the
    /// device lock.
    pub open spec fn holds_lock(self) -> bool {
        self.phase is Send || self.phase is Read
    }
}

/// The tick count of the timer's duration of `ms` milliseconds.
pub uninterp spec fn ticks_from_millis(ms: u64) -> u64;

/// Relies on embassy_time::Duration::from_millis (rounding up to whole timer
/// ticks) and Duration::as_ticks: the count depends on `ms` alone, and zero
/// milliseconds make zero ticks.
#[verifier::external_body]
fn millis_to_ticks(ms: u32) -> (r: u64)
    ensures
        r == ticks_from_millis(ms as u64),
        ms == 0 ==> r == 0,
{
    embassy_time::Duration::from_millis(ms as u64).as_ticks()
}

/// One command issued on one port.
pub struct CommandExec {
    deadline_ticks: u64,
    port: u8,
    phase: CommandPhase,
    completion: Option<Snapshot>,
}

impl View for CommandExec {
    type V = CommandView;

    closed spec fn view(&self) -> CommandView {
        CommandView {
            port: self.port,
            deadline_ticks: self.deadline_ticks,
            phase: self.phase,
            completion: self.completion,
        }
    }
}

impl CommandExec {
    /// A command on `port`, not yet sent, that must be done within
    /// `timeout_ms` milliseconds.
    pub fn new(port: u8, timeout_ms: u32) -> (r: CommandExec)
        ensures
            r@.wf(),
            r@ == (CommandView {
                port,
                deadline_ticks: ticks_from_millis(timeout_ms as u64),
                phase: CommandPhase::Send,
                completion: None,
            }),
    {
        let deadline_ticks = millis_to_ticks(timeout_ms);
        CommandExec { deadline_ticks, port, phase: CommandPhase::Send, completion: None }
    }

    /// The deadline for the whole command, in timer ticks.
    pub fn deadline_ticks(&self) -> (r: u64)
        ensures
            r == self@.deadline_ticks,
    {
        self.deadline_ticks
    }

    /// The port the command is addressed to.
    pub fn port(&self) -> (r: u8)
        ensures
            r == self@.port,
    {
        self.port
    }

    /// The current phase.
    pub fn phase(&self) -> (r: CommandPhase)
        ensures
            r == self@.phase,
    {
        self.phase
    }

    /// The snapshot that ended the wait, once one has.
    pub fn completion(&self) -> (r: Option<Snapshot>)
        ensures
            r == self@.completion,
    {
        self.completion
    }

    /// The command went out on the bus: from here on it waits, without the
    /// lock. Outside the send phase nothing changes.
    pub fn sent(&mut self)
        requires
            old(self)@.wf(),
        ensures
            final(self)@.wf(),
            old(self)@.phase is Send ==> final(self)@ == (CommandView {
                phase: CommandPhase::Wait,
                ..old(self)@
            }),
            !(old(self)@.phase is Send) ==> final(self)@ == old(self)@,
    {
        if self.phase == CommandPhase::Send {
            self.phase = CommandPhase::Wait;
        }
    }

    /// Offers a published snapshot to a waiting command. Only one that
    /// reports this port's completion ends the wait; events of other kinds
    /// or of other ports leave it waiting. Returns whether the result is
    /// now to be read.
    pub fn snapshot_observed(&mut self, s: &Snapshot) -> (r: bool)
        requires
            old(self)@.wf(),
        ensures
            final(self)@.wf(),
            r == (old(self)@.phase is Wait && completes_command(*s, old(self)@.port as int)),
            r ==> final(self)@ == (CommandView {
                phase: CommandPhase::Read,
                completion: Some(*s),
                ..old(self)@
            }),
            !r ==> final(self)@ == old(self)@,
    {
        if self.phase == CommandPhase::Wait && command_completed(s, self.port) {
            self.phase = CommandPhase::Read;
            self.completion = Some(*s);
            true
        } else {
            false
        }
    }

    /// The result has been read. Outside the read phase nothing changes.
    pub fn result_read(&mut self)
        requires
            old(self)@.wf(),
        ensures
            final(self)@.wf(),
            old(self)@.phase is Read ==> final(self)@ == (CommandView {
                phase: CommandPhase::Done,
                ..old(self)@
            }),
            !(old(self)@.phase is Read) ==> final(self)@ == old(self)@,
    {
        if self.phase == CommandPhase::Read {
            self.phase = CommandPhase::Done;
        }
    }

    /// The deadline passed before the command was done: the command ends
    /// with a timeout, which is reported, never retried. A command already
    /// done keeps its result.
    pub fn deadline_expired(&mut self) -> (r: Result<(), PdError>)
        requires
            old(self)@.wf(),
        ensures
            final(self)@.wf(),
            old(self)@.phase is Done ==> r is Ok && final(self)@ == old(self)@,
            !(old(self)@.phase is Done) ==> r == Err::<(), PdError>(PdError::Timeout)
                && final(self)@ == (CommandView {
                phase: CommandPhase::TimedOut,
                ..old(self)@
            }),
    {
        if self.phase == CommandPhase::Done {
            Ok(())
        } else {
            self.phase = CommandPhase::TimedOut;
            Err(PdError::Timeout)
        }
    }
}

/// The result of a command is read only after a snapshot reporting that
/// port's completion has been observed: every state from which the read
/// happens, or that follows it, carries such a snapshot.
pub proof fn lemma_read_follows_completion(v: CommandView)
    requires
        v.wf(),
        v.phase is Read || v.phase is Done,
    ensures
        v.completion matches Some(s) && completes_command(s, v.port as int),
{
}

/// The wait for completion holds no device lock, so a deadline that ends
/// a waiting command cancels no bus transaction and leaves the lock free;
/// it ends with a timeout.
pub proof fn lemma_wait_is_lock_free(v: CommandView)
    requires
        v.wf(),
        v.phase is Wait,
    ensures
        !v.holds_lock(),
        !(CommandView { phase: CommandPhase::TimedOut, ..v }).holds_lock(),
{
}

} // verus!
