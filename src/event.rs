//! Per-port interrupt event bitsets and the snapshots that carry one per
//! port slot.
use vstd::prelude::*;

use crate::MAX_SUPPORTED_PORTS;

verus! {

/// Bit that the device sets in a port's event bitset when the command issued
/// on that port has completed.
pub const CMD_1_COMPLETED_BIT: u128 = 0x4000_0000;

/// One port's pending interrupt causes, as read (and cleared) from the device.
#[derive(Clone, Copy, Debug, PartialEq, Eq, Structural)]
pub struct IntEventBus1 {
    pub bits: u128,
}

/// One event bitset per port slot, published as a unit.
pub type Snapshot = [IntEventBus1; MAX_SUPPORTED_PORTS];

impl IntEventBus1 {
    pub open spec fn is_zero(self) -> bool {
        self.bits == 0
    }

    pub open spec fn spec_cmd_1_completed(self) -> bool {
        self.bits & CMD_1_COMPLETED_BIT != 0
    }

    /// The empty bitset: no cause pending.
    pub fn new_zero() -> (r: IntEventBus1)
        ensures
            r.is_zero(),
    {
        IntEventBus1 { bits: 0 }
    }

    /// Whether the "command completed" cause is set.
    pub fn cmd_1_completed(&self) -> (r: bool)
        ensures
            r == self.spec_cmd_1_completed(),
    {
        self.bits & CMD_1_COMPLETED_BIT != 0
    }
}

/// Every slot of the snapshot is empty.
pub open spec fn snapshot_is_zero(s: Snapshot) -> bool {
    forall|i: int| 0 <= i < MAX_SUPPORTED_PORTS ==> (#[trigger] s[i]).is_zero()
}

/// The snapshot reports a completed command on `port`.
pub open spec fn completes_command(s: Snapshot, port: int) -> bool {
    0 <= port < MAX_SUPPORTED_PORTS && s[port].spec_cmd_1_completed()
}

/// A snapshot with every slot empty.
pub fn zero_snapshot() -> (r: Snapshot)
    ensures
        snapshot_is_zero(r),
{
    let r = [IntEventBus1::new_zero(); MAX_SUPPORTED_PORTS];
    r
}

/// Whether the predicate `f`, given a port id and that port's bitset, holds
/// for some slot of the snapshot. Slots are tried from port 0 upwards.
pub fn any_port_matches<F: Fn(u8, IntEventBus1) -> bool>(s: &Snapshot, f: &F) -> (r: bool)
    requires
        forall|p: u8, e: IntEventBus1| #[trigger] f.requires((p, e)),
    ensures
        r ==> exists|i: int|
            0 <= i < MAX_SUPPORTED_PORTS && #[trigger] f.ensures((i as u8, s[i]), true),
        !r ==> forall|i: int|
            0 <= i < MAX_SUPPORTED_PORTS ==> #[trigger] f.ensures((i as u8, s[i]), false),
{
    let mut i: usize = 0;
    while i < MAX_SUPPORTED_PORTS
        invariant
            i <= MAX_SUPPORTED_PORTS,
            forall|p: u8, e: IntEventBus1| #[trigger] f.requires((p, e)),
            forall|j: int| 0 <= j < i ==> #[trigger] f.ensures((j as u8, s[j]), false),
        decreases MAX_SUPPORTED_PORTS - i,
    {
        let hit = f(i as u8, s[i]);
        if hit {
            assert(f.ensures((i as u8, s[i as int]), true));
            return true;
        }
        i = i + 1;
    }
    false
}

/// Whether the snapshot reports a completed command on `port`: the
/// completion test of the command protocol.
pub fn command_completed(s: &Snapshot, port: u8) -> (r: bool)
    ensures
        r == completes_command(*s, port as int),
{
    let mut i: usize = 0;
    while i < MAX_SUPPORTED_PORTS
        invariant
            i <= MAX_SUPPORTED_PORTS,
            forall|j: int| 0 <= j < i ==> !(j == port && #[trigger] s[j].spec_cmd_1_completed()),
        decreases MAX_SUPPORTED_PORTS - i,
    {
        if i == port as usize && s[i].cmd_1_completed() {
            return true;
        }
        i = i + 1;
    }
    false
}

} // verus!
