//! The exclusive-access monitor behind LDREX/STREX. On this single
//! processor a reservation records only that a load-exclusive happened;
//! a store-exclusive succeeds iff a reservation is live, and consumes it.

use vstd::prelude::*;

verus! {

pub struct ExclusiveMonitors {
    reserved: bool,
}

/// The outcome of a store-exclusive check against a monitor state: a
/// misaligned address is a usage fault; otherwise the store passes iff a
/// reservation is live.
pub open spec fn pass_of(reserved: bool, address: u32, size: u32) -> Result<bool, ()> {
    if address % size != 0 {
        Err(())
    } else {
        Ok(reserved)
    }
}

impl ExclusiveMonitors {
    /// Whether a load-exclusive reservation is live.
    pub closed spec fn is_reserved(self) -> bool {
        self.reserved
    }

    pub fn new() -> (r: ExclusiveMonitors)
        ensures
            !r.is_reserved(),
    {
        ExclusiveMonitors { reserved: false }
    }

    /// A load-exclusive takes the reservation.
    pub fn set_exclusive_monitors(&mut self, _address: u32, _size: u32)
        ensures
            final(self).is_reserved(),
    {
        self.reserved = true;
    }

    /// The store-exclusive check: faults on a misaligned address, else
    /// reports whether the reservation was live and consumes it.
    pub fn exclusive_monitors_pass(&mut self, address: u32, size: u32) -> (r: Result<bool, ()>)
        requires
            size == 1 || size == 2 || size == 4,
        ensures
            r == pass_of(old(self).is_reserved(), address, size),
            address % size == 0 ==> !final(self).is_reserved(),
            address % size != 0 ==> final(self).is_reserved() == old(self).is_reserved(),
    {
        if address % size != 0 {
            return Err(());
        }
        let passed = self.reserved;
        if passed {
            self.reserved = false;
        }
        Ok(passed)
    }

    /// Drops any reservation: CLREX, exception entry and return.
    pub fn clear_exclusive_local(&mut self)
        ensures
            !final(self).is_reserved(),
    {
        self.reserved = false;
    }
}

/// After the reservation is cleared, a store-exclusive to any aligned
/// address fails.
pub proof fn lemma_clrex_blocks_strex(m: ExclusiveMonitors, address: u32, size: u32)
    requires
        !m.is_reserved(),
        size == 1 || size == 2 || size == 4,
        address % size == 0,
    ensures
        pass_of(m.is_reserved(), address, size) == Ok::<bool, ()>(false),
{
}

} // verus!
