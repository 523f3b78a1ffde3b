//! Allocation of loopback ports that are unique within one process.
//!
//! A [`PortAllocator`] keeps a cursor into the 16-bit port space and only
//! ever moves it upward; every port it hands out lies strictly below the
//! cursor afterwards, so no port is handed out twice by the same allocator.
//! Whether a candidate port is actually bindable is decided by a probe
//! closure supplied by the caller, which stands for the operating system's
//! answer to "can a loopback listener bind to this port right now?".

use vstd::prelude::*;

verus! {

/// Lowest port the allocator ever hands out; ports below it are left to
/// well-known services.
pub const FIRST_PORT: u16 = 1000;

/// Upper bound of the scanned port space. The scan range is half-open, so
/// this port itself is never probed or handed out.
pub const PORT_LIMIT: u16 = 65535;

/// The ways an allocation can fail.
#[derive(Clone, Copy, Debug, PartialEq, Eq, Structural)]
pub enum PortError {
    /// The process-wide guard around the allocator was poisoned by an
    /// earlier failure; fatal for further allocation in this process.
    LockError,
    /// No bindable port remains in the scan range.
    PortExhausted,
}

/// Hands out loopback ports that are unique within one process.
///
/// The cursor is the next port to try; it starts at [`FIRST_PORT`] and never
/// moves backward. The ghost sequence `granted` records every port returned
/// so far, in call order.
pub struct PortAllocator {
    cursor: u16,
    granted: Ghost<Seq<u16>>,
}

impl PortAllocator {
    /// The next port the allocator will try.
    pub closed spec fn cursor(&self) -> u16 {
        self.cursor
    }

    /// Every port this allocator has returned, in call order.
    pub closed spec fn granted(&self) -> Seq<u16> {
        self.granted@
    }

    /// Well-formedness: the cursor never lies below [`FIRST_PORT`], and the
    /// granted ports are strictly increasing and all strictly below the
    /// cursor. The last clause is the uniqueness invariant: a port once
    /// granted can never be offered again, because the scan starts at the
    /// cursor.
    pub open spec fn wf(&self) -> bool {
        &&& FIRST_PORT <= self.cursor()
        &&& forall|i: int|
            0 <= i < self.granted().len() ==> FIRST_PORT <= #[trigger] self.granted()[i]
                < self.cursor()
        &&& forall|i: int, j: int|
            0 <= i < j < self.granted().len() ==> self.granted()[i] < self.granted()[j]
    }

    /// A fresh allocator whose cursor starts at [`FIRST_PORT`].
    pub fn new() -> (a: PortAllocator)
        ensures
            a.wf(),
            a.cursor() == FIRST_PORT,
            a.granted() == Seq::<u16>::empty(),
    {
        PortAllocator { cursor: FIRST_PORT, granted: Ghost(Seq::empty()) }
    }

    /// The next port the allocator will try.
    pub fn current_cursor(&self) -> (c: u16)
        ensures
            c == self.cursor(),
    {
        self.cursor
    }

    /// Moves the cursor forward, for instance to model a partly used-up
    /// port space. The cursor never moves backward, so the target may not
    /// lie below it.
    pub fn advance_cursor_to(&mut self, target: u16)
        requires
            old(self).wf(),
            old(self).cursor() <= target,
        ensures
            final(self).wf(),
            final(self).cursor() == target,
            final(self).granted() == old(self).granted(),
    {
        self.cursor = target;
        proof {
            assert forall|i: int|
                0 <= i < self.granted().len() implies FIRST_PORT <= #[trigger] self.granted()[i]
                < self.cursor() by {
                assert(self.granted()[i] == old(self).granted()[i]);
            }
        }
    }

    /// Returns a port that the probe accepted and that no earlier call on
    /// this allocator has returned, then advances the cursor past it.
    ///
    /// The scan runs upward from the cursor over `cursor..PORT_LIMIT`; the
    /// first port the probe accepts wins, every lower candidate in the range
    /// having been refused by the probe during this call. On success the
    /// cursor moves to the found port plus one, so the new port is strictly
    /// greater than every port granted before; on failure — once the range
    /// holds no acceptable port, in particular once the cursor has reached
    /// [`PORT_LIMIT`] — the allocator is left exactly as it was, and the
    /// error is [`PortError::PortExhausted`].
    pub fn get_unique_free_port<F: Fn(u16) -> bool>(&mut self, probe: F) -> (r: Result<
        u16,
        PortError,
    >)
        requires
            old(self).wf(),
            forall|p: u16| old(self).cursor() <= p < PORT_LIMIT ==> call_requires(probe, (p,)),
        ensures
            final(self).wf(),
            match r {
                Ok(p) => {
                    &&& old(self).cursor() <= p < PORT_LIMIT
                    &&& call_ensures(probe, (p,), true)
                    &&& forall|q: u16|
                        old(self).cursor() <= q < p ==> call_ensures(probe, (q,), false)
                    &&& forall|i: int|
                        0 <= i < old(self).granted().len() ==> #[trigger] old(self).granted()[i]
                            < p
                    &&& final(self).cursor() == p + 1
                    &&& final(self).granted() == old(self).granted().push(p)
                },
                Err(e) => {
                    &&& e == PortError::PortExhausted
                    &&& *final(self) == *old(self)
                    &&& forall|q: u16|
                        old(self).cursor() <= q < PORT_LIMIT ==> call_ensures(probe, (q,), false)
                },
            },
            old(self).cursor() == PORT_LIMIT ==> r is Err,
    {
        let start: u16 = self.cursor;
        let result = get_free_port(start, PORT_LIMIT, probe);
        if let Ok(port) = result {
            self.cursor = port + 1;
            proof {
                self.granted@ = self.granted@.push(port);
            }
        }
        result
    }
}

/// Scans the half-open range `low..high` in ascending order and returns the
/// first port the probe accepts; the first success wins, biasing toward
/// lower port numbers. A probe failure on one candidate only moves the scan
/// to the next; only exhaustion of the whole range (including an empty
/// range, where the probe is never called) is reported, as
/// [`PortError::PortExhausted`].
///
/// The probe's outcome may differ between calls on the same port, so the
/// contract records exactly what the probe answered during this scan: the
/// returned port was accepted, and every port below it in the range was
/// refused.
pub fn get_free_port<F: Fn(u16) -> bool>(low: u16, high: u16, probe: F) -> (r: Result<
    u16,
    PortError,
>)
    requires
        forall|p: u16| low <= p < high ==> call_requires(probe, (p,)),
    ensures
        match r {
            Ok(p) => {
                &&& low <= p < high
                &&& call_ensures(probe, (p,), true)
                &&& forall|q: u16| low <= q < p ==> call_ensures(probe, (q,), false)
            },
            Err(e) => {
                &&& e == PortError::PortExhausted
                &&& forall|q: u16| low <= q < high ==> call_ensures(probe, (q,), false)
            },
        },
        low >= high ==> r is Err,
{
    if low >= high {
        return Err(PortError::PortExhausted);
    }
    let mut p: u16 = low;
    while p < high
        invariant
            low <= p <= high,
            forall|q: u16| low <= q < high ==> call_requires(probe, (q,)),
            forall|q: u16| low <= q < p ==> call_ensures(probe, (q,), false),
        decreases high - p,
    {
        if probe(p) {
            return Ok(p);
        }
        p = p + 1;
    }
    Err(PortError::PortExhausted)
}

/// Uniqueness: the ports granted by one allocator are pairwise distinct,
/// however many allocations have succeeded.
pub proof fn lemma_granted_pairwise_distinct(a: &PortAllocator)
    requires
        a.wf(),
    ensures
        forall|i: int, j: int|
            0 <= i < a.granted().len() && 0 <= j < a.granted().len() && i != j
                ==> a.granted()[i] != a.granted()[j],
{
    assert forall|i: int, j: int|
        0 <= i < a.granted().len() && 0 <= j < a.granted().len() && i != j implies a.granted()[i]
        != a.granted()[j] by {
        if i < j {
            assert(a.granted()[i] < a.granted()[j]);
        } else {
            assert(a.granted()[j] < a.granted()[i]);
        }
    }
}

/// Monotonicity: the granted ports are strictly increasing in call order.
pub proof fn lemma_granted_strictly_increasing(a: &PortAllocator)
    requires
        a.wf(),
    ensures
        forall|i: int, j: int|
            0 <= i < j < a.granted().len() ==> a.granted()[i] < a.granted()[j],
{
}

/// Range floor: every granted port is at least [`FIRST_PORT`]; in
/// particular the first successful allocation of a fresh allocator returns
/// a port of at least [`FIRST_PORT`].
pub proof fn lemma_granted_at_least_first_port(a: &PortAllocator)
    requires
        a.wf(),
    ensures
        forall|i: int| 0 <= i < a.granted().len() ==> #[trigger] a.granted()[i] >= FIRST_PORT,
{
}

/// Cursor dominance: the cursor lies strictly above every granted port, so
/// the next scan can never revisit one of them.
pub proof fn lemma_cursor_above_granted(a: &PortAllocator)
    requires
        a.wf(),
    ensures
        forall|i: int| 0 <= i < a.granted().len() ==> #[trigger] a.granted()[i] < a.cursor(),
{
}

} // verus!
