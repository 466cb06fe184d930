use std::collections::HashMap;
use vstd::prelude::*;

verus! {

broadcast use vstd::std_specs::hash::group_hash_axioms;

/// Why an acquisition could not be recorded.
#[derive(Clone, Copy, Debug, PartialEq, Eq, Structural)]
pub enum AcquireError {
    /// The address is already held by an outstanding buffer.
    AddressInUse,
}

/// Why a release was refused.
#[derive(Clone, Copy, Debug, PartialEq, Eq, Structural)]
pub enum ReleaseError {
    /// No outstanding buffer starts at the address.
    NotOutstanding,
    /// The capacity differs from the one the buffer was acquired with.
    CapacityMismatch,
}

/// What a release of (`address`, `capacity`) answers when the outstanding
/// buffers are `m`.
pub open spec fn release_result(m: Map<usize, usize>, address: usize, capacity: usize) -> Result<
    (),
    ReleaseError,
> {
    if !m.contains_key(address) {
        Err(ReleaseError::NotOutstanding)
    } else if m[address] != capacity {
        Err(ReleaseError::CapacityMismatch)
    } else {
        Ok(())
    }
}

/// The number of bytes actually reserved for a request of `size` bytes: a
/// zero-byte request still gets one byte, so that every outstanding buffer
/// has an address of its own.
pub open spec fn backing_size_of(size: usize) -> usize {
    if size == 0 {
        1
    } else {
        size
    }
}

/// Bytes reserved for a guest buffer requested with `size` bytes.
pub fn backing_size(size: usize) -> (r: usize)
    ensures
        r == backing_size_of(size),
        r >= 1,
{
    if size == 0 {
        1
    } else {
        size
    }
}

/// Side table of the guest buffers handed to the host: each outstanding
/// buffer's address, mapped to the capacity it was acquired with.
pub struct AllocationTable {
    outstanding: HashMap<usize, usize>,
}

impl View for AllocationTable {
    type V = Map<usize, usize>;

    closed spec fn view(&self) -> Map<usize, usize> {
        self.outstanding@
    }
}

impl AllocationTable {
    /// A table with no outstanding buffer.
    pub fn new() -> (r: AllocationTable)
        ensures
            r@ == Map::<usize, usize>::empty(),
    {
        AllocationTable { outstanding: HashMap::new() }
    }

    /// Records that the buffer at `address` was acquired with `capacity`
    /// bytes. An address that is already outstanding is refused and the
    /// table is left as it was.
    pub fn record(&mut self, address: usize, capacity: usize) -> (r: Result<(), AcquireError>)
        ensures
            old(self)@.contains_key(address) ==> r == Err::<(), AcquireError>(
                AcquireError::AddressInUse,
            ) && final(self)@ == old(self)@,
            !old(self)@.contains_key(address) ==> r is Ok && final(self)@ == old(self)@.insert(
                address,
                capacity,
            ),
    {
        if self.outstanding.contains_key(&address) {
            Err(AcquireError::AddressInUse)
        } else {
            self.outstanding.insert(address, capacity);
            Ok(())
        }
    }

    /// Checks a release of the buffer at `address` with `capacity` bytes
    /// against the table, and on success forgets the buffer. A release of
    /// an address that is not outstanding, or with a capacity other than
    /// the one acquired, is refused and the table is left as it was.
    pub fn release(&mut self, address: usize, capacity: usize) -> (r: Result<(), ReleaseError>)
        ensures
            r == release_result(old(self)@, address, capacity),
            r is Ok ==> final(self)@ == old(self)@.remove(address),
            r is Err ==> final(self)@ == old(self)@,
    {
        match self.outstanding.get(&address) {
            None => Err(ReleaseError::NotOutstanding),
            Some(c) => {
                if *c != capacity {
                    Err(ReleaseError::CapacityMismatch)
                } else {
                    self.outstanding.remove(&address);
                    Ok(())
                }
            },
        }
    }

    /// The capacity that the buffer at `address` was acquired with, if it
    /// is outstanding.
    pub fn capacity_of(&self, address: usize) -> (r: Option<usize>)
        ensures
            r matches Some(c) ==> self@.contains_key(address) && self@[address] == c,
            r is None <==> !self@.contains_key(address),
    {
        match self.outstanding.get(&address) {
            Some(c) => Some(*c),
            None => None,
        }
    }

    /// Whether the buffer at `address` is outstanding.
    pub fn is_outstanding(&self, address: usize) -> (r: bool)
        ensures
            r == self@.contains_key(address),
    {
        self.outstanding.contains_key(&address)
    }
}

/// Acquiring a buffer and at once releasing it with the same capacity
/// succeeds and leaves the table exactly as it was before: nothing leaks and
/// nothing is released twice.
pub proof fn lemma_acquire_release_restores(m: Map<usize, usize>, address: usize, size: usize)
    requires
        !m.contains_key(address),
    ensures
        release_result(m.insert(address, size), address, size) == Ok::<(), ReleaseError>(()),
        m.insert(address, size).remove(address) == m,
        !m.insert(address, size).remove(address).contains_key(address),
{
    assert(m.insert(address, size).remove(address) =~= m);
}

/// Releasing a buffer with a capacity other than the one it was acquired
/// with is flagged as a mismatch, and the buffer stays outstanding.
pub proof fn lemma_mismatched_release_flagged(
    m: Map<usize, usize>,
    address: usize,
    size: usize,
    capacity: usize,
)
    requires
        capacity != size,
    ensures
        release_result(m.insert(address, size), address, capacity) == Err::<(), ReleaseError>(
            ReleaseError::CapacityMismatch,
        ),
{
}

/// A buffer that was released can not be released a second time.
pub proof fn lemma_no_double_release(m: Map<usize, usize>, address: usize, capacity: usize)
    requires
        release_result(m, address, capacity) is Ok,
    ensures
        release_result(m.remove(address), address, capacity) == Err::<(), ReleaseError>(
            ReleaseError::NotOutstanding,
        ),
{
}

} // verus!
