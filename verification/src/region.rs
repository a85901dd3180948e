//! Region allocator: contiguous byte buffers shared across the guest/host
//! boundary.
//!
//! The host obtains a region from `allocate`, fills it with input bytes, and
//! either hands it to the invocation entry point or returns it through
//! `deallocate`.  Ownership is transferred explicitly, never inferred: a
//! region carries a tag saying which side currently controls it, and the
//! operations reject a region that is not in the expected ownership state.
//! The one caller contract that cannot be inferred from the value itself —
//! `deallocate` must be given the exact size used to allocate — is stated as
//! a precondition.

use vstd::prelude::*;

verus! {

/// Which side of the boundary currently controls a region.
#[derive(Clone, Copy, PartialEq, Eq, Structural)]
pub enum Owner {
    /// The guest holds the region for its own use.
    Guest,
    /// Control was relinquished to the host, which may fill the region and
    /// hand it back (to the entry point, or through `deallocate`).
    Host,
}

/// A contiguous byte buffer identified by its contents and length.  No type
/// is attached; the meaning of the bytes is defined by the consumer.
pub struct Region {
    bytes: Vec<u8>,
    owner: Owner,
}

impl View for Region {
    type V = Seq<u8>;

    closed spec fn view(&self) -> Seq<u8> {
        self.bytes@
    }
}

impl Region {
    /// The side that currently controls this region.
    pub closed spec fn owner(&self) -> Owner {
        self.owner
    }

    /// What a write of `data` leaves in a region that held `contents`: the
    /// written prefix, then the remainder of the old contents.
    pub open spec fn stored(contents: Seq<u8>, data: Seq<u8>) -> Seq<u8> {
        data + contents.skip(data.len() as int)
    }

    /// Writes `data` at the start of the region.  This is the host side
    /// filling a region it was handed, so the region must be under host
    /// control and the data must fit.
    pub fn write(&mut self, data: &Vec<u8>)
        requires
            old(self).owner() == Owner::Host,
            data@.len() <= old(self)@.len(),
        ensures
            final(self)@ == Self::stored(old(self)@, data@),
            final(self).owner() == old(self).owner(),
    {
        let mut i: usize = 0;
        while i < data.len()
            invariant
                i <= data@.len(),
                data@.len() <= self.bytes@.len(),
                self.bytes@.len() == old(self)@.len(),
                self.owner == old(self).owner(),
                forall|j: int| 0 <= j < i ==> self.bytes@[j] == data@[j],
                forall|j: int| i <= j < self.bytes@.len() ==> self.bytes@[j] == old(self)@[j],
            decreases data@.len() - i,
        {
            self.bytes.set(i, data[i]);
            i += 1;
        }
        proof {
            assert(self.bytes@ =~= Self::stored(old(self)@, data@));
        }
    }

    /// An owned copy of the first `count` bytes of the region.
    pub fn read_prefix(&self, count: usize) -> (r: Vec<u8>)
        requires
            count as nat <= self@.len(),
        ensures
            r@ == self@.take(count as int),
    {
        let mut out: Vec<u8> = Vec::new();
        let mut i: usize = 0;
        while i < count
            invariant
                i <= count,
                count as nat <= self@.len(),
                out@ == self@.take(i as int),
            decreases count - i,
        {
            out.push(self.bytes[i]);
            proof {
                assert(self@.take((i + 1) as int) =~= self@.take(i as int).push(self@[i as int]));
            }
            i += 1;
        }
        out
    }

    /// An owned copy of the region's bytes.
    pub fn read(&self) -> (r: Vec<u8>)
        ensures
            r@ == self@,
    {
        let r = self.read_prefix(self.bytes.len());
        proof {
            assert(self@.take(self@.len() as int) =~= self@);
        }
        r
    }

    /// The region's length in bytes.
    pub fn len(&self) -> (r: usize)
        ensures
            r as nat == self@.len(),
    {
        self.bytes.len()
    }

    /// Wraps guest-built bytes (such as a result payload) as a guest-owned
    /// region.
    pub fn carrying(bytes: Vec<u8>) -> (r: Region)
        ensures
            r@ == bytes@,
            r.owner() == Owner::Guest,
    {
        Region { bytes, owner: Owner::Guest }
    }

    /// Relinquishes control of a guest-owned region to the host.  After this
    /// hand-off the guest makes no further claim on the region.
    pub fn transfer_to_host(self) -> (r: Region)
        requires
            self.owner() == Owner::Guest,
        ensures
            r@ == self@,
            r.owner() == Owner::Host,
    {
        Region { bytes: self.bytes, owner: Owner::Host }
    }

    /// Takes the bytes out of a region the host handed back, giving the
    /// guest an owned buffer (the decode step of an invocation).
    pub fn into_bytes(self) -> (r: Vec<u8>)
        ensures
            r@ == self@,
    {
        self.bytes
    }
}

/// Produces a region of `size` bytes and relinquishes control of it to the
/// host.  The region stays alive beyond this call's own scope: it is owned by
/// the caller until an explicit `deallocate` or a hand-off back to the guest.
/// Nothing is promised of the initial contents beyond the length.
pub fn allocate(size: usize) -> (r: Region)
    ensures
        r@.len() == size as nat,
        r.owner() == Owner::Host,
{
    let mut bytes: Vec<u8> = Vec::new();
    while bytes.len() < size
        invariant
            bytes@.len() <= size as nat,
        decreases size - bytes.len(),
    {
        bytes.push(0u8);
    }
    Region { bytes, owner: Owner::Host }
}

/// Reclaims a region the host is done with, releasing its memory.  The size
/// must exactly match the size used to allocate the region; that is a caller
/// contract, stated here as a precondition rather than checked at run time.
pub fn deallocate(region: Region, size: usize)
    requires
        region.owner() == Owner::Host,
        size as nat == region@.len(),
{
    let _ = region;
}

/// Round-trip law: writing `data` into a region of exactly `data.len()`
/// bytes leaves the region holding exactly `data`, whatever it held before,
/// so a subsequent read returns the written bytes unchanged.
pub proof fn lemma_region_round_trip(contents: Seq<u8>, data: Seq<u8>)
    requires
        data.len() == contents.len(),
    ensures
        Region::stored(contents, data) == data,
{
    assert(Region::stored(contents, data) =~= data);
}

} // verus!
