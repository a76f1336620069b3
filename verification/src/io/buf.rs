use crate::fault::Fault;
use vstd::prelude::*;

verus! {

/// A bounds-checked sequential writer over a fixed-capacity byte region.
///
/// The region's length never changes; a position marks how much of it has
/// been filled. Writing more than the space left fails without touching
/// the region.
pub struct Buf {
    bytes: Vec<u8>,
    position: usize,
}

impl View for Buf {
    type V = Seq<u8>;

    closed spec fn view(&self) -> Seq<u8> {
        self.bytes@
    }
}

impl Buf {
    /// The number of bytes already written.
    pub closed spec fn spec_pos(&self) -> int {
        self.position as int
    }

    /// The position stays within the region: never negative, never past
    /// its end.
    pub open spec fn wf(&self) -> bool {
        0 <= self.spec_pos() <= self@.len()
    }

    /// The number of bytes still free.
    pub open spec fn spec_remaining(&self) -> int {
        self@.len() - self.spec_pos()
    }

    /// A cursor over `bytes`, positioned at its start.
    pub fn new(bytes: Vec<u8>) -> (r: Buf)
        ensures
            r.wf(),
            r@ == bytes@,
            r.spec_pos() == 0,
    {
        Buf { bytes, position: 0 }
    }

    /// Remaining bytes in this buffer.
    pub fn remaining(&self) -> (r: usize)
        requires
            self.wf(),
        ensures
            r == self.spec_remaining(),
    {
        self.bytes.len() - self.position
    }

    /// Advance `amount` bytes.
    ///
    /// Advancing past the end of the region is a structural fault of the
    /// build, not a runtime condition, so it is ruled out up front; for a
    /// caller outside the proofs the body still refuses it with an error
    /// value rather than moving the position out of the region.
    pub fn advance(&mut self, amount: usize) -> (r: Result<(), Fault>)
        requires
            old(self).wf(),
            amount <= old(self).spec_remaining(),
        ensures
            final(self).wf(),
            final(self)@ == old(self)@,
            r is Ok,
            final(self).spec_pos() == old(self).spec_pos() + amount,
    {
        if amount > self.bytes.len() - self.position {
            return Err(Fault::CapacityExceeded);
        }
        self.position = self.position + amount;
        Ok(())
    }

    /// Write `bytes` at the current position and advance past them.
    ///
    /// Writing more than the space left is a structural fault of the
    /// build, not a runtime condition, so it is ruled out up front; for a
    /// caller outside the proofs the body still refuses an overlong write
    /// with an error value, leaving the region untouched, rather than
    /// truncating or reporting success.
    pub fn write(&mut self, bytes: &[u8]) -> (r: Result<(), Fault>)
        requires
            old(self).wf(),
            bytes@.len() <= old(self).spec_remaining(),
        ensures
            final(self).wf(),
            final(self)@.len() == old(self)@.len(),
            r is Ok,
            final(self).spec_pos() == old(self).spec_pos() + bytes@.len(),
            final(self)@ == old(self)@.take(old(self).spec_pos()) + bytes@ + old(self)@.skip(
                old(self).spec_pos() + bytes@.len(),
            ),
    {
        if bytes.len() > self.bytes.len() - self.position {
            return Err(Fault::CapacityExceeded);
        }
        let mut i: usize = 0;
        while i < bytes.len()
            invariant
                i <= bytes@.len(),
                self.position == old(self).spec_pos(),
                self.position + bytes@.len() <= self.bytes@.len(),
                self.position + bytes@.len() <= usize::MAX,
                self.bytes@.len() == old(self)@.len(),
                forall|j: int| 0 <= j < self.position ==> self.bytes@[j] == old(self)@[j],
                forall|j: int| 0 <= j < i ==> self.bytes@[self.position + j] == bytes@[j],
                forall|j: int|
                    self.position + i <= j < self.bytes@.len() ==> self.bytes@[j] == old(self)@[j],
            decreases bytes@.len() - i,
        {
            self.bytes.set(self.position + i, bytes[i]);
            i = i + 1;
        }
        proof {
            assert(self.bytes@ =~= old(self)@.take(old(self).spec_pos()) + bytes@ + old(
                self,
            )@.skip(old(self).spec_pos() + bytes@.len()));
        }
        self.position = self.position + bytes.len();
        Ok(())
    }

    /// Give back the region, with everything written in place.
    pub fn into_bytes(self) -> (r: Vec<u8>)
        ensures
            r@ == self@,
    {
        self.bytes
    }
}

} // verus!
