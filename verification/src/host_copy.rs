//! Copies between two byte ranges that the host addresses.

use vstd::prelude::*;

verus! {

/// A slice as plain values: the address of its first element, and how many
/// elements it has.
#[derive(Debug, Clone, Copy, PartialEq, Eq, Structural)]
pub struct DataSlice {
    pub data: usize,
    pub len: usize,
}

/// A copy of the first `nbytes` bytes of one slice to the start of another.
#[derive(Debug, Clone, Copy, PartialEq, Eq, Structural)]
pub struct HostCopy {
    pub from: DataSlice,
    pub to: DataSlice,
    pub nbytes: usize,
}

impl HostCopy {
    /// What the destination holds afterwards.
    pub open spec fn apply(self, to: Seq<u8>, from: Seq<u8>) -> Seq<u8> {
        from.take(self.nbytes as int) + to.skip(self.nbytes as int)
    }

    /// Makes the copy on the bytes of the two slices.
    pub fn run(&self, to: &mut [u8], from: &[u8])
        requires
            old(to)@.len() == self.to.len,
            from@.len() == self.from.len,
            self.nbytes <= self.to.len,
            self.nbytes <= self.from.len,
        ensures
            final(to)@ == self.apply(old(to)@, from@),
            final(to)@.len() == old(to)@.len(),
            forall|i: int| 0 <= i < self.nbytes ==> #[trigger] final(to)@[i] == from@[i],
            forall|i: int|
                self.nbytes <= i < final(to)@.len() ==> #[trigger] final(to)@[i] == old(to)@[i],
    {
        let mut i: usize = 0;
        while i < self.nbytes
            invariant
                i <= self.nbytes <= from@.len(),
                self.nbytes <= to@.len(),
                to@.len() == old(to)@.len(),
                forall|k: int| 0 <= k < i ==> to@[k] == from@[k],
                forall|k: int| i <= k < to@.len() ==> to@[k] == old(to)@[k],
            decreases self.nbytes - i,
        {
            to[i] = from[i];
            i = i + 1;
        }
        assert(to@ =~= self.apply(old(to)@, from@));
    }
}

/// A copy puts each of its bytes where the source has it, leaves every byte
/// after them as it was, and changes no length.
pub proof fn law_copy_moves_each_byte(copy: HostCopy, to: Seq<u8>, from: Seq<u8>, i: int)
    requires
        copy.nbytes <= to.len(),
        copy.nbytes <= from.len(),
    ensures
        copy.apply(to, from).len() == to.len(),
        0 <= i < copy.nbytes ==> copy.apply(to, from)[i] == from[i],
        copy.nbytes <= i < to.len() ==> copy.apply(to, from)[i] == to[i],
{
}

} // verus!
