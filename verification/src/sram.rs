//! Battery-backed save RAM carried on a cartridge board.

use vstd::prelude::*;

verus! {

/// A flat save-RAM array.  Out-of-range accesses answer like an open bus
/// instead of failing, matching the real board.
#[derive(Debug, Clone)]
pub struct SRam {
    pub data: Vec<u8>,
}

impl SRam {
    /// A zero-filled save RAM of `length` bytes.
    pub fn with_size(length: usize) -> (r: SRam)
        ensures
            r.data@ == Seq::<u8>::new(length as nat, |i: int| 0u8),
    {
        let mut data: Vec<u8> = Vec::new();
        let mut i: usize = 0;
        while i < length
            invariant
                i <= length,
                data@ =~= Seq::<u8>::new(i as nat, |j: int| 0u8),
            decreases length - i,
        {
            data.push(0);
            i += 1;
            proof {
                assert(data@ =~= Seq::<u8>::new(i as nat, |j: int| 0u8));
            }
        }
        SRam { data }
    }

    /// Read one byte; addresses past the end read back as 0xFF.
    pub fn read(&self, offset: usize) -> (r: u8)
        ensures
            offset < self.data@.len() ==> r == self.data@[offset as int],
            offset >= self.data@.len() ==> r == 0xFF,
    {
        if offset < self.data.len() {
            self.data[offset]
        } else {
            0xFF
        }
    }

    /// Write one byte; addresses past the end are ignored.
    pub fn write(&mut self, offset: usize, value: u8)
        ensures
            offset < old(self).data@.len() ==> final(self).data@ == old(self).data@.update(
                offset as int,
                value,
            ),
            offset >= old(self).data@.len() ==> *final(self) == *old(self),
    {
        if offset < self.data.len() {
            self.data[offset] = value;
        }
    }

    /// The dump `save` produces.
    pub open spec fn spec_save(self) -> Seq<u8> {
        self.data@
    }

    /// Whether `load` accepts a dump: only one of matching size.
    pub open spec fn spec_load_accepts(self, bytes: Seq<u8>) -> bool {
        bytes.len() == self.data@.len()
    }

    /// The contents after a `load`: the dump when accepted, the old
    /// contents otherwise.
    pub open spec fn spec_loaded_view(self, bytes: Seq<u8>) -> Seq<u8> {
        if self.spec_load_accepts(bytes) {
            bytes
        } else {
            self.data@
        }
    }

    /// Replace the whole contents from a saved byte dump.  Succeeds exactly
    /// when the dump is the same size as this RAM.
    pub fn load(&mut self, bytes: &Vec<u8>) -> (r: bool)
        ensures
            r <==> old(self).spec_load_accepts(bytes@),
            final(self).data@ == old(self).spec_loaded_view(bytes@),
            !r ==> *final(self) == *old(self),
    {
        if bytes.len() == self.data.len() {
            self.data = bytes.clone();
            proof {
                assert(self.data@ =~= bytes@);
            }
            true
        } else {
            false
        }
    }

    /// A byte dump of the whole contents, suitable for `load`.
    pub fn save(&self) -> (r: Vec<u8>)
        ensures
            r@ == self.spec_save(),
    {
        let r = self.data.clone();
        proof {
            assert(r@ =~= self.data@);
        }
        r
    }
}

/// Round trip: the dump `save` produces from one RAM restores into any
/// fresh RAM of the same size, and reproduces the contents byte for byte.
pub proof fn lemma_save_load_round_trip(a: SRam, fresh: SRam)
    requires
        fresh.data@.len() == a.data@.len(),
    ensures
        fresh.spec_load_accepts(a.spec_save()),
        fresh.spec_loaded_view(a.spec_save()) == a.data@,
{
}

} // verus!
