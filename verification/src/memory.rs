use vstd::prelude::*;

verus! {

/// One raw allocation owned by a coherence tracker, tagged with the backend
/// kind of the device that produced it.
///
/// A copy carries no information about the logical element type of the buffer
/// it backs: only its byte contents and its backend tag are observable. Its
/// view is the sequence of bytes it holds. The tag and the length of a copy
/// can only change by replacing the whole copy: every method below preserves
/// both.
pub struct MemoryCopy {
    kind: u64,
    data: Vec<u8>,
}

impl View for MemoryCopy {
    type V = Seq<u8>;

    closed spec fn view(&self) -> Seq<u8> {
        self.data@
    }
}

impl MemoryCopy {
    /// The backend kind tag stamped on this allocation.
    pub closed spec fn kind_spec(&self) -> u64 {
        self.kind
    }

    /// A fresh zero-filled allocation of `byte_size` bytes, tagged `kind`.
    pub fn new(kind: u64, byte_size: usize) -> (r: MemoryCopy)
        ensures
            r.kind_spec() == kind,
            r@.len() == byte_size,
            forall|i: int| 0 <= i < byte_size ==> r@[i] == 0u8,
    {
        let mut data: Vec<u8> = Vec::new();
        let mut i: usize = 0;
        while i < byte_size
            invariant
                i <= byte_size,
                data@.len() == i,
                forall|j: int| 0 <= j < i ==> data@[j] == 0u8,
            decreases byte_size - i,
        {
            data.push(0u8);
            i = i + 1;
        }
        MemoryCopy { kind, data }
    }

    /// The backend kind tag.
    pub fn kind(&self) -> (r: u64)
        ensures
            r == self.kind_spec(),
    {
        self.kind
    }

    /// The allocation's size in bytes.
    pub fn byte_size(&self) -> (r: usize)
        ensures
            r == self@.len(),
    {
        self.data.len()
    }

    /// The byte at offset `i`.
    pub fn read(&self, i: usize) -> (r: u8)
        requires
            i < self@.len(),
        ensures
            r == self@[i as int],
    {
        self.data[i]
    }

    /// Overwrites the byte at offset `i`; the size and the tag are unchanged.
    pub fn write(&mut self, i: usize, b: u8)
        requires
            i < old(self)@.len(),
        ensures
            final(self)@ == old(self)@.update(i as int, b),
            final(self).kind_spec() == old(self).kind_spec(),
    {
        self.data.set(i, b);
    }

    /// Overwrites this copy's contents with the bytes of `source`; the tag is
    /// unchanged.
    pub fn copy_bytes_from(&mut self, source: &MemoryCopy)
        ensures
            final(self)@ == source@,
            final(self).kind_spec() == old(self).kind_spec(),
    {
        self.data.clear();
        let mut i: usize = 0;
        while i < source.data.len()
            invariant
                i <= source.data.len(),
                self.data@ == source.data@.subrange(0, i as int),
                self.kind == old(self).kind,
            decreases source.data.len() - i,
        {
            self.data.push(source.data[i]);
            i = i + 1;
        }
    }
}

} // verus!
