//! The contents of an executable region: one byte per offset, each fresh
//! byte the return opcode, read and written by offset.

use vstd::prelude::*;
use crate::layout::{BufferError, Region, RET_OPCODE};

verus! {

/// The contents of a freshly acquired region of `size` bytes.
pub open spec fn fresh_contents(size: nat) -> Seq<u8> {
    Seq::new(size, |_i: int| RET_OPCODE)
}

/// An executable region together with the bytes it holds. The region is
/// owned by exactly one buffer; it goes when the buffer is given up.
pub struct ExecutableBuffer {
    region: Region,
    bytes: Vec<u8>,
}

impl View for ExecutableBuffer {
    type V = Seq<u8>;

    closed spec fn view(&self) -> Seq<u8> {
        self.bytes@
    }
}

impl ExecutableBuffer {
    /// The region the bytes live in.
    pub closed spec fn region_spec(&self) -> Region {
        self.region
    }

    /// The region is well formed and the contents span it exactly.
    pub open spec fn wf(&self) -> bool {
        &&& self.region_spec().wf()
        &&& self@.len() == self.region_spec().size_spec()
    }

    /// The buffer over a freshly acquired `region`: every byte is the return
    /// opcode, so invoking it at once returns straight away.
    pub fn new(region: Region) -> (b: ExecutableBuffer)
        requires
            region.wf(),
        ensures
            b.wf(),
            b.region_spec() == region,
            b@ == fresh_contents(region.size_spec() as nat),
    {
        let size = region.size_bytes();
        let mut bytes: Vec<u8> = Vec::new();
        let mut i: usize = 0;
        while i < size
            invariant
                i <= size,
                bytes@ == fresh_contents(i as nat),
            decreases size - i,
        {
            bytes.push(RET_OPCODE);
            i = i + 1;
            assert(bytes@ =~= fresh_contents(i as nat));
        }
        ExecutableBuffer { region, bytes }
    }

    /// The region the bytes live in.
    pub fn region(&self) -> (r: Region)
        ensures
            r == self.region_spec(),
    {
        self.region
    }

    /// Start address of the region.
    pub fn base(&self) -> (r: usize)
        ensures
            r == self.region_spec().base_spec(),
    {
        self.region.base()
    }

    /// Number of bytes the buffer holds.
    pub fn size_bytes(&self) -> (r: usize)
        requires
            self.wf(),
        ensures
            r == self@.len(),
            r == self.region_spec().size_spec(),
    {
        self.region.size_bytes()
    }

    /// The byte at `index`.
    pub fn get(&self, index: usize) -> (r: u8)
        requires
            self.wf(),
            index < self@.len(),
        ensures
            r == self@[index as int],
    {
        self.bytes[index]
    }

    /// Overwrites the byte at `index` with `value`.
    pub fn set(&mut self, index: usize, value: u8)
        requires
            old(self).wf(),
            index < old(self)@.len(),
        ensures
            final(self).wf(),
            final(self).region_spec() == old(self).region_spec(),
            final(self)@ == old(self)@.update(index as int, value),
    {
        self.bytes.set(index, value);
    }

    /// The byte at `index`, or `OutOfBounds` past the end.
    pub fn try_get(&self, index: usize) -> (r: Result<u8, BufferError>)
        requires
            self.wf(),
        ensures
            index < self@.len() ==> r == Ok::<u8, BufferError>(self@[index as int]),
            index >= self@.len() ==> r == Err::<u8, BufferError>(BufferError::OutOfBounds),
    {
        if index < self.bytes.len() {
            Ok(self.bytes[index])
        } else {
            Err(BufferError::OutOfBounds)
        }
    }

    /// Overwrites the byte at `index` with `value`, or reports `OutOfBounds`
    /// past the end and leaves the buffer as it was.
    pub fn try_set(&mut self, index: usize, value: u8) -> (r: Result<(), BufferError>)
        requires
            old(self).wf(),
        ensures
            final(self).wf(),
            final(self).region_spec() == old(self).region_spec(),
            index < old(self)@.len() ==> r == Ok::<(), BufferError>(())
                && final(self)@ == old(self)@.update(index as int, value),
            index >= old(self)@.len() ==> r == Err::<(), BufferError>(BufferError::OutOfBounds)
                && final(self)@ == old(self)@,
    {
        if index < self.bytes.len() {
            self.bytes.set(index, value);
            Ok(())
        } else {
            Err(BufferError::OutOfBounds)
        }
    }

    /// Writes `code` at offsets `offset..offset + code.len()`, or reports
    /// `OutOfBounds` when it would run past the end and writes nothing.
    pub fn write_bytes(&mut self, offset: usize, code: &[u8]) -> (r: Result<(), BufferError>)
        requires
            old(self).wf(),
        ensures
            final(self).wf(),
            final(self).region_spec() == old(self).region_spec(),
            offset + code@.len() <= old(self)@.len() ==> r == Ok::<(), BufferError>(())
                && final(self)@ == old(self)@.subrange(0, offset as int) + code@
                + old(self)@.subrange(offset + code@.len(), old(self)@.len() as int),
            offset + code@.len() > old(self)@.len() ==> r == Err::<(), BufferError>(
                BufferError::OutOfBounds,
            ) && final(self)@ == old(self)@,
    {
        let len = self.bytes.len();
        if offset > len || code.len() > len - offset {
            return Err(BufferError::OutOfBounds);
        }
        let ghost before = self@;
        let mut i: usize = 0;
        while i < code.len()
            invariant
                self.wf(),
                self.region_spec() == old(self).region_spec(),
                before == old(self)@,
                len == before.len(),
                offset + code@.len() <= before.len(),
                i <= code@.len(),
                self@.len() == before.len(),
                forall|k: int| 0 <= k < offset ==> #[trigger] self@[k] == before[k],
                forall|k: int| 0 <= k < i ==> #[trigger] self@[offset + k] == code@[k],
                forall|k: int| offset + i <= k < before.len() ==> #[trigger] self@[k] == before[k],
            decreases code@.len() - i,
        {
            self.bytes.set(offset + i, code[i]);
            i = i + 1;
        }
        assert(self@ =~= before.subrange(0, offset as int) + code@ + before.subrange(
            offset + code@.len(),
            before.len() as int,
        )) by {
            assert forall|k: int| offset <= k < offset + code@.len() implies self@[k]
                == code@[k - offset] by {
                assert(self@[offset + (k - offset)] == code@[k - offset]);
            }
        }
        Ok(())
    }
}

/// Every offset of a freshly acquired region reads as the return opcode.
pub proof fn lemma_fresh_reads_return(region: Region, index: int)
    requires
        region.wf(),
        0 <= index < region.size_spec(),
    ensures
        fresh_contents(region.size_spec() as nat)[index] == RET_OPCODE,
{
}

/// Reading an offset right after writing `value` there gives `value`, and
/// every other offset keeps its byte.
pub proof fn lemma_set_then_get(contents: Seq<u8>, index: int, value: u8)
    requires
        0 <= index < contents.len(),
    ensures
        contents.update(index, value)[index] == value,
        forall|k: int|
            0 <= k < contents.len() && k != index ==> #[trigger] contents.update(index, value)[k]
                == contents[k],
{
}

} // verus!
