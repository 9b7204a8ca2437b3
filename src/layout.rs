//! Page geometry of an executable region and the errors of its construction.

use vstd::prelude::*;

verus! {

/// Granularity of the operating system's mapping and protection changes.
pub const PAGE_SIZE: usize = 4096;

/// The single-byte x86-64 `ret` instruction; every fresh byte holds it.
pub const RET_OPCODE: u8 = 0xC3;

/// Why an executable buffer could not be built or accessed.
#[derive(Clone, Copy, Debug, PartialEq, Eq, Structural)]
pub enum BufferError {
    /// The page count was zero or negative.
    InvalidSize,
    /// The allocator could not supply a page-aligned region of the size asked.
    AllocationFailed,
    /// The operating system refused to make the region executable.
    ProtectionChangeFailed,
    /// An index at or past the end of the region.
    OutOfBounds,
}

/// The size in bytes of a region of `page_count` pages.
pub open spec fn size_of_pages(page_count: int) -> int {
    page_count * PAGE_SIZE
}

/// What sizing a region of `page_count` pages yields: the byte count, or the
/// reason that no such region can exist.
pub open spec fn region_size_spec(page_count: int) -> Result<usize, BufferError> {
    if page_count <= 0 {
        Err(BufferError::InvalidSize)
    } else if size_of_pages(page_count) > usize::MAX {
        Err(BufferError::AllocationFailed)
    } else {
        Ok(size_of_pages(page_count) as usize)
    }
}

/// Whether `addr` starts a page.
pub open spec fn page_aligned(addr: int) -> bool {
    addr % (PAGE_SIZE as int) == 0
}

/// Byte size of a region of `page_count` pages. A count below one is refused
/// with `InvalidSize`; a size beyond the address space cannot be allocated.
pub fn region_size(page_count: i64) -> (r: Result<usize, BufferError>)
    ensures
        r == region_size_spec(page_count as int),
{
    if page_count <= 0 {
        return Err(BufferError::InvalidSize);
    }
    if page_count as u64 > (usize::MAX / PAGE_SIZE) as u64 {
        return Err(BufferError::AllocationFailed);
    }
    let pages: usize = page_count as usize;
    assert(pages * PAGE_SIZE <= usize::MAX) by (nonlinear_arith)
        requires
            pages <= usize::MAX / 4096,
    ;
    Ok(pages * PAGE_SIZE)
}

/// A page-aligned span of the address space: where an executable region
/// starts and how many pages it covers.
#[derive(Clone, Copy, Debug, PartialEq, Eq, Structural)]
pub struct Region {
    base: usize,
    page_count: usize,
    size_bytes: usize,
}

impl Region {
    /// Start address of the region.
    pub closed spec fn base_spec(&self) -> int {
        self.base as int
    }

    /// Number of pages the region covers.
    pub closed spec fn page_count_spec(&self) -> int {
        self.page_count as int
    }

    /// Number of bytes the region covers.
    pub closed spec fn size_spec(&self) -> int {
        self.size_bytes as int
    }

    /// At least one page, a whole number of pages, starting on a page.
    pub open spec fn wf(&self) -> bool {
        &&& self.page_count_spec() >= 1
        &&& self.size_spec() == size_of_pages(self.page_count_spec())
        &&& page_aligned(self.base_spec())
    }

    /// Describes the block at `base` that the allocator gave for a request
    /// of `page_count` pages, when that block starts on a page.
    pub fn new(page_count: i64, base: usize) -> (r: Result<Region, BufferError>)
        ensures
            match region_size_spec(page_count as int) {
                Err(e) => r == Err::<Region, BufferError>(e),
                Ok(size) => if page_aligned(base as int) {
                    &&& r is Ok
                    &&& r->Ok_0.wf()
                    &&& r->Ok_0.base_spec() == base
                    &&& r->Ok_0.page_count_spec() == page_count
                    &&& r->Ok_0.size_spec() == size
                } else {
                    r == Err::<Region, BufferError>(BufferError::AllocationFailed)
                },
            },
    {
        let size = match region_size(page_count) {
            Err(e) => {
                return Err(e);
            },
            Ok(size) => size,
        };
        if !is_page_aligned(base) {
            return Err(BufferError::AllocationFailed);
        }
        Ok(Region { base, page_count: page_count as usize, size_bytes: size })
    }

    /// Start address of the region.
    pub fn base(&self) -> (r: usize)
        ensures
            r == self.base_spec(),
    {
        self.base
    }

    /// Number of pages the region covers.
    pub fn page_count(&self) -> (r: usize)
        ensures
            r == self.page_count_spec(),
    {
        self.page_count
    }

    /// Number of bytes the region covers.
    pub fn size_bytes(&self) -> (r: usize)
        ensures
            r == self.size_spec(),
    {
        self.size_bytes
    }
}

/// Whether `addr` starts a page.
pub fn is_page_aligned(addr: usize) -> (r: bool)
    ensures
        r == page_aligned(addr as int),
{
    addr % PAGE_SIZE == 0
}

} // verus!
