//! The steps that turn a page count into an executable region. The
//! operating-system calls are made by the caller: each step names the next
//! call to make, and the caller reports how it went.

use vstd::prelude::*;
use crate::layout::{
    page_aligned, region_size, region_size_spec, size_of_pages, BufferError, Region, PAGE_SIZE,
    RET_OPCODE,
};

verus! {

/// Where the acquisition of a region stands.
#[derive(Clone, Copy, Debug, PartialEq, Eq, Structural)]
pub enum Acquire {
    /// Waiting for the allocator to answer a request for `page_count` pages.
    Allocating { page_count: i64, size: usize },
    /// Waiting for the region to become executable, readable and writable.
    Protecting { region: Region },
    /// Waiting for every byte of the region to be set to the return opcode.
    Filling { region: Region },
    /// Waiting for a block taken at `base` to be given back; the acquisition
    /// then fails with `error`.
    Releasing { base: usize, error: BufferError },
    /// The region is acquired and holds the return opcode throughout.
    Ready { region: Region },
    /// The acquisition failed and holds no memory.
    Failed { error: BufferError },
}

/// How the call that the last step asked for went.
#[derive(Clone, Copy, Debug, PartialEq, Eq, Structural)]
pub enum Event {
    /// The allocator's answer: the start of the block, or none.
    Allocated { base: Option<usize> },
    /// Whether the protection change succeeded.
    Protected { ok: bool },
    /// The block was given back.
    Released,
    /// The region was filled.
    Filled,
}

/// The call that the caller makes next.
#[derive(Clone, Copy, Debug, PartialEq, Eq, Structural)]
pub enum Action {
    /// Ask the allocator for `size` bytes aligned to `align`.
    Allocate { size: usize, align: usize },
    /// Make the `size` bytes at `base` executable, readable and writable.
    Protect { base: usize, size: usize },
    /// Set the `size` bytes at `base` to `byte`.
    Fill { base: usize, size: usize, byte: u8 },
    /// Give back the block at `base`.
    Release { base: usize },
    /// Nothing more: the region is ready.
    Finish { region: Region },
    /// Nothing more: the acquisition failed with `error`.
    Fail { error: BufferError },
}

/// The first step for a request of `page_count` pages.
pub open spec fn begin_spec(page_count: int) -> (Acquire, Action) {
    match region_size_spec(page_count) {
        Ok(size) => (
            Acquire::Allocating { page_count: page_count as i64, size },
            Action::Allocate { size, align: PAGE_SIZE },
        ),
        Err(error) => (Acquire::Failed { error }, Action::Fail { error }),
    }
}

/// `r` is the page-aligned region at `base` of `page_count` pages and
/// `size` bytes.
pub open spec fn holds_region(r: Region, base: int, page_count: int, size: int) -> bool {
    &&& r.wf()
    &&& r.base_spec() == base
    &&& r.page_count_spec() == page_count
    &&& r.size_spec() == size
}

impl Acquire {
    /// Whether this step waits for `event`.
    pub open spec fn awaits_spec(&self, event: Event) -> bool {
        match (*self, event) {
            (Acquire::Allocating { .. }, Event::Allocated { .. }) => true,
            (Acquire::Protecting { .. }, Event::Protected { .. }) => true,
            (Acquire::Filling { .. }, Event::Filled) => true,
            (Acquire::Releasing { .. }, Event::Released) => true,
            _ => false,
        }
    }

    /// Every region held is page-aligned and a whole, positive number of
    /// pages; a pending allocation asks for exactly its page count's bytes.
    pub open spec fn wf(&self) -> bool {
        match *self {
            Acquire::Allocating { page_count, size } => region_size_spec(page_count as int)
                == Ok::<usize, BufferError>(size),
            Acquire::Protecting { region } => region.wf(),
            Acquire::Filling { region } => region.wf(),
            Acquire::Ready { region } => region.wf(),
            Acquire::Releasing { .. } => true,
            Acquire::Failed { .. } => true,
        }
    }

    /// Whether `r` is what follows this step when `event` comes: the next
    /// step and the call it names.
    pub open spec fn next_spec(&self, event: Event, r: (Acquire, Action)) -> bool {
        match (*self, event) {
            (Acquire::Allocating { page_count, size }, Event::Allocated { base }) => match base {
                None => r == (
                    Acquire::Failed { error: BufferError::AllocationFailed },
                    Action::Fail { error: BufferError::AllocationFailed },
                ),
                Some(b) => if page_aligned(b as int) {
                    &&& r.0 is Protecting
                    &&& holds_region(r.0->Protecting_region, b as int, page_count as int, size as int)
                    &&& r.1 == Action::Protect { base: b, size }
                } else {
                    r == (
                        Acquire::Releasing { base: b, error: BufferError::AllocationFailed },
                        Action::Release { base: b },
                    )
                },
            },
            (Acquire::Protecting { region }, Event::Protected { ok }) => if ok {
                r == (
                    Acquire::Filling { region },
                    Action::Fill {
                        base: region.base_spec() as usize,
                        size: region.size_spec() as usize,
                        byte: RET_OPCODE,
                    },
                )
            } else {
                r == (
                    Acquire::Releasing {
                        base: region.base_spec() as usize,
                        error: BufferError::ProtectionChangeFailed,
                    },
                    Action::Release { base: region.base_spec() as usize },
                )
            },
            (Acquire::Filling { region }, Event::Filled) => r == (
                Acquire::Ready { region },
                Action::Finish { region },
            ),
            (Acquire::Releasing { error, .. }, Event::Released) => r == (
                Acquire::Failed { error },
                Action::Fail { error },
            ),
            _ => false,
        }
    }

    /// Starts the acquisition of `page_count` pages: a count below one fails
    /// at once with `InvalidSize` and asks for no memory.
    pub fn begin(page_count: i64) -> (r: (Acquire, Action))
        ensures
            r == begin_spec(page_count as int),
            r.0.wf(),
    {
        match region_size(page_count) {
            Ok(size) => (
                Acquire::Allocating { page_count, size },
                Action::Allocate { size, align: PAGE_SIZE },
            ),
            Err(error) => (Acquire::Failed { error }, Action::Fail { error }),
        }
    }

    /// Whether this step waits for `event`.
    pub fn awaits(&self, event: &Event) -> (r: bool)
        ensures
            r == self.awaits_spec(*event),
    {
        match (self, event) {
            (Acquire::Allocating { .. }, Event::Allocated { .. }) => true,
            (Acquire::Protecting { .. }, Event::Protected { .. }) => true,
            (Acquire::Filling { .. }, Event::Filled) => true,
            (Acquire::Releasing { .. }, Event::Released) => true,
            _ => false,
        }
    }

    /// Takes in how the last call went and names the next one.
    pub fn step(&self, event: Event) -> (r: (Acquire, Action))
        requires
            self.wf(),
            self.awaits_spec(event),
        ensures
            self.next_spec(event, r),
            r.0.wf(),
    {
        match (*self, event) {
            (Acquire::Allocating { page_count, size }, Event::Allocated { base }) => match base {
                None => (
                    Acquire::Failed { error: BufferError::AllocationFailed },
                    Action::Fail { error: BufferError::AllocationFailed },
                ),
                Some(b) => match Region::new(page_count, b) {
                    Ok(region) => (Acquire::Protecting { region }, Action::Protect { base: b, size }),
                    Err(_) => (
                        Acquire::Releasing { base: b, error: BufferError::AllocationFailed },
                        Action::Release { base: b },
                    ),
                },
            },
            (Acquire::Protecting { region }, Event::Protected { ok }) => if ok {
                (
                    Acquire::Filling { region },
                    Action::Fill {
                        base: region.base(),
                        size: region.size_bytes(),
                        byte: RET_OPCODE,
                    },
                )
            } else {
                (
                    Acquire::Releasing {
                        base: region.base(),
                        error: BufferError::ProtectionChangeFailed,
                    },
                    Action::Release { base: region.base() },
                )
            },
            (Acquire::Filling { region }, Event::Filled) => (
                Acquire::Ready { region },
                Action::Finish { region },
            ),
            (Acquire::Releasing { error, .. }, Event::Released) => (
                Acquire::Failed { error },
                Action::Fail { error },
            ),
            _ => (*self, Action::Fail { error: BufferError::InvalidSize }),
        }
    }
}

/// A request for zero or fewer pages fails with `InvalidSize` at once, and
/// the only call it names is none at all: no memory is asked for.
pub proof fn lemma_nonpositive_count_allocates_nothing(page_count: i64)
    requires
        page_count <= 0,
    ensures
        begin_spec(page_count as int) == (
            Acquire::Failed { error: BufferError::InvalidSize },
            Action::Fail { error: BufferError::InvalidSize },
        ),
{
}

/// When every call succeeds, a request for `page_count` pages asks the
/// allocator for `page_count * PAGE_SIZE` bytes on a page boundary, makes
/// them executable, fills them with the return opcode, and ends ready with
/// a page-aligned region of exactly that size.
pub proof fn lemma_successful_acquisition(
    page_count: i64,
    base: usize,
    r1: (Acquire, Action),
    r2: (Acquire, Action),
    r3: (Acquire, Action),
)
    requires
        page_count >= 1,
        size_of_pages(page_count as int) <= usize::MAX,
        page_aligned(base as int),
        begin_spec(page_count as int).0.next_spec(Event::Allocated { base: Some(base) }, r1),
        r1.0.next_spec(Event::Protected { ok: true }, r2),
        r2.0.next_spec(Event::Filled, r3),
    ensures
        ({
            let size = size_of_pages(page_count as int) as usize;
            &&& begin_spec(page_count as int).1 == Action::Allocate { size, align: PAGE_SIZE }
            &&& r1.1 == Action::Protect { base, size }
            &&& r2.1 == Action::Fill { base, size, byte: RET_OPCODE }
            &&& r3.0 is Ready
            &&& r3.1 == Action::Finish { region: r3.0->Ready_region }
            &&& holds_region(r3.0->Ready_region, base as int, page_count as int, size as int)
            &&& r3.0->Ready_region.size_spec() == page_count * PAGE_SIZE
            &&& page_aligned(r3.0->Ready_region.base_spec())
        }),
{
}

/// A region that was allocated and then refused execute permission is given
/// back before the acquisition fails with `ProtectionChangeFailed`.
pub proof fn lemma_protection_failure_releases(s: Acquire)
    requires
        s.wf(),
        s is Protecting,
    ensures
        ({
            let r1 = (
                Acquire::Releasing {
                    base: s->Protecting_region.base_spec() as usize,
                    error: BufferError::ProtectionChangeFailed,
                },
                Action::Release { base: s->Protecting_region.base_spec() as usize },
            );
            &&& s.next_spec(Event::Protected { ok: false }, r1)
            &&& r1.0.next_spec(
                Event::Released,
                (
                    Acquire::Failed { error: BufferError::ProtectionChangeFailed },
                    Action::Fail { error: BufferError::ProtectionChangeFailed },
                ),
            )
        }),
{
}

/// An allocator that gives no memory ends the acquisition with
/// `AllocationFailed` and nothing to give back.
pub proof fn lemma_allocation_failure(s: Acquire)
    requires
        s.wf(),
        s is Allocating,
    ensures
        s.next_spec(
            Event::Allocated { base: None },
            (
                Acquire::Failed { error: BufferError::AllocationFailed },
                Action::Fail { error: BufferError::AllocationFailed },
            ),
        ),
{
}

} // verus!
