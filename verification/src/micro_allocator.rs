use vstd::prelude::*;
use crate::micro_errors::BLiteError;
use vstd::arithmetic::div_mod::{lemma_div_denominator, lemma_fundamental_div_mod, lemma_mod_multiples_basic};

verus! {

/// An allocator that hands out address ranges of an arena.
pub trait ArenaAllocator: Sized {
    /// Whether `allocate(size, align)` may be called in this state.
    spec fn alloc_requires(&self, size: usize, align: usize) -> bool;

    /// What `allocate(size, align)` returns in this state.
    spec fn alloc_result(&self, size: usize, align: usize) -> Result<usize, BLiteError>;

    /// The state that `allocate(size, align)` leaves behind.
    spec fn advanced(&self, size: usize, align: usize) -> Self;

    /// What `description` returns in this state.
    spec fn described(&self) -> Result<(usize, usize), BLiteError>;

    /// Reserves `size` bytes aligned to `align` and returns their first address.
    fn allocate(&mut self, size: usize, align: usize) -> (r: Result<usize, BLiteError>)
        requires
            old(self).alloc_requires(size, align),
        ensures
            r == old(self).alloc_result(size, align),
            *final(self) == old(self).advanced(size, align),
    ;

    /// The arena's size and the first address not handed out yet.
    fn description(&self) -> (r: Result<(usize, usize), BLiteError>)
        ensures
            r == self.described(),
    ;
}

/// A bump allocator: it hands out the arena from its start onwards and never reuses memory.
#[derive(Debug, Clone, Copy)]
pub struct BumpArenaAllocator {
    arena_start: usize,
    arena_end: usize,
    arena_size: usize,
    next: usize,
}

/// The rounding of `align_up`: `addr + align - 1` with the bits below `align` cleared.
pub open spec fn spec_align_up(addr: usize, align: usize) -> usize {
    ((addr + align - 1) as usize) & !((align - 1) as usize)
}

/// `align` is a power of two.
pub open spec fn is_power_of_two(align: usize) -> bool {
    align != 0 && align & ((align - 1) as usize) == 0
}

impl BumpArenaAllocator {
    /// The first address of the arena.
    pub closed spec fn start(&self) -> usize {
        self.arena_start
    }

    /// One past the last address of the arena.
    pub closed spec fn end(&self) -> usize {
        self.arena_end
    }

    /// The first address that has not been handed out.
    pub closed spec fn next_free(&self) -> usize {
        self.next
    }

    /// The arena's bounds are consistent and the next free address lies inside them.
    pub closed spec fn wf(&self) -> bool {
        &&& self.arena_end == self.arena_start + self.arena_size
        &&& self.arena_start <= self.next <= self.arena_end
    }

    /// The size of the arena in bytes.
    pub closed spec fn size(&self) -> usize {
        self.arena_size
    }

    /// An allocator over the `arena_size` bytes that start at address `arena_start`.
    pub fn new(arena_start: usize, arena_size: usize) -> (r: Self)
        requires
            arena_start + arena_size <= usize::MAX,
        ensures
            r.start() == arena_start,
            r.end() == arena_start + arena_size,
            r.next_free() == arena_start,
            r.size() == arena_size,
            r.wf(),
    {
        let arena_end = arena_start + arena_size;
        BumpArenaAllocator { arena_start, arena_end, arena_size, next: arena_start }
    }

    /// Rounds `addr` up to a multiple of `align` (a power of two).
    pub fn align_up(addr: usize, align: usize) -> (r: usize)
        requires
            align > 0,
            addr + align <= usize::MAX,
        ensures
            r == spec_align_up(addr, align),
            is_power_of_two(align) ==> r % align == 0 && addr <= r < addr + align,
    {
        proof {
            if is_power_of_two(align) {
                lemma_align_up(addr, align);
            }
        }
        (addr + align - 1) & !(align - 1)
    }
}


impl ArenaAllocator for BumpArenaAllocator {
    open spec fn alloc_requires(&self, size: usize, align: usize) -> bool {
        &&& self.wf()
        &&& align > 0
        &&& self.next_free() + align <= usize::MAX
    }

    /// The first free address rounded up to `align`, when the `size` bytes from there fit
    /// in the arena.
    open spec fn alloc_result(&self, size: usize, align: usize) -> Result<usize, BLiteError> {
        let start = spec_align_up(self.next_free(), align);
        if start + size <= self.end() {
            Ok(start)
        } else {
            Err(BLiteError::FailedToAllocateMemory)
        }
    }

    /// After a successful allocation the first free address is its end; otherwise
    /// nothing changes.
    closed spec fn advanced(&self, size: usize, align: usize) -> Self {
        match self.alloc_result(size, align) {
            Ok(start) => BumpArenaAllocator { next: (start + size) as usize, ..*self },
            Err(_) => *self,
        }
    }

    open spec fn described(&self) -> Result<(usize, usize), BLiteError> {
        Ok((self.size(), self.next_free()))
    }

    fn allocate(&mut self, size: usize, align: usize) -> (r: Result<usize, BLiteError>)
        ensures
            final(self).wf(),
            final(self).start() == old(self).start(),
            final(self).end() == old(self).end(),
            final(self).size() == old(self).size(),
            final(self).next_free() == match r {
                Ok(start) => (start + size) as usize,
                Err(_) => old(self).next_free(),
            },
    {
        proof {
            lemma_align_up_ge(self.next, align);
        }
        let alloc_size = size;
        let alloc_start = Self::align_up(self.next, align);
        let alloc_next = match alloc_start.checked_add(alloc_size) {
            Some(next) => next,
            None => return Err(BLiteError::FailedToAllocateMemory),
        };
        if alloc_next > self.arena_end {
            Err(BLiteError::FailedToAllocateMemory)
        } else {
            self.next = alloc_next;
            Ok(alloc_start)
        }
    }

    fn description(&self) -> (r: Result<(usize, usize), BLiteError>) {
        Ok((self.arena_size, self.next))
    }
}

/// Every successful allocation is aligned, starts at or after the first free address,
/// ends inside the arena, and the first free address moves to its end; a failed one
/// changes nothing.
pub proof fn lemma_allocation_in_free_region(a: BumpArenaAllocator, size: usize, align: usize)
    requires
        a.alloc_requires(size, align),
        is_power_of_two(align),
    ensures
        a.advanced(size, align).wf(),
        a.advanced(size, align).start() == a.start(),
        a.advanced(size, align).end() == a.end(),
        match a.alloc_result(size, align) {
            Ok(p) => {
                &&& p % align == 0
                &&& a.start() <= a.next_free() <= p
                &&& p + size <= a.end()
                &&& a.advanced(size, align).next_free() == p + size
            },
            Err(_) => a.advanced(size, align) == a,
        },
{
    lemma_align_up(a.next_free(), align);
}

/// Two allocations made one after the other never overlap: the second begins at or after
/// the end of the first.
pub proof fn lemma_successive_allocations_disjoint(
    a: BumpArenaAllocator,
    size1: usize,
    align1: usize,
    size2: usize,
    align2: usize,
)
    requires
        a.alloc_requires(size1, align1),
        a.advanced(size1, align1).alloc_requires(size2, align2),
        a.alloc_result(size1, align1) is Ok,
        a.advanced(size1, align1).alloc_result(size2, align2) is Ok,
    ensures
        a.alloc_result(size1, align1)->Ok_0 + size1 <= a.advanced(size1, align1).alloc_result(
            size2,
            align2,
        )->Ok_0,
        a.advanced(size1, align1).alloc_result(size2, align2)->Ok_0 + size2 <= a.end(),
{
    let a1 = a.advanced(size1, align1);
    lemma_align_up_ge(a1.next_free(), align2);
}

/// Rounding up never goes below the address rounded.
proof fn lemma_align_up_ge(addr: usize, align: usize)
    requires
        align > 0,
        addr + align - 1 <= usize::MAX,
    ensures
        addr <= spec_align_up(addr, align),
{
    let s = (addr + align - 1) as usize;
    let m = (align - 1) as usize;
    assert(s & !m >= addr) by (bit_vector)
        requires
            s == addr + m,
            s >= addr,
    ;
}

/// Clearing the bits below a power of two rounds down to a multiple of it.
proof fn lemma_mask_rounds_down(x: usize, y: usize)
    requires
        is_power_of_two(y),
    ensures
        x & !((y - 1) as usize) == (x / y) * y,
    decreases y,
{
    if y == 1 {
        assert(x & !((1 - 1) as usize) == x) by (bit_vector);
    } else {
        let x1 = x >> 1;
        let y1 = y >> 1;
        assert(x1 == x / 2 && y1 == y / 2) by (bit_vector)
            requires
                x1 == x >> 1,
                y1 == y >> 1,
        ;
        assert(y1 != 0 && y1 & ((y1 - 1) as usize) == 0 && y1 < y) by (bit_vector)
            requires
                y1 == y >> 1,
                y != 0,
                y != 1,
                y & ((y - 1) as usize) == 0,
        ;
        assert(y % 2 == 0) by (bit_vector)
            requires
                y != 0,
                y != 1,
                y & ((y - 1) as usize) == 0,
        ;
        assert(x & !((y - 1) as usize) == 2 * (x1 & !((y1 - 1) as usize))) by (bit_vector)
            requires
                x1 == x >> 1,
                y1 == y >> 1,
                y != 0,
                y != 1,
                y & ((y - 1) as usize) == 0,
        ;
        lemma_mask_rounds_down(x1, y1);
        assert(y == 2 * y1);
        lemma_div_denominator(x as int, 2, y1 as int);
        assert(x / y == x1 / y1);
        assert(2 * ((x1 / y1) * y1) == (x / y) * y) by (nonlinear_arith)
            requires
                x / y == x1 / y1,
                y == 2 * y1,
        ;
    }
}

/// Rounding a power of two up gives the least multiple of it at or above the address.
proof fn lemma_align_up(addr: usize, align: usize)
    requires
        is_power_of_two(align),
        addr + align - 1 <= usize::MAX,
    ensures
        spec_align_up(addr, align) % align == 0,
        addr <= spec_align_up(addr, align) < addr + align,
{
    let s = (addr + align - 1) as usize;
    lemma_mask_rounds_down(s, align);
    let q = s / align;
    lemma_fundamental_div_mod(s as int, align as int);
    lemma_mod_multiples_basic(q as int, align as int);
}

} // verus!
