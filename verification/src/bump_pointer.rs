use vstd::prelude::*;

verus! {

/// The least address at or above `addr` that is a multiple of `align`,
/// computed the way the allocator computes it.
pub open spec fn align_up(addr: int, align: int) -> int {
    (addr + align - 1) - (addr + align - 1) % align
}

/// What rounding up to a multiple gives: a multiple of `align` in
/// `[addr, addr + align)`.
pub proof fn lemma_align_up(addr: int, align: int)
    requires
        0 <= addr,
        0 < align,
    ensures
        align_up(addr, align) % align == 0,
        addr <= align_up(addr, align) < addr + align,
{
    let a = addr + align - 1;
    vstd::arithmetic::div_mod::lemma_fundamental_div_mod(a, align);
    vstd::arithmetic::div_mod::lemma_mod_multiples_basic(a / align, align);
    assert(a - a % align == align * (a / align));
    assert((align * (a / align)) % align == 0) by {
        vstd::arithmetic::mul::lemma_mul_is_commutative(align, a / align);
    }
}

/// A copy of raw memory that a reallocation asks for: `count` bytes from
/// address `src` to address `dest`. The two ranges may overlap, so the
/// copy must behave as if through a temporary buffer.
#[derive(PartialEq, Eq, Clone, Copy, Debug, Structural)]
pub struct BlockMove {
    pub dest: usize,
    pub src: usize,
    pub count: usize,
}

/// The copy that moving a block of `old_size` bytes at `ptr` to the new
/// block `new` asks for; none when there is no new block.
pub open spec fn block_move_for(new: Option<usize>, ptr: usize, old_size: usize) -> Option<BlockMove> {
    match new {
        Some(dest) => Some(BlockMove { dest: dest, src: ptr, count: old_size }),
        None => None,
    }
}

/// A heap allocator over plain integer addresses.
pub trait Allocator: Sized {
    /// What holds of every state the allocator is left in.
    spec fn inv(&self) -> bool;

    /// The requests that `allocate` can serve without failing arithmetic.
    spec fn allocate_requires(&self, size: usize, align: usize) -> bool;

    /// What `allocate` answers on `(size, align)` and the state it leaves.
    spec fn allocate_ensures(&self, size: usize, align: usize, result: Option<usize>, after: Self) -> bool;

    /// The state `deallocate` leaves.
    spec fn deallocate_ensures(&self, ptr: usize, old_size: usize, align: usize, after: Self) -> bool;

    fn allocate(&mut self, size: usize, align: usize) -> (result: Option<usize>)
        requires
            old(self).allocate_requires(size, align),
        ensures
            old(self).allocate_ensures(size, align, result, *final(self)),
    ;

    fn deallocate(&mut self, ptr: usize, old_size: usize, align: usize)
        ensures
            old(self).deallocate_ensures(ptr, old_size, align, *final(self)),
    ;

    /// First half of moving a block to one of another size: allocates the
    /// new block of `size` bytes and says which copy moves the `old_size`
    /// bytes at `ptr` into it. The caller makes that copy and then calls
    /// `finish_reallocate`, which frees the old block; so the old block is
    /// read before it is freed. When no new block can be had, nothing is to
    /// be copied and the old block stays the caller's.
    fn reallocate(&mut self, ptr: usize, old_size: usize, size: usize, align: usize)
        -> (result: (Option<usize>, Option<BlockMove>))
        requires
            old(self).allocate_requires(size, align),
        default_ensures
            result.1 == block_move_for(result.0, ptr, old_size),
            old(self).allocate_ensures(size, align, result.0, *final(self)),
    {
        let attempt = self.allocate(size, align);
        let copy = match attempt {
            Some(new) => Some(BlockMove { dest: new, src: ptr, count: old_size }),
            None => None,
        };
        (attempt, copy)
    }

    /// Second half of moving a block, once its bytes are copied: frees the
    /// old block that `copy` reads from, if there is a copy.
    fn finish_reallocate(&mut self, copy: Option<BlockMove>, align: usize)
        default_ensures
            match copy {
                Some(m) => old(self).deallocate_ensures(m.src, m.count, align, *final(self)),
                None => *final(self) == *old(self),
            },
    {
        if let Some(m) = copy {
            self.deallocate(m.src, m.count, align);
        }
    }

    /// Grows or shrinks a block where it stands; gives back the size the
    /// block now has.
    fn reallocate_inplace(&mut self, ptr: usize, old_size: usize, size: usize, align: usize)
        -> (new_size: usize)
        default_ensures
            new_size == old_size,
            *final(self) == *old(self),
    {
        old_size
    }

    /// The size of the block that a request of `size` bytes really gets.
    fn usable_size(&mut self, size: usize, align: usize) -> (usable: usize)
        default_ensures
            usable == size,
            *final(self) == *old(self),
    {
        size
    }

    /// The next free address and the number of bytes left.
    fn debug(&mut self) -> (state: (usize, usize))
        requires
            old(self).inv(),
    ;
}

/// A heap allocator that hands out memory by moving a pointer forward
/// through the region `[start, stop)`; freed memory is never reused.
pub struct BumpPointer {
    start: usize,
    stop: usize,
}

impl BumpPointer {
    /// The first address not yet handed out.
    pub closed spec fn start(&self) -> usize {
        self.start
    }

    /// The end of the managed region.
    pub closed spec fn stop(&self) -> usize {
        self.stop
    }

    /// The block that a request of `size` bytes aligned to `align` gets:
    /// the next free address rounded up to `align`, if the block then ends
    /// within the region.
    pub open spec fn next_block(&self, size: usize, align: usize) -> Option<usize> {
        let aligned = align_up(self.start() as int, align as int);
        if aligned + size > self.stop() {
            None
        } else {
            Some(aligned as usize)
        }
    }

    pub fn new(start: usize, stop: usize) -> (allocator: BumpPointer)
        ensures
            allocator.start() == start,
            allocator.stop() == stop,
    {
        BumpPointer { start: start, stop: stop }
    }

    /// Whether `allocate` can be asked for `size` bytes aligned to `align`:
    /// the alignment is positive and the arithmetic that rounds the next
    /// free address up and adds the size stays within `usize`.
    pub fn can_allocate(&self, size: usize, align: usize) -> (ok: bool)
        ensures
            ok == self.allocate_requires(size, align),
    {
        if align == 0 || align > usize::MAX - self.start {
            return false;
        }
        proof {
            lemma_align_up(self.start as int, align as int);
        }
        let a = self.start + align - 1;
        let aligned = a - a % align;
        size <= usize::MAX - aligned
    }

    /// The first address not yet handed out.
    pub fn next_free(&self) -> (start: usize)
        ensures
            start == self.start(),
    {
        self.start
    }
}

impl Allocator for BumpPointer {
    open spec fn inv(&self) -> bool {
        self.start() <= self.stop()
    }

    open spec fn allocate_requires(&self, size: usize, align: usize) -> bool {
        &&& align > 0
        &&& self.start() + align <= usize::MAX
        &&& align_up(self.start() as int, align as int) + size <= usize::MAX
    }

    open spec fn allocate_ensures(&self, size: usize, align: usize, result: Option<usize>, after: Self) -> bool {
        &&& result == self.next_block(size, align)
        &&& match result {
            Some(p) => after.start() == p + size && after.stop() == self.stop(),
            None => after == *self,
        }
    }

    open spec fn deallocate_ensures(&self, ptr: usize, old_size: usize, align: usize, after: Self) -> bool {
        after == *self
    }

    fn allocate(&mut self, size: usize, align: usize) -> (result: Option<usize>)
        ensures
            match result {
                Some(p) => {
                    &&& p % align == 0
                    &&& old(self).start() <= p < old(self).start() + align
                    &&& p + size <= old(self).stop()
                    &&& final(self).start() == p + size
                },
                None => *final(self) == *old(self),
            },
            final(self).stop() == old(self).stop(),
            old(self).inv() ==> final(self).inv(),
    {
        proof {
            lemma_align_up(self.start as int, align as int);
        }
        let aligned: usize = {
            let a = self.start + align - 1;
            a - (a % align)
        };
        let new_start = aligned + size;
        if new_start > self.stop {
            None
        } else {
            self.start = new_start;
            Some(aligned)
        }
    }

    fn deallocate(&mut self, ptr: usize, old_size: usize, align: usize) {
    }

    fn debug(&mut self) -> (state: (usize, usize))
        ensures
            state == (old(self).start(), (old(self).stop() - old(self).start()) as usize),
            *final(self) == *old(self),
    {
        (self.start, self.stop - self.start)
    }
}

/// The address handed to the language runtime: the block, or 0 for none.
pub open spec fn address_or_null(block: Option<usize>) -> usize {
    match block {
        Some(p) => p,
        None => 0,
    }
}

/// Runtime entry point for allocation: the block's address, or 0 when
/// the region is exhausted.
pub fn __rust_allocate(allocator: &mut BumpPointer, size: usize, align: usize) -> (ptr: usize)
    requires
        old(allocator).allocate_requires(size, align),
    ensures
        ptr == address_or_null(old(allocator).next_block(size, align)),
        old(allocator).allocate_ensures(size, align, old(allocator).next_block(size, align), *final(allocator)),
{
    match allocator.allocate(size, align) {
        Some(ptr) => ptr,
        None => 0,
    }
}

/// Runtime entry point for freeing a block.
pub fn __rust_deallocate(allocator: &mut BumpPointer, ptr: usize, old_size: usize, align: usize)
    ensures
        *final(allocator) == *old(allocator),
{
    allocator.deallocate(ptr, old_size, align)
}

/// Runtime entry point for moving a block to one of another size, first
/// half: the new block's address, or 0 when none could be had, and the
/// copy of the old block's `old_size` bytes into the new block. The caller
/// makes the copy and then calls `__rust_reallocate_finish`.
pub fn __rust_reallocate(
    allocator: &mut BumpPointer,
    ptr: usize,
    old_size: usize,
    size: usize,
    align: usize,
) -> (result: (usize, Option<BlockMove>))
    requires
        old(allocator).allocate_requires(size, align),
    ensures
        result.0 == address_or_null(old(allocator).next_block(size, align)),
        result.1 == block_move_for(old(allocator).next_block(size, align), ptr, old_size),
        old(allocator).allocate_ensures(size, align, old(allocator).next_block(size, align), *final(allocator)),
{
    let (block, copy) = allocator.reallocate(ptr, old_size, size, align);
    match block {
        Some(new_ptr) => (new_ptr, copy),
        None => (0, copy),
    }
}

/// Runtime entry point for moving a block, second half, once the copy is
/// made: frees the old block the copy read from. The bump allocator never
/// gives memory back, so nothing changes.
pub fn __rust_reallocate_finish(allocator: &mut BumpPointer, copy: Option<BlockMove>, align: usize)
    ensures
        *final(allocator) == *old(allocator),
{
    allocator.finish_reallocate(copy, align)
}

/// Runtime entry point for resizing a block in place.
pub fn __rust_reallocate_inplace(
    allocator: &mut BumpPointer,
    ptr: usize,
    old_size: usize,
    size: usize,
    align: usize,
) -> (new_size: usize)
    ensures
        new_size == old_size,
        *final(allocator) == *old(allocator),
{
    allocator.reallocate_inplace(ptr, old_size, size, align)
}

/// Runtime entry point asking how large a block of `size` bytes really is.
pub fn __rust_usable_size(allocator: &mut BumpPointer, size: usize, align: usize) -> (usable: usize)
    ensures
        usable == size,
        *final(allocator) == *old(allocator),
{
    allocator.usable_size(size, align)
}

/// Two blocks handed out one after the other never overlap: the second
/// starts at or after the end of the first, and both lie in the region.
pub proof fn law_allocations_disjoint(
    b0: BumpPointer,
    size1: usize,
    align1: usize,
    p1: usize,
    b1: BumpPointer,
    size2: usize,
    align2: usize,
    p2: usize,
    b2: BumpPointer,
)
    requires
        align1 > 0,
        align2 > 0,
        b0.allocate_ensures(size1, align1, Some(p1), b1),
        b1.allocate_ensures(size2, align2, Some(p2), b2),
    ensures
        b0.start() <= p1,
        p1 + size1 <= p2,
        p2 + size2 <= b0.stop(),
        b2.start() == p2 + size2,
{
    lemma_align_up(b0.start() as int, align1 as int);
    lemma_align_up(b1.start() as int, align2 as int);
}

/// Every block handed out starts at a multiple of the alignment asked
/// for, no earlier than the first free address and less than one
/// alignment past it, and ends within the region.
pub proof fn law_block_aligned_in_region(b: BumpPointer, size: usize, align: usize)
    requires
        align > 0,
        b.next_block(size, align) is Some,
    ensures
        b.next_block(size, align)->0 % align == 0,
        b.start() <= b.next_block(size, align)->0 < b.start() + align,
        b.next_block(size, align)->0 + size <= b.stop(),
{
    lemma_align_up(b.start() as int, align as int);
}

/// A request is refused exactly when the rounded-up block would run past
/// the end of the region; a refused request changes nothing.
pub proof fn law_refusal(b: BumpPointer, size: usize, align: usize, after: BumpPointer)
    requires
        b.allocate_ensures(size, align, None, after),
    ensures
        align_up(b.start() as int, align as int) + size > b.stop(),
        after == b,
{
}

/// Allocation keeps the next free address within the region, never moves
/// the end of the region, and never moves the next free address back.
pub proof fn law_allocate_keeps_inv(
    b: BumpPointer,
    size: usize,
    align: usize,
    result: Option<usize>,
    after: BumpPointer,
)
    requires
        align > 0,
        b.inv(),
        b.allocate_ensures(size, align, result, after),
    ensures
        after.inv(),
        after.stop() == b.stop(),
        b.start() <= after.start(),
{
    lemma_align_up(b.start() as int, align as int);
}

/// For the bump allocator, a whole reallocation (its first half, the
/// copy, its second half) leaves the same answer and the same state as
/// allocation alone: freeing never gives memory back.
pub proof fn law_reallocation_is_allocation(
    before: BumpPointer,
    size: usize,
    align: usize,
    result: Option<usize>,
    mid: BumpPointer,
    copy: Option<BlockMove>,
    after: BumpPointer,
)
    requires
        before.allocate_ensures(size, align, result, mid),
        match copy {
            Some(m) => mid.deallocate_ensures(m.src, m.count, align, after),
            None => after == mid,
        },
    ensures
        before.allocate_ensures(size, align, result, after),
{
}

} // verus!
