//! The arena allocator: a bump-pointer allocator over a fixed, statically
//! sized backing region of the kernel's private heap.
//!
//! Every dynamic request inside the kernel is served by moving a single
//! cursor forward; deallocation is accepted and is a no-op, so allocations
//! live until the kernel instance is torn down. Exhaustion is fatal for the
//! requesting call: the caller must fail that syscall, not continue with a
//! partial buffer. Addresses are plain offsets into the region, which is
//! what the embedding adds to the region's base.

use vstd::prelude::*;

verus! {

/// The padding that carries `n` up to the next multiple of `align`.
pub open spec fn align_pad(n: int, align: int) -> int {
    if n % align == 0 {
        0
    } else {
        align - n % align
    }
}

/// The bump-pointer arena over the heap region ending at `limit`.
pub struct KernelAlloc {
    next: usize,
    limit: usize,
}

impl KernelAlloc {
    /// The cursor: every address below it may already be handed out.
    pub closed spec fn spec_next(&self) -> usize {
        self.next
    }

    /// The exclusive end of the backing region.
    pub closed spec fn spec_limit(&self) -> usize {
        self.limit
    }

    /// The cursor never runs past the region.
    pub open spec fn wf(&self) -> bool {
        self.spec_next() <= self.spec_limit()
    }

    /// A fresh arena over `[base, limit)`.
    pub fn new(base: usize, limit: usize) -> (r: KernelAlloc)
        requires
            base <= limit,
        ensures
            r.wf(),
            r.spec_next() == base,
            r.spec_limit() == limit,
    {
        KernelAlloc { next: base, limit }
    }

    /// Bumps the cursor to the next `align`-aligned address and reserves
    /// `size` bytes there. Success is owed whenever the padded request fits
    /// the region: the address is then exactly the old cursor plus the
    /// alignment padding, so the returned range overlaps no previously
    /// returned range and ends inside the region. Only a request that would
    /// run past the region fails (exhaustion), leaving the cursor untouched.
    pub fn allocate(&mut self, size: usize, align: usize) -> (r: Option<usize>)
        requires
            old(self).wf(),
            align >= 1,
        ensures
            final(self).wf(),
            final(self).spec_limit() == old(self).spec_limit(),
            ({
                let n = old(self).spec_next() as int;
                let pad = align_pad(n, align as int);
                match r {
                    Some(addr) => {
                        &&& addr == n + pad
                        &&& addr as int % align as int == 0
                        &&& addr + size == final(self).spec_next()
                        &&& final(self).spec_next() <= final(self).spec_limit()
                    },
                    None => {
                        &&& n + pad + size > old(self).spec_limit()
                        &&& final(self).spec_next() == n
                    },
                }
            }),
    {
        let rem = self.next % align;
        let pad = if rem == 0 {
            0
        } else {
            align - rem
        };
        let aligned = match self.next.checked_add(pad) {
            Some(a) => a,
            None => { return None },
        };
        proof {
            let n = self.next as int;
            let a = align as int;
            if n % a != 0 {
                vstd::arithmetic::div_mod::lemma_fundamental_div_mod(n, a);
                assert(aligned as int == a * (n / a) + a);
                assert(a * (n / a) + a == (n / a + 1) * a) by (nonlinear_arith);
                vstd::arithmetic::div_mod::lemma_mod_multiples_basic(n / a + 1, a);
                assert(aligned as int % a == 0);
            }
        }
        let next = match aligned.checked_add(size) {
            Some(n) => n,
            None => { return None },
        };
        if next > self.limit {
            return None;
        }
        self.next = next;
        Some(aligned)
    }

    /// Deallocation is a documented no-op: the arena never reclaims space.
    pub fn deallocate(&mut self, _addr: usize, _size: usize, _align: usize)
        ensures
            *final(self) == *old(self),
    {
    }
}

} // verus!
