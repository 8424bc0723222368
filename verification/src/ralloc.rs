//! Block arithmetic of the allocator that draws on R's transient storage
//! (`R_alloc`): how many bytes to request and where the aligned block
//! starts. The storage is freed by R when control returns to it, so
//! releasing a block does nothing.
use vstd::prelude::*;
use vstd::arithmetic::power2::pow2;

verus! {

/// Whether `align` is a power of two that fits in `usize`, as `Layout`
/// guarantees of every alignment.
pub open spec fn is_alignment(align: usize) -> bool {
    exists|k: nat| k < usize::BITS && align == pow2(k)
}

/// The first address at or after `addr` that is a multiple of `align`.
pub open spec fn aligned_up(addr: int, align: int) -> int {
    let y = addr + align - 1;
    y - y % align
}

/// What an allocation asks of R's storage.
#[derive(PartialEq, Eq, Structural, Debug, Clone, Copy)]
pub enum Request {
    /// A zero-sized block: no storage; the address is the alignment itself.
    Dangling(usize),
    /// Storage of this many bytes.
    Bytes(usize),
    /// The byte count does not fit in `usize`: the allocation fails.
    TooLarge,
}

/// A power-of-two alignment is positive, and masking with one less than it
/// takes the remainder.
pub proof fn lemma_alignment_facts(align: usize)
    requires
        is_alignment(align),
    ensures
        align > 0,
        forall|y: usize| #[trigger] (y & ((align - 1) as usize)) == y % align,
{
    let k = choose|k: nat| k < usize::BITS && align == pow2(k);
    vstd::arithmetic::power2::lemma_pow2_pos(k);
    assert forall|y: usize| #[trigger] (y & ((align - 1) as usize)) == y % align by {
        vstd::bits::lemma_usize_low_bits_mask_is_mod(y, k);
    }
}

/// Round `addr` up to a multiple of the power of two `align`.
pub fn align_up(addr: usize, align: usize) -> (r: usize)
    requires
        is_alignment(align),
        addr + align - 1 <= usize::MAX,
    ensures
        r == aligned_up(addr as int, align as int),
        r % align == 0,
        addr <= r < addr + align,
{
    proof {
        lemma_alignment_facts(align);
    }
    let m: usize = align - 1;
    let y: usize = addr + m;
    let r: usize = y & !m;
    assert(r == y - (y & m)) by (bit_vector)
        requires
            r == y & !m,
    ;
    assert(y & m == y % align);
    proof {
        vstd::arithmetic::div_mod::lemma_fundamental_div_mod(y as int, align as int);
        vstd::arithmetic::div_mod::lemma_mod_multiples_basic((y / align) as int, align as int);
        vstd::arithmetic::mul::lemma_mul_is_commutative((y / align) as int, align as int);
    }
    r
}

/// The allocator; see its methods for the layout of each block.
#[derive(Debug)]
pub struct RAllocator;

impl RAllocator {
    /// What to ask of R's storage for a block of `size` bytes aligned to
    /// `align`: nothing for an empty block, else enough bytes that some
    /// address in them is aligned.
    pub fn request(&self, size: usize, align: usize) -> (r: Request)
        requires
            is_alignment(align),
        ensures
            size == 0 ==> r == Request::Dangling(align),
            size > 0 && size + align - 1 <= usize::MAX ==> r == Request::Bytes(
                (size + align - 1) as usize,
            ),
            size > 0 && size + align - 1 > usize::MAX ==> r == Request::TooLarge,
    {
        proof {
            lemma_alignment_facts(align);
        }
        if size == 0 {
            return Request::Dangling(align);
        }
        match size.checked_add(align - 1) {
            Some(total) => Request::Bytes(total),
            None => Request::TooLarge,
        }
    }

    /// The start of the aligned block inside storage that R placed at `base`.
    pub fn place(&self, base: usize, align: usize) -> (r: usize)
        requires
            is_alignment(align),
            base + align - 1 <= usize::MAX,
        ensures
            r == aligned_up(base as int, align as int),
            r % align == 0,
    {
        align_up(base, align)
    }
}

/// A block of `size` bytes placed in storage of the requested length lies
/// inside that storage.
pub proof fn lemma_block_fits(base: usize, size: usize, align: usize)
    requires
        is_alignment(align),
        size > 0,
    ensures
        base <= aligned_up(base as int, align as int),
        aligned_up(base as int, align as int) + size <= base + (size + align - 1),
{
    lemma_alignment_facts(align);
    let y = base + align - 1;
    assert(0 <= y % (align as int) < align);
}

} // verus!
