//! Block arithmetic of the allocator that draws on R raw vectors kept alive
//! in a preserve list. Each block is preceded by a header that records the
//! token of the vector's cell in the list and the block's offset in the
//! vector's payload, so that releasing the block can find the token again.
use vstd::prelude::*;
use crate::ralloc::{aligned_up, align_up, is_alignment, lemma_alignment_facts, Request};

verus! {

/// Where a block lies in a raw vector whose payload starts at `base`.
#[derive(PartialEq, Eq, Structural, Debug, Clone, Copy)]
pub struct Placement {
    /// The first byte of the block: aligned, with room for the header before it.
    pub block: usize,
    /// The first byte of the header, which ends where the block starts.
    pub header: usize,
    /// The offset recorded in the header: `block - base`, kept in 16 bits.
    pub offset: u16,
}

/// The allocator; see its methods for the layout of each block.
#[derive(Debug)]
pub struct RAllocator;

impl RAllocator {
    /// What to ask of R for a block of `size` bytes aligned to `align`
    /// behind a header of `header` bytes: nothing for an empty block, else a
    /// raw vector with room for the header and for the worst alignment gap.
    pub fn request(&self, size: usize, align: usize, header: usize) -> (r: Request)
        requires
            is_alignment(align),
        ensures
            size == 0 ==> r == Request::Dangling(align),
            size > 0 && size + align - 1 + header <= usize::MAX ==> r == Request::Bytes(
                (size + align - 1 + header) as usize,
            ),
            size > 0 && size + align - 1 + header > usize::MAX ==> r == Request::TooLarge,
    {
        proof {
            lemma_alignment_facts(align);
        }
        if size == 0 {
            return Request::Dangling(align);
        }
        let gap: usize = align - 1;
        match size.checked_add(gap) {
            Some(t) => match t.checked_add(header) {
                Some(total) => Request::Bytes(total),
                None => Request::TooLarge,
            },
            None => Request::TooLarge,
        }
    }

    /// Where the block and its header go in a payload that starts at `base`.
    pub fn place(&self, base: usize, align: usize, header: usize) -> (p: Placement)
        requires
            is_alignment(align),
            base + header + align - 1 <= usize::MAX,
        ensures
            p.block == aligned_up(base + header, align as int),
            p.block % align == 0,
            p.header == p.block - header,
            p.offset == (p.block - base) % 0x1_0000,
    {
        proof {
            lemma_alignment_facts(align);
        }
        let start: usize = base + header;
        let block: usize = align_up(start, align);
        let gap: usize = block - base;
        let offset: u16 = (gap % 0x1_0000) as u16;
        Placement { block, header: block - header, offset }
    }

    /// Where the header of the block at `block` starts, as releasing it reads.
    pub fn header_of(&self, block: usize, header: usize) -> (r: usize)
        requires
            header <= block,
        ensures
            r == block - header,
    {
        block - header
    }
}

/// In storage of the requested length, the header lies after the payload's
/// start, the block follows the header directly and ends inside the
/// payload, and the header read back on release is the one written.
pub proof fn lemma_header_and_block_fit(base: usize, size: usize, align: usize, header: usize)
    requires
        is_alignment(align),
        size > 0,
    ensures
        ({
            let block = aligned_up(base + header, align as int);
            &&& base <= block - header
            &&& block + size <= base + (size + align - 1 + header)
        }),
{
    lemma_alignment_facts(align);
    let y = base + header + align - 1;
    assert(0 <= y % (align as int) < align);
}

} // verus!
