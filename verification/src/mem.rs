//! The executable-memory arena: builds the page-sized image that is later
//! mapped into read/write/execute memory and run.
//!
//! Everything here is plain byte bookkeeping: rounding a request up to the
//! page size, pre-filling the whole image with an immediate-return opcode,
//! and copying finalized code in verbatim. Acquiring the actual OS mapping
//! is left to the embedding program.

use vstd::prelude::*;

verus! {

/// Size in bytes of one page of the executable arena.
pub const PAGE_SIZE: usize = 4096;

/// The host's one-byte "return to caller" opcode. Every allocated byte is
/// pre-filled with it, so any unreached tail of the image returns safely
/// instead of executing garbage.
pub const RETURN_OPCODE: u8 = 0xc3;

/// Failure of an executable-memory allocation request.
#[derive(Clone, Copy, Debug, PartialEq, Eq, Structural)]
pub enum MemError {
    AllocError,
}

/// `size` rounded up to the next multiple of the page size.
pub open spec fn page_round_up(size: int) -> int {
    ((size + PAGE_SIZE - 1) / (PAGE_SIZE as int)) * (PAGE_SIZE as int)
}

/// The image of one executable-memory mapping: a page-aligned number of
/// bytes, pre-filled with the return opcode wherever no code was copied in.
pub struct JitMemory {
    mem: Vec<u8>,
}

impl View for JitMemory {
    type V = Seq<u8>;

    closed spec fn view(&self) -> Seq<u8> {
        self.mem@
    }
}

impl JitMemory {
    /// Allocates an image of `size` bytes rounded up to whole pages, every
    /// byte pre-filled with the return opcode.
    ///
    /// Succeeds exactly when the rounding does not overflow `usize`; in
    /// particular a request smaller than one page yields one whole page.
    pub fn allocate(size: usize) -> (r: Result<JitMemory, MemError>)
        ensures
            r is Ok <==> size <= usize::MAX - (PAGE_SIZE - 1),
            r matches Ok(m) ==> {
                &&& m@.len() == page_round_up(size as int)
                &&& forall|i: int| 0 <= i < m@.len() ==> m@[i] == RETURN_OPCODE
            },
            r matches Err(e) ==> e == MemError::AllocError,
    {
        if size > usize::MAX - (PAGE_SIZE - 1) {
            return Err(MemError::AllocError);
        }
        let rounded = ((size + (PAGE_SIZE - 1)) / PAGE_SIZE) * PAGE_SIZE;
        proof {
            assert(rounded == page_round_up(size as int));
        }
        let mut mem: Vec<u8> = Vec::new();
        while mem.len() < rounded
            invariant
                mem@.len() <= rounded,
                forall|i: int| 0 <= i < mem@.len() ==> mem@[i] == RETURN_OPCODE,
            decreases rounded - mem@.len(),
        {
            mem.push(RETURN_OPCODE);
        }
        Ok(JitMemory { mem })
    }

    /// Allocates room for `buffer.len() + 1` bytes and copies `buffer` in
    /// verbatim, leaving the pre-filled return opcode as the terminator and
    /// as padding up to the page boundary.
    pub fn from_vec(buffer: Vec<u8>) -> (r: Result<JitMemory, MemError>)
        ensures
            r is Ok <==> buffer@.len() + 1 <= usize::MAX - (PAGE_SIZE - 1),
            r matches Ok(m) ==> {
                &&& m@.len() == page_round_up(buffer@.len() + 1 as int)
                &&& m@.subrange(0, buffer@.len() as int) == buffer@
                &&& forall|i: int| buffer@.len() <= i < m@.len() ==> m@[i] == RETURN_OPCODE
            },
            r matches Err(e) ==> e == MemError::AllocError,
    {
        if buffer.len() > usize::MAX - PAGE_SIZE {
            return Err(MemError::AllocError);
        }
        let ghost orig = buffer@;
        let rounded = ((buffer.len() + 1 + (PAGE_SIZE - 1)) / PAGE_SIZE) * PAGE_SIZE;
        proof {
            assert(rounded == page_round_up(orig.len() + 1 as int));
        }
        let mut mem = buffer;
        while mem.len() < rounded
            invariant
                orig.len() < rounded <= usize::MAX,
                orig.len() <= mem@.len() <= rounded,
                mem@.subrange(0, orig.len() as int) == orig,
                forall|i: int| orig.len() <= i < mem@.len() ==> mem@[i] == RETURN_OPCODE,
            decreases rounded - mem@.len(),
        {
            mem.push(RETURN_OPCODE);
            proof {
                assert(mem@.subrange(0, orig.len() as int) == orig);
            }
        }
        Ok(JitMemory { mem })
    }

    /// Number of bytes in the image; always a whole number of pages.
    pub fn size(&self) -> (r: usize)
        ensures
            r == self@.len(),
    {
        self.mem.len()
    }

    /// The byte at `index`.
    pub fn get(&self, index: usize) -> (r: u8)
        requires
            index < self@.len(),
        ensures
            r == self@[index as int],
    {
        self.mem[index]
    }

    /// The whole image, for the embedding program to copy into an actual
    /// executable mapping.
    pub fn code(&self) -> (r: &Vec<u8>)
        ensures
            r@ == self@,
    {
        &self.mem
    }
}

} // verus!
