//! The code buffer and the fixed parts of the generated function: the
//! entry prologue, the call trampoline, and the exit epilogue.
//!
//! The generated function has the native signature
//! `(buffer: *mut [u8; 8], callback: extern fn(*mut [u8; 8])) -> i64`.
//! The guest register file is held in host registers under a fixed binding:
//! the accumulator A in `ah` (the flags byte F is never computed and stays
//! zero in `al`), BC in `bx`, DE in `cx`, HL in `dx`, and SP in `r8w`; the
//! buffer pointer rides in `r10` and the callback pointer in `r11`.

use vstd::prelude::*;

use crate::mem::{JitMemory, MemError, PAGE_SIZE, RETURN_OPCODE, page_round_up};

verus! {

/// Bytes of the fixed entry prologue: save the one callee-saved host
/// register the generated code clobbers, park the two arguments in `r10`
/// and `r11`, zero-initialize every host register that emulates the guest
/// register file, and clear the carry flag.
pub open spec fn prologue_bytes() -> Seq<u8> {
    seq![
        0x53u8, // push rbx
        0x49u8, 0x89u8, 0xfau8, // mov r10, rdi (debug buffer pointer)
        0x49u8, 0x89u8, 0xf3u8, // mov r11, rsi (callback pointer)
        0x48u8, 0x31u8, 0xc0u8, // xor rax, rax (AF = 0)
        0x48u8, 0x31u8, 0xdbu8, // xor rbx, rbx (BC = 0)
        0x48u8, 0x31u8, 0xc9u8, // xor rcx, rcx (DE = 0)
        0x48u8, 0x31u8, 0xd2u8, // xor rdx, rdx (HL = 0)
        0x4du8, 0x31u8, 0xc0u8, // xor r8, r8   (SP = 0)
        0xf8u8, // clc
    ]
}

/// Bytes that write the guest register snapshot into the caller's 8-byte
/// buffer: the pairs AF, BC, DE, HL at offsets 0, 2, 4, 6, each low byte
/// first.
pub open spec fn snapshot_store_bytes() -> Seq<u8> {
    seq![
        0x66u8, 0x41u8, 0x89u8, 0x02u8, // mov [r10], ax
        0x66u8, 0x41u8, 0x89u8, 0x5au8, 0x02u8, // mov [r10+2], bx
        0x66u8, 0x41u8, 0x89u8, 0x4au8, 0x04u8, // mov [r10+4], cx
        0x66u8, 0x41u8, 0x89u8, 0x52u8, 0x06u8, // mov [r10+6], dx
    ]
}

/// Bytes of the call trampoline: write the guest snapshot into the buffer,
/// save every live host register (and the flags) on the stack, call the
/// callback with the buffer's address as its sole argument, and restore,
/// so that subsequent guest instructions observe unchanged state.
pub open spec fn trampoline_bytes() -> Seq<u8> {
    snapshot_store_bytes() + seq![
        0x9cu8, // pushfq
        0x50u8, // push rax
        0x51u8, // push rcx
        0x52u8, // push rdx
        0x41u8, 0x50u8, // push r8
        0x41u8, 0x52u8, // push r10
        0x41u8, 0x53u8, // push r11
        0x53u8, // push rbx (keeps the stack 16-byte aligned at the call)
        0x4cu8, 0x89u8, 0xd7u8, // mov rdi, r10
        0x41u8, 0xffu8, 0xd3u8, // call r11
        0x5bu8, // pop rbx
        0x41u8, 0x5bu8, // pop r11
        0x41u8, 0x5au8, // pop r10
        0x41u8, 0x58u8, // pop r8
        0x5au8, // pop rdx
        0x59u8, // pop rcx
        0x58u8, // pop rax
        0x9du8, // popfq
    ]
}

/// Bytes of the fixed exit epilogue: write the final guest snapshot into
/// the caller's buffer, clear the return-value register, restore the saved
/// callee-saved register, and return.
pub open spec fn epilogue_bytes() -> Seq<u8> {
    snapshot_store_bytes() + seq![
        0x48u8, 0x31u8, 0xc0u8, // xor rax, rax (return value 0)
        0x5bu8, // pop rbx
        0xc3u8, // ret
    ]
}

/// An append-only buffer of generated code, created holding the fixed
/// prologue and grown only by sequential encode calls.
pub struct JitBuilder {
    buffer: Vec<u8>,
}

impl View for JitBuilder {
    type V = Seq<u8>;

    closed spec fn view(&self) -> Seq<u8> {
        self.buffer@
    }
}

impl JitBuilder {
    /// A fresh builder, already containing the fixed prologue.
    pub fn new() -> (b: JitBuilder)
        ensures
            b@ == prologue_bytes(),
    {
        let mut b = JitBuilder { buffer: Vec::new() };
        b.extend(&[
            0x53, // push rbx
            0x49, 0x89, 0xfa, // mov r10, rdi
            0x49, 0x89, 0xf3, // mov r11, rsi
            0x48, 0x31, 0xc0, // xor rax, rax
            0x48, 0x31, 0xdb, // xor rbx, rbx
            0x48, 0x31, 0xc9, // xor rcx, rcx
            0x48, 0x31, 0xd2, // xor rdx, rdx
            0x4d, 0x31, 0xc0, // xor r8, r8
            0xf8, // clc
        ]);
        proof {
            assert(b@ =~= prologue_bytes());
        }
        b
    }

    /// Appends `bytes` to the buffer in order.
    pub fn extend(&mut self, bytes: &[u8])
        ensures
            final(self)@ == old(self)@ + bytes@,
    {
        let mut i: usize = 0;
        while i < bytes.len()
            invariant
                i <= bytes@.len(),
                self@ == old(self)@ + bytes@.subrange(0, i as int),
            decreases bytes@.len() - i,
        {
            self.buffer.push(bytes[i]);
            proof {
                assert(old(self)@ + bytes@.subrange(0, i as int) + seq![bytes@[i as int]]
                    =~= old(self)@ + bytes@.subrange(0, i + 1));
            }
            i = i + 1;
        }
        proof {
            assert(bytes@.subrange(0, bytes@.len() as int) =~= bytes@);
        }
    }

    /// Appends the call trampoline, so that at this point of execution the
    /// generated code invokes the callback handed to it at invocation time.
    pub fn call_fn(&mut self)
        ensures
            final(self)@ == old(self)@ + trampoline_bytes(),
    {
        self.extend(&[
            0x66, 0x41, 0x89, 0x02, // mov [r10], ax
            0x66, 0x41, 0x89, 0x5a, 0x02, // mov [r10+2], bx
            0x66, 0x41, 0x89, 0x4a, 0x04, // mov [r10+4], cx
            0x66, 0x41, 0x89, 0x52, 0x06, // mov [r10+6], dx
            0x9c, // pushfq
            0x50, // push rax
            0x51, // push rcx
            0x52, // push rdx
            0x41, 0x50, // push r8
            0x41, 0x52, // push r10
            0x41, 0x53, // push r11
            0x53, // push rbx (keeps the stack 16-byte aligned at the call)
            0x4c, 0x89, 0xd7, // mov rdi, r10
            0x41, 0xff, 0xd3, // call r11
            0x5b, // pop rbx
            0x41, 0x5b, // pop r11
            0x41, 0x5a, // pop r10
            0x41, 0x58, // pop r8
            0x5a, // pop rdx
            0x59, // pop rcx
            0x58, // pop rax
            0x9d, // popfq
        ]);
        proof {
            assert(final(self)@ =~= old(self)@ + trampoline_bytes());
        }
    }

    /// Appends the fixed exit epilogue and consumes the buffer into an
    /// executable-memory image: the complete code copied in verbatim, the
    /// pre-filled return opcode as padding up to the page boundary.
    pub fn finalize(self) -> (r: Result<JitMemory, MemError>)
        ensures
            ({
                let code = self@ + epilogue_bytes();
                &&& (r is Ok <==> code.len() + 1 <= usize::MAX - (PAGE_SIZE - 1))
                &&& (r matches Ok(m) ==> {
                    &&& m@.len() == page_round_up(code.len() + 1 as int)
                    &&& m@.subrange(0, code.len() as int) == code
                    &&& forall|i: int| code.len() <= i < m@.len() ==> m@[i] == RETURN_OPCODE
                })
                &&& (r matches Err(e) ==> e == MemError::AllocError)
            }),
    {
        let mut b = self;
        b.extend(&[
            0x66, 0x41, 0x89, 0x02, // mov [r10], ax
            0x66, 0x41, 0x89, 0x5a, 0x02, // mov [r10+2], bx
            0x66, 0x41, 0x89, 0x4a, 0x04, // mov [r10+4], cx
            0x66, 0x41, 0x89, 0x52, 0x06, // mov [r10+6], dx
            0x48, 0x31, 0xc0, // xor rax, rax
            0x5b, // pop rbx
            0xc3, // ret
        ]);
        proof {
            assert(b@ =~= self@ + epilogue_bytes());
        }
        JitMemory::from_vec(b.buffer)
    }
}

} // verus!
