//! The abstract guest instruction set and its encoder.
//!
//! Each operation is appended to a [`JitBuilder`] as an exact host byte
//! sequence, fixed by the guest-to-host register binding: BC, DE, HL in
//! the three general-purpose host registers `bx`, `cx`, `dx`, SP in the
//! extended host register `r8w` (one extra prefix byte), the byte lanes
//! B, C, D, E, H, L in the halves of those registers, and A in `ah`.
//! AF has no general 16-bit load, and the memory byte addressed by HL has
//! no host encoding at all: operations naming them are rejected at encode
//! time, never silently miscoded.

use vstd::prelude::*;

use crate::jit::{JitBuilder, trampoline_bytes};

verus! {

/// Direction of an accumulator rotation.
#[derive(Clone, Copy, Debug, PartialEq, Eq, Structural)]
pub enum Dir {
    Left,
    Right,
}

/// Whether a rotation goes through the carry flag (a 9-bit rotation of
/// accumulator plus carry) or rotates the 8 accumulator bits in place.
#[derive(Clone, Copy, Debug, PartialEq, Eq, Structural)]
pub enum UseCarry {
    WithCarry,
    WithoutCarry,
}

/// A 16-bit paired guest register.
#[derive(Clone, Copy, Debug, PartialEq, Eq, Structural)]
pub enum Reg {
    BC,
    DE,
    HL,
    SP,
    AF,
}

/// An 8-bit guest byte destination. `HL` names the memory byte addressed
/// by the HL pair, which would need computed addressing and is unsupported.
#[derive(Clone, Copy, Debug, PartialEq, Eq, Structural)]
pub enum Dest {
    B,
    C,
    D,
    E,
    H,
    L,
    HL,
    A,
}

/// One abstract guest operation.
#[derive(Clone, Copy, Debug, PartialEq, Eq, Structural)]
pub enum Op {
    /// Emits no bytes and changes no state.
    Nop,
    /// Load a 16-bit immediate into a paired register.
    LdRN(Reg, u16),
    /// 16-bit add of a paired register into HL.
    AddHlR(Reg),
    /// 16-bit increment of a paired register.
    IncR(Reg),
    /// 16-bit decrement of a paired register.
    DecR(Reg),
    /// 8-bit increment of a byte destination.
    IncD(Dest),
    /// 8-bit decrement of a byte destination.
    DecD(Dest),
    /// Load an 8-bit immediate into a byte destination.
    LdDN(Dest, u8),
    /// Rotate the accumulator by one bit.
    Rotate(Dir, UseCarry),
    /// Call the native callback with the guest register snapshot.
    Log,
}

/// Host register code of a 16-bit guest register in the low host register
/// range; the load-immediate opcode is the base opcode plus this code.
/// SP lives outside the low range (it is reached through the
/// extended-register prefix with code 0) and AF has no binding at all:
/// neither is ever encoded through this function.
pub open spec fn spec_reg_code(r: Reg) -> u8 {
    match r {
        Reg::BC => 3,
        Reg::DE => 1,
        Reg::HL => 2,
        Reg::SP => 0,
        Reg::AF => 0,
    }
}

/// Host byte-lane code of an 8-bit guest destination: the halves of the
/// three paired host registers, plus the dedicated accumulator lane.
/// The memory destination has no binding and is never encoded.
pub open spec fn spec_dest_code(d: Dest) -> u8 {
    match d {
        Dest::B => 7,
        Dest::C => 3,
        Dest::D => 5,
        Dest::E => 1,
        Dest::H => 6,
        Dest::L => 2,
        Dest::HL => 0,
        Dest::A => 4,
    }
}

/// Selector byte of the four accumulator rotation encodings.
pub open spec fn spec_rotate_code(dir: Dir, carry: UseCarry) -> u8 {
    match (dir, carry) {
        (Dir::Left, UseCarry::WithCarry) => 0xd4,
        (Dir::Left, UseCarry::WithoutCarry) => 0xc4,
        (Dir::Right, UseCarry::WithCarry) => 0xdc,
        (Dir::Right, UseCarry::WithoutCarry) => 0xcc,
    }
}

/// Low byte of a 16-bit immediate (little-endian order puts it first).
pub open spec fn lo16(n: u16) -> u8 {
    (n % 256) as u8
}

/// High byte of a 16-bit immediate.
pub open spec fn hi16(n: u16) -> u8 {
    (n / 256) as u8
}

/// Whether an operation has a host encoding. The memory destination in
/// any 8-bit operation and AF in any 16-bit operation do not.
pub open spec fn op_supported(op: Op) -> bool {
    match op {
        Op::Nop => true,
        Op::LdRN(r, _) => r != Reg::AF,
        Op::AddHlR(r) => r != Reg::AF,
        Op::IncR(r) => r != Reg::AF,
        Op::DecR(r) => r != Reg::AF,
        Op::IncD(d) => d != Dest::HL,
        Op::DecD(d) => d != Dest::HL,
        Op::LdDN(d, _) => d != Dest::HL,
        Op::Rotate(_, _) => true,
        Op::Log => true,
    }
}

/// The exact host bytes of one supported operation; multi-byte immediates
/// are little-endian, and emission order equals execution order.
pub open spec fn op_bytes(op: Op) -> Seq<u8> {
    match op {
        Op::Nop => Seq::empty(),
        Op::LdRN(r, n) => match r {
            // mov r8w, imm16: operand-size and extended-register prefixes
            Reg::SP => seq![0x66u8, 0x41u8, 0xb8u8, lo16(n), hi16(n)],
            // mov r16, imm16: base opcode plus the host register code
            _ => seq![0x66u8, (0xb8 + spec_reg_code(r)) as u8, lo16(n), hi16(n)],
        },
        Op::AddHlR(r) => match r {
            Reg::BC => seq![0x66u8, 0x01u8, 0xdau8], // add dx, bx
            Reg::DE => seq![0x66u8, 0x01u8, 0xcau8], // add dx, cx
            Reg::HL => seq![0x66u8, 0x01u8, 0xd2u8], // add dx, dx
            _ => seq![0x66u8, 0x44u8, 0x01u8, 0xc2u8], // add dx, r8w
        },
        Op::IncR(r) => match r {
            Reg::BC => seq![0x66u8, 0xffu8, 0xc3u8], // inc bx
            Reg::DE => seq![0x66u8, 0xffu8, 0xc1u8], // inc cx
            Reg::HL => seq![0x66u8, 0xffu8, 0xc2u8], // inc dx
            _ => seq![0x66u8, 0x41u8, 0xffu8, 0xc0u8], // inc r8w
        },
        Op::DecR(r) => match r {
            Reg::BC => seq![0x66u8, 0xffu8, 0xcbu8], // dec bx
            Reg::DE => seq![0x66u8, 0xffu8, 0xc9u8], // dec cx
            Reg::HL => seq![0x66u8, 0xffu8, 0xcau8], // dec dx
            _ => seq![0x66u8, 0x41u8, 0xffu8, 0xc8u8], // dec r8w
        },
        // inc <lane> / dec <lane>: one opcode, lane selected by the code
        Op::IncD(d) => seq![0xfeu8, (0xc0 + spec_dest_code(d)) as u8],
        Op::DecD(d) => seq![0xfeu8, (0xc8 + spec_dest_code(d)) as u8],
        // mov <lane>, imm8
        Op::LdDN(d, n) => seq![(0xb0 + spec_dest_code(d)) as u8, n],
        Op::Rotate(dir, carry) => seq![0xd0u8, spec_rotate_code(dir, carry)],
        Op::Log => trampoline_bytes(),
    }
}

/// Executable counterpart of [`spec_reg_code`].
fn reg_code(r: Reg) -> (c: u8)
    ensures
        c == spec_reg_code(r),
        c <= 3,
{
    match r {
        Reg::BC => 3,
        Reg::DE => 1,
        Reg::HL => 2,
        Reg::SP => 0,
        Reg::AF => 0,
    }
}

/// Executable counterpart of [`spec_dest_code`].
fn dest_code(d: Dest) -> (c: u8)
    ensures
        c == spec_dest_code(d),
        c <= 7,
{
    match d {
        Dest::B => 7,
        Dest::C => 3,
        Dest::D => 5,
        Dest::E => 1,
        Dest::H => 6,
        Dest::L => 2,
        Dest::HL => 0,
        Dest::A => 4,
    }
}

impl Op {
    /// Whether this operation has a host encoding; `into_asm` demands it.
    pub fn supported(&self) -> (r: bool)
        ensures
            r == op_supported(*self),
    {
        match self {
            Op::LdRN(r, _) => !matches!(r, Reg::AF),
            Op::AddHlR(r) => !matches!(r, Reg::AF),
            Op::IncR(r) => !matches!(r, Reg::AF),
            Op::DecR(r) => !matches!(r, Reg::AF),
            Op::IncD(d) => !matches!(d, Dest::HL),
            Op::DecD(d) => !matches!(d, Dest::HL),
            Op::LdDN(d, _) => !matches!(d, Dest::HL),
            _ => true,
        }
    }

    /// Appends this operation's exact host bytes to the builder; its only
    /// effect is buffer growth.
    pub fn into_asm(self, builder: &mut JitBuilder)
        requires
            op_supported(self),
        ensures
            final(builder)@ == old(builder)@ + op_bytes(self),
    {
        match self {
            Op::Nop => {
                proof {
                    assert(builder@ =~= old(builder)@ + op_bytes(self));
                }
            },
            Op::LdRN(r, n) => {
                let n0 = (n % 256) as u8;
                let n1 = (n / 256) as u8;
                match r {
                    Reg::SP => builder.extend(&[0x66, 0x41, 0xb8, n0, n1]),
                    _ => builder.extend(&[0x66, 0xb8 + reg_code(r), n0, n1]),
                }
                proof {
                    assert(builder@ =~= old(builder)@ + op_bytes(self));
                }
            },
            Op::AddHlR(r) => {
                match r {
                    Reg::BC => builder.extend(&[0x66, 0x01, 0xda]),
                    Reg::DE => builder.extend(&[0x66, 0x01, 0xca]),
                    Reg::HL => builder.extend(&[0x66, 0x01, 0xd2]),
                    _ => builder.extend(&[0x66, 0x44, 0x01, 0xc2]),
                }
                proof {
                    assert(builder@ =~= old(builder)@ + op_bytes(self));
                }
            },
            Op::IncR(r) => {
                match r {
                    Reg::BC => builder.extend(&[0x66, 0xff, 0xc3]),
                    Reg::DE => builder.extend(&[0x66, 0xff, 0xc1]),
                    Reg::HL => builder.extend(&[0x66, 0xff, 0xc2]),
                    _ => builder.extend(&[0x66, 0x41, 0xff, 0xc0]),
                }
                proof {
                    assert(builder@ =~= old(builder)@ + op_bytes(self));
                }
            },
            Op::DecR(r) => {
                match r {
                    Reg::BC => builder.extend(&[0x66, 0xff, 0xcb]),
                    Reg::DE => builder.extend(&[0x66, 0xff, 0xc9]),
                    Reg::HL => builder.extend(&[0x66, 0xff, 0xca]),
                    _ => builder.extend(&[0x66, 0x41, 0xff, 0xc8]),
                }
                proof {
                    assert(builder@ =~= old(builder)@ + op_bytes(self));
                }
            },
            Op::IncD(d) => {
                builder.extend(&[0xfe, 0xc0 + dest_code(d)]);
                proof {
                    assert(builder@ =~= old(builder)@ + op_bytes(self));
                }
            },
            Op::DecD(d) => {
                builder.extend(&[0xfe, 0xc8 + dest_code(d)]);
                proof {
                    assert(builder@ =~= old(builder)@ + op_bytes(self));
                }
            },
            Op::LdDN(d, n) => {
                builder.extend(&[0xb0 + dest_code(d), n]);
                proof {
                    assert(builder@ =~= old(builder)@ + op_bytes(self));
                }
            },
            Op::Rotate(dir, carry) => {
                let code: u8 = match (dir, carry) {
                    (Dir::Left, UseCarry::WithCarry) => 0xd4,
                    (Dir::Left, UseCarry::WithoutCarry) => 0xc4,
                    (Dir::Right, UseCarry::WithCarry) => 0xdc,
                    (Dir::Right, UseCarry::WithoutCarry) => 0xcc,
                };
                builder.extend(&[0xd0, code]);
                proof {
                    assert(builder@ =~= old(builder)@ + op_bytes(self));
                }
            },
            Op::Log => {
                builder.call_fn();
            },
        }
    }
}

} // verus!
