//! The guest register model: the register file the generated code
//! maintains, and the exact effect of every supported operation on it.
//!
//! A generated function starts from the zeroed entry state, applies its
//! encoded operations in emission order, and on exit (and at every Log
//! call) writes the 8-byte debug snapshot: byte 0 the flags byte (always
//! zero, no flag computation is modeled), byte 1 the accumulator, then
//! the C, B, E, D, L, H lanes — the pairs AF, BC, DE, HL in order, each
//! low byte first. Arithmetic wraps around with no modeled overflow; the
//! one host flag the operations touch is the carry bit, which additions
//! set, rotations rotate through, and the trampoline preserves.

use vstd::prelude::*;

use crate::op::{Dest, Dir, Op, Reg, UseCarry, hi16, lo16, op_supported};

verus! {

/// The guest register file: the byte lanes of the three paired registers,
/// the accumulator, the 16-bit SP, and the host carry bit.
#[derive(Clone, Copy, Debug, PartialEq, Eq, Structural)]
pub struct GuestState {
    /// The accumulator (the high lane of the AF pair; F stays zero).
    pub a: u8,
    /// High lane of BC.
    pub b: u8,
    /// Low lane of BC.
    pub c: u8,
    /// High lane of DE.
    pub d: u8,
    /// Low lane of DE.
    pub e: u8,
    /// High lane of HL.
    pub h: u8,
    /// Low lane of HL.
    pub l: u8,
    /// The 16-bit stack pointer register.
    pub sp: u16,
    /// The host carry flag, cleared at entry.
    pub carry: bool,
}

/// The zeroed state every generated function starts from.
pub open spec fn init_spec() -> GuestState {
    GuestState { a: 0, b: 0, c: 0, d: 0, e: 0, h: 0, l: 0, sp: 0, carry: false }
}

/// A 16-bit pair value from its two byte lanes.
pub open spec fn pair16(hi: u8, lo: u8) -> u16 {
    (hi * 256 + lo) as u16
}

/// An 8-bit increment with wraparound.
pub open spec fn inc8(v: u8) -> u8 {
    if v < 255 { (v + 1) as u8 } else { 0 }
}

/// An 8-bit decrement with wraparound.
pub open spec fn dec8(v: u8) -> u8 {
    if v > 0 { (v - 1) as u8 } else { 255 }
}

/// A 16-bit increment with wraparound, on a pair of byte lanes.
pub open spec fn inc_pair(hi: u8, lo: u8) -> (u8, u8) {
    if lo < 255 {
        (hi, (lo + 1) as u8)
    } else {
        (inc8(hi), 0u8)
    }
}

/// A 16-bit decrement with wraparound, on a pair of byte lanes.
pub open spec fn dec_pair(hi: u8, lo: u8) -> (u8, u8) {
    if lo > 0 {
        (hi, (lo - 1) as u8)
    } else {
        (dec8(hi), 255u8)
    }
}

/// The 16-bit source value a paired register contributes to an add.
pub open spec fn reg_value(s: GuestState, r: Reg) -> u16 {
    match r {
        Reg::BC => pair16(s.b, s.c),
        Reg::DE => pair16(s.d, s.e),
        Reg::HL => pair16(s.h, s.l),
        Reg::SP => s.sp,
        Reg::AF => pair16(s.a, 0),
    }
}

/// One rotated accumulator and the carry bit left behind. A rotation
/// without carry rotates the 8 accumulator bits in place; one with carry
/// rotates the 9 bits of accumulator plus carry. Either way the bit
/// shifted out becomes the new carry.
pub open spec fn rotate8(a: u8, carry: bool, dir: Dir, uc: UseCarry) -> (u8, bool) {
    match (dir, uc) {
        (Dir::Left, UseCarry::WithCarry) => (
            ((a << 1) | (if carry { 1u8 } else { 0u8 })),
            a >> 7 == 1,
        ),
        (Dir::Left, UseCarry::WithoutCarry) => (((a << 1) | (a >> 7)), a >> 7 == 1),
        (Dir::Right, UseCarry::WithCarry) => (
            ((a >> 1) | (if carry { 0x80u8 } else { 0u8 })),
            a & 1 == 1,
        ),
        (Dir::Right, UseCarry::WithoutCarry) => (((a >> 1) | (a << 7)), a & 1 == 1),
    }
}

/// The state after one supported operation; an unsupported one is never
/// encoded and is left as a no-op here.
pub open spec fn step_op(s: GuestState, op: Op) -> GuestState {
    match op {
        Op::Nop => s,
        Op::Log => s,
        Op::LdRN(r, n) => match r {
            Reg::BC => GuestState { b: hi16(n), c: lo16(n), ..s },
            Reg::DE => GuestState { d: hi16(n), e: lo16(n), ..s },
            Reg::HL => GuestState { h: hi16(n), l: lo16(n), ..s },
            Reg::SP => GuestState { sp: n, ..s },
            Reg::AF => s,
        },
        Op::LdDN(d, n) => match d {
            Dest::B => GuestState { b: n, ..s },
            Dest::C => GuestState { c: n, ..s },
            Dest::D => GuestState { d: n, ..s },
            Dest::E => GuestState { e: n, ..s },
            Dest::H => GuestState { h: n, ..s },
            Dest::L => GuestState { l: n, ..s },
            Dest::A => GuestState { a: n, ..s },
            Dest::HL => s,
        },
        Op::AddHlR(r) => {
            if r == Reg::AF {
                s
            } else {
                let sum = pair16(s.h, s.l) + reg_value(s, r);
                let wrapped = (sum % 0x10000) as u16;
                GuestState {
                    h: hi16(wrapped),
                    l: lo16(wrapped),
                    carry: sum >= 0x10000,
                    ..s
                }
            }
        },
        Op::IncR(r) => match r {
            Reg::BC => { let (hi, lo) = inc_pair(s.b, s.c); GuestState { b: hi, c: lo, ..s } },
            Reg::DE => { let (hi, lo) = inc_pair(s.d, s.e); GuestState { d: hi, e: lo, ..s } },
            Reg::HL => { let (hi, lo) = inc_pair(s.h, s.l); GuestState { h: hi, l: lo, ..s } },
            Reg::SP => GuestState { sp: if s.sp < 65535 { (s.sp + 1) as u16 } else { 0 }, ..s },
            Reg::AF => s,
        },
        Op::DecR(r) => match r {
            Reg::BC => { let (hi, lo) = dec_pair(s.b, s.c); GuestState { b: hi, c: lo, ..s } },
            Reg::DE => { let (hi, lo) = dec_pair(s.d, s.e); GuestState { d: hi, e: lo, ..s } },
            Reg::HL => { let (hi, lo) = dec_pair(s.h, s.l); GuestState { h: hi, l: lo, ..s } },
            Reg::SP => GuestState { sp: if s.sp > 0 { (s.sp - 1) as u16 } else { 65535 }, ..s },
            Reg::AF => s,
        },
        Op::IncD(d) => match d {
            Dest::B => GuestState { b: inc8(s.b), ..s },
            Dest::C => GuestState { c: inc8(s.c), ..s },
            Dest::D => GuestState { d: inc8(s.d), ..s },
            Dest::E => GuestState { e: inc8(s.e), ..s },
            Dest::H => GuestState { h: inc8(s.h), ..s },
            Dest::L => GuestState { l: inc8(s.l), ..s },
            Dest::A => GuestState { a: inc8(s.a), ..s },
            Dest::HL => s,
        },
        Op::DecD(d) => match d {
            Dest::B => GuestState { b: dec8(s.b), ..s },
            Dest::C => GuestState { c: dec8(s.c), ..s },
            Dest::D => GuestState { d: dec8(s.d), ..s },
            Dest::E => GuestState { e: dec8(s.e), ..s },
            Dest::H => GuestState { h: dec8(s.h), ..s },
            Dest::L => GuestState { l: dec8(s.l), ..s },
            Dest::A => GuestState { a: dec8(s.a), ..s },
            Dest::HL => s,
        },
        Op::Rotate(dir, uc) => {
            let (a, carry) = rotate8(s.a, s.carry, dir, uc);
            GuestState { a, carry, ..s }
        },
    }
}

/// The state after a whole operation sequence, applied in emission order.
pub open spec fn run_seq(s: GuestState, ops: Seq<Op>) -> GuestState
    decreases ops.len(),
{
    if ops.len() == 0 {
        s
    } else {
        run_seq(step_op(s, ops[0]), ops.drop_first())
    }
}

/// The 8-byte debug snapshot of a state: the pairs AF, BC, DE, HL at
/// offsets 0, 2, 4, 6, each low byte first; the flags byte is always zero.
pub open spec fn snapshot_spec(s: GuestState) -> Seq<u8> {
    seq![0u8, s.a, s.c, s.b, s.e, s.d, s.l, s.h]
}

/// Appending one operation to a program steps its final state once more.
proof fn lemma_run_seq_snoc(s: GuestState, ops: Seq<Op>, op: Op)
    ensures
        run_seq(s, ops.push(op)) == step_op(run_seq(s, ops), op),
    decreases ops.len(),
{
    if ops.len() == 0 {
        assert(ops.push(op)[0] == op);
        assert(ops.push(op).drop_first() =~= ops);
        assert(run_seq(s, ops.push(op)) == run_seq(step_op(s, op), ops));
        assert(run_seq(step_op(s, op), ops) == step_op(s, op));
        assert(run_seq(s, ops) == s);
    } else {
        assert(ops.push(op)[0] == ops[0]);
        assert(ops.push(op).drop_first() =~= ops.drop_first().push(op));
        assert(run_seq(s, ops.push(op))
            == run_seq(step_op(s, ops[0]), ops.drop_first().push(op)));
        lemma_run_seq_snoc(step_op(s, ops[0]), ops.drop_first(), op);
    }
}

impl GuestState {
    /// The zeroed state every generated function starts from.
    pub fn init() -> (s: GuestState)
        ensures
            s == init_spec(),
    {
        GuestState { a: 0, b: 0, c: 0, d: 0, e: 0, h: 0, l: 0, sp: 0, carry: false }
    }

    /// The state after one supported operation.
    pub fn step(&self, op: Op) -> (t: GuestState)
        requires
            op_supported(op),
        ensures
            t == step_op(*self, op),
    {
        match op {
            Op::Nop => *self,
            Op::Log => *self,
            Op::LdRN(r, n) => {
                let lo = (n % 256) as u8;
                let hi = (n / 256) as u8;
                match r {
                    Reg::BC => GuestState { b: hi, c: lo, ..*self },
                    Reg::DE => GuestState { d: hi, e: lo, ..*self },
                    Reg::HL => GuestState { h: hi, l: lo, ..*self },
                    Reg::SP => GuestState { sp: n, ..*self },
                    Reg::AF => *self,
                }
            },
            Op::LdDN(d, n) => match d {
                Dest::B => GuestState { b: n, ..*self },
                Dest::C => GuestState { c: n, ..*self },
                Dest::D => GuestState { d: n, ..*self },
                Dest::E => GuestState { e: n, ..*self },
                Dest::H => GuestState { h: n, ..*self },
                Dest::L => GuestState { l: n, ..*self },
                Dest::A => GuestState { a: n, ..*self },
                Dest::HL => *self,
            },
            Op::AddHlR(r) => {
                let hl: u32 = (self.h as u32) * 256 + (self.l as u32);
                let src: u32 = match r {
                    Reg::BC => (self.b as u32) * 256 + (self.c as u32),
                    Reg::DE => (self.d as u32) * 256 + (self.e as u32),
                    Reg::HL => (self.h as u32) * 256 + (self.l as u32),
                    Reg::SP => self.sp as u32,
                    Reg::AF => 0,
                };
                let sum: u32 = hl + src;
                let wrapped: u32 = sum % 0x10000;
                GuestState {
                    h: (wrapped / 256) as u8,
                    l: (wrapped % 256) as u8,
                    carry: sum >= 0x10000,
                    ..*self
                }
            },
            Op::IncR(r) => match r {
                Reg::BC => {
                    let (hi, lo) = Self::inc_pair_exec(self.b, self.c);
                    GuestState { b: hi, c: lo, ..*self }
                },
                Reg::DE => {
                    let (hi, lo) = Self::inc_pair_exec(self.d, self.e);
                    GuestState { d: hi, e: lo, ..*self }
                },
                Reg::HL => {
                    let (hi, lo) = Self::inc_pair_exec(self.h, self.l);
                    GuestState { h: hi, l: lo, ..*self }
                },
                Reg::SP => GuestState {
                    sp: if self.sp < 65535 { self.sp + 1 } else { 0 },
                    ..*self
                },
                Reg::AF => *self,
            },
            Op::DecR(r) => match r {
                Reg::BC => {
                    let (hi, lo) = Self::dec_pair_exec(self.b, self.c);
                    GuestState { b: hi, c: lo, ..*self }
                },
                Reg::DE => {
                    let (hi, lo) = Self::dec_pair_exec(self.d, self.e);
                    GuestState { d: hi, e: lo, ..*self }
                },
                Reg::HL => {
                    let (hi, lo) = Self::dec_pair_exec(self.h, self.l);
                    GuestState { h: hi, l: lo, ..*self }
                },
                Reg::SP => GuestState {
                    sp: if self.sp > 0 { self.sp - 1 } else { 65535 },
                    ..*self
                },
                Reg::AF => *self,
            },
            Op::IncD(d) => match d {
                Dest::B => GuestState { b: Self::inc8_exec(self.b), ..*self },
                Dest::C => GuestState { c: Self::inc8_exec(self.c), ..*self },
                Dest::D => GuestState { d: Self::inc8_exec(self.d), ..*self },
                Dest::E => GuestState { e: Self::inc8_exec(self.e), ..*self },
                Dest::H => GuestState { h: Self::inc8_exec(self.h), ..*self },
                Dest::L => GuestState { l: Self::inc8_exec(self.l), ..*self },
                Dest::A => GuestState { a: Self::inc8_exec(self.a), ..*self },
                Dest::HL => *self,
            },
            Op::DecD(d) => match d {
                Dest::B => GuestState { b: Self::dec8_exec(self.b), ..*self },
                Dest::C => GuestState { c: Self::dec8_exec(self.c), ..*self },
                Dest::D => GuestState { d: Self::dec8_exec(self.d), ..*self },
                Dest::E => GuestState { e: Self::dec8_exec(self.e), ..*self },
                Dest::H => GuestState { h: Self::dec8_exec(self.h), ..*self },
                Dest::L => GuestState { l: Self::dec8_exec(self.l), ..*self },
                Dest::A => GuestState { a: Self::dec8_exec(self.a), ..*self },
                Dest::HL => *self,
            },
            Op::Rotate(dir, uc) => {
                let a = self.a;
                let (rotated, carry): (u8, bool) = match (dir, uc) {
                    (Dir::Left, UseCarry::WithCarry) => (
                        (a << 1u32) | (if self.carry { 1u8 } else { 0u8 }),
                        a >> 7u32 == 1,
                    ),
                    (Dir::Left, UseCarry::WithoutCarry) => (
                        (a << 1u32) | (a >> 7u32),
                        a >> 7u32 == 1,
                    ),
                    (Dir::Right, UseCarry::WithCarry) => (
                        (a >> 1u32) | (if self.carry { 0x80u8 } else { 0u8 }),
                        a & 1 == 1,
                    ),
                    (Dir::Right, UseCarry::WithoutCarry) => (
                        (a >> 1u32) | (a << 7u32),
                        a & 1 == 1,
                    ),
                };
                GuestState { a: rotated, carry, ..*self }
            },
        }
    }

    /// The state after a whole program of supported operations, run from
    /// the zeroed entry state — the state each invocation of the finalized
    /// code computes, with no carry-over from earlier invocations.
    pub fn run(ops: &Vec<Op>) -> (s: GuestState)
        requires
            forall|i: int| 0 <= i < ops@.len() ==> op_supported(ops@[i]),
        ensures
            s == run_seq(init_spec(), ops@),
    {
        let mut s = GuestState::init();
        let mut i: usize = 0;
        while i < ops.len()
            invariant
                i <= ops@.len(),
                forall|j: int| 0 <= j < ops@.len() ==> op_supported(ops@[j]),
                s == run_seq(init_spec(), ops@.subrange(0, i as int)),
            decreases ops@.len() - i,
        {
            s = s.step(ops[i]);
            proof {
                assert(ops@.subrange(0, i + 1) =~= ops@.subrange(0, i as int).push(ops@[i as int]));
                lemma_run_seq_snoc(init_spec(), ops@.subrange(0, i as int), ops@[i as int]);
            }
            i = i + 1;
        }
        proof {
            assert(ops@.subrange(0, ops@.len() as int) =~= ops@);
        }
        s
    }

    /// The 8-byte debug snapshot of this state, as the generated code
    /// writes it into the caller's buffer.
    pub fn snapshot(&self) -> (v: Vec<u8>)
        ensures
            v@ == snapshot_spec(*self),
    {
        let mut v: Vec<u8> = Vec::new();
        v.push(0);
        v.push(self.a);
        v.push(self.c);
        v.push(self.b);
        v.push(self.e);
        v.push(self.d);
        v.push(self.l);
        v.push(self.h);
        proof {
            assert(v@ =~= snapshot_spec(*self));
        }
        v
    }

    /// The AF pair value; the flags byte is always zero.
    pub fn af(&self) -> (r: u16)
        ensures
            r == pair16(self.a, 0),
    {
        (self.a as u16) * 256
    }

    /// The BC pair value.
    pub fn bc(&self) -> (r: u16)
        ensures
            r == pair16(self.b, self.c),
    {
        (self.b as u16) * 256 + (self.c as u16)
    }

    /// The DE pair value.
    pub fn de(&self) -> (r: u16)
        ensures
            r == pair16(self.d, self.e),
    {
        (self.d as u16) * 256 + (self.e as u16)
    }

    /// The HL pair value.
    pub fn hl(&self) -> (r: u16)
        ensures
            r == pair16(self.h, self.l),
    {
        (self.h as u16) * 256 + (self.l as u16)
    }

    /// An 8-bit increment with wraparound.
    fn inc8_exec(v: u8) -> (r: u8)
        ensures
            r == inc8(v),
    {
        if v < 255 { v + 1 } else { 0 }
    }

    /// An 8-bit decrement with wraparound.
    fn dec8_exec(v: u8) -> (r: u8)
        ensures
            r == dec8(v),
    {
        if v > 0 { v - 1 } else { 255 }
    }

    /// A 16-bit increment with wraparound, on a pair of byte lanes.
    fn inc_pair_exec(hi: u8, lo: u8) -> (r: (u8, u8))
        ensures
            r == inc_pair(hi, lo),
    {
        if lo < 255 {
            (hi, lo + 1)
        } else {
            (Self::inc8_exec(hi), 0)
        }
    }

    /// A 16-bit decrement with wraparound, on a pair of byte lanes.
    fn dec_pair_exec(hi: u8, lo: u8) -> (r: (u8, u8))
        ensures
            r == dec_pair(hi, lo),
    {
        if lo > 0 {
            (hi, lo - 1)
        } else {
            (Self::dec8_exec(hi), 255)
        }
    }
}

/// LAW: a program composed solely of Nop leaves the register file exactly
/// as it found it.
pub proof fn lemma_nop_program_preserves(s: GuestState, ops: Seq<Op>)
    requires
        forall|i: int| 0 <= i < ops.len() ==> ops[i] == Op::Nop,
    ensures
        run_seq(s, ops) == s,
    decreases ops.len(),
{
    if ops.len() > 0 {
        assert(ops[0] == Op::Nop);
        lemma_nop_program_preserves(s, ops.drop_first());
    }
}

/// LAW: for a program composed solely of Nop, every guest register reads
/// back as zero after execution — the final state is the zeroed entry
/// state, and every byte of the debug snapshot is zero.
pub proof fn lemma_nop_program_reads_zero(ops: Seq<Op>)
    requires
        forall|i: int| 0 <= i < ops.len() ==> ops[i] == Op::Nop,
    ensures
        run_seq(init_spec(), ops) == init_spec(),
        forall|i: int|
            0 <= i < 8 ==> snapshot_spec(run_seq(init_spec(), ops))[i] == 0,
{
    lemma_nop_program_preserves(init_spec(), ops);
}

/// LAW: a 16-bit immediate load into BC, DE, or HL followed by Log leaves
/// the little-endian encoding of the immediate in the pair's two snapshot
/// bytes, from any starting state. (SP can be loaded the same way but has
/// no slot in the 8-byte debug layout, which holds AF, BC, DE, HL only.)
pub proof fn lemma_load16_log_snapshot(s: GuestState, r: Reg, n: u16)
    requires
        r == Reg::BC || r == Reg::DE || r == Reg::HL,
    ensures
        ({
            let snap = snapshot_spec(run_seq(s, seq![Op::LdRN(r, n), Op::Log]));
            &&& r == Reg::BC ==> snap[2] == lo16(n) && snap[3] == hi16(n)
            &&& r == Reg::DE ==> snap[4] == lo16(n) && snap[5] == hi16(n)
            &&& r == Reg::HL ==> snap[6] == lo16(n) && snap[7] == hi16(n)
        }),
{
    let ops = seq![Op::LdRN(r, n), Op::Log];
    let s1 = step_op(s, ops[0]);
    assert(ops[0] == Op::LdRN(r, n));
    assert(ops.drop_first() =~= seq![Op::Log]);
    assert(run_seq(s, ops) == run_seq(s1, seq![Op::Log]));
    assert(seq![Op::Log][0] == Op::Log);
    assert(seq![Op::Log].drop_first() =~= Seq::<Op>::empty());
    assert(run_seq(s1, seq![Op::Log]) == run_seq(step_op(s1, Op::Log), Seq::<Op>::empty()));
    assert(run_seq(step_op(s1, Op::Log), Seq::<Op>::empty()) == step_op(s1, Op::Log));
}

/// LAW: loading an 8-bit immediate into one byte destination never changes
/// the opposite byte of its containing pair, nor any register outside that
/// pair. The accumulator's pair partner is the flags byte, which the
/// snapshot holds at zero always.
pub proof fn lemma_load8_opposite_byte(s: GuestState, d: Dest, n: u8)
    requires
        d != Dest::HL,
    ensures
        ({
            let t = step_op(s, Op::LdDN(d, n));
            &&& d == Dest::B ==> t == (GuestState { b: n, ..s })
            &&& d == Dest::C ==> t == (GuestState { c: n, ..s })
            &&& d == Dest::D ==> t == (GuestState { d: n, ..s })
            &&& d == Dest::E ==> t == (GuestState { e: n, ..s })
            &&& d == Dest::H ==> t == (GuestState { h: n, ..s })
            &&& d == Dest::L ==> t == (GuestState { l: n, ..s })
            &&& d == Dest::A ==> t == (GuestState { a: n, ..s })
            &&& d == Dest::A ==> snapshot_spec(t)[0] == 0
        }),
{
}

/// LAW: the state a program computes is a function of its operation
/// sequence alone, always run from the zeroed entry state — re-invoking a
/// finalized handle with a fresh buffer yields identical results, with no
/// hidden cross-invocation state.
pub proof fn lemma_reinvocation_identical(ops1: Seq<Op>, ops2: Seq<Op>)
    requires
        ops1 == ops2,
    ensures
        run_seq(init_spec(), ops1) == run_seq(init_spec(), ops2),
{
}

} // verus!

