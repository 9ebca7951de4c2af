use jit::jit::JitBuilder;
use jit::mem::{JitMemory, MemError};
use jit::model::GuestState;
use jit::op::{Dest, Dir, Op, Reg, UseCarry};

/// Encodes a program the way a driver would: a fresh builder, every
/// operation appended in order, the buffer finalized into an image.
fn encode(ops: &Vec<Op>) -> JitMemory {
    let mut builder = JitBuilder::new();
    for op in ops {
        assert!(op.supported());
        op.into_asm(&mut builder);
    }
    builder.finalize().expect("executable image allocation failed")
}

/// Runs a program through the register model from the zeroed entry state,
/// also exercising the encoder and the arena on the same program.
fn run(ops: Vec<Op>) -> GuestState {
    let image = encode(&ops);
    assert!(image.size() % 4096 == 0);
    assert!(image.size() > 0);
    GuestState::run(&ops)
}

#[test]
fn nop() {
    let s = run(vec![Op::Nop]);
    assert_eq!(s.a, 0);
    assert_eq!(s.af(), 0);
    assert_eq!(s.bc(), 0);
    assert_eq!(s.b, 0);
    assert_eq!(s.c, 0);
    assert_eq!(s.de(), 0);
    assert_eq!(s.d, 0);
    assert_eq!(s.e, 0);
    assert_eq!(s.hl(), 0);
    assert_eq!(s.h, 0);
    assert_eq!(s.l, 0);
    assert_eq!(s.snapshot(), vec![0u8; 8]);
}

#[test]
fn many_nop() {
    let s = run(vec![Op::Nop, Op::Nop, Op::Nop, Op::Nop, Op::Nop, Op::Nop, Op::Nop]);
    assert_eq!(s.af(), 0);
    assert_eq!(s.bc(), 0);
    assert_eq!(s.de(), 0);
    assert_eq!(s.hl(), 0);
}

#[test]
fn ld_dests() {
    let s = run(vec![
        Op::LdDN(Dest::A, 0x11),
        Op::LdDN(Dest::B, 0x22),
        Op::LdDN(Dest::C, 0x33),
        Op::LdDN(Dest::D, 0x44),
        Op::LdDN(Dest::E, 0x55),
        Op::LdDN(Dest::H, 0x66),
        Op::LdDN(Dest::L, 0x77),
    ]);
    assert_eq!(s.af(), 0x1100);
    assert_eq!(s.bc(), 0x2233);
    assert_eq!(s.de(), 0x4455);
    assert_eq!(s.hl(), 0x6677);
}

#[test]
fn ld_regs() {
    let s = run(vec![
        Op::LdRN(Reg::BC, 0x1122),
        Op::LdRN(Reg::DE, 0x3344),
        Op::LdRN(Reg::HL, 0x5566),
    ]);
    assert_eq!(s.af(), 0);
    assert_eq!(s.bc(), 0x1122);
    assert_eq!(s.de(), 0x3344);
    assert_eq!(s.hl(), 0x5566);
}

#[test]
fn multiple_lds() {
    let s = run(vec![
        Op::LdRN(Reg::BC, 0xBBCC),
        Op::LdRN(Reg::HL, 0x1234),
        Op::LdRN(Reg::BC, 0xAAAA),
        Op::LdDN(Dest::C, 0xFF),
        Op::LdDN(Dest::A, 0xAA),
        Op::LdDN(Dest::D, 0xF0),
        Op::LdRN(Reg::DE, 0x9876),
        Op::LdDN(Dest::E, 0xEE),
    ]);
    assert_eq!(s.a, 0xAA);
    assert_eq!(s.bc(), 0xAAFF);
    assert_eq!(s.de(), 0x98EE);
    assert_eq!(s.hl(), 0x1234);
}

#[test]
fn add_hl() {
    let s = run(vec![
        Op::LdRN(Reg::BC, 0x1100),
        Op::LdRN(Reg::DE, 0x0011),
        Op::LdRN(Reg::HL, 0x2200),
        Op::LdRN(Reg::SP, 0x0033),
        Op::AddHlR(Reg::HL),
        Op::AddHlR(Reg::BC),
        Op::AddHlR(Reg::DE),
        Op::AddHlR(Reg::SP),
    ]);
    assert_eq!(s.hl(), 0x5544);
}

#[test]
fn inc() {
    let s = run(vec![
        Op::IncR(Reg::BC),
        Op::IncR(Reg::DE),
        Op::IncR(Reg::HL),
        Op::IncD(Dest::A),
        Op::IncD(Dest::B),
        Op::IncD(Dest::C),
        Op::IncD(Dest::D),
        Op::IncD(Dest::E),
        Op::IncD(Dest::H),
        Op::IncD(Dest::L),
    ]);
    assert_eq!(s.a, 1);
    assert_eq!(s.bc(), 0x0102);
    assert_eq!(s.de(), 0x0102);
    assert_eq!(s.hl(), 0x0102);
}

#[test]
fn dec() {
    let s = run(vec![
        Op::LdDN(Dest::A, 0xFF),
        Op::LdRN(Reg::BC, 0xFFFF),
        Op::LdRN(Reg::DE, 0xFFFF),
        Op::LdRN(Reg::HL, 0xFFFF),
        Op::DecR(Reg::BC),
        Op::DecR(Reg::DE),
        Op::DecR(Reg::HL),
        Op::DecD(Dest::A),
        Op::DecD(Dest::B),
        Op::DecD(Dest::C),
        Op::DecD(Dest::D),
        Op::DecD(Dest::E),
        Op::DecD(Dest::H),
        Op::DecD(Dest::L),
    ]);
    assert_eq!(s.a, 0xFE);
    assert_eq!(s.bc(), 0xFEFD);
    assert_eq!(s.de(), 0xFEFD);
    assert_eq!(s.hl(), 0xFEFD);
}

#[test]
fn rotate_single() {
    let s = run(vec![
        Op::LdDN(Dest::A, 0xF0),
        Op::Rotate(Dir::Left, UseCarry::WithCarry),
    ]);
    assert_eq!(s.a, 0xE0);

    let s = run(vec![
        Op::LdDN(Dest::A, 0xF0),
        Op::Rotate(Dir::Left, UseCarry::WithoutCarry),
    ]);
    assert_eq!(s.a, 0xE1);

    let s = run(vec![
        Op::LdDN(Dest::A, 0x0F),
        Op::Rotate(Dir::Right, UseCarry::WithCarry),
    ]);
    assert_eq!(s.a, 0x07);

    let s = run(vec![
        Op::LdDN(Dest::A, 0x0F),
        Op::Rotate(Dir::Right, UseCarry::WithoutCarry),
    ]);
    assert_eq!(s.a, 0x87);
}

#[test]
fn rotate_carry_chains() {
    // The bit shifted out becomes the carry and re-enters on the next
    // rotation through the carry.
    let s = run(vec![
        Op::LdDN(Dest::A, 0x80),
        Op::Rotate(Dir::Left, UseCarry::WithoutCarry),
        Op::Rotate(Dir::Left, UseCarry::WithCarry),
    ]);
    assert_eq!(s.a, 0x03);
    assert!(!s.carry);
}

#[test]
fn add_hl_sets_carry() {
    // A 16-bit overflow wraps HL and leaves the carry set for the next
    // rotation through the carry.
    let s = run(vec![
        Op::LdRN(Reg::BC, 0xFFFF),
        Op::LdRN(Reg::HL, 0x0001),
        Op::AddHlR(Reg::BC),
        Op::Rotate(Dir::Left, UseCarry::WithCarry),
    ]);
    assert_eq!(s.hl(), 0x0000);
    assert_eq!(s.a, 0x01);
}

#[test]
fn sp_arithmetic() {
    let s = run(vec![
        Op::LdRN(Reg::SP, 0x0005),
        Op::IncR(Reg::SP),
        Op::AddHlR(Reg::SP),
    ]);
    assert_eq!(s.sp, 6);
    assert_eq!(s.hl(), 6);
}

#[test]
fn byte_inc_no_pair_carry() {
    // An 8-bit increment wraps its own lane and never carries into the
    // opposite byte of the pair.
    let s = run(vec![
        Op::LdRN(Reg::BC, 0x12FF),
        Op::IncD(Dest::C),
    ]);
    assert_eq!(s.bc(), 0x1200);

    let s = run(vec![Op::LdRN(Reg::BC, 0x00FF), Op::IncR(Reg::BC)]);
    assert_eq!(s.bc(), 0x0100);
}

#[test]
fn snapshot_layout() {
    let s = run(vec![
        Op::LdDN(Dest::A, 0x11),
        Op::LdDN(Dest::B, 0x22),
        Op::LdDN(Dest::C, 0x33),
        Op::LdDN(Dest::D, 0x44),
        Op::LdDN(Dest::E, 0x55),
        Op::LdDN(Dest::H, 0x66),
        Op::LdDN(Dest::L, 0x77),
    ]);
    assert_eq!(
        s.snapshot(),
        vec![0x00, 0x11, 0x33, 0x22, 0x55, 0x44, 0x77, 0x66]
    );
}

#[test]
fn log_preserves_state() {
    let with_log = run(vec![
        Op::LdRN(Reg::BC, 0x1234),
        Op::Log,
        Op::IncR(Reg::BC),
    ]);
    let without_log = run(vec![Op::LdRN(Reg::BC, 0x1234), Op::IncR(Reg::BC)]);
    assert_eq!(with_log, without_log);
    assert_eq!(with_log.bc(), 0x1235);
}

#[test]
fn reinvocation_is_identical() {
    let ops = vec![
        Op::LdRN(Reg::HL, 0x0102),
        Op::AddHlR(Reg::HL),
        Op::Log,
        Op::IncD(Dest::A),
    ];
    let first = GuestState::run(&ops);
    let second = GuestState::run(&ops);
    assert_eq!(first, second);
    assert_eq!(first.snapshot(), second.snapshot());

    let image_a = encode(&ops);
    let image_b = encode(&ops);
    assert_eq!(image_a.size(), image_b.size());
    for i in 0..image_a.size() {
        assert_eq!(image_a.get(i), image_b.get(i));
    }
}

#[test]
fn unsupported_operands_rejected() {
    assert!(!Op::LdRN(Reg::AF, 0).supported());
    assert!(!Op::AddHlR(Reg::AF).supported());
    assert!(!Op::IncR(Reg::AF).supported());
    assert!(!Op::DecR(Reg::AF).supported());
    assert!(!Op::IncD(Dest::HL).supported());
    assert!(!Op::DecD(Dest::HL).supported());
    assert!(!Op::LdDN(Dest::HL, 0).supported());
    assert!(Op::LdRN(Reg::SP, 0).supported());
    assert!(Op::LdDN(Dest::A, 0).supported());
    assert!(Op::Nop.supported());
    assert!(Op::Log.supported());
    assert!(Op::Rotate(Dir::Left, UseCarry::WithCarry).supported());
}

#[test]
fn encoded_bytes_exact() {
    // One 16-bit load: prologue, then the operand-size prefix, the load
    // opcode for the BC host register, the immediate little-endian, then
    // the epilogue, then return-opcode padding to the page boundary.
    let mut builder = JitBuilder::new();
    Op::LdRN(Reg::BC, 0x1122).into_asm(&mut builder);
    let image = builder.finalize().expect("allocation failed");

    assert_eq!(image.size(), 4096);
    // prologue starts by saving the callee-saved host register
    assert_eq!(image.get(0), 0x53);
    // the encoded load, after the 23-byte prologue
    assert_eq!(image.get(23), 0x66);
    assert_eq!(image.get(24), 0xbb);
    assert_eq!(image.get(25), 0x22);
    assert_eq!(image.get(26), 0x11);
    // the epilogue's final byte is the return opcode
    assert_eq!(image.get(27), 0x66);
    assert_eq!(image.get(50), 0xc3);
    // everything after the 51 code bytes is return-opcode padding
    assert_eq!(image.get(51), 0xc3);
    assert_eq!(image.get(4095), 0xc3);
}

#[test]
fn encoded_bytes_sp_prefix() {
    // SP's host binding needs the extended-register prefix byte.
    let mut builder = JitBuilder::new();
    Op::LdRN(Reg::SP, 0xBEEF).into_asm(&mut builder);
    let image = builder.finalize().expect("allocation failed");
    assert_eq!(image.get(23), 0x66);
    assert_eq!(image.get(24), 0x41);
    assert_eq!(image.get(25), 0xb8);
    assert_eq!(image.get(26), 0xEF);
    assert_eq!(image.get(27), 0xBE);
}

#[test]
fn nop_encodes_nothing() {
    let a = JitBuilder::new().finalize().expect("allocation failed");
    let mut builder = JitBuilder::new();
    Op::Nop.into_asm(&mut builder);
    let b = builder.finalize().expect("allocation failed");
    assert_eq!(a.size(), b.size());
    for i in 0..a.size() {
        assert_eq!(a.get(i), b.get(i));
    }
}

#[test]
fn allocate_small_request_gets_whole_page() {
    let image = JitMemory::allocate(10).expect("allocation failed");
    assert_eq!(image.size(), 4096);
    for i in 0..image.size() {
        assert_eq!(image.get(i), 0xc3);
    }

    let one_past = JitMemory::allocate(4097).expect("allocation failed");
    assert_eq!(one_past.size(), 8192);
}

#[test]
fn allocate_overflowing_request_fails() {
    let r = JitMemory::allocate(usize::MAX);
    assert!(matches!(r, Err(MemError::AllocError)));
}

#[test]
fn from_vec_copies_verbatim() {
    let code = vec![0x90u8, 0x31, 0xc0, 0xc3];
    let image = JitMemory::from_vec(code.clone()).expect("allocation failed");
    assert_eq!(image.size(), 4096);
    for (i, b) in code.iter().enumerate() {
        assert_eq!(image.get(i), *b);
    }
    assert_eq!(image.get(code.len()), 0xc3);
    assert_eq!(image.code()[0], 0x90);
    assert_eq!(image.code().len(), 4096);
}
