use i8080::cond::ConditionCodes;
use i8080::cpu::{emulate_instruction, Machine};
use i8080::state::State;

struct TestPorts {
    input_byte: u8,
    outputs: Vec<(u8, u8)>,
}

impl Machine for TestPorts {
    fn output(&mut self, port: u8, value: u8) {
        self.outputs.push((port, value));
    }

    fn input(&mut self, _port: u8) -> u8 {
        self.input_byte
    }
}

fn ports() -> TestPorts {
    TestPorts { input_byte: 0, outputs: Vec::new() }
}

fn step_ok(s: &mut State, m: &mut TestPorts) {
    let r = emulate_instruction(s, m);
    assert!(r.is_ok());
}

#[test]
fn nop_advances_pc_test() {
    let mut s = State::new();
    let mut m = ports();
    for &op in &[0x00u8, 0x08, 0x10, 0x18, 0x20, 0x28, 0x30, 0x38] {
        let pc = s.pc;
        s.memory.set(pc, op);
        step_ok(&mut s, &mut m);
        assert_eq!(s.pc, pc + 1);
        assert_eq!(s.a, 0);
        assert_eq!(s.sp, 0);
    }
}

#[test]
fn jmp_test() {
    // JMP 0x0010 at PC 0x0000.
    let mut s = State::new();
    let mut m = ports();
    s.memory.set(0x0000, 0xc3);
    s.memory.set(0x0001, 0x10);
    s.memory.set(0x0002, 0x00);
    step_ok(&mut s, &mut m);
    assert_eq!(s.pc, 0x0010);
}

#[test]
fn call_ret_test() {
    // CALL 0x0006 at PC 0x0000; RET at 0x0006.
    let mut s = State::new();
    let mut m = ports();
    s.sp = 0x2400;
    s.memory.set(0x0000, 0xcd);
    s.memory.set(0x0001, 0x06);
    s.memory.set(0x0002, 0x00);
    s.memory.set(0x0006, 0xc9);
    step_ok(&mut s, &mut m);
    assert_eq!(s.pc, 0x0006);
    assert_eq!(s.sp, 0x23fe);
    // Return address 0x0003 on the stack, low byte on top.
    assert_eq!(s.memory.get(0x23fe), 0x03);
    assert_eq!(s.memory.get(0x23ff), 0x00);
    step_ok(&mut s, &mut m);
    assert_eq!(s.pc, 0x0003);
    assert_eq!(s.sp, 0x2400);
}

#[test]
fn adi_test() {
    // A = 0x3E; ADI 0x02 gives 0x40 with Z, S, CY all clear.
    let mut s = State::new();
    let mut m = ports();
    s.a = 0x3e;
    s.memory.set(0x0000, 0xc6);
    s.memory.set(0x0001, 0x02);
    step_ok(&mut s, &mut m);
    assert_eq!(s.a, 0x40);
    assert!(!s.cc.z);
    assert!(!s.cc.s);
    assert!(!s.cc.cy);
    assert_eq!(s.pc, 0x0002);
}

#[test]
fn hlt_fault_test() {
    // HLT faults with the opcode and PC; nothing is modified.
    let mut s = State::new();
    let mut m = ports();
    s.a = 0x55;
    s.b = 0x66;
    s.sp = 0x2400;
    s.pc = 0x0005;
    s.memory.set(0x0005, 0x76);
    let r = emulate_instruction(&mut s, &mut m);
    let fault = r.unwrap_err();
    assert_eq!(fault.opcode, 0x76);
    assert_eq!(fault.pc, 0x0005);
    assert_eq!(fault.snapshot.a, 0x55);
    assert_eq!(fault.snapshot.b, 0x66);
    assert_eq!(fault.snapshot.sp, 0x2400);
    assert_eq!(fault.snapshot.pc, 0x0005);
    assert_eq!(s.a, 0x55);
    assert_eq!(s.b, 0x66);
    assert_eq!(s.sp, 0x2400);
    assert_eq!(s.pc, 0x0005);
}

#[test]
fn daa_and_rst_fault_test() {
    let mut m = ports();
    for &op in &[0x27u8, 0xc7, 0xcf, 0xd7, 0xdf, 0xe7, 0xef, 0xf7, 0xff] {
        let mut s = State::new();
        s.memory.set(0x0000, op);
        let r = emulate_instruction(&mut s, &mut m);
        let fault = r.unwrap_err();
        assert_eq!(fault.opcode, op);
        assert_eq!(fault.pc, 0x0000);
        assert_eq!(s.pc, 0x0000);
    }
}

#[test]
fn inr_flags_test() {
    // INR B from 0xFF wraps to 0x00: Z set, S clear.
    let mut s = State::new();
    let mut m = ports();
    s.b = 0xff;
    s.memory.set(0x0000, 0x04);
    step_ok(&mut s, &mut m);
    assert_eq!(s.b, 0x00);
    assert!(s.cc.z);
    assert!(!s.cc.s);
    // INR B from 0x7F to 0x80: S set, Z clear.
    s.b = 0x7f;
    s.memory.set(0x0001, 0x04);
    step_ok(&mut s, &mut m);
    assert_eq!(s.b, 0x80);
    assert!(!s.cc.z);
    assert!(s.cc.s);
}

#[test]
fn dcr_flags_test() {
    // DCR C from 0x01 to 0x00: Z set, S clear.
    let mut s = State::new();
    let mut m = ports();
    s.c = 0x01;
    s.memory.set(0x0000, 0x0d);
    step_ok(&mut s, &mut m);
    assert_eq!(s.c, 0x00);
    assert!(s.cc.z);
    assert!(!s.cc.s);
    // DCR C from 0x00 wraps to 0xFF: S set, Z clear.
    s.memory.set(0x0001, 0x0d);
    step_ok(&mut s, &mut m);
    assert_eq!(s.c, 0xff);
    assert!(!s.cc.z);
    assert!(s.cc.s);
}

#[test]
fn stack_push_pop_test() {
    // A pop right after a push returns the byte and restores SP.
    let mut s = State::new();
    for &sp in &[0x2400u16, 0x0001, 0x0000, 0xffff] {
        s.sp = sp;
        s.push8(0xab);
        assert_eq!(s.sp, sp.wrapping_sub(1));
        let v = s.pop8();
        assert_eq!(v, 0xab);
        assert_eq!(s.sp, sp);
    }
}

#[test]
fn push_pop_pairs_test() {
    // PUSH B then POP D moves BC into DE through the stack.
    let mut s = State::new();
    let mut m = ports();
    s.sp = 0x2400;
    s.b = 0x12;
    s.c = 0x34;
    s.memory.set(0x0000, 0xc5);
    s.memory.set(0x0001, 0xd1);
    step_ok(&mut s, &mut m);
    assert_eq!(s.sp, 0x23fe);
    assert_eq!(s.memory.get(0x23ff), 0x12);
    assert_eq!(s.memory.get(0x23fe), 0x34);
    step_ok(&mut s, &mut m);
    assert_eq!(s.d, 0x12);
    assert_eq!(s.e, 0x34);
    assert_eq!(s.sp, 0x2400);
    assert_eq!(s.pc, 0x0002);
}

#[test]
fn push_pop_psw_test() {
    // PUSH PSW then POP PSW restores the accumulator and every flag.
    let mut s = State::new();
    let mut m = ports();
    s.sp = 0x2400;
    s.a = 0x9c;
    s.cc = ConditionCodes { z: true, s: false, p: true, cy: true, ac: false };
    let saved = s.cc;
    s.memory.set(0x0000, 0xf5);
    s.memory.set(0x0001, 0xf1);
    step_ok(&mut s, &mut m);
    s.a = 0;
    s.cc = ConditionCodes::new();
    step_ok(&mut s, &mut m);
    assert_eq!(s.a, 0x9c);
    assert_eq!(s.cc, saved);
    assert_eq!(s.sp, 0x2400);
}

#[test]
fn mov_test() {
    // MOV B,C; MOV M,A; MOV A,M.
    let mut s = State::new();
    let mut m = ports();
    s.c = 0x42;
    s.memory.set(0x0000, 0x41);
    step_ok(&mut s, &mut m);
    assert_eq!(s.b, 0x42);
    s.a = 0x77;
    s.h = 0x20;
    s.l = 0x10;
    s.memory.set(0x0001, 0x77);
    step_ok(&mut s, &mut m);
    assert_eq!(s.memory.get(0x2010), 0x77);
    s.a = 0;
    s.memory.set(0x0002, 0x7e);
    step_ok(&mut s, &mut m);
    assert_eq!(s.a, 0x77);
    assert_eq!(s.pc, 0x0003);
}

#[test]
fn mvi_lxi_test() {
    let mut s = State::new();
    let mut m = ports();
    // MVI B,0x3C
    s.memory.set(0x0000, 0x06);
    s.memory.set(0x0001, 0x3c);
    // LXI D,0x1234
    s.memory.set(0x0002, 0x11);
    s.memory.set(0x0003, 0x34);
    s.memory.set(0x0004, 0x12);
    // MVI M,0x5A with HL = 0x2000
    s.h = 0x20;
    s.l = 0x00;
    s.memory.set(0x0005, 0x36);
    s.memory.set(0x0006, 0x5a);
    step_ok(&mut s, &mut m);
    assert_eq!(s.b, 0x3c);
    assert_eq!(s.pc, 0x0002);
    step_ok(&mut s, &mut m);
    assert_eq!(s.d, 0x12);
    assert_eq!(s.e, 0x34);
    assert_eq!(s.pc, 0x0005);
    step_ok(&mut s, &mut m);
    assert_eq!(s.memory.get(0x2000), 0x5a);
    assert_eq!(s.pc, 0x0007);
}

#[test]
fn add_carry_flags_test() {
    // ADD B with A = 0xFF, B = 0x01: result 0x00, all of Z, CY, AC set.
    let mut s = State::new();
    let mut m = ports();
    s.a = 0xff;
    s.b = 0x01;
    s.memory.set(0x0000, 0x80);
    step_ok(&mut s, &mut m);
    assert_eq!(s.a, 0x00);
    assert!(s.cc.z);
    assert!(!s.cc.s);
    assert!(s.cc.cy);
    assert!(s.cc.ac);
    assert!(s.cc.p); // zero set bits: even parity
}

#[test]
fn sub_borrow_flags_test() {
    // SUI 0x01 with A = 0x00: result 0xFF, borrow sets CY, S set.
    let mut s = State::new();
    let mut m = ports();
    s.memory.set(0x0000, 0xd6);
    s.memory.set(0x0001, 0x01);
    step_ok(&mut s, &mut m);
    assert_eq!(s.a, 0xff);
    assert!(s.cc.cy);
    assert!(s.cc.s);
    assert!(!s.cc.z);
    assert!(s.cc.p); // eight set bits: even parity
}

#[test]
fn adc_sbb_carry_in_test() {
    // ACI 0x00 with CY set adds the carry: A goes 0x10 to 0x11.
    let mut s = State::new();
    let mut m = ports();
    s.a = 0x10;
    s.cc.cy = true;
    s.memory.set(0x0000, 0xce);
    s.memory.set(0x0001, 0x00);
    step_ok(&mut s, &mut m);
    assert_eq!(s.a, 0x11);
    assert!(!s.cc.cy);
    // SBI 0x00 with CY set subtracts the borrow: A goes 0x11 to 0x10.
    s.cc.cy = true;
    s.memory.set(0x0002, 0xde);
    s.memory.set(0x0003, 0x00);
    step_ok(&mut s, &mut m);
    assert_eq!(s.a, 0x10);
    assert!(!s.cc.cy);
}

#[test]
fn logical_ops_test() {
    // ANI clears CY and AC; XRA A zeroes the accumulator; CMP keeps it.
    let mut s = State::new();
    let mut m = ports();
    s.a = 0xf0;
    s.cc.cy = true;
    s.memory.set(0x0000, 0xe6); // ANI 0x3C
    s.memory.set(0x0001, 0x3c);
    step_ok(&mut s, &mut m);
    assert_eq!(s.a, 0x30);
    assert!(!s.cc.cy);
    assert!(!s.cc.ac);
    s.memory.set(0x0002, 0xaf); // XRA A
    step_ok(&mut s, &mut m);
    assert_eq!(s.a, 0x00);
    assert!(s.cc.z);
    s.a = 0x42;
    s.b = 0x42;
    s.memory.set(0x0003, 0xb8); // CMP B
    step_ok(&mut s, &mut m);
    assert_eq!(s.a, 0x42);
    assert!(s.cc.z);
    assert!(!s.cc.cy);
    s.memory.set(0x0004, 0xf6); // ORI 0x0F
    s.memory.set(0x0005, 0x0f);
    step_ok(&mut s, &mut m);
    assert_eq!(s.a, 0x4f);
    assert!(!s.cc.cy);
}

#[test]
fn dad_test() {
    // DAD B: HL 0xFFFF plus BC 0x0001 wraps to 0x0000 and sets CY only.
    let mut s = State::new();
    let mut m = ports();
    s.h = 0xff;
    s.l = 0xff;
    s.b = 0x00;
    s.c = 0x01;
    s.cc.z = true;
    s.memory.set(0x0000, 0x09);
    step_ok(&mut s, &mut m);
    assert_eq!(s.h, 0x00);
    assert_eq!(s.l, 0x00);
    assert!(s.cc.cy);
    assert!(s.cc.z); // Z is not touched by DAD
    // DAD D without overflow clears CY.
    s.d = 0x00;
    s.e = 0x05;
    s.memory.set(0x0001, 0x19);
    step_ok(&mut s, &mut m);
    assert_eq!(s.h, 0x00);
    assert_eq!(s.l, 0x05);
    assert!(!s.cc.cy);
}

#[test]
fn rotate_instructions_test() {
    let mut s = State::new();
    let mut m = ports();
    // RLC: bit 7 moves to bit 0 and into CY.
    s.a = 0x80;
    s.memory.set(0x0000, 0x07);
    step_ok(&mut s, &mut m);
    assert_eq!(s.a, 0x01);
    assert!(s.cc.cy);
    // RRC: bit 0 moves to bit 7 and into CY.
    s.a = 0x01;
    s.memory.set(0x0001, 0x0f);
    step_ok(&mut s, &mut m);
    assert_eq!(s.a, 0x80);
    assert!(s.cc.cy);
    // RAL: the old CY enters bit 0, bit 7 leaves into CY.
    s.a = 0x40;
    s.cc.cy = true;
    s.memory.set(0x0002, 0x17);
    step_ok(&mut s, &mut m);
    assert_eq!(s.a, 0x81);
    assert!(!s.cc.cy);
    // RAR: the old CY enters bit 7, bit 0 leaves into CY.
    s.a = 0x03;
    s.cc.cy = false;
    s.memory.set(0x0003, 0x1f);
    step_ok(&mut s, &mut m);
    assert_eq!(s.a, 0x01);
    assert!(s.cc.cy);
}

#[test]
fn inx_dcx_wrap_test() {
    let mut s = State::new();
    let mut m = ports();
    // INX SP at 0xFFFF wraps to 0x0000.
    s.sp = 0xffff;
    s.memory.set(0x0000, 0x33);
    step_ok(&mut s, &mut m);
    assert_eq!(s.sp, 0x0000);
    // DCX B at 0x0000 wraps to 0xFFFF.
    s.b = 0x00;
    s.c = 0x00;
    s.memory.set(0x0001, 0x0b);
    step_ok(&mut s, &mut m);
    assert_eq!(s.b, 0xff);
    assert_eq!(s.c, 0xff);
    // INX H at 0x12FF carries into H.
    s.h = 0x12;
    s.l = 0xff;
    s.memory.set(0x0002, 0x23);
    step_ok(&mut s, &mut m);
    assert_eq!(s.h, 0x13);
    assert_eq!(s.l, 0x00);
}

#[test]
fn sta_lda_shld_lhld_test() {
    let mut s = State::new();
    let mut m = ports();
    s.a = 0xbe;
    s.memory.set(0x0000, 0x32); // STA 0x3000
    s.memory.set(0x0001, 0x00);
    s.memory.set(0x0002, 0x30);
    step_ok(&mut s, &mut m);
    assert_eq!(s.memory.get(0x3000), 0xbe);
    s.a = 0;
    s.memory.set(0x0003, 0x3a); // LDA 0x3000
    s.memory.set(0x0004, 0x00);
    s.memory.set(0x0005, 0x30);
    step_ok(&mut s, &mut m);
    assert_eq!(s.a, 0xbe);
    s.h = 0xab;
    s.l = 0xcd;
    s.memory.set(0x0006, 0x22); // SHLD 0x3100
    s.memory.set(0x0007, 0x00);
    s.memory.set(0x0008, 0x31);
    step_ok(&mut s, &mut m);
    assert_eq!(s.memory.get(0x3100), 0xcd);
    assert_eq!(s.memory.get(0x3101), 0xab);
    s.h = 0;
    s.l = 0;
    s.memory.set(0x0009, 0x2a); // LHLD 0x3100
    s.memory.set(0x000a, 0x00);
    s.memory.set(0x000b, 0x31);
    step_ok(&mut s, &mut m);
    assert_eq!(s.h, 0xab);
    assert_eq!(s.l, 0xcd);
    assert_eq!(s.pc, 0x000c);
}

#[test]
fn stax_ldax_test() {
    let mut s = State::new();
    let mut m = ports();
    s.a = 0x99;
    s.b = 0x20;
    s.c = 0x05;
    s.memory.set(0x0000, 0x02); // STAX B
    step_ok(&mut s, &mut m);
    assert_eq!(s.memory.get(0x2005), 0x99);
    s.a = 0;
    s.d = 0x20;
    s.e = 0x05;
    s.memory.set(0x0001, 0x1a); // LDAX D
    step_ok(&mut s, &mut m);
    assert_eq!(s.a, 0x99);
}

#[test]
fn xchg_xthl_test() {
    let mut s = State::new();
    let mut m = ports();
    s.d = 0x11;
    s.e = 0x22;
    s.h = 0x33;
    s.l = 0x44;
    s.memory.set(0x0000, 0xeb); // XCHG
    step_ok(&mut s, &mut m);
    assert_eq!(s.d, 0x33);
    assert_eq!(s.e, 0x44);
    assert_eq!(s.h, 0x11);
    assert_eq!(s.l, 0x22);
    // XTHL: HL exchanges with the top two stack bytes.
    s.sp = 0x2400;
    s.memory.set(0x2400, 0xaa);
    s.memory.set(0x2401, 0xbb);
    s.memory.set(0x0001, 0xe3);
    step_ok(&mut s, &mut m);
    assert_eq!(s.l, 0xaa);
    assert_eq!(s.h, 0xbb);
    assert_eq!(s.memory.get(0x2400), 0x22);
    assert_eq!(s.memory.get(0x2401), 0x11);
    assert_eq!(s.sp, 0x2400);
}

#[test]
fn pchl_sphl_test() {
    let mut s = State::new();
    let mut m = ports();
    s.h = 0x12;
    s.l = 0x34;
    s.memory.set(0x0000, 0xe9); // PCHL
    step_ok(&mut s, &mut m);
    assert_eq!(s.pc, 0x1234);
    s.memory.set(0x1234, 0xf9); // SPHL
    step_ok(&mut s, &mut m);
    assert_eq!(s.sp, 0x1234);
    assert_eq!(s.pc, 0x1235);
}

#[test]
fn in_out_test() {
    let mut s = State::new();
    let mut m = ports();
    s.a = 0x5a;
    s.memory.set(0x0000, 0xd3); // OUT 0x02
    s.memory.set(0x0001, 0x02);
    step_ok(&mut s, &mut m);
    assert_eq!(m.outputs, vec![(0x02, 0x5a)]);
    assert_eq!(s.pc, 0x0002);
    m.input_byte = 0xc4;
    s.memory.set(0x0002, 0xdb); // IN 0x07
    s.memory.set(0x0003, 0x07);
    step_ok(&mut s, &mut m);
    assert_eq!(s.a, 0xc4);
    assert_eq!(s.pc, 0x0004);
}

#[test]
fn di_ei_test() {
    let mut s = State::new();
    let mut m = ports();
    s.memory.set(0x0000, 0xfb); // EI
    step_ok(&mut s, &mut m);
    assert!(s.int_enable);
    s.memory.set(0x0001, 0xf3); // DI
    step_ok(&mut s, &mut m);
    assert!(!s.int_enable);
}

#[test]
fn conditional_branches_test() {
    let mut s = State::new();
    let mut m = ports();
    // JNZ not taken when Z set: PC advances past the 3 bytes.
    s.cc.z = true;
    s.memory.set(0x0000, 0xc2);
    s.memory.set(0x0001, 0x50);
    s.memory.set(0x0002, 0x00);
    step_ok(&mut s, &mut m);
    assert_eq!(s.pc, 0x0003);
    // JZ taken when Z set.
    s.memory.set(0x0003, 0xca);
    s.memory.set(0x0004, 0x50);
    s.memory.set(0x0005, 0x00);
    step_ok(&mut s, &mut m);
    assert_eq!(s.pc, 0x0050);
    // CNC not taken when CY set: no push, PC past the 3 bytes.
    s.sp = 0x2400;
    s.cc.cy = true;
    s.memory.set(0x0050, 0xd4);
    s.memory.set(0x0051, 0x99);
    s.memory.set(0x0052, 0x00);
    step_ok(&mut s, &mut m);
    assert_eq!(s.pc, 0x0053);
    assert_eq!(s.sp, 0x2400);
    // RC taken when CY set: pops the address pushed here by hand.
    s.push8(0x01);
    s.push8(0x80);
    s.memory.set(0x0053, 0xd8);
    step_ok(&mut s, &mut m);
    assert_eq!(s.pc, 0x0180);
    assert_eq!(s.sp, 0x2400);
}

#[test]
fn alias_opcodes_test() {
    let mut s = State::new();
    let mut m = ports();
    // 0xCB is an undocumented alias of JMP.
    s.memory.set(0x0000, 0xcb);
    s.memory.set(0x0001, 0x20);
    s.memory.set(0x0002, 0x00);
    step_ok(&mut s, &mut m);
    assert_eq!(s.pc, 0x0020);
    // 0xDD is an undocumented alias of CALL; 0xD9 of RET.
    s.sp = 0x2400;
    s.memory.set(0x0020, 0xdd);
    s.memory.set(0x0021, 0x30);
    s.memory.set(0x0022, 0x00);
    s.memory.set(0x0030, 0xd9);
    step_ok(&mut s, &mut m);
    assert_eq!(s.pc, 0x0030);
    step_ok(&mut s, &mut m);
    assert_eq!(s.pc, 0x0023);
    assert_eq!(s.sp, 0x2400);
}

#[test]
fn cma_stc_cmc_test() {
    let mut s = State::new();
    let mut m = ports();
    s.a = 0x0f;
    s.memory.set(0x0000, 0x2f); // CMA
    step_ok(&mut s, &mut m);
    assert_eq!(s.a, 0xf0);
    s.memory.set(0x0001, 0x37); // STC
    step_ok(&mut s, &mut m);
    assert!(s.cc.cy);
    s.memory.set(0x0002, 0x3f); // CMC
    step_ok(&mut s, &mut m);
    assert!(!s.cc.cy);
}

#[test]
fn inr_dcr_memory_test() {
    // INR M and DCR M work on the byte addressed by HL.
    let mut s = State::new();
    let mut m = ports();
    s.h = 0x20;
    s.l = 0x00;
    s.memory.set(0x2000, 0x7f);
    s.memory.set(0x0000, 0x34); // INR M
    step_ok(&mut s, &mut m);
    assert_eq!(s.memory.get(0x2000), 0x80);
    assert!(s.cc.s);
    assert!(!s.cc.z);
    s.memory.set(0x0001, 0x35); // DCR M
    step_ok(&mut s, &mut m);
    assert_eq!(s.memory.get(0x2000), 0x7f);
    assert!(!s.cc.s);
}

#[test]
fn alu_memory_operand_test() {
    // ADD M and CMP M read the byte addressed by HL.
    let mut s = State::new();
    let mut m = ports();
    s.a = 0x10;
    s.h = 0x20;
    s.l = 0x00;
    s.memory.set(0x2000, 0x22);
    s.memory.set(0x0000, 0x86); // ADD M
    step_ok(&mut s, &mut m);
    assert_eq!(s.a, 0x32);
    assert!(!s.cc.cy);
    s.memory.set(0x0001, 0xbe); // CMP M
    step_ok(&mut s, &mut m);
    assert_eq!(s.a, 0x32); // CMP leaves A
    assert!(!s.cc.z);
    assert!(!s.cc.cy); // 0x32 >= 0x22: no borrow
}

#[test]
fn parity_sign_branches_test() {
    let mut s = State::new();
    let mut m = ports();
    // ORI 0x03 gives 0x03: two set bits, parity even, sign clear.
    s.memory.set(0x0000, 0xf6);
    s.memory.set(0x0001, 0x03);
    // JPE 0x0010 taken on even parity.
    s.memory.set(0x0002, 0xea);
    s.memory.set(0x0003, 0x10);
    s.memory.set(0x0004, 0x00);
    // JM 0x0020 not taken while S clear.
    s.memory.set(0x0010, 0xfa);
    s.memory.set(0x0011, 0x20);
    s.memory.set(0x0012, 0x00);
    step_ok(&mut s, &mut m);
    assert!(s.cc.p);
    assert!(!s.cc.s);
    step_ok(&mut s, &mut m);
    assert_eq!(s.pc, 0x0010);
    step_ok(&mut s, &mut m);
    assert_eq!(s.pc, 0x0013);
}

#[test]
fn countdown_program_test() {
    // MVI B,3; then DCR B / JNZ back until B reaches zero.
    let mut s = State::new();
    let mut m = ports();
    s.memory.set(0x0000, 0x06); // MVI B,0x03
    s.memory.set(0x0001, 0x03);
    s.memory.set(0x0002, 0x05); // DCR B
    s.memory.set(0x0003, 0xc2); // JNZ 0x0002
    s.memory.set(0x0004, 0x02);
    s.memory.set(0x0005, 0x00);
    let mut steps: u32 = 0;
    while s.pc != 0x0006 {
        step_ok(&mut s, &mut m);
        steps += 1;
        assert!(steps < 100);
    }
    assert_eq!(s.b, 0x00);
    assert!(s.cc.z);
    // MVI + 3 * (DCR + JNZ)
    assert_eq!(steps, 7);
}

#[test]
fn pc_wrap_test() {
    // A jump fetched at 0xFFFF takes its operand bytes from 0x0000 and
    // 0x0001: address arithmetic wraps modulo 65536.
    let mut s = State::new();
    let mut m = ports();
    s.pc = 0xffff;
    s.memory.set(0xffff, 0xc3);
    s.memory.set(0x0000, 0x34);
    s.memory.set(0x0001, 0x12);
    step_ok(&mut s, &mut m);
    assert_eq!(s.pc, 0x1234);
}
