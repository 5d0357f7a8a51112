//! The fetch-decode-execute dispatcher: one call of
//! [`emulate_instruction`] reads the opcode at PC, performs exactly that
//! instruction's documented effect against the CPU state (consulting the
//! I/O port capability only for IN and OUT), and leaves PC at the next
//! instruction. Opcodes outside the supported set return a typed fault
//! carrying the opcode, the PC and a state snapshot, with the state
//! unchanged.

use vstd::prelude::*;
use crate::bytes::{assemble_word, high_order_byte, low_order_byte, rotate_left, rotate_right,
    spec_rotate_left, spec_rotate_right};
use crate::cond::{spec_deserialize, spec_serialize, spec_sign, ConditionCodes};
use crate::state::{spec_adc8, spec_add16, spec_add8, spec_and8, spec_arg, spec_bc, spec_call_if,
    spec_cmp8, spec_de, spec_hl, spec_jump_if, spec_mem_set, spec_operand, spec_or8, spec_pop8,
    spec_pop8_value, spec_push8, spec_ret_if, spec_sbb8, spec_set_bc, spec_set_de, spec_set_hl,
    spec_snapshot, spec_sub8, spec_word_arg, spec_xor8, spec_zs, wrap_add16, wrap_add8,
    wrap_sub16, wrap_sub8, Snapshot, State, StateV};

verus! {

/// The I/O port capability consulted by the IN and OUT opcodes. The host
/// supplies the concrete device behavior; nothing is assumed of it.
pub trait Machine {
    /// Delivers the accumulator to an output port (the OUT opcode).
    fn output(&mut self, port: u8, value: u8);

    /// Reads a byte from an input port (the IN opcode).
    fn input(&mut self, port: u8) -> u8;
}

/// The fatal fault raised for an opcode this core does not implement:
/// the failing opcode, the PC it was fetched from, and a snapshot of the
/// registers, pointers and flags at the fault.
#[derive(Clone, Copy, Debug, PartialEq, Eq, Structural)]
pub struct Fault {
    pub opcode: u8,
    pub pc: u16,
    pub snapshot: Snapshot,
}

/// The opcodes this core does not implement: decimal adjust, halt, and
/// the eight restart vectors. They fault instead of executing.
pub open spec fn spec_unimplemented(op: u8) -> bool {
    op == 0x27 || op == 0x76 || (op >= 0xc0 && op % 8 == 7)
}

/// Whether an opcode is outside the supported set.
pub fn is_unimplemented_opcode(opcode: u8) -> (r: bool)
    ensures
        r == spec_unimplemented(opcode),
{
    opcode == 0x27 || opcode == 0x76 || (opcode >= 0xc0 && opcode % 8 == 7)
}

/// The byte length an instruction advances PC by after its work, or 0
/// for the control transfers that position PC themselves (jumps, calls,
/// returns and PCHL handle both of their outcomes).
pub open spec fn spec_instruction_len(op: u8) -> u16 {
    if op < 0x40 {
        if op % 16 == 1 || op == 0x22 || op == 0x2a || op == 0x32 || op == 0x3a {
            3
        } else if op % 16 == 6 || op % 16 == 14 {
            2
        } else {
            1
        }
    } else if op < 0xc0 {
        1
    } else {
        if op % 16 == 6 || op % 16 == 14 || op == 0xd3 || op == 0xdb {
            2
        } else if op % 16 == 1 || op % 16 == 5 || op % 16 == 7 || op % 16 == 15 || op == 0xe3
            || op == 0xeb || op == 0xf3 || op == 0xfb || op == 0xf9 {
            1
        } else {
            0
        }
    }
}

/// The state with PC advanced past an instruction of the given opcode.
pub open spec fn spec_advance(v: StateV, op: u8) -> StateV {
    StateV { pc: wrap_add16(v.pc, spec_instruction_len(op)), ..v }
}

/// The effect (before the PC advance) of the opcodes below 0x40: the
/// register-pair loads, stores, increments and decrements, the
/// accumulator rotates, the direct loads and stores, and the flag
/// instructions.
pub open spec fn spec_work_low(pre: StateV, op: u8) -> StateV {
    if op == 0x01 {
        // LXI B
        StateV { c: spec_arg(pre, 1), b: spec_arg(pre, 2), ..pre }
    } else if op == 0x02 {
        // STAX B
        spec_mem_set(pre, spec_bc(pre), pre.a)
    } else if op == 0x03 {
        // INX B
        spec_set_bc(pre, wrap_add16(spec_bc(pre), 1))
    } else if op == 0x04 {
        // INR B
        let v = wrap_add8(pre.b, 1);
        StateV { b: v, cc: spec_zs(pre.cc, v), ..pre }
    } else if op == 0x05 {
        // DCR B
        let v = wrap_sub8(pre.b, 1);
        StateV { b: v, cc: spec_zs(pre.cc, v), ..pre }
    } else if op == 0x06 {
        // MVI B
        StateV { b: spec_arg(pre, 1), ..pre }
    } else if op == 0x07 {
        // RLC
        StateV {
            a: spec_rotate_left(pre.a),
            cc: ConditionCodes { cy: spec_sign(pre.a), ..pre.cc },
            ..pre
        }
    } else if op == 0x09 {
        // DAD B
        spec_add16(pre, spec_bc(pre))
    } else if op == 0x0a {
        // LDAX B
        StateV { a: pre.mem[spec_bc(pre) as int], ..pre }
    } else if op == 0x0b {
        // DCX B
        spec_set_bc(pre, wrap_sub16(spec_bc(pre), 1))
    } else if op == 0x0c {
        // INR C
        let v = wrap_add8(pre.c, 1);
        StateV { c: v, cc: spec_zs(pre.cc, v), ..pre }
    } else if op == 0x0d {
        // DCR C
        let v = wrap_sub8(pre.c, 1);
        StateV { c: v, cc: spec_zs(pre.cc, v), ..pre }
    } else if op == 0x0e {
        // MVI C
        StateV { c: spec_arg(pre, 1), ..pre }
    } else if op == 0x0f {
        // RRC
        StateV {
            a: spec_rotate_right(pre.a),
            cc: ConditionCodes { cy: pre.a % 2 == 1, ..pre.cc },
            ..pre
        }
    } else if op == 0x11 {
        // LXI D
        StateV { e: spec_arg(pre, 1), d: spec_arg(pre, 2), ..pre }
    } else if op == 0x12 {
        // STAX D
        spec_mem_set(pre, spec_de(pre), pre.a)
    } else if op == 0x13 {
        // INX D
        spec_set_de(pre, wrap_add16(spec_de(pre), 1))
    } else if op == 0x14 {
        // INR D
        let v = wrap_add8(pre.d, 1);
        StateV { d: v, cc: spec_zs(pre.cc, v), ..pre }
    } else if op == 0x15 {
        // DCR D
        let v = wrap_sub8(pre.d, 1);
        StateV { d: v, cc: spec_zs(pre.cc, v), ..pre }
    } else if op == 0x16 {
        // MVI D
        StateV { d: spec_arg(pre, 1), ..pre }
    } else if op == 0x17 {
        // RAL: the carry flag rotates into bit 0, bit 7 into the carry.
        let cin: u8 = if pre.cc.cy { 1 } else { 0 };
        StateV {
            a: (pre.a % 128 * 2 + cin) as u8,
            cc: ConditionCodes { cy: spec_sign(pre.a), ..pre.cc },
            ..pre
        }
    } else if op == 0x19 {
        // DAD D
        spec_add16(pre, spec_de(pre))
    } else if op == 0x1a {
        // LDAX D
        StateV { a: pre.mem[spec_de(pre) as int], ..pre }
    } else if op == 0x1b {
        // DCX D
        spec_set_de(pre, wrap_sub16(spec_de(pre), 1))
    } else if op == 0x1c {
        // INR E
        let v = wrap_add8(pre.e, 1);
        StateV { e: v, cc: spec_zs(pre.cc, v), ..pre }
    } else if op == 0x1d {
        // DCR E
        let v = wrap_sub8(pre.e, 1);
        StateV { e: v, cc: spec_zs(pre.cc, v), ..pre }
    } else if op == 0x1e {
        // MVI E
        StateV { e: spec_arg(pre, 1), ..pre }
    } else if op == 0x1f {
        // RAR: the carry flag rotates into bit 7, bit 0 into the carry.
        let cin: u8 = if pre.cc.cy { 1 } else { 0 };
        StateV {
            a: (cin * 128 + pre.a / 2) as u8,
            cc: ConditionCodes { cy: pre.a % 2 == 1, ..pre.cc },
            ..pre
        }
    } else if op == 0x21 {
        // LXI H
        StateV { l: spec_arg(pre, 1), h: spec_arg(pre, 2), ..pre }
    } else if op == 0x22 {
        // SHLD: L then H stored at the direct address.
        let address = spec_word_arg(pre);
        spec_mem_set(spec_mem_set(pre, address, pre.l), wrap_add16(address, 1), pre.h)
    } else if op == 0x23 {
        // INX H
        spec_set_hl(pre, wrap_add16(spec_hl(pre), 1))
    } else if op == 0x24 {
        // INR H
        let v = wrap_add8(pre.h, 1);
        StateV { h: v, cc: spec_zs(pre.cc, v), ..pre }
    } else if op == 0x25 {
        // DCR H
        let v = wrap_sub8(pre.h, 1);
        StateV { h: v, cc: spec_zs(pre.cc, v), ..pre }
    } else if op == 0x26 {
        // MVI H
        StateV { h: spec_arg(pre, 1), ..pre }
    } else if op == 0x29 {
        // DAD H
        spec_add16(pre, spec_hl(pre))
    } else if op == 0x2a {
        // LHLD: L then H loaded from the direct address.
        let address = spec_word_arg(pre);
        StateV { l: pre.mem[address as int], h: pre.mem[wrap_add16(address, 1) as int], ..pre }
    } else if op == 0x2b {
        // DCX H
        spec_set_hl(pre, wrap_sub16(spec_hl(pre), 1))
    } else if op == 0x2c {
        // INR L
        let v = wrap_add8(pre.l, 1);
        StateV { l: v, cc: spec_zs(pre.cc, v), ..pre }
    } else if op == 0x2d {
        // DCR L
        let v = wrap_sub8(pre.l, 1);
        StateV { l: v, cc: spec_zs(pre.cc, v), ..pre }
    } else if op == 0x2e {
        // MVI L
        StateV { l: spec_arg(pre, 1), ..pre }
    } else if op == 0x2f {
        // CMA
        StateV { a: !pre.a, ..pre }
    } else if op == 0x31 {
        // LXI SP
        StateV { sp: spec_word_arg(pre), ..pre }
    } else if op == 0x32 {
        // STA
        spec_mem_set(pre, spec_word_arg(pre), pre.a)
    } else if op == 0x33 {
        // INX SP
        StateV { sp: wrap_add16(pre.sp, 1), ..pre }
    } else if op == 0x34 {
        // INR M
        let v = wrap_add8(pre.mem[spec_hl(pre) as int], 1);
        StateV { cc: spec_zs(pre.cc, v), ..spec_mem_set(pre, spec_hl(pre), v) }
    } else if op == 0x35 {
        // DCR M
        let v = wrap_sub8(pre.mem[spec_hl(pre) as int], 1);
        StateV { cc: spec_zs(pre.cc, v), ..spec_mem_set(pre, spec_hl(pre), v) }
    } else if op == 0x36 {
        // MVI M
        spec_mem_set(pre, spec_hl(pre), spec_arg(pre, 1))
    } else if op == 0x37 {
        // STC
        StateV { cc: ConditionCodes { cy: true, ..pre.cc }, ..pre }
    } else if op == 0x39 {
        // DAD SP
        spec_add16(pre, pre.sp)
    } else if op == 0x3a {
        // LDA
        StateV { a: pre.mem[spec_word_arg(pre) as int], ..pre }
    } else if op == 0x3b {
        // DCX SP
        StateV { sp: wrap_sub16(pre.sp, 1), ..pre }
    } else if op == 0x3c {
        // INR A
        let v = wrap_add8(pre.a, 1);
        StateV { a: v, cc: spec_zs(pre.cc, v), ..pre }
    } else if op == 0x3d {
        // DCR A
        let v = wrap_sub8(pre.a, 1);
        StateV { a: v, cc: spec_zs(pre.cc, v), ..pre }
    } else if op == 0x3e {
        // MVI A
        StateV { a: spec_arg(pre, 1), ..pre }
    } else if op == 0x3f {
        // CMC
        StateV { cc: ConditionCodes { cy: !pre.cc.cy, ..pre.cc }, ..pre }
    } else {
        // The NOP aliases 0x00, 0x08, 0x10, 0x18, 0x20, 0x28, 0x30 and
        // 0x38 do nothing (0x27, decimal adjust, faults before this
        // spec applies).
        pre
    }
}

/// The effect (before the PC advance) of the MOV block 0x40..0x7f: the
/// operand selected by the low three bits moves into the destination
/// selected by the next three (registers, or the memory byte at HL).
pub open spec fn spec_work_mov(pre: StateV, op: u8) -> StateV {
    let v = spec_operand(pre, op);
    if op < 0x48 {
        StateV { b: v, ..pre }
    } else if op < 0x50 {
        StateV { c: v, ..pre }
    } else if op < 0x58 {
        StateV { d: v, ..pre }
    } else if op < 0x60 {
        StateV { e: v, ..pre }
    } else if op < 0x68 {
        StateV { h: v, ..pre }
    } else if op < 0x70 {
        StateV { l: v, ..pre }
    } else if op < 0x78 {
        spec_mem_set(pre, spec_hl(pre), v)
    } else {
        StateV { a: v, ..pre }
    }
}

/// The effect (before the PC advance) of the ALU block 0x80..0xbf: ADD,
/// ADC, SUB, SBB, ANA, XRA, ORA or CMP of the operand selected by the
/// low three bits against the accumulator.
pub open spec fn spec_work_alu(pre: StateV, op: u8) -> StateV {
    let x = spec_operand(pre, op);
    if op < 0x88 {
        spec_add8(pre, x)
    } else if op < 0x90 {
        spec_adc8(pre, x)
    } else if op < 0x98 {
        spec_sub8(pre, x)
    } else if op < 0xa0 {
        spec_sbb8(pre, x)
    } else if op < 0xa8 {
        spec_and8(pre, x)
    } else if op < 0xb0 {
        spec_xor8(pre, x)
    } else if op < 0xb8 {
        spec_or8(pre, x)
    } else {
        spec_cmp8(pre, x)
    }
}

/// The effect (before the PC advance) of the opcodes from 0xc0 up:
/// conditional and unconditional jumps, calls and returns (with their
/// historical aliases), stack pushes and pops, the immediate ALU
/// operations, the exchanges, and IN/OUT/DI/EI. `input` is the byte the
/// I/O port capability returned, read only by the IN opcode.
pub open spec fn spec_work_ctrl(pre: StateV, op: u8, input: u8) -> StateV {
    if op == 0xc0 {
        // RNZ
        spec_ret_if(pre, !pre.cc.z)
    } else if op == 0xc1 {
        // POP B
        StateV {
            c: spec_pop8_value(pre),
            b: spec_pop8_value(spec_pop8(pre)),
            ..spec_pop8(spec_pop8(pre))
        }
    } else if op == 0xc2 {
        // JNZ
        spec_jump_if(pre, !pre.cc.z)
    } else if op == 0xc3 || op == 0xcb {
        // JMP, and its alias
        spec_jump_if(pre, true)
    } else if op == 0xc4 {
        // CNZ
        spec_call_if(pre, !pre.cc.z)
    } else if op == 0xc5 {
        // PUSH B
        spec_push8(spec_push8(pre, pre.b), pre.c)
    } else if op == 0xc6 {
        // ADI
        spec_add8(pre, spec_arg(pre, 1))
    } else if op == 0xc8 {
        // RZ
        spec_ret_if(pre, pre.cc.z)
    } else if op == 0xc9 || op == 0xd9 {
        // RET, and its alias
        spec_ret_if(pre, true)
    } else if op == 0xca {
        // JZ
        spec_jump_if(pre, pre.cc.z)
    } else if op == 0xcc {
        // CZ
        spec_call_if(pre, pre.cc.z)
    } else if op == 0xcd || op == 0xdd || op == 0xed || op == 0xfd {
        // CALL, and its aliases
        spec_call_if(pre, true)
    } else if op == 0xce {
        // ACI
        spec_adc8(pre, spec_arg(pre, 1))
    } else if op == 0xd0 {
        // RNC
        spec_ret_if(pre, !pre.cc.cy)
    } else if op == 0xd1 {
        // POP D
        StateV {
            e: spec_pop8_value(pre),
            d: spec_pop8_value(spec_pop8(pre)),
            ..spec_pop8(spec_pop8(pre))
        }
    } else if op == 0xd2 {
        // JNC
        spec_jump_if(pre, !pre.cc.cy)
    } else if op == 0xd3 {
        // OUT: the CPU state is unchanged; the port device received
        // the accumulator.
        pre
    } else if op == 0xd4 {
        // CNC
        spec_call_if(pre, !pre.cc.cy)
    } else if op == 0xd5 {
        // PUSH D
        spec_push8(spec_push8(pre, pre.d), pre.e)
    } else if op == 0xd6 {
        // SUI
        spec_sub8(pre, spec_arg(pre, 1))
    } else if op == 0xd8 {
        // RC
        spec_ret_if(pre, pre.cc.cy)
    } else if op == 0xda {
        // JC
        spec_jump_if(pre, pre.cc.cy)
    } else if op == 0xdb {
        // IN: the accumulator takes whatever byte the port returned.
        StateV { a: input, ..pre }
    } else if op == 0xdc {
        // CC
        spec_call_if(pre, pre.cc.cy)
    } else if op == 0xde {
        // SBI
        spec_sbb8(pre, spec_arg(pre, 1))
    } else if op == 0xe0 {
        // RPO
        spec_ret_if(pre, !pre.cc.p)
    } else if op == 0xe1 {
        // POP H
        StateV {
            l: spec_pop8_value(pre),
            h: spec_pop8_value(spec_pop8(pre)),
            ..spec_pop8(spec_pop8(pre))
        }
    } else if op == 0xe2 {
        // JPO
        spec_jump_if(pre, !pre.cc.p)
    } else if op == 0xe3 {
        // XTHL: HL exchanges with the two bytes at the top of the stack.
        let s2 = spec_pop8(spec_pop8(pre));
        let s4 = spec_push8(spec_push8(s2, pre.h), pre.l);
        StateV { l: spec_pop8_value(pre), h: spec_pop8_value(spec_pop8(pre)), ..s4 }
    } else if op == 0xe4 {
        // CPO
        spec_call_if(pre, !pre.cc.p)
    } else if op == 0xe5 {
        // PUSH H
        spec_push8(spec_push8(pre, pre.h), pre.l)
    } else if op == 0xe6 {
        // ANI
        spec_and8(pre, spec_arg(pre, 1))
    } else if op == 0xe8 {
        // RPE
        spec_ret_if(pre, pre.cc.p)
    } else if op == 0xe9 {
        // PCHL: PC takes the address in HL, exactly.
        StateV { pc: spec_hl(pre), ..pre }
    } else if op == 0xea {
        // JPE
        spec_jump_if(pre, pre.cc.p)
    } else if op == 0xeb {
        // XCHG
        StateV { d: pre.h, h: pre.d, e: pre.l, l: pre.e, ..pre }
    } else if op == 0xec {
        // CPE
        spec_call_if(pre, pre.cc.p)
    } else if op == 0xee {
        // XRI
        spec_xor8(pre, spec_arg(pre, 1))
    } else if op == 0xf0 {
        // RP
        spec_ret_if(pre, !pre.cc.s)
    } else if op == 0xf1 {
        // POP PSW: the flags byte is popped first, then the accumulator.
        StateV {
            cc: spec_deserialize(spec_pop8_value(pre)),
            a: spec_pop8_value(spec_pop8(pre)),
            ..spec_pop8(spec_pop8(pre))
        }
    } else if op == 0xf2 {
        // JP
        spec_jump_if(pre, !pre.cc.s)
    } else if op == 0xf3 {
        // DI
        StateV { int_enable: false, ..pre }
    } else if op == 0xf4 {
        // CP
        spec_call_if(pre, !pre.cc.s)
    } else if op == 0xf5 {
        // PUSH PSW: the accumulator is pushed first, then the flags byte.
        spec_push8(spec_push8(pre, pre.a), spec_serialize(pre.cc))
    } else if op == 0xf6 {
        // ORI
        spec_or8(pre, spec_arg(pre, 1))
    } else if op == 0xf8 {
        // RM
        spec_ret_if(pre, pre.cc.s)
    } else if op == 0xf9 {
        // SPHL
        StateV { sp: spec_hl(pre), ..pre }
    } else if op == 0xfa {
        // JM
        spec_jump_if(pre, pre.cc.s)
    } else if op == 0xfb {
        // EI
        StateV { int_enable: true, ..pre }
    } else if op == 0xfc {
        // CM
        spec_call_if(pre, pre.cc.s)
    } else if op == 0xfe {
        // CPI
        spec_cmp8(pre, spec_arg(pre, 1))
    } else {
        // The restart vectors fault before reaching this point.
        pre
    }
}

/// Law: after any INR or DCR instruction, Zero holds iff the byte it
/// wrote is 0 and Sign holds iff bit 7 of that byte is set; Parity and
/// the two carry flags keep their previous values. The written slot is
/// the one selected by bits 3 through 5 of the opcode.
#[verifier::rlimit(100)]
pub proof fn lemma_inr_dcr_flags(pre: StateV, op: u8)
    requires
        pre.wf(),
        op < 0x40,
        op % 8 == 4 || op % 8 == 5,
    ensures
        ({
            let post = spec_work_low(pre, op);
            let v = spec_operand(post, op / 8);
            (post.cc.z <==> v == 0) && (post.cc.s <==> v >= 0x80) && post.cc.p == pre.cc.p
                && post.cc.cy == pre.cc.cy && post.cc.ac == pre.cc.ac
        }),
{
    // One branch per opcode of the family keeps each case small.
    if op == 0x04 {
    } else if op == 0x05 {
    } else if op == 0x0c {
    } else if op == 0x0d {
    } else if op == 0x14 {
    } else if op == 0x15 {
    } else if op == 0x1c {
    } else if op == 0x1d {
    } else if op == 0x24 {
    } else if op == 0x25 {
    } else if op == 0x2c {
    } else if op == 0x2d {
    } else if op == 0x34 {
    } else if op == 0x35 {
    } else if op == 0x3c {
    } else {
    }
}

/// The effect of an implemented instruction before the PC advance.
pub open spec fn spec_work(pre: StateV, op: u8, input: u8) -> StateV {
    if op < 0x40 {
        spec_work_low(pre, op)
    } else if op < 0x80 {
        spec_work_mov(pre, op)
    } else if op < 0xc0 {
        spec_work_alu(pre, op)
    } else {
        spec_work_ctrl(pre, op, input)
    }
}

/// The state after one full step on an implemented opcode: the effect of
/// the instruction at PC, then the PC advance past it. `input` is the
/// byte the I/O port capability returned, read only by the IN opcode.
pub open spec fn spec_step(pre: StateV, input: u8) -> StateV {
    let op = pre.mem[pre.pc as int];
    spec_advance(spec_work(pre, op, input), op)
}

impl State {
    /// Moves PC past the instruction just executed: by its byte length,
    /// or not at all for a control transfer that positioned PC itself.
    pub fn advance(&mut self, opcode: u8)
        ensures
            final(self)@ == spec_advance(old(self)@, opcode),
    {
        let len: u16 = if opcode < 0x40 {
            if opcode % 16 == 1 || opcode == 0x22 || opcode == 0x2a || opcode == 0x32
                || opcode == 0x3a {
                3
            } else if opcode % 16 == 6 || opcode % 16 == 14 {
                2
            } else {
                1
            }
        } else if opcode < 0xc0 {
            1
        } else {
            if opcode % 16 == 6 || opcode % 16 == 14 || opcode == 0xd3 || opcode == 0xdb {
                2
            } else if opcode % 16 == 1 || opcode % 16 == 5 || opcode % 16 == 7
                || opcode % 16 == 15 || opcode == 0xe3 || opcode == 0xeb || opcode == 0xf3
                || opcode == 0xfb || opcode == 0xf9 {
                1
            } else {
                0
            }
        };
        self.pc = self.pc.wrapping_add(len);
    }
}

/// Performs the work of an opcode below 0x20.
#[verifier::rlimit(100)]
fn step_low0(s: &mut State, opcode: u8)
    requires
        old(s).wf(),
        opcode < 0x20,
    ensures
        final(s).wf(),
        final(s)@ == spec_work_low(old(s)@, opcode),
{
    match opcode {
        0x01 => {
            // LXI B,word
            s.c = s.get_arg(1);
            s.b = s.get_arg(2);
        },
        0x02 => {
            // STAX B
            let address = assemble_word(s.b, s.c);
            let val = s.a;
            s.memory.set(address, val);
        },
        0x03 => {
            // INX B
            let new_value = assemble_word(s.b, s.c).wrapping_add(1);
            s.b = high_order_byte(new_value);
            s.c = low_order_byte(new_value);
        },
        0x04 => {
            // INR B
            let new_value = s.b.wrapping_add(1);
            s.cc.set_z(new_value);
            s.cc.set_s(new_value);
            s.b = new_value;
        },
        0x05 => {
            // DCR B
            let new_value = s.b.wrapping_sub(1);
            s.cc.set_z(new_value);
            s.cc.set_s(new_value);
            s.b = new_value;
        },
        0x06 => {
            // MVI B,byte
            s.b = s.get_arg(1);
        },
        0x07 => {
            // RLC
            let x = s.a;
            s.a = rotate_left(x);
            s.cc.cy = x >= 0x80;
        },
        0x09 => {
            // DAD B
            let addend = assemble_word(s.b, s.c);
            s.add16(addend);
        },
        0x0a => {
            // LDAX B
            let address = assemble_word(s.b, s.c);
            s.a = s.memory.get(address);
        },
        0x0b => {
            // DCX B
            let new_value = assemble_word(s.b, s.c).wrapping_sub(1);
            s.b = high_order_byte(new_value);
            s.c = low_order_byte(new_value);
        },
        0x0c => {
            // INR C
            let new_value = s.c.wrapping_add(1);
            s.cc.set_z(new_value);
            s.cc.set_s(new_value);
            s.c = new_value;
        },
        0x0d => {
            // DCR C
            let new_value = s.c.wrapping_sub(1);
            s.cc.set_z(new_value);
            s.cc.set_s(new_value);
            s.c = new_value;
        },
        0x0e => {
            // MVI C,byte
            s.c = s.get_arg(1);
        },
        0x0f => {
            // RRC
            let x = s.a;
            s.a = rotate_right(x);
            s.cc.cy = x % 2 == 1;
        },
        0x11 => {
            // LXI D,word
            s.e = s.get_arg(1);
            s.d = s.get_arg(2);
        },
        0x12 => {
            // STAX D
            let address = assemble_word(s.d, s.e);
            let val = s.a;
            s.memory.set(address, val);
        },
        0x13 => {
            // INX D
            let new_value = assemble_word(s.d, s.e).wrapping_add(1);
            s.d = high_order_byte(new_value);
            s.e = low_order_byte(new_value);
        },
        0x14 => {
            // INR D
            let new_value = s.d.wrapping_add(1);
            s.cc.set_z(new_value);
            s.cc.set_s(new_value);
            s.d = new_value;
        },
        0x15 => {
            // DCR D
            let new_value = s.d.wrapping_sub(1);
            s.cc.set_z(new_value);
            s.cc.set_s(new_value);
            s.d = new_value;
        },
        0x16 => {
            // MVI D,byte
            s.d = s.get_arg(1);
        },
        0x17 => {
            // RAL
            let x = s.a;
            let cin: u8 = if s.cc.cy {
                1
            } else {
                0
            };
            s.a = x % 128 * 2 + cin;
            s.cc.cy = x >= 0x80;
        },
        0x19 => {
            // DAD D
            let addend = assemble_word(s.d, s.e);
            s.add16(addend);
        },
        0x1a => {
            // LDAX D
            let address = assemble_word(s.d, s.e);
            s.a = s.memory.get(address);
        },
        0x1b => {
            // DCX D
            let new_value = assemble_word(s.d, s.e).wrapping_sub(1);
            s.d = high_order_byte(new_value);
            s.e = low_order_byte(new_value);
        },
        0x1c => {
            // INR E
            let new_value = s.e.wrapping_add(1);
            s.cc.set_z(new_value);
            s.cc.set_s(new_value);
            s.e = new_value;
        },
        0x1d => {
            // DCR E
            let new_value = s.e.wrapping_sub(1);
            s.cc.set_z(new_value);
            s.cc.set_s(new_value);
            s.e = new_value;
        },
        0x1e => {
            // MVI E,byte
            s.e = s.get_arg(1);
        },
        0x1f => {
            // RAR
            let x = s.a;
            let cin: u8 = if s.cc.cy {
                1
            } else {
                0
            };
            s.a = cin * 128 + x / 2;
            s.cc.cy = x % 2 == 1;
        },
        _ => {
            // NOP and its aliases
        },
    }
}

/// Performs the work of an opcode at or above 0x20 and below 0x40.
#[verifier::rlimit(100)]
fn step_low1(s: &mut State, opcode: u8)
    requires
        old(s).wf(),
        0x20 <= opcode < 0x40,
    ensures
        final(s).wf(),
        final(s)@ == spec_work_low(old(s)@, opcode),
{
    match opcode {
        0x21 => {
            // LXI H,word
            s.l = s.get_arg(1);
            s.h = s.get_arg(2);
        },
        0x22 => {
            // SHLD a16
            let address = assemble_word(s.get_arg(2), s.get_arg(1));
            let l = s.l;
            let h = s.h;
            s.memory.set(address, l);
            s.memory.set(address.wrapping_add(1), h);
        },
        0x23 => {
            // INX H
            let new_value = assemble_word(s.h, s.l).wrapping_add(1);
            s.h = high_order_byte(new_value);
            s.l = low_order_byte(new_value);
        },
        0x24 => {
            // INR H
            let new_value = s.h.wrapping_add(1);
            s.cc.set_z(new_value);
            s.cc.set_s(new_value);
            s.h = new_value;
        },
        0x25 => {
            // DCR H
            let new_value = s.h.wrapping_sub(1);
            s.cc.set_z(new_value);
            s.cc.set_s(new_value);
            s.h = new_value;
        },
        0x26 => {
            // MVI H,byte
            s.h = s.get_arg(1);
        },
        0x29 => {
            // DAD H
            let addend = assemble_word(s.h, s.l);
            s.add16(addend);
        },
        0x2a => {
            // LHLD a16
            let address = assemble_word(s.get_arg(2), s.get_arg(1));
            s.l = s.memory.get(address);
            s.h = s.memory.get(address.wrapping_add(1));
        },
        0x2b => {
            // DCX H
            let new_value = assemble_word(s.h, s.l).wrapping_sub(1);
            s.h = high_order_byte(new_value);
            s.l = low_order_byte(new_value);
        },
        0x2c => {
            // INR L
            let new_value = s.l.wrapping_add(1);
            s.cc.set_z(new_value);
            s.cc.set_s(new_value);
            s.l = new_value;
        },
        0x2d => {
            // DCR L
            let new_value = s.l.wrapping_sub(1);
            s.cc.set_z(new_value);
            s.cc.set_s(new_value);
            s.l = new_value;
        },
        0x2e => {
            // MVI L,byte
            s.l = s.get_arg(1);
        },
        0x2f => {
            // CMA
            s.a = !s.a;
        },
        0x31 => {
            // LXI SP,word
            let new_address = assemble_word(s.get_arg(2), s.get_arg(1));
            s.sp = new_address;
        },
        0x32 => {
            // STA a16
            let new_address = assemble_word(s.get_arg(2), s.get_arg(1));
            let a = s.a;
            s.memory.set(new_address, a);
        },
        0x33 => {
            // INX SP
            s.sp = s.sp.wrapping_add(1);
        },
        0x34 => {
            // INR M
            let new_value = s.get_m().wrapping_add(1);
            s.cc.set_z(new_value);
            s.cc.set_s(new_value);
            s.set_m(new_value);
        },
        0x35 => {
            // DCR M
            let new_value = s.get_m().wrapping_sub(1);
            s.cc.set_z(new_value);
            s.cc.set_s(new_value);
            s.set_m(new_value);
        },
        0x36 => {
            // MVI M,byte
            let val = s.get_arg(1);
            s.set_m(val);
        },
        0x37 => {
            // STC
            s.cc.cy = true;
        },
        0x39 => {
            // DAD SP
            let addend = s.sp;
            s.add16(addend);
        },
        0x3a => {
            // LDA a16
            let new_address = assemble_word(s.get_arg(2), s.get_arg(1));
            s.a = s.memory.get(new_address);
        },
        0x3b => {
            // DCX SP
            s.sp = s.sp.wrapping_sub(1);
        },
        0x3c => {
            // INR A
            let new_value = s.a.wrapping_add(1);
            s.cc.set_z(new_value);
            s.cc.set_s(new_value);
            s.a = new_value;
        },
        0x3d => {
            // DCR A
            let new_value = s.a.wrapping_sub(1);
            s.cc.set_z(new_value);
            s.cc.set_s(new_value);
            s.a = new_value;
        },
        0x3e => {
            // MVI A,byte
            s.a = s.get_arg(1);
        },
        0x3f => {
            // CMC
            s.cc.cy = !s.cc.cy;
        },
        _ => {
            // NOP and its aliases
        },
    }
}

/// Performs the work of a MOV-block opcode, 0x40..0x7f.
fn step_mov(s: &mut State, opcode: u8)
    requires
        old(s).wf(),
        0x40 <= opcode < 0x80,
    ensures
        final(s).wf(),
        final(s)@ == spec_work_mov(old(s)@, opcode),
{
    let operand = s.get_operand(opcode);
    if opcode < 0x48 {
        // MOV B,*
        s.b = operand;
    } else if opcode < 0x50 {
        // MOV C,*
        s.c = operand;
    } else if opcode < 0x58 {
        // MOV D,*
        s.d = operand;
    } else if opcode < 0x60 {
        // MOV E,*
        s.e = operand;
    } else if opcode < 0x68 {
        // MOV H,*
        s.h = operand;
    } else if opcode < 0x70 {
        // MOV L,*
        s.l = operand;
    } else if opcode < 0x78 {
        // MOV M,*
        s.set_m(operand);
    } else {
        // MOV A,*
        s.a = operand;
    }
}

/// Performs the work of an ALU-block opcode, 0x80..0xbf.
fn step_alu(s: &mut State, opcode: u8)
    requires
        old(s).wf(),
        0x80 <= opcode < 0xc0,
    ensures
        final(s).wf(),
        final(s)@ == spec_work_alu(old(s)@, opcode),
{
    let operand = s.get_operand(opcode);
    if opcode < 0x88 {
        // ADD *
        s.add8(operand);
    } else if opcode < 0x90 {
        // ADC *
        s.adc8(operand);
    } else if opcode < 0x98 {
        // SUB *
        s.sub8(operand);
    } else if opcode < 0xa0 {
        // SBB *
        s.sbb8(operand);
    } else if opcode < 0xa8 {
        // ANA *
        s.and8(operand);
    } else if opcode < 0xb0 {
        // XRA *
        s.xor8(operand);
    } else if opcode < 0xb8 {
        // ORA *
        s.or8(operand);
    } else {
        // CMP *
        s.cmp8(operand);
    }
}

/// Performs the work of an opcode from 0xc0 up (the restart vectors
/// fault before this is reached).
#[verifier::rlimit(100)]
fn step_ctrl<M: Machine>(s: &mut State, m: &mut M, opcode: u8)
    requires
        old(s).wf(),
        opcode >= 0xc0,
        !spec_unimplemented(opcode),
    ensures
        final(s).wf(),
        final(s)@ == spec_work_ctrl(old(s)@, opcode, final(s)@.a),
{
    match opcode {
        0xc0 => {
            // RNZ
            let condition = !s.cc.z;
            s.ret_if(condition);
        },
        0xc1 => {
            // POP B
            let c = s.pop8();
            let b = s.pop8();
            s.c = c;
            s.b = b;
        },
        0xc2 => {
            // JNZ a16
            let condition = !s.cc.z;
            s.jump_if(condition);
        },
        0xc3 | 0xcb => {
            // JMP a16, and its alias
            s.jump_if(true);
        },
        0xc4 => {
            // CNZ a16
            let condition = !s.cc.z;
            s.call_if(condition);
        },
        0xc5 => {
            // PUSH B
            let b = s.b;
            let c = s.c;
            s.push8(b);
            s.push8(c);
        },
        0xc6 => {
            // ADI byte
            let addend = s.get_arg(1);
            s.add8(addend);
        },
        0xc8 => {
            // RZ
            let condition = s.cc.z;
            s.ret_if(condition);
        },
        0xc9 | 0xd9 => {
            // RET, and its alias
            s.ret_if(true);
        },
        0xca => {
            // JZ a16
            let condition = s.cc.z;
            s.jump_if(condition);
        },
        0xcc => {
            // CZ a16
            let condition = s.cc.z;
            s.call_if(condition);
        },
        0xcd | 0xdd | 0xed | 0xfd => {
            // CALL a16, and its aliases
            s.call_if(true);
        },
        0xce => {
            // ACI byte
            let addend = s.get_arg(1);
            s.adc8(addend);
        },
        0xd0 => {
            // RNC
            let condition = !s.cc.cy;
            s.ret_if(condition);
        },
        0xd1 => {
            // POP D
            let e = s.pop8();
            let d = s.pop8();
            s.e = e;
            s.d = d;
        },
        0xd2 => {
            // JNC a16
            let condition = !s.cc.cy;
            s.jump_if(condition);
        },
        0xd3 => {
            // OUT byte
            let port = s.get_arg(1);
            m.output(port, s.a);
        },
        0xd4 => {
            // CNC a16
            let condition = !s.cc.cy;
            s.call_if(condition);
        },
        0xd5 => {
            // PUSH D
            let d = s.d;
            let e = s.e;
            s.push8(d);
            s.push8(e);
        },
        0xd6 => {
            // SUI byte
            let addend = s.get_arg(1);
            s.sub8(addend);
        },
        0xd8 => {
            // RC
            let condition = s.cc.cy;
            s.ret_if(condition);
        },
        0xda => {
            // JC a16
            let condition = s.cc.cy;
            s.jump_if(condition);
        },
        0xdb => {
            // IN byte
            let port = s.get_arg(1);
            s.a = m.input(port);
        },
        0xdc => {
            // CC a16
            let condition = s.cc.cy;
            s.call_if(condition);
        },
        0xde => {
            // SBI byte
            let addend = s.get_arg(1);
            s.sbb8(addend);
        },
        0xe0 => {
            // RPO
            let condition = !s.cc.p;
            s.ret_if(condition);
        },
        0xe1 => {
            // POP H
            let l = s.pop8();
            let h = s.pop8();
            s.l = l;
            s.h = h;
        },
        0xe2 => {
            // JPO a16
            let condition = !s.cc.p;
            s.jump_if(condition);
        },
        0xe3 => {
            // XTHL
            let new_l = s.pop8();
            let new_h = s.pop8();
            let h = s.h;
            let l = s.l;
            s.push8(h);
            s.push8(l);
            s.l = new_l;
            s.h = new_h;
        },
        0xe4 => {
            // CPO a16
            let condition = !s.cc.p;
            s.call_if(condition);
        },
        0xe5 => {
            // PUSH H
            let h = s.h;
            let l = s.l;
            s.push8(h);
            s.push8(l);
        },
        0xe6 => {
            // ANI byte
            let addend = s.get_arg(1);
            s.and8(addend);
        },
        0xe8 => {
            // RPE
            let condition = s.cc.p;
            s.ret_if(condition);
        },
        0xe9 => {
            // PCHL
            let new_address = s.get_hl_address();
            s.pc = new_address;
        },
        0xea => {
            // JPE a16
            let condition = s.cc.p;
            s.jump_if(condition);
        },
        0xeb => {
            // XCHG
            let d = s.d;
            let h = s.h;
            s.d = h;
            s.h = d;
            let e = s.e;
            let l = s.l;
            s.e = l;
            s.l = e;
        },
        0xec => {
            // CPE a16
            let condition = s.cc.p;
            s.call_if(condition);
        },
        0xee => {
            // XRI byte
            let addend = s.get_arg(1);
            s.xor8(addend);
        },
        0xf0 => {
            // RP
            let condition = !s.cc.s;
            s.ret_if(condition);
        },
        0xf1 => {
            // POP PSW
            let cc = s.pop8();
            let a = s.pop8();
            s.cc.deserialize(cc);
            s.a = a;
        },
        0xf2 => {
            // JP a16
            let condition = !s.cc.s;
            s.jump_if(condition);
        },
        0xf3 => {
            // DI
            s.int_enable = false;
        },
        0xf4 => {
            // CP a16
            let condition = !s.cc.s;
            s.call_if(condition);
        },
        0xf5 => {
            // PUSH PSW
            let a = s.a;
            let cc = s.cc.serialize();
            s.push8(a);
            s.push8(cc);
        },
        0xf6 => {
            // ORI byte
            let addend = s.get_arg(1);
            s.or8(addend);
        },
        0xf8 => {
            // RM
            let condition = s.cc.s;
            s.ret_if(condition);
        },
        0xf9 => {
            // SPHL
            let new_pointer = s.get_hl_address();
            s.sp = new_pointer;
        },
        0xfa => {
            // JM a16
            let condition = s.cc.s;
            s.jump_if(condition);
        },
        0xfb => {
            // EI
            s.int_enable = true;
        },
        0xfc => {
            // CM a16
            let condition = s.cc.s;
            s.call_if(condition);
        },
        0xfe => {
            // CPI byte
            let addend = s.get_arg(1);
            s.cmp8(addend);
        },
        _ => {
            // restart vectors: excluded by the fault check
        },
    }
}

/// Executes the single instruction at PC against the CPU state, calling
/// the I/O port capability only for IN and OUT, and leaves PC at the
/// next instruction. An unimplemented opcode (decimal adjust, halt, a
/// restart vector) executes nothing: the state is returned unchanged
/// inside a fault that carries the opcode, the PC it was fetched from,
/// and a snapshot of the registers, pointers and flags.
pub fn emulate_instruction<M: Machine>(s: &mut State, m: &mut M) -> (r: Result<(), Fault>)
    requires
        old(s).wf(),
    ensures
        final(s).wf(),
        r is Err <==> spec_unimplemented(old(s)@.mem[old(s)@.pc as int]),
        r is Ok ==> final(s)@ == spec_step(old(s)@, final(s)@.a),
        r matches Err(f) ==> final(s)@ == old(s)@ && f.opcode == old(s)@.mem[old(s)@.pc as int]
            && f.pc == old(s)@.pc && f.snapshot == spec_snapshot(old(s)@),
{
    let opcode = s.get_opcode();
    if is_unimplemented_opcode(opcode) {
        return Err(Fault { opcode, pc: s.pc, snapshot: s.snapshot() });
    }
    if opcode < 0x20 {
        step_low0(s, opcode);
    } else if opcode < 0x40 {
        step_low1(s, opcode);
    } else if opcode < 0x80 {
        step_mov(s, opcode);
    } else if opcode < 0xc0 {
        step_alu(s, opcode);
    } else {
        step_ctrl(s, m, opcode);
    }
    s.advance(opcode);
    Ok(())
}

} // verus!
