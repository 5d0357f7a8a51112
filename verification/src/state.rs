//! The CPU state: register file, flat memory, stack pointer, program
//! counter, interrupt-enable flag and condition codes, together with the
//! operand-fetch, memory, stack, branch and ALU helpers that the
//! dispatcher builds every instruction out of.

use vstd::prelude::*;
use crate::bytes::{
    assemble_word, high_order_byte, low_order_byte, spec_assemble_word, spec_high_order_byte,
    spec_low_order_byte,
};
use crate::cond::{spec_parity, spec_sign, ConditionCodes};
use crate::mem::{Memory, MEMORY_SIZE};

verus! {

/// 16-bit addition wrapping modulo 65536, as all address arithmetic does.
pub open spec fn wrap_add16(x: u16, y: u16) -> u16 {
    vstd::wrapping::u16_specs::wrapping_add(x, y)
}

/// 16-bit subtraction wrapping modulo 65536.
pub open spec fn wrap_sub16(x: u16, y: u16) -> u16 {
    vstd::wrapping::u16_specs::wrapping_sub(x, y)
}

/// 8-bit addition wrapping modulo 256.
pub open spec fn wrap_add8(x: u8, y: u8) -> u8 {
    vstd::wrapping::u8_specs::wrapping_add(x, y)
}

/// 8-bit subtraction wrapping modulo 256.
pub open spec fn wrap_sub8(x: u8, y: u8) -> u8 {
    vstd::wrapping::u8_specs::wrapping_sub(x, y)
}

/// The mathematical model of the CPU state: every register, pointer and
/// flag, and the memory as a sequence of 65536 bytes.
#[verifier::ext_equal]
pub ghost struct StateV {
    pub a: u8,
    pub b: u8,
    pub c: u8,
    pub d: u8,
    pub e: u8,
    pub h: u8,
    pub l: u8,
    pub sp: u16,
    pub pc: u16,
    pub mem: Seq<u8>,
    pub cc: ConditionCodes,
    pub int_enable: bool,
}

impl StateV {
    /// Well-formedness: the memory spans the full 16-bit address space.
    pub open spec fn wf(self) -> bool {
        self.mem.len() == MEMORY_SIZE
    }
}

/// The 16-bit value of the BC register pair.
pub open spec fn spec_bc(v: StateV) -> u16 {
    spec_assemble_word(v.b, v.c)
}

/// The 16-bit value of the DE register pair.
pub open spec fn spec_de(v: StateV) -> u16 {
    spec_assemble_word(v.d, v.e)
}

/// The 16-bit value of the HL register pair.
pub open spec fn spec_hl(v: StateV) -> u16 {
    spec_assemble_word(v.h, v.l)
}

/// The state with the BC pair replaced by a 16-bit value, split across
/// its two byte halves.
pub open spec fn spec_set_bc(v: StateV, w: u16) -> StateV {
    StateV { b: spec_high_order_byte(w), c: spec_low_order_byte(w), ..v }
}

/// The state with the DE pair replaced by a 16-bit value.
pub open spec fn spec_set_de(v: StateV, w: u16) -> StateV {
    StateV { d: spec_high_order_byte(w), e: spec_low_order_byte(w), ..v }
}

/// The state with the HL pair replaced by a 16-bit value.
pub open spec fn spec_set_hl(v: StateV, w: u16) -> StateV {
    StateV { h: spec_high_order_byte(w), l: spec_low_order_byte(w), ..v }
}

/// The byte at offset `n` past the program counter: an instruction's
/// immediate or address operand. Address arithmetic wraps modulo 65536.
pub open spec fn spec_arg(v: StateV, n: u16) -> u8 {
    v.mem[wrap_add16(v.pc, n) as int]
}

/// The state with one memory byte replaced.
pub open spec fn spec_mem_set(v: StateV, address: u16, value: u8) -> StateV {
    StateV { mem: v.mem.update(address as int, value), ..v }
}

/// The flags after an instruction that defines Zero and Sign only
/// (the INR/DCR family): Z iff the written byte is 0, S iff its bit 7
/// is set, every other flag untouched.
pub open spec fn spec_zs(cc: ConditionCodes, value: u8) -> ConditionCodes {
    ConditionCodes { z: value == 0, s: spec_sign(value), ..cc }
}

/// The full flag set after an instruction that defines all five flags:
/// Z, S and P derived from the result byte, CY and AC as given.
pub open spec fn spec_flags(r: u8, cy: bool, ac: bool) -> ConditionCodes {
    ConditionCodes { z: r == 0, s: spec_sign(r), p: spec_parity(r), cy, ac }
}

/// The 8-bit sum of the accumulator, an operand and a carry-in,
/// truncated to a byte.
pub open spec fn spec_add_result(a: u8, x: u8, cin: int) -> u8 {
    if a + x + cin > 0xff {
        (a + x + cin - 0x100) as u8
    } else {
        (a + x + cin) as u8
    }
}

/// The carry out of an 8-bit addition.
pub open spec fn spec_add_cy(a: u8, x: u8, cin: int) -> bool {
    a + x + cin > 0xff
}

/// The carry out of the low nibble of an 8-bit addition.
pub open spec fn spec_add_ac(a: u8, x: u8, cin: int) -> bool {
    a % 16 + x % 16 + cin > 0xf
}

/// The 8-bit difference of the accumulator, an operand and a borrow-in,
/// truncated to a byte.
pub open spec fn spec_sub_result(a: u8, x: u8, bin: int) -> u8 {
    if a - x - bin < 0 {
        (a - x - bin + 0x100) as u8
    } else {
        (a - x - bin) as u8
    }
}

/// The borrow out of an 8-bit subtraction.
pub open spec fn spec_sub_cy(a: u8, x: u8, bin: int) -> bool {
    a < x + bin
}

/// The borrow out of the low nibble of an 8-bit subtraction.
pub open spec fn spec_sub_ac(a: u8, x: u8, bin: int) -> bool {
    a % 16 < x % 16 + bin
}

/// The state after ADD: accumulator plus operand, all five flags defined.
pub open spec fn spec_add8(v: StateV, x: u8) -> StateV {
    let r = spec_add_result(v.a, x, 0);
    StateV { a: r, cc: spec_flags(r, spec_add_cy(v.a, x, 0), spec_add_ac(v.a, x, 0)), ..v }
}

/// The state after ADC: as ADD with the carry flag added in.
pub open spec fn spec_adc8(v: StateV, x: u8) -> StateV {
    let cin: int = if v.cc.cy { 1 } else { 0 };
    let r = spec_add_result(v.a, x, cin);
    StateV { a: r, cc: spec_flags(r, spec_add_cy(v.a, x, cin), spec_add_ac(v.a, x, cin)), ..v }
}

/// The state after SUB: accumulator minus operand, carry set on borrow.
pub open spec fn spec_sub8(v: StateV, x: u8) -> StateV {
    let r = spec_sub_result(v.a, x, 0);
    StateV { a: r, cc: spec_flags(r, spec_sub_cy(v.a, x, 0), spec_sub_ac(v.a, x, 0)), ..v }
}

/// The state after SBB: as SUB with the carry flag borrowed in.
pub open spec fn spec_sbb8(v: StateV, x: u8) -> StateV {
    let bin: int = if v.cc.cy { 1 } else { 0 };
    let r = spec_sub_result(v.a, x, bin);
    StateV { a: r, cc: spec_flags(r, spec_sub_cy(v.a, x, bin), spec_sub_ac(v.a, x, bin)), ..v }
}

/// The state after ANA: bitwise and into the accumulator; a logical
/// operation clears both carry flags.
pub open spec fn spec_and8(v: StateV, x: u8) -> StateV {
    let r = v.a & x;
    StateV { a: r, cc: spec_flags(r, false, false), ..v }
}

/// The state after XRA: bitwise exclusive or into the accumulator.
pub open spec fn spec_xor8(v: StateV, x: u8) -> StateV {
    let r = v.a ^ x;
    StateV { a: r, cc: spec_flags(r, false, false), ..v }
}

/// The state after ORA: bitwise or into the accumulator.
pub open spec fn spec_or8(v: StateV, x: u8) -> StateV {
    let r = v.a | x;
    StateV { a: r, cc: spec_flags(r, false, false), ..v }
}

/// The state after CMP: the flags of a subtraction, the accumulator kept.
pub open spec fn spec_cmp8(v: StateV, x: u8) -> StateV {
    let r = spec_sub_result(v.a, x, 0);
    StateV { cc: spec_flags(r, spec_sub_cy(v.a, x, 0), spec_sub_ac(v.a, x, 0)), ..v }
}

/// The state after DAD: HL plus a 16-bit addend, wrapping, with only
/// the carry flag updated (set on overflow past 16 bits).
pub open spec fn spec_add16(v: StateV, addend: u16) -> StateV {
    let sum = spec_hl(v) + addend;
    let r = if sum > 0xffff {
        (sum - 0x10000) as u16
    } else {
        sum as u16
    };
    let with_hl = spec_set_hl(v, r);
    StateV { cc: ConditionCodes { cy: sum > 0xffff, ..v.cc }, ..with_hl }
}

/// The operand an opcode's low three bits select: registers B, C, D, E,
/// H, L, the memory byte addressed by HL, or the accumulator.
pub open spec fn spec_operand(v: StateV, opcode: u8) -> u8 {
    let sel = opcode % 8;
    if sel == 0 {
        v.b
    } else if sel == 1 {
        v.c
    } else if sel == 2 {
        v.d
    } else if sel == 3 {
        v.e
    } else if sel == 4 {
        v.h
    } else if sel == 5 {
        v.l
    } else if sel == 6 {
        v.mem[spec_hl(v) as int]
    } else {
        v.a
    }
}

/// The state after a one-byte push: SP decremented by one, then the byte
/// written at the new SP.
pub open spec fn spec_push8(v: StateV, value: u8) -> StateV {
    let sp = wrap_sub16(v.sp, 1);
    StateV { sp, mem: v.mem.update(sp as int, value), ..v }
}

/// The byte a one-byte pop reads: the byte at SP.
pub open spec fn spec_pop8_value(v: StateV) -> u8 {
    v.mem[v.sp as int]
}

/// The state after a one-byte pop: SP incremented by one.
pub open spec fn spec_pop8(v: StateV) -> StateV {
    StateV { sp: wrap_add16(v.sp, 1), ..v }
}

/// The 16-bit operand encoded little-endian in the two bytes after the
/// opcode: a branch target or a direct address.
pub open spec fn spec_word_arg(v: StateV) -> u16 {
    spec_assemble_word(spec_arg(v, 2), spec_arg(v, 1))
}

/// The state after a conditional jump: PC set to the encoded target when
/// the condition holds, else advanced past the 3-byte instruction.
pub open spec fn spec_jump_if(v: StateV, condition: bool) -> StateV {
    if condition {
        StateV { pc: spec_word_arg(v), ..v }
    } else {
        StateV { pc: wrap_add16(v.pc, 3), ..v }
    }
}

/// The state after a conditional call: when the condition holds, the
/// address of the following instruction is pushed (high byte first) and
/// PC is set to the encoded target; else PC advances past the 3 bytes.
pub open spec fn spec_call_if(v: StateV, condition: bool) -> StateV {
    if condition {
        let ret = wrap_add16(v.pc, 3);
        let pushed = spec_push8(
            spec_push8(v, spec_high_order_byte(ret)),
            spec_low_order_byte(ret),
        );
        StateV { pc: spec_word_arg(pushed), ..pushed }
    } else {
        StateV { pc: wrap_add16(v.pc, 3), ..v }
    }
}

/// The state after a conditional return: when the condition holds, a
/// 16-bit address is popped (low byte first) into PC; else PC advances
/// past the 1-byte instruction.
pub open spec fn spec_ret_if(v: StateV, condition: bool) -> StateV {
    if condition {
        let lo = v.mem[v.sp as int];
        let hi = v.mem[wrap_add16(v.sp, 1) as int];
        StateV { pc: spec_assemble_word(hi, lo), sp: wrap_add16(v.sp, 2), ..v }
    } else {
        StateV { pc: wrap_add16(v.pc, 1), ..v }
    }
}

/// A copy of every register, pointer and flag, handed to the host when
/// an unimplemented opcode faults.
#[derive(Clone, Copy, Debug, PartialEq, Eq, Structural)]
pub struct Snapshot {
    pub a: u8,
    pub b: u8,
    pub c: u8,
    pub d: u8,
    pub e: u8,
    pub h: u8,
    pub l: u8,
    pub sp: u16,
    pub pc: u16,
    pub cc: ConditionCodes,
    pub int_enable: bool,
}

/// The snapshot of a state: its registers, pointers and flags.
pub open spec fn spec_snapshot(v: StateV) -> Snapshot {
    Snapshot {
        a: v.a,
        b: v.b,
        c: v.c,
        d: v.d,
        e: v.e,
        h: v.h,
        l: v.l,
        sp: v.sp,
        pc: v.pc,
        cc: v.cc,
        int_enable: v.int_enable,
    }
}

/// The CPU state: eight 8-bit registers, the 16-bit stack pointer and
/// program counter, the flat 64 KiB memory, the condition codes and the
/// interrupt-enable flag.
pub struct State {
    pub a: u8,
    pub b: u8,
    pub c: u8,
    pub d: u8,
    pub e: u8,
    pub h: u8,
    pub l: u8,
    pub sp: u16,
    pub pc: u16,
    pub memory: Memory,
    pub cc: ConditionCodes,
    pub int_enable: bool,
}

impl View for State {
    type V = StateV;

    open spec fn view(&self) -> StateV {
        StateV {
            a: self.a,
            b: self.b,
            c: self.c,
            d: self.d,
            e: self.e,
            h: self.h,
            l: self.l,
            sp: self.sp,
            pc: self.pc,
            mem: self.memory@,
            cc: self.cc,
            int_enable: self.int_enable,
        }
    }
}

impl State {
    /// Well-formedness: the memory spans the full 16-bit address space.
    pub open spec fn wf(&self) -> bool {
        self@.wf()
    }

    /// A fresh state: all registers and flags zeroed, PC and SP at zero,
    /// memory zeroed. The host loads a program image and sets PC before
    /// stepping.
    pub fn new() -> (r: State)
        ensures
            r.wf(),
            r@ == (StateV {
                a: 0,
                b: 0,
                c: 0,
                d: 0,
                e: 0,
                h: 0,
                l: 0,
                sp: 0,
                pc: 0,
                mem: Seq::new(MEMORY_SIZE as nat, |i: int| 0u8),
                cc: ConditionCodes { z: false, s: false, p: false, cy: false, ac: false },
                int_enable: false,
            }),
    {
        State {
            a: 0,
            b: 0,
            c: 0,
            d: 0,
            e: 0,
            h: 0,
            l: 0,
            sp: 0,
            pc: 0,
            memory: Memory::new(),
            cc: ConditionCodes::new(),
            int_enable: false,
        }
    }

    /// A copy of the registers, pointers and flags.
    pub fn snapshot(&self) -> (r: Snapshot)
        ensures
            r == spec_snapshot(self@),
    {
        Snapshot {
            a: self.a,
            b: self.b,
            c: self.c,
            d: self.d,
            e: self.e,
            h: self.h,
            l: self.l,
            sp: self.sp,
            pc: self.pc,
            cc: self.cc,
            int_enable: self.int_enable,
        }
    }

    /// Reads the opcode byte at PC without advancing PC.
    pub fn get_opcode(&self) -> (r: u8)
        requires
            self.wf(),
        ensures
            r == self@.mem[self@.pc as int],
    {
        self.memory.get(self.pc)
    }

    /// Reads the byte at PC plus `n`: an immediate or address operand.
    pub fn get_arg(&self, n: u16) -> (r: u8)
        requires
            self.wf(),
        ensures
            r == spec_arg(self@, n),
    {
        self.memory.get(self.pc.wrapping_add(n))
    }

    /// The address held by the HL register pair.
    pub fn get_hl_address(&self) -> (r: u16)
        ensures
            r == spec_hl(self@),
    {
        assemble_word(self.h, self.l)
    }

    /// Reads the memory byte addressed by HL: the uniform memory operand.
    pub fn get_m(&self) -> (r: u8)
        requires
            self.wf(),
        ensures
            r == self@.mem[spec_hl(self@) as int],
    {
        let address = self.get_hl_address();
        self.memory.get(address)
    }

    /// Writes the memory byte addressed by HL.
    pub fn set_m(&mut self, value: u8)
        requires
            old(self).wf(),
        ensures
            final(self).wf(),
            final(self)@ == spec_mem_set(old(self)@, spec_hl(old(self)@), value),
    {
        let address = self.get_hl_address();
        self.memory.set(address, value);
    }

    /// Decodes the low three bits of an opcode into its operand: B, C, D,
    /// E, H, L, the memory byte addressed by HL, or the accumulator.
    pub fn get_operand(&self, opcode: u8) -> (r: u8)
        requires
            self.wf(),
        ensures
            r == spec_operand(self@, opcode),
    {
        match opcode % 8 {
            0 => self.b,
            1 => self.c,
            2 => self.d,
            3 => self.e,
            4 => self.h,
            5 => self.l,
            6 => self.get_m(),
            _ => self.a,
        }
    }

    /// Pushes one byte: SP decreases by one, then the byte is written at
    /// the new SP.
    pub fn push8(&mut self, value: u8)
        requires
            old(self).wf(),
        ensures
            final(self).wf(),
            final(self)@ == spec_push8(old(self)@, value),
            final(self).sp == wrap_sub16(old(self).sp, 1),
    {
        self.sp = self.sp.wrapping_sub(1);
        self.memory.set(self.sp, value);
    }

    /// Pops one byte: the byte at SP is read, then SP increases by one.
    pub fn pop8(&mut self) -> (r: u8)
        requires
            old(self).wf(),
        ensures
            final(self).wf(),
            r == spec_pop8_value(old(self)@),
            final(self)@ == spec_pop8(old(self)@),
            final(self).sp == wrap_add16(old(self).sp, 1),
    {
        let r = self.memory.get(self.sp);
        self.sp = self.sp.wrapping_add(1);
        r
    }

    /// Conditional jump: sets PC to the address encoded little-endian in
    /// the two bytes after the opcode when the condition holds, else
    /// advances PC past the 3-byte instruction.
    pub fn jump_if(&mut self, condition: bool)
        requires
            old(self).wf(),
        ensures
            final(self).wf(),
            final(self)@ == spec_jump_if(old(self)@, condition),
    {
        if condition {
            let target = assemble_word(self.get_arg(2), self.get_arg(1));
            self.pc = target;
        } else {
            self.pc = self.pc.wrapping_add(3);
        }
    }

    /// Conditional call: when the condition holds, pushes the address of
    /// the following instruction (high byte first) and jumps to the
    /// encoded target; else advances PC past the 3-byte instruction.
    pub fn call_if(&mut self, condition: bool)
        requires
            old(self).wf(),
        ensures
            final(self).wf(),
            final(self)@ == spec_call_if(old(self)@, condition),
    {
        if condition {
            let ret = self.pc.wrapping_add(3);
            self.push8(high_order_byte(ret));
            self.push8(low_order_byte(ret));
            let target = assemble_word(self.get_arg(2), self.get_arg(1));
            self.pc = target;
        } else {
            self.pc = self.pc.wrapping_add(3);
        }
    }

    /// Conditional return: when the condition holds, pops a 16-bit
    /// address (low byte first) into PC; else advances PC past the
    /// 1-byte instruction.
    pub fn ret_if(&mut self, condition: bool)
        requires
            old(self).wf(),
        ensures
            final(self).wf(),
            final(self)@ == spec_ret_if(old(self)@, condition),
    {
        if condition {
            let lo = self.pop8();
            let hi = self.pop8();
            self.pc = assemble_word(hi, lo);
        } else {
            self.pc = self.pc.wrapping_add(1);
        }
    }

    /// Writes a result byte and full flag set: Z, S and P derived from
    /// the byte, CY and AC as the operation computed them.
    fn set_flags(&mut self, r: u8, cy: bool, ac: bool)
        ensures
            *final(self) == (State { cc: spec_flags(r, cy, ac), ..*old(self) }),
    {
        self.cc.set_z(r);
        self.cc.set_s(r);
        self.cc.set_p(r);
        self.cc.cy = cy;
        self.cc.ac = ac;
    }

    /// ADD: adds an operand into the accumulator, defining all five flags.
    pub fn add8(&mut self, x: u8)
        ensures
            final(self)@ == spec_add8(old(self)@, x),
    {
        let sum: u16 = self.a as u16 + x as u16;
        let r: u8 = if sum > 0xff {
            (sum - 0x100) as u8
        } else {
            sum as u8
        };
        let cy = sum > 0xff;
        let ac = self.a % 16 + x % 16 > 0xf;
        self.a = r;
        self.set_flags(r, cy, ac);
    }

    /// ADC: adds an operand and the carry flag into the accumulator.
    pub fn adc8(&mut self, x: u8)
        ensures
            final(self)@ == spec_adc8(old(self)@, x),
    {
        let cin: u16 = if self.cc.cy {
            1
        } else {
            0
        };
        let sum: u16 = self.a as u16 + x as u16 + cin;
        let r: u8 = if sum > 0xff {
            (sum - 0x100) as u8
        } else {
            sum as u8
        };
        let cy = sum > 0xff;
        let ac = self.a as u16 % 16 + x as u16 % 16 + cin > 0xf;
        self.a = r;
        self.set_flags(r, cy, ac);
    }

    /// SUB: subtracts an operand from the accumulator; carry means borrow.
    pub fn sub8(&mut self, x: u8)
        ensures
            final(self)@ == spec_sub8(old(self)@, x),
    {
        let diff: i32 = self.a as i32 - x as i32;
        let r: u8 = if diff < 0 {
            (diff + 0x100) as u8
        } else {
            diff as u8
        };
        let cy = self.a < x;
        let ac = self.a % 16 < x % 16;
        self.a = r;
        self.set_flags(r, cy, ac);
    }

    /// SBB: subtracts an operand and the carry flag from the accumulator.
    pub fn sbb8(&mut self, x: u8)
        ensures
            final(self)@ == spec_sbb8(old(self)@, x),
    {
        let bin: i32 = if self.cc.cy {
            1
        } else {
            0
        };
        let diff: i32 = self.a as i32 - x as i32 - bin;
        let r: u8 = if diff < 0 {
            (diff + 0x100) as u8
        } else {
            diff as u8
        };
        let cy = (self.a as i32) < (x as i32) + bin;
        let ac = ((self.a % 16) as i32) < ((x % 16) as i32) + bin;
        self.a = r;
        self.set_flags(r, cy, ac);
    }

    /// ANA: bitwise and into the accumulator; clears both carry flags.
    pub fn and8(&mut self, x: u8)
        ensures
            final(self)@ == spec_and8(old(self)@, x),
    {
        let r = self.a & x;
        self.a = r;
        self.set_flags(r, false, false);
    }

    /// XRA: bitwise exclusive or into the accumulator.
    pub fn xor8(&mut self, x: u8)
        ensures
            final(self)@ == spec_xor8(old(self)@, x),
    {
        let r = self.a ^ x;
        self.a = r;
        self.set_flags(r, false, false);
    }

    /// ORA: bitwise or into the accumulator.
    pub fn or8(&mut self, x: u8)
        ensures
            final(self)@ == spec_or8(old(self)@, x),
    {
        let r = self.a | x;
        self.a = r;
        self.set_flags(r, false, false);
    }

    /// CMP: the flags of a subtraction; the accumulator is unchanged.
    pub fn cmp8(&mut self, x: u8)
        ensures
            final(self)@ == spec_cmp8(old(self)@, x),
    {
        let diff: i32 = self.a as i32 - x as i32;
        let r: u8 = if diff < 0 {
            (diff + 0x100) as u8
        } else {
            diff as u8
        };
        let cy = self.a < x;
        let ac = self.a % 16 < x % 16;
        self.set_flags(r, cy, ac);
    }

    /// DAD: adds a 16-bit addend into HL, wrapping modulo 65536; only the
    /// carry flag is updated, set when the sum overflows 16 bits.
    pub fn add16(&mut self, addend: u16)
        ensures
            final(self)@ == spec_add16(old(self)@, addend),
    {
        let sum: u32 = assemble_word(self.h, self.l) as u32 + addend as u32;
        let cy = sum > 0xffff;
        let r: u16 = if sum > 0xffff {
            (sum - 0x10000) as u16
        } else {
            sum as u16
        };
        self.h = high_order_byte(r);
        self.l = low_order_byte(r);
        self.cc.cy = cy;
    }
}

/// Law: after a Zero/Sign update from a written byte `v`, Z holds iff
/// `v == 0` and S holds iff bit 7 of `v` is set; the other flags keep
/// their previous values.
pub proof fn lemma_zs_flags(cc: ConditionCodes, v: u8)
    ensures
        spec_zs(cc, v).z <==> v == 0,
        spec_zs(cc, v).s <==> v >= 0x80,
        spec_zs(cc, v).p == cc.p && spec_zs(cc, v).cy == cc.cy && spec_zs(cc, v).ac == cc.ac,
{
}

/// Law: a pop immediately after a push returns the pushed byte and
/// restores SP exactly; each push decreases SP by one and each pop
/// increases it by one (wrapping modulo 65536).
pub proof fn lemma_stack_round_trip(v: StateV, value: u8)
    requires
        v.wf(),
    ensures
        spec_pop8_value(spec_push8(v, value)) == value,
        spec_pop8(spec_push8(v, value)).sp == v.sp,
        spec_push8(v, value).sp == wrap_sub16(v.sp, 1),
        spec_pop8(v).sp == wrap_add16(v.sp, 1),
{
}

} // verus!
