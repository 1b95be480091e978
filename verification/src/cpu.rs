//! The executable machine: the register file, the status register, the flat
//! 64 KiB memory, and the fetch-decode-execute interpreter, each operation
//! proved equal to its transition in `model`.

use vstd::prelude::*;

use crate::flags::{
    with_flag, with_zero_negative, Status, BREAK, BREAK2, CARRY, DECIMAL_MODE, INTERRUPT_DISABLE,
    NEGATIVE, OVERFLOW, STATUS_RESET, ZERO,
};
use crate::model::{
    add_to_a, exec_instr, hi_byte, lo_byte, machine_new, operand_address, pop16_state,
    pop16_value, pop8_state, pop8_value, push16, push8, read16, read8, run_n, spec_adc, spec_and,
    spec_asl, spec_asl_acc, spec_bit, spec_branch, spec_compare, spec_dec, spec_dex, spec_dey,
    spec_eor, spec_inc, spec_inx, spec_iny, spec_lda, spec_ldx, spec_ldy, spec_load, spec_lsr,
    spec_lsr_acc, spec_ora, spec_php, spec_pla, spec_plp, spec_reset, spec_rol, spec_rol_acc,
    spec_ror, spec_ror_acc, spec_sbc, spec_sta, spec_step, spec_stx, spec_sty, spec_tax, spec_tay,
    spec_tsx, spec_txa, spec_txs, spec_tya, word, wrap_add16, wrap_add8, wrap_sub8, write16,
    write8, Machine, StepOutcome, RESET_VECTOR, STACK_BASE, STACK_RESET,
};
use crate::opcodes::{opcode_entry, takes_operand, AddressingMode, Mnemonic};

verus! {

/// Base address at which `load` places a program image.
pub const LOAD_BASE: u16 = 0x8000;

/// Why `run` stopped.
#[derive(Clone, Copy, PartialEq, Eq, Structural, Debug)]
pub enum EmuError {
    /// The fetched opcode byte has no dispatch-table entry: a malformed
    /// program or a caller bug. `opcode` is the offending byte, `at` the
    /// address it was fetched from.
    UnrecognizedOpcode { opcode: u8, at: u16 },
    /// The step budget was exhausted before the program halted.
    StepLimit,
}

/// The byte-level memory interface the core consumes. All 16-bit addresses
/// are valid; out-of-range is impossible by construction. Word accesses are
/// little-endian and the second byte's address wraps at the top of the
/// address space, so a word read at 0xffff takes its high byte from 0x0000.
pub trait Mem {
    /// The byte store, indexed by address.
    spec fn mem(&self) -> Seq<u8>;

    /// Read the byte at `addr`.
    fn mem_read(&self, addr: u16) -> (r: u8)
        requires
            self.mem().len() == 0x10000,
        ensures
            r == self.mem()[addr as int],
    ;

    /// Write one byte at `addr`.
    fn mem_write(&mut self, addr: u16, data: u8)
        requires
            old(self).mem().len() == 0x10000,
        ensures
            final(self).mem() == old(self).mem().update(addr as int, data),
    ;

    /// Read the little-endian word at `pos`.
    fn mem_read_u16(&self, pos: u16) -> (r: u16)
        requires
            self.mem().len() == 0x10000,
        ensures
            r == word(self.mem()[pos as int], self.mem()[wrap_add16(pos, 1) as int]),
    ;

    /// Write the little-endian word `data` at `pos`.
    fn mem_write_u16(&mut self, pos: u16, data: u16)
        requires
            old(self).mem().len() == 0x10000,
        ensures
            final(self).mem() == old(self).mem().update(pos as int, lo_byte(data)).update(
                wrap_add16(pos, 1) as int,
                hi_byte(data),
            ),
    ;
}

/// The instruction-execution core: registers, status, and memory. Every
/// combination of field values is a valid machine, so the fields are open;
/// the view below ties each of them to the abstract `Machine` the
/// contracts speak of.
pub struct CPU {
    pub register_a: u8,
    pub register_x: u8,
    pub register_y: u8,
    pub status: Status,
    pub stack_pointer: u8,
    pub program_counter: u16,
    pub memory: [u8; 0x10000],
}

impl View for CPU {
    type V = Machine;

    open spec fn view(&self) -> Machine {
        Machine {
            a: self.register_a,
            x: self.register_x,
            y: self.register_y,
            sp: self.stack_pointer,
            pc: self.program_counter,
            status: self.status.bits,
            mem: self.memory@,
        }
    }
}

/// 8-bit addition with wraparound.
pub fn wadd8(a: u8, b: u8) -> (r: u8)
    ensures
        r == wrap_add8(a, b),
{
    (((a as u16) + (b as u16)) % 256) as u8
}

/// 8-bit subtraction with wraparound.
pub fn wsub8(a: u8, b: u8) -> (r: u8)
    ensures
        r == wrap_sub8(a, b),
{
    (((a as u16) + 256 - (b as u16)) % 256) as u8
}

/// 16-bit addition with wraparound.
pub fn wadd16(a: u16, b: u16) -> (r: u16)
    ensures
        r == wrap_add16(a, b),
{
    (((a as u32) + (b as u32)) % 0x10000) as u16
}

impl Mem for CPU {
    open spec fn mem(&self) -> Seq<u8> {
        self@.mem
    }

    fn mem_read(&self, addr: u16) -> (r: u8) {
        self.read_byte(addr)
    }

    fn mem_write(&mut self, addr: u16, data: u8)
        ensures
            final(self)@ == write8(old(self)@, addr, data),
    {
        self.write_byte(addr, data);
    }

    fn mem_read_u16(&self, pos: u16) -> (r: u16) {
        self.read_word(pos)
    }

    fn mem_write_u16(&mut self, pos: u16, data: u16)
        ensures
            final(self)@ == write16(old(self)@, pos, data),
    {
        self.write_word(pos, data);
    }
}

impl CPU {
    /// The byte in memory at `addr`.
    fn read_byte(&self, addr: u16) -> (r: u8)
        ensures
            r == read8(self@, addr),
    {
        self.memory[addr as usize]
    }

    /// Replace the byte in memory at `addr`.
    fn write_byte(&mut self, addr: u16, v: u8)
        ensures
            final(self)@ == write8(old(self)@, addr, v),
    {
        self.memory[addr as usize] = v;
        assert(self@ =~= write8(old(self)@, addr, v));
    }

    /// The little-endian word at `pos`; the high-byte address wraps at
    /// 0xffff.
    fn read_word(&self, pos: u16) -> (r: u16)
        ensures
            r == read16(self@, pos),
    {
        let lo = self.read_byte(pos);
        let hi = self.read_byte(wadd16(pos, 1));
        (hi as u16) * 256 + (lo as u16)
    }

    /// Write the little-endian word `w` at `pos`, wrapping the high-byte
    /// address at 0xffff.
    fn write_word(&mut self, pos: u16, w: u16)
        ensures
            final(self)@ == write16(old(self)@, pos, w),
    {
        let lo = (w % 256) as u8;
        let hi = (w / 256) as u8;
        self.write_byte(pos, lo);
        self.write_byte(wadd16(pos, 1), hi);
        assert(self@ =~= write16(old(self)@, pos, w));
    }

    /// Push one byte: write at the stack slot, then decrement the pointer,
    /// wrapping within the stack page.
    pub fn stack_push(&mut self, data: u8)
        ensures
            final(self)@ == push8(old(self)@, data),
    {
        self.write_byte(STACK_BASE + self.stack_pointer as u16, data);
        self.stack_pointer = wsub8(self.stack_pointer, 1);
        assert(self@ =~= push8(old(self)@, data));
    }

    /// Pop one byte: increment the pointer, then read the stack slot.
    pub fn stack_pop(&mut self) -> (r: u8)
        ensures
            final(self)@ == pop8_state(old(self)@),
            r == pop8_value(old(self)@),
    {
        self.stack_pointer = wadd8(self.stack_pointer, 1);
        let r = self.read_byte(STACK_BASE + self.stack_pointer as u16);
        assert(self@ =~= pop8_state(old(self)@));
        r
    }

    /// Push a word, high byte first.
    pub fn stack_push_u16(&mut self, data: u16)
        ensures
            final(self)@ == push16(old(self)@, data),
    {
        let hi = (data / 256) as u8;
        let lo = (data % 256) as u8;
        self.stack_push(hi);
        self.stack_push(lo);
    }

    /// Pop a word, low byte first.
    pub fn stack_pop_u16(&mut self) -> (r: u16)
        ensures
            final(self)@ == pop16_state(old(self)@),
            r == pop16_value(old(self)@),
    {
        let lo = self.stack_pop();
        let hi = self.stack_pop();
        (hi as u16) * 256 + (lo as u16)
    }

    /// Force the carry flag on.
    pub fn set_carry_flag(&mut self)
        ensures
            final(self)@ == (Machine {
                status: with_flag(old(self)@.status, CARRY, true),
                ..old(self)@
            }),
    {
        self.status.insert(CARRY);
        assert(self@ =~= (Machine { status: with_flag(old(self)@.status, CARRY, true), ..old(self)@ }));
    }

    /// Force the carry flag off.
    pub fn clear_carry_flag(&mut self)
        ensures
            final(self)@ == (Machine {
                status: with_flag(old(self)@.status, CARRY, false),
                ..old(self)@
            }),
    {
        self.status.remove(CARRY);
        assert(self@ =~= (Machine { status: with_flag(old(self)@.status, CARRY, false), ..old(self)@ }));
    }

    /// Recompute the zero and negative flags from `result`; every
    /// data-producing instruction routes through this one operation.
    pub fn update_zero_and_negative_flags(&mut self, result: u8)
        ensures
            final(self)@ == (Machine {
                status: with_zero_negative(old(self)@.status, result),
                ..old(self)@
            }),
    {
        self.status.update_zero_and_negative(result);
        assert(self@ =~= (Machine {
            status: with_zero_negative(old(self)@.status, result),
            ..old(self)@
        }));
    }

    /// The effective operand address for `mode`, with the instruction
    /// pointer at the first operand byte. The `NoneAddressing` modes never
    /// resolve an address and must not be asked for one.
    pub fn get_operand_address(&self, mode: AddressingMode) -> (addr: u16)
        requires
            mode != AddressingMode::NoneAddressing,
        ensures
            addr == operand_address(self@, mode),
    {
        match mode {
            AddressingMode::Immediate => self.program_counter,
            AddressingMode::ZeroPage => self.read_byte(self.program_counter) as u16,
            AddressingMode::ZeroPageX => {
                let pos = self.read_byte(self.program_counter);
                wadd8(pos, self.register_x) as u16
            },
            AddressingMode::ZeroPageY => {
                let pos = self.read_byte(self.program_counter);
                wadd8(pos, self.register_y) as u16
            },
            AddressingMode::Absolute => self.read_word(self.program_counter),
            AddressingMode::AbsoluteX => {
                let base = self.read_word(self.program_counter);
                wadd16(base, self.register_x as u16)
            },
            AddressingMode::AbsoluteY => {
                let base = self.read_word(self.program_counter);
                wadd16(base, self.register_y as u16)
            },
            AddressingMode::IndirectX => {
                let base = self.read_byte(self.program_counter);
                let ptr = wadd8(base, self.register_x);
                let lo = self.read_byte(ptr as u16);
                let hi = self.read_byte(wadd8(ptr, 1) as u16);
                (hi as u16) * 256 + (lo as u16)
            },
            AddressingMode::IndirectY => {
                let base = self.read_byte(self.program_counter);
                let lo = self.read_byte(base as u16);
                let hi = self.read_byte(wadd8(base, 1) as u16);
                wadd16((hi as u16) * 256 + (lo as u16), self.register_y as u16)
            },
            AddressingMode::NoneAddressing => 0,
        }
    }

    /// Set the accumulator and recompute zero and negative.
    fn set_register_a(&mut self, value: u8)
        ensures
            final(self)@ == crate::model::with_a(old(self)@, value),
    {
        self.register_a = value;
        self.update_zero_and_negative_flags(self.register_a);
        assert(self@ =~= crate::model::with_a(old(self)@, value));
    }

    /// Set the X register and recompute zero and negative.
    fn set_register_x(&mut self, value: u8)
        ensures
            final(self)@ == crate::model::with_x(old(self)@, value),
    {
        self.register_x = value;
        self.update_zero_and_negative_flags(self.register_x);
        assert(self@ =~= crate::model::with_x(old(self)@, value));
    }

    /// Set the Y register and recompute zero and negative.
    fn set_register_y(&mut self, value: u8)
        ensures
            final(self)@ == crate::model::with_y(old(self)@, value),
    {
        self.register_y = value;
        self.update_zero_and_negative_flags(self.register_y);
        assert(self@ =~= crate::model::with_y(old(self)@, value));
    }

    /// Add `value` and the carry flag into the accumulator, in a 16-bit
    /// intermediate so the carry-out is visible; overflow comes from the
    /// same-sign-operands / different-sign-result bit test.
    fn add_to_register_a(&mut self, value: u8)
        ensures
            final(self)@ == add_to_a(old(self)@, value),
    {
        let carry: u16 = if self.status.contains(CARRY) {
            1
        } else {
            0
        };
        let sum: u16 = self.register_a as u16 + value as u16 + carry;
        let result = (sum % 256) as u8;
        self.status.set(CARRY, sum > 0xff);
        self.status.set(OVERFLOW, (value ^ result) & (result ^ self.register_a) & 0x80 != 0);
        self.set_register_a(result);
        assert(self@ =~= add_to_a(old(self)@, value));
    }

    fn adc(&mut self, mode: AddressingMode)
        requires
            mode != AddressingMode::NoneAddressing,
        ensures
            final(self)@ == spec_adc(old(self)@, mode),
    {
        let addr = self.get_operand_address(mode);
        let value = self.read_byte(addr);
        self.add_to_register_a(value);
    }

    /// Subtract-with-carry is add-with-carry of the bitwise inverse of the
    /// operand (its two's complement minus one); carry means "no borrow".
    fn sbc(&mut self, mode: AddressingMode)
        requires
            mode != AddressingMode::NoneAddressing,
        ensures
            final(self)@ == spec_sbc(old(self)@, mode),
    {
        let addr = self.get_operand_address(mode);
        let value = self.read_byte(addr);
        self.add_to_register_a(255 - value);
    }

    fn and(&mut self, mode: AddressingMode)
        requires
            mode != AddressingMode::NoneAddressing,
        ensures
            final(self)@ == spec_and(old(self)@, mode),
    {
        let addr = self.get_operand_address(mode);
        let value = self.read_byte(addr);
        self.set_register_a(value & self.register_a);
    }

    fn eor(&mut self, mode: AddressingMode)
        requires
            mode != AddressingMode::NoneAddressing,
        ensures
            final(self)@ == spec_eor(old(self)@, mode),
    {
        let addr = self.get_operand_address(mode);
        let value = self.read_byte(addr);
        self.set_register_a(value ^ self.register_a);
    }

    fn ora(&mut self, mode: AddressingMode)
        requires
            mode != AddressingMode::NoneAddressing,
        ensures
            final(self)@ == spec_ora(old(self)@, mode),
    {
        let addr = self.get_operand_address(mode);
        let value = self.read_byte(addr);
        self.set_register_a(self.register_a | value);
    }

    fn lda(&mut self, mode: AddressingMode)
        requires
            mode != AddressingMode::NoneAddressing,
        ensures
            final(self)@ == spec_lda(old(self)@, mode),
    {
        let addr = self.get_operand_address(mode);
        let value = self.read_byte(addr);
        self.set_register_a(value);
    }

    fn ldx(&mut self, mode: AddressingMode)
        requires
            mode != AddressingMode::NoneAddressing,
        ensures
            final(self)@ == spec_ldx(old(self)@, mode),
    {
        let addr = self.get_operand_address(mode);
        let value = self.read_byte(addr);
        self.set_register_x(value);
    }

    fn ldy(&mut self, mode: AddressingMode)
        requires
            mode != AddressingMode::NoneAddressing,
        ensures
            final(self)@ == spec_ldy(old(self)@, mode),
    {
        let addr = self.get_operand_address(mode);
        let value = self.read_byte(addr);
        self.set_register_y(value);
    }

    fn sta(&mut self, mode: AddressingMode)
        requires
            mode != AddressingMode::NoneAddressing,
        ensures
            final(self)@ == spec_sta(old(self)@, mode),
    {
        let addr = self.get_operand_address(mode);
        self.write_byte(addr, self.register_a);
    }

    fn stx(&mut self, mode: AddressingMode)
        requires
            mode != AddressingMode::NoneAddressing,
        ensures
            final(self)@ == spec_stx(old(self)@, mode),
    {
        let addr = self.get_operand_address(mode);
        self.write_byte(addr, self.register_x);
    }

    fn sty(&mut self, mode: AddressingMode)
        requires
            mode != AddressingMode::NoneAddressing,
        ensures
            final(self)@ == spec_sty(old(self)@, mode),
    {
        let addr = self.get_operand_address(mode);
        self.write_byte(addr, self.register_y);
    }

    /// Shift the accumulator left; carry takes the bit shifted off the top,
    /// sampled before the shift.
    fn asl_accumulator(&mut self)
        ensures
            final(self)@ == spec_asl_acc(old(self)@),
    {
        let value = self.register_a;
        if value >> 7 == 1 {
            self.set_carry_flag();
        } else {
            self.clear_carry_flag();
        }
        self.set_register_a(value << 1);
        assert(self@ =~= spec_asl_acc(old(self)@));
    }

    /// Shift a memory byte left; returns the new value.
    fn asl(&mut self, mode: AddressingMode) -> (r: u8)
        requires
            mode != AddressingMode::NoneAddressing,
        ensures
            final(self)@ == spec_asl(old(self)@, mode),
            r == read8(old(self)@, operand_address(old(self)@, mode)) << 1,
    {
        let addr = self.get_operand_address(mode);
        let value = self.read_byte(addr);
        if value >> 7 == 1 {
            self.set_carry_flag();
        } else {
            self.clear_carry_flag();
        }
        let result = value << 1;
        self.write_byte(addr, result);
        self.update_zero_and_negative_flags(result);
        assert(self@ =~= spec_asl(old(self)@, mode));
        result
    }

    /// Shift the accumulator right; carry takes the bit shifted off the
    /// bottom.
    fn lsr_accumulator(&mut self)
        ensures
            final(self)@ == spec_lsr_acc(old(self)@),
    {
        let value = self.register_a;
        if value & 1 == 1 {
            self.set_carry_flag();
        } else {
            self.clear_carry_flag();
        }
        self.set_register_a(value >> 1);
        assert(self@ =~= spec_lsr_acc(old(self)@));
    }

    /// Shift a memory byte right; returns the new value.
    fn lsr(&mut self, mode: AddressingMode) -> (r: u8)
        requires
            mode != AddressingMode::NoneAddressing,
        ensures
            final(self)@ == spec_lsr(old(self)@, mode),
            r == read8(old(self)@, operand_address(old(self)@, mode)) >> 1,
    {
        let addr = self.get_operand_address(mode);
        let value = self.read_byte(addr);
        if value & 1 == 1 {
            self.set_carry_flag();
        } else {
            self.clear_carry_flag();
        }
        let result = value >> 1;
        self.write_byte(addr, result);
        self.update_zero_and_negative_flags(result);
        assert(self@ =~= spec_lsr(old(self)@, mode));
        result
    }

    /// Rotate the accumulator left: the previous carry enters bit 0.
    fn rol_accumulator(&mut self)
        ensures
            final(self)@ == spec_rol_acc(old(self)@),
    {
        let value = self.register_a;
        let old_carry = self.status.contains(CARRY);
        if value >> 7 == 1 {
            self.set_carry_flag();
        } else {
            self.clear_carry_flag();
        }
        let result = if old_carry {
            (value << 1) | 1
        } else {
            value << 1
        };
        self.set_register_a(result);
        assert(self@ =~= spec_rol_acc(old(self)@));
    }

    /// Rotate a memory byte left; returns the new value.
    fn rol(&mut self, mode: AddressingMode) -> (r: u8)
        requires
            mode != AddressingMode::NoneAddressing,
        ensures
            final(self)@ == spec_rol(old(self)@, mode),
            r == crate::model::rol_result(
                read8(old(self)@, operand_address(old(self)@, mode)),
                crate::flags::flag_set(old(self)@.status, CARRY),
            ),
    {
        let addr = self.get_operand_address(mode);
        let value = self.read_byte(addr);
        let old_carry = self.status.contains(CARRY);
        if value >> 7 == 1 {
            self.set_carry_flag();
        } else {
            self.clear_carry_flag();
        }
        let result = if old_carry {
            (value << 1) | 1
        } else {
            value << 1
        };
        self.write_byte(addr, result);
        self.update_zero_and_negative_flags(result);
        assert(self@ =~= spec_rol(old(self)@, mode));
        result
    }

    /// Rotate the accumulator right: the previous carry enters bit 7.
    fn ror_accumulator(&mut self)
        ensures
            final(self)@ == spec_ror_acc(old(self)@),
    {
        let value = self.register_a;
        let old_carry = self.status.contains(CARRY);
        if value & 1 == 1 {
            self.set_carry_flag();
        } else {
            self.clear_carry_flag();
        }
        let result = if old_carry {
            (value >> 1) | 0x80
        } else {
            value >> 1
        };
        self.set_register_a(result);
        assert(self@ =~= spec_ror_acc(old(self)@));
    }

    /// Rotate a memory byte right; returns the new value.
    fn ror(&mut self, mode: AddressingMode) -> (r: u8)
        requires
            mode != AddressingMode::NoneAddressing,
        ensures
            final(self)@ == spec_ror(old(self)@, mode),
            r == crate::model::ror_result(
                read8(old(self)@, operand_address(old(self)@, mode)),
                crate::flags::flag_set(old(self)@.status, CARRY),
            ),
    {
        let addr = self.get_operand_address(mode);
        let value = self.read_byte(addr);
        let old_carry = self.status.contains(CARRY);
        if value & 1 == 1 {
            self.set_carry_flag();
        } else {
            self.clear_carry_flag();
        }
        let result = if old_carry {
            (value >> 1) | 0x80
        } else {
            value >> 1
        };
        self.write_byte(addr, result);
        self.update_zero_and_negative_flags(result);
        assert(self@ =~= spec_ror(old(self)@, mode));
        result
    }

    /// A taken branch consumes the displacement byte after the opcode and
    /// adds it, signed, to the instruction pointer, wrapping at 16 bits.
    fn branch(&mut self, condition: bool)
        ensures
            final(self)@ == spec_branch(old(self)@, condition),
    {
        if condition {
            let d = self.read_byte(self.program_counter);
            let offset: u16 = if d < 0x80 {
                d as u16
            } else {
                0xff00 + d as u16
            };
            self.program_counter = wadd16(wadd16(self.program_counter, 1), offset);
            assert(self@ =~= spec_branch(old(self)@, condition));
        }
    }

    /// Bit test: zero from the masked accumulator, negative and overflow
    /// copied from bits 7 and 6 of the operand.
    fn bit(&mut self, mode: AddressingMode)
        requires
            mode != AddressingMode::NoneAddressing,
        ensures
            final(self)@ == spec_bit(old(self)@, mode),
    {
        let addr = self.get_operand_address(mode);
        let value = self.read_byte(addr);
        let masked = self.register_a & value;
        self.status.set(ZERO, masked == 0);
        self.status.set(NEGATIVE, value & 0x80 != 0);
        self.status.set(OVERFLOW, value & 0x40 != 0);
        assert(self@ =~= spec_bit(old(self)@, mode));
    }

    /// Compare a register against memory: carry means no borrow; zero and
    /// negative come from the wrapped difference, which is not stored.
    fn compare(&mut self, mode: AddressingMode, compare_with: u8)
        requires
            mode != AddressingMode::NoneAddressing,
        ensures
            final(self)@ == spec_compare(old(self)@, mode, compare_with),
    {
        let addr = self.get_operand_address(mode);
        let value = self.read_byte(addr);
        self.status.set(CARRY, value <= compare_with);
        self.update_zero_and_negative_flags(wsub8(compare_with, value));
        assert(self@ =~= spec_compare(old(self)@, mode, compare_with));
    }

    /// Decrement a memory byte with wraparound; no carry involvement.
    fn dec(&mut self, mode: AddressingMode)
        requires
            mode != AddressingMode::NoneAddressing,
        ensures
            final(self)@ == spec_dec(old(self)@, mode),
    {
        let addr = self.get_operand_address(mode);
        let value = self.read_byte(addr);
        let result = wsub8(value, 1);
        self.write_byte(addr, result);
        self.update_zero_and_negative_flags(result);
        assert(self@ =~= spec_dec(old(self)@, mode));
    }

    /// Increment a memory byte with wraparound; no carry involvement.
    fn inc(&mut self, mode: AddressingMode)
        requires
            mode != AddressingMode::NoneAddressing,
        ensures
            final(self)@ == spec_inc(old(self)@, mode),
    {
        let addr = self.get_operand_address(mode);
        let value = self.read_byte(addr);
        let result = wadd8(value, 1);
        self.write_byte(addr, result);
        self.update_zero_and_negative_flags(result);
        assert(self@ =~= spec_inc(old(self)@, mode));
    }

    fn dex(&mut self)
        ensures
            final(self)@ == spec_dex(old(self)@),
    {
        let value = wsub8(self.register_x, 1);
        self.set_register_x(value);
    }

    fn dey(&mut self)
        ensures
            final(self)@ == spec_dey(old(self)@),
    {
        let value = wsub8(self.register_y, 1);
        self.set_register_y(value);
    }

    fn inx(&mut self)
        ensures
            final(self)@ == spec_inx(old(self)@),
    {
        let value = wadd8(self.register_x, 1);
        self.set_register_x(value);
    }

    fn iny(&mut self)
        ensures
            final(self)@ == spec_iny(old(self)@),
    {
        let value = wadd8(self.register_y, 1);
        self.set_register_y(value);
    }

    fn tax(&mut self)
        ensures
            final(self)@ == spec_tax(old(self)@),
    {
        let value = self.register_a;
        self.set_register_x(value);
    }

    fn tay(&mut self)
        ensures
            final(self)@ == spec_tay(old(self)@),
    {
        let value = self.register_a;
        self.set_register_y(value);
    }

    fn tsx(&mut self)
        ensures
            final(self)@ == spec_tsx(old(self)@),
    {
        let value = self.stack_pointer;
        self.set_register_x(value);
    }

    fn txa(&mut self)
        ensures
            final(self)@ == spec_txa(old(self)@),
    {
        let value = self.register_x;
        self.set_register_a(value);
    }

    /// Transfer X to the stack pointer; uniquely among transfers, no flags.
    fn txs(&mut self)
        ensures
            final(self)@ == spec_txs(old(self)@),
    {
        self.stack_pointer = self.register_x;
        assert(self@ =~= spec_txs(old(self)@));
    }

    fn tya(&mut self)
        ensures
            final(self)@ == spec_tya(old(self)@),
    {
        let value = self.register_y;
        self.set_register_a(value);
    }

    /// Push the flags with both marker bits forced on.
    fn php(&mut self)
        ensures
            final(self)@ == spec_php(old(self)@),
    {
        let image = self.status.bits() | BREAK | BREAK2;
        self.stack_push(image);
        assert(self@ =~= spec_php(old(self)@));
    }

    fn pla(&mut self)
        ensures
            final(self)@ == spec_pla(old(self)@),
    {
        let data = self.stack_pop();
        self.set_register_a(data);
        assert(self@ =~= spec_pla(old(self)@));
    }

    /// Restore the flags from the stack with the fixed marker-bit
    /// correction: the first marker forced off, the second forced on.
    fn plp(&mut self)
        ensures
            final(self)@ == spec_plp(old(self)@),
    {
        let data = self.stack_pop();
        self.status = Status::from_bits((data & !BREAK) | BREAK2);
        assert(self@ =~= spec_plp(old(self)@));
    }


    /// Arithmetic, logic, load/store, bit test and compares.
    fn execute_alu(&mut self, mnemonic: Mnemonic, mode: AddressingMode)
        requires
            takes_operand(mnemonic) ==> mode != AddressingMode::NoneAddressing,
            (match mnemonic {
                Mnemonic::Adc | Mnemonic::Sbc | Mnemonic::And | Mnemonic::Eor
                    | Mnemonic::Ora | Mnemonic::Lda | Mnemonic::Ldx | Mnemonic::Ldy
                    | Mnemonic::Sta | Mnemonic::Stx | Mnemonic::Sty | Mnemonic::Bit
                    | Mnemonic::Cmp | Mnemonic::Cpx | Mnemonic::Cpy => true,
                _ => false,
            }),
        ensures
            final(self)@ == exec_instr(old(self)@, mnemonic, mode),
    {
        match mnemonic {
            Mnemonic::Adc => self.adc(mode),
            Mnemonic::Sbc => self.sbc(mode),
            Mnemonic::And => self.and(mode),
            Mnemonic::Eor => self.eor(mode),
            Mnemonic::Ora => self.ora(mode),
            Mnemonic::Lda => self.lda(mode),
            Mnemonic::Ldx => self.ldx(mode),
            Mnemonic::Ldy => self.ldy(mode),
            Mnemonic::Sta => self.sta(mode),
            Mnemonic::Stx => self.stx(mode),
            Mnemonic::Sty => self.sty(mode),
            Mnemonic::Bit => self.bit(mode),
            Mnemonic::Cmp => {
                let a = self.register_a;
                self.compare(mode, a);
            },
            Mnemonic::Cpx => {
                let x = self.register_x;
                self.compare(mode, x);
            },
            Mnemonic::Cpy => {
                let y = self.register_y;
                self.compare(mode, y);
            },
            _ => {},
        }
        assert(self@ =~= exec_instr(old(self)@, mnemonic, mode));
    }

    /// Shifts, rotates, increments and decrements.
    fn execute_rmw(&mut self, mnemonic: Mnemonic, mode: AddressingMode)
        requires
            takes_operand(mnemonic) ==> mode != AddressingMode::NoneAddressing,
            (match mnemonic {
                Mnemonic::Asl | Mnemonic::AslAcc | Mnemonic::Lsr | Mnemonic::LsrAcc
                    | Mnemonic::Rol | Mnemonic::RolAcc | Mnemonic::Ror | Mnemonic::RorAcc
                    | Mnemonic::Dec | Mnemonic::Dex | Mnemonic::Dey | Mnemonic::Inc
                    | Mnemonic::Inx | Mnemonic::Iny => true,
                _ => false,
            }),
        ensures
            final(self)@ == exec_instr(old(self)@, mnemonic, mode),
    {
        match mnemonic {
            Mnemonic::Asl => {
                let _r: u8 = self.asl(mode);
            },
            Mnemonic::AslAcc => self.asl_accumulator(),
            Mnemonic::Lsr => {
                let _r: u8 = self.lsr(mode);
            },
            Mnemonic::LsrAcc => self.lsr_accumulator(),
            Mnemonic::Rol => {
                let _r: u8 = self.rol(mode);
            },
            Mnemonic::RolAcc => self.rol_accumulator(),
            Mnemonic::Ror => {
                let _r: u8 = self.ror(mode);
            },
            Mnemonic::RorAcc => self.ror_accumulator(),
            Mnemonic::Dec => self.dec(mode),
            Mnemonic::Dex => self.dex(),
            Mnemonic::Dey => self.dey(),
            Mnemonic::Inc => self.inc(mode),
            Mnemonic::Inx => self.inx(),
            Mnemonic::Iny => self.iny(),
            _ => {},
        }
        assert(self@ =~= exec_instr(old(self)@, mnemonic, mode));
    }

    /// Branches and flag set/clear instructions.
    fn execute_branch_flags(&mut self, mnemonic: Mnemonic, mode: AddressingMode)
        requires
            takes_operand(mnemonic) ==> mode != AddressingMode::NoneAddressing,
            (match mnemonic {
                Mnemonic::Bcc | Mnemonic::Bcs | Mnemonic::Beq | Mnemonic::Bne
                    | Mnemonic::Bmi | Mnemonic::Bpl | Mnemonic::Bvc | Mnemonic::Bvs
                    | Mnemonic::Clc | Mnemonic::Cld | Mnemonic::Cli | Mnemonic::Clv
                    | Mnemonic::Sec | Mnemonic::Sed | Mnemonic::Sei => true,
                _ => false,
            }),
        ensures
            final(self)@ == exec_instr(old(self)@, mnemonic, mode),
    {
        match mnemonic {
            Mnemonic::Bcc => {
                let c = self.status.contains(CARRY);
                self.branch(!c);
            },
            Mnemonic::Bcs => {
                let c = self.status.contains(CARRY);
                self.branch(c);
            },
            Mnemonic::Beq => {
                let z = self.status.contains(ZERO);
                self.branch(z);
            },
            Mnemonic::Bne => {
                let z = self.status.contains(ZERO);
                self.branch(!z);
            },
            Mnemonic::Bmi => {
                let n = self.status.contains(NEGATIVE);
                self.branch(n);
            },
            Mnemonic::Bpl => {
                let n = self.status.contains(NEGATIVE);
                self.branch(!n);
            },
            Mnemonic::Bvc => {
                let v = self.status.contains(OVERFLOW);
                self.branch(!v);
            },
            Mnemonic::Bvs => {
                let v = self.status.contains(OVERFLOW);
                self.branch(v);
            },
            Mnemonic::Clc => self.clear_carry_flag(),
            Mnemonic::Cld => {
                self.status.remove(DECIMAL_MODE);
            },
            Mnemonic::Cli => {
                self.status.remove(INTERRUPT_DISABLE);
            },
            Mnemonic::Clv => {
                self.status.remove(OVERFLOW);
            },
            Mnemonic::Sec => self.set_carry_flag(),
            Mnemonic::Sed => {
                self.status.insert(DECIMAL_MODE);
            },
            Mnemonic::Sei => {
                self.status.insert(INTERRUPT_DISABLE);
            },
            _ => {},
        }
        assert(self@ =~= exec_instr(old(self)@, mnemonic, mode));
    }

    /// Jumps, subroutines, stack pushes and pulls, register transfers, and the no-ops.
    fn execute_control(&mut self, mnemonic: Mnemonic, mode: AddressingMode)
        requires
            takes_operand(mnemonic) ==> mode != AddressingMode::NoneAddressing,
            (match mnemonic {
                Mnemonic::JmpAbs | Mnemonic::JmpInd | Mnemonic::Jsr | Mnemonic::Rts
                    | Mnemonic::Rti | Mnemonic::Pha | Mnemonic::Php | Mnemonic::Pla
                    | Mnemonic::Plp | Mnemonic::Tax | Mnemonic::Tay | Mnemonic::Tsx
                    | Mnemonic::Txa | Mnemonic::Txs | Mnemonic::Tya | Mnemonic::Nop
                    | Mnemonic::Brk => true,
                _ => false,
            }),
        ensures
            final(self)@ == exec_instr(old(self)@, mnemonic, mode),
    {
        match mnemonic {
            Mnemonic::JmpAbs => {
                let target = self.read_word(self.program_counter);
                self.program_counter = target;
            },
            Mnemonic::JmpInd => {
                let target = self.read_word(self.program_counter);
                let dest = if target & 0x00ff == 0x00ff {
                    let lo = self.read_byte(target);
                    let hi = self.read_byte(target & 0xff00);
                    (hi as u16) * 256 + (lo as u16)
                } else {
                    self.read_word(target)
                };
                self.program_counter = dest;
            },
            Mnemonic::Jsr => {
                let ret = wadd16(self.program_counter, 1);
                self.stack_push_u16(ret);
                let target = self.read_word(self.program_counter);
                self.program_counter = target;
            },
            Mnemonic::Rts => {
                let w = self.stack_pop_u16();
                self.program_counter = wadd16(w, 1);
            },
            Mnemonic::Rti => {
                let data = self.stack_pop();
                self.status = Status::from_bits((data & !BREAK) | BREAK2);
                let pc = self.stack_pop_u16();
                self.program_counter = pc;
            },
            Mnemonic::Pha => {
                let a = self.register_a;
                self.stack_push(a);
            },
            Mnemonic::Php => self.php(),
            Mnemonic::Pla => self.pla(),
            Mnemonic::Plp => self.plp(),
            Mnemonic::Tax => self.tax(),
            Mnemonic::Tay => self.tay(),
            Mnemonic::Tsx => self.tsx(),
            Mnemonic::Txa => self.txa(),
            Mnemonic::Txs => self.txs(),
            Mnemonic::Tya => self.tya(),
            Mnemonic::Nop => {},
            Mnemonic::Brk => {},
            _ => {},
        }
        assert(self@ =~= exec_instr(old(self)@, mnemonic, mode));
    }

    /// Execute one decoded instruction; the instruction pointer is already
    /// past the opcode byte. Break is a no-op here: the stepper halts on it
    /// before dispatching.
    fn execute(&mut self, mnemonic: Mnemonic, mode: AddressingMode)
        requires
            takes_operand(mnemonic) ==> mode != AddressingMode::NoneAddressing,
        ensures
            final(self)@ == exec_instr(old(self)@, mnemonic, mode),
    {
        match mnemonic {
            Mnemonic::Adc | Mnemonic::Sbc | Mnemonic::And | Mnemonic::Eor | Mnemonic::Ora
            | Mnemonic::Lda | Mnemonic::Ldx | Mnemonic::Ldy | Mnemonic::Sta | Mnemonic::Stx
            | Mnemonic::Sty | Mnemonic::Bit | Mnemonic::Cmp | Mnemonic::Cpx | Mnemonic::Cpy => self.execute_alu(mnemonic, mode),
            Mnemonic::Asl | Mnemonic::AslAcc | Mnemonic::Lsr | Mnemonic::LsrAcc | Mnemonic::Rol
            | Mnemonic::RolAcc | Mnemonic::Ror | Mnemonic::RorAcc | Mnemonic::Dec
            | Mnemonic::Dex | Mnemonic::Dey | Mnemonic::Inc | Mnemonic::Inx | Mnemonic::Iny => self.execute_rmw(mnemonic, mode),
            Mnemonic::Bcc | Mnemonic::Bcs | Mnemonic::Beq | Mnemonic::Bne | Mnemonic::Bmi
            | Mnemonic::Bpl | Mnemonic::Bvc | Mnemonic::Bvs | Mnemonic::Clc | Mnemonic::Cld
            | Mnemonic::Cli | Mnemonic::Clv | Mnemonic::Sec | Mnemonic::Sed | Mnemonic::Sei => self.execute_branch_flags(mnemonic, mode),
            Mnemonic::JmpAbs | Mnemonic::JmpInd | Mnemonic::Jsr | Mnemonic::Rts | Mnemonic::Rti
            | Mnemonic::Pha | Mnemonic::Php | Mnemonic::Pla | Mnemonic::Plp | Mnemonic::Tax
            | Mnemonic::Tay | Mnemonic::Tsx | Mnemonic::Txa | Mnemonic::Txs | Mnemonic::Tya
            | Mnemonic::Nop | Mnemonic::Brk => self.execute_control(mnemonic, mode),
        }
    }

    /// One fetch-decode-execute cycle: fetch the opcode and advance past it,
    /// look it up in the dispatch table, execute the handler, then advance
    /// over the operand bytes unless the handler itself moved the
    /// instruction pointer. A byte absent from the table is a fault that
    /// stops execution with a diagnostic; it is never guessed over.
    #[verifier::rlimit(100)]
    pub fn step(&mut self) -> (outcome: StepOutcome)
        ensures
            final(self)@ == spec_step(old(self)@).0,
            outcome == spec_step(old(self)@).1,
    {
        let at = self.program_counter;
        let code = self.read_byte(at);
        self.program_counter = wadd16(self.program_counter, 1);
        let ghost m1 = self@;
        let entry = opcode_entry(code);
        match entry {
            None => StepOutcome::Fault { opcode: code, at },
            Some(op) => {
                let pc_state = self.program_counter;
                match op.mnemonic {
                    Mnemonic::Brk => {
                        return StepOutcome::Halted;
                    },
                    _ => {
                        self.execute(op.mnemonic, op.mode);
                    },
                }
                proof {
                    assert(self@ =~= exec_instr(m1, op.mnemonic, op.mode));
                }
                if self.program_counter == pc_state {
                    self.program_counter = wadd16(self.program_counter, (op.len - 1) as u16);
                }
                proof {
                    assert(self@ =~= spec_step(old(self)@).0);
                }
                StepOutcome::Running
            },
        }
    }
}

/// What a bounded run guarantees: on `Running` the full budget of cycles
/// was retired and none of them halted or faulted; otherwise some cycle
/// `n` within the budget ended with `outcome` after `n` uneventful cycles,
/// and the machine holds the state after cycle `n`.
pub open spec fn run_for_post(m0: Machine, m1: Machine, max_steps: u64, outcome: StepOutcome) -> bool {
    match outcome {
        StepOutcome::Running => m1 == run_n(m0, max_steps as nat) && (forall|i: nat|
            #![trigger run_n(m0, i)]
            i < max_steps ==> spec_step(run_n(m0, i)).1 is Running),
        _ => exists|n: nat|
            #![trigger run_n(m0, n)]
            {
                &&& n < max_steps
                &&& (forall|i: nat| #![trigger run_n(m0, i)] i < n ==> spec_step(run_n(m0, i)).1
                    is Running)
                &&& spec_step(run_n(m0, n)).1 == outcome
                &&& m1 == run_n(m0, (n + 1) as nat)
            },
    }
}

/// What `run` guarantees, with the outcome folded into a `Result`.
pub open spec fn run_post(m0: Machine, m1: Machine, r: Result<(), EmuError>) -> bool {
    match r {
        Ok(_) => run_for_post(m0, m1, u64::MAX, StepOutcome::Halted),
        Err(EmuError::UnrecognizedOpcode { opcode, at }) => run_for_post(
            m0,
            m1,
            u64::MAX,
            StepOutcome::Fault { opcode, at },
        ),
        Err(EmuError::StepLimit) => run_for_post(m0, m1, u64::MAX, StepOutcome::Running),
    }
}

/// An observer of machine state, invoked once per retired instruction. It
/// may read and mutate registers, flags and memory, but must not itself
/// drive further instruction execution.
pub trait Observer {
    fn on_instruction(&mut self, cpu: &mut CPU);
}

impl CPU {
    /// Step repeatedly, at most `max_steps` times, until the break
    /// instruction halts the machine or an unrecognized opcode faults.
    #[verifier::loop_isolation(false)]
    pub fn run_for(&mut self, max_steps: u64) -> (outcome: StepOutcome)
        ensures
            run_for_post(old(self)@, final(self)@, max_steps, outcome),
    {
        let ghost m0 = self@;
        let mut steps: u64 = 0;
        loop
            invariant
                steps <= max_steps,
                self@ == run_n(m0, steps as nat),
                forall|i: nat| #![trigger run_n(m0, i)] i < steps ==> spec_step(run_n(m0, i)).1
                    is Running,
            decreases max_steps - steps,
        {
            if steps == max_steps {
                return StepOutcome::Running;
            }
            let outcome = self.step();
            proof {
                assert(run_n(m0, (steps + 1) as nat) == spec_step(run_n(m0, steps as nat)).0);
            }
            let ghost prev_steps = steps;
            steps = steps + 1;
            match outcome {
                StepOutcome::Running => {},
                _ => {
                    proof {
                        assert(spec_step(run_n(m0, prev_steps as nat)).1 == outcome);
                        assert(self@ == run_n(m0, steps as nat));
                    }
                    return outcome;
                },
            }
        }
    }

    /// Run until the break instruction halts the machine. An opcode byte
    /// with no dispatch-table entry is fatal: execution stops and the error
    /// names the byte and the address it was fetched from. The step budget
    /// exists so that every run provably terminates; a program that retires
    /// that many instructions without halting ends in `StepLimit`.
    pub fn run(&mut self) -> (r: Result<(), EmuError>)
        ensures
            run_post(old(self)@, final(self)@, r),
    {
        let outcome = self.run_for(u64::MAX);
        match outcome {
            StepOutcome::Halted => Ok(()),
            StepOutcome::Fault { opcode, at } => Err(EmuError::UnrecognizedOpcode { opcode, at }),
            StepOutcome::Running => Err(EmuError::StepLimit),
        }
    }

    /// Like `run_for`, but hands the whole machine to `observer` after
    /// every retired instruction; this is the sole per-instruction event an
    /// external collaborator can watch. The observer may mutate the machine
    /// arbitrarily, so the final state after a full run cannot be related
    /// to the initial one; what is promised instead: a zero budget changes
    /// nothing, a first cycle that halts or faults ends the run before any
    /// observer call exactly as `spec_step` says, and every early stop is
    /// the post-state of a specification cycle whose outcome is returned.
    #[verifier::loop_isolation(false)]
    pub fn run_with_callback<O: Observer>(&mut self, observer: &mut O, max_steps: u64) -> (outcome:
        StepOutcome)
        ensures
            max_steps == 0 ==> outcome is Running && final(self)@ == old(self)@,
            max_steps > 0 && !(spec_step(old(self)@).1 is Running) ==> outcome == spec_step(
                old(self)@,
            ).1 && final(self)@ == spec_step(old(self)@).0,
            !(outcome is Running) ==> exists|m: Machine|
                #![trigger spec_step(m)]
                spec_step(m).1 == outcome && final(self)@ == spec_step(m).0,
    {
        let mut steps: u64 = 0;
        loop
            invariant
                steps <= max_steps,
                steps == 0 ==> self@ == old(self)@,
                steps >= 1 ==> spec_step(old(self)@).1 is Running,
            decreases max_steps - steps,
        {
            if steps == max_steps {
                return StepOutcome::Running;
            }
            let ghost before = self@;
            let outcome = self.step();
            match outcome {
                StepOutcome::Running => {},
                _ => {
                    proof {
                        assert(spec_step(before).1 == outcome && self@ == spec_step(before).0);
                    }
                    return outcome;
                },
            }
            observer.on_instruction(self);
            steps = steps + 1;
        }
    }

    /// A machine with cleared registers, the documented reset values for
    /// the stack pointer and status, and all-zero memory.
    pub fn new() -> (cpu: CPU)
        ensures
            cpu@ == machine_new(),
    {
        let cpu = CPU {
            register_a: 0,
            register_x: 0,
            register_y: 0,
            stack_pointer: STACK_RESET,
            program_counter: 0,
            status: Status::from_bits(STATUS_RESET),
            memory: [0u8; 0x10000],
        };
        proof {
            assert(cpu@.mem =~= machine_new().mem);
            assert(cpu@ =~= machine_new());
        }
        cpu
    }

    /// Reset: clear the general registers, restore the stack pointer and
    /// status to their reset values, and resume at the word stored in the
    /// reset vector. Memory is untouched.
    pub fn reset(&mut self)
        ensures
            final(self)@ == spec_reset(old(self)@),
    {
        self.register_a = 0;
        self.register_x = 0;
        self.register_y = 0;
        self.stack_pointer = STACK_RESET;
        self.status = Status::from_bits(STATUS_RESET);
        let pc = self.read_word(RESET_VECTOR);
        self.program_counter = pc;
        assert(self@ =~= spec_reset(old(self)@));
    }

    /// Copy `program` verbatim into memory at `base` and point the reset
    /// vector at `base`. No format, header or checksum is interpreted.
    #[verifier::loop_isolation(false)]
    pub fn load_at(&mut self, program: &Vec<u8>, base: u16)
        requires
            base + program@.len() <= 0x10000,
        ensures
            final(self)@ == spec_load(old(self)@, program@, base),
    {
        let n = program.len();
        let mut i: usize = 0;
        while i < n
            invariant
                n == program@.len(),
                base + n <= 0x10000,
                i <= n,
                self@.a == old(self)@.a,
                self@.x == old(self)@.x,
                self@.y == old(self)@.y,
                self@.sp == old(self)@.sp,
                self@.pc == old(self)@.pc,
                self@.status == old(self)@.status,
                self@.mem.len() == old(self)@.mem.len(),
                forall|j: int|
                    0 <= j < self@.mem.len() ==> self@.mem[j] == (if base <= j && j < base + i {
                        program@[j - base]
                    } else {
                        old(self)@.mem[j]
                    }),
            decreases n - i,
        {
            self.write_byte(base + i as u16, program[i]);
            i = i + 1;
        }
        self.write_word(RESET_VECTOR, base);
        assert(self@.mem =~= spec_load(old(self)@, program@, base).mem);
        assert(self@ =~= spec_load(old(self)@, program@, base));
    }

    /// Load `program` at the fixed base address and point the reset vector
    /// there.
    pub fn load(&mut self, program: Vec<u8>)
        requires
            program@.len() <= 0x8000,
        ensures
            final(self)@ == spec_load(old(self)@, program@, LOAD_BASE),
    {
        self.load_at(&program, LOAD_BASE);
    }

    /// Load `program`, reset, and run.
    pub fn load_and_run(&mut self, program: Vec<u8>) -> (r: Result<(), EmuError>)
        requires
            program@.len() <= 0x8000,
        ensures
            run_post(spec_reset(spec_load(old(self)@, program@, LOAD_BASE)), final(self)@, r),
    {
        self.load(program);
        self.reset();
        self.run()
    }
}

} // verus!
