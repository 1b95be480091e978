//! The machine at the specification level: an abstract record of the
//! register file, status byte and memory contents, and one pure transition
//! per instruction. `spec_step` is the fetch-decode-execute cycle as a
//! mathematical function; the executable interpreter is proved against it.

use vstd::prelude::*;

use crate::flags::{
    flag_set, from_stack_image, stack_image, with_flag, with_zero_negative, CARRY, DECIMAL_MODE,
    INTERRUPT_DISABLE, NEGATIVE, OVERFLOW, STATUS_RESET, ZERO,
};
use crate::opcodes::{spec_opcode, AddressingMode, Mnemonic};

verus! {

/// Bottom of the one-page descending stack region.
pub const STACK_BASE: u16 = 0x0100;

/// Stack pointer value established by a reset.
pub const STACK_RESET: u8 = 0xfd;

/// Address of the reset vector: the little-endian word here is where
/// execution resumes after a reset.
pub const RESET_VECTOR: u16 = 0xfffc;

/// The abstract machine state.
#[verifier::ext_equal]
pub ghost struct Machine {
    pub a: u8,
    pub x: u8,
    pub y: u8,
    pub sp: u8,
    pub pc: u16,
    pub status: u8,
    pub mem: Seq<u8>,
}

impl Machine {
    /// The memory covers the full 16-bit address space.
    pub open spec fn wf(self) -> bool {
        self.mem.len() == 0x10000
    }
}

/// 8-bit addition with wraparound.
pub open spec fn wrap_add8(a: u8, b: u8) -> u8 {
    ((a + b) % 256) as u8
}

/// 8-bit subtraction with wraparound.
pub open spec fn wrap_sub8(a: u8, b: u8) -> u8 {
    ((a + 256 - b) % 256) as u8
}

/// 16-bit addition with wraparound.
pub open spec fn wrap_add16(a: u16, b: u16) -> u16 {
    ((a + b) % 0x10000) as u16
}

/// A little-endian word from its two bytes.
pub open spec fn word(lo: u8, hi: u8) -> u16 {
    (hi * 256 + lo) as u16
}

/// The low byte of a word.
pub open spec fn lo_byte(w: u16) -> u8 {
    (w % 256) as u8
}

/// The high byte of a word.
pub open spec fn hi_byte(w: u16) -> u8 {
    (w / 256) as u8
}

/// A displacement byte read as a signed offset and widened to 16 bits.
pub open spec fn sign_extend(d: u8) -> u16 {
    if d < 0x80 {
        d as u16
    } else {
        (0xff00 + d) as u16
    }
}

/// The byte in memory at `addr`.
pub open spec fn read8(m: Machine, addr: u16) -> u8 {
    m.mem[addr as int]
}

/// The machine with the byte at `addr` replaced by `v`.
pub open spec fn write8(m: Machine, addr: u16, v: u8) -> Machine {
    Machine { mem: m.mem.update(addr as int, v), ..m }
}

/// The little-endian word at `pos`; the second byte is fetched at
/// `pos + 1` wrapped to 16 bits, so a word read at 0xffff wraps to 0x0000.
pub open spec fn read16(m: Machine, pos: u16) -> u16 {
    word(read8(m, pos), read8(m, wrap_add16(pos, 1)))
}

/// The machine with the little-endian word at `pos` replaced by `w`,
/// wrapping the high-byte address as `read16` does.
pub open spec fn write16(m: Machine, pos: u16, w: u16) -> Machine {
    write8(write8(m, pos, lo_byte(w)), wrap_add16(pos, 1), hi_byte(w))
}

/// The carry flag as an arithmetic carry-in.
pub open spec fn carry_in(m: Machine) -> u8 {
    if flag_set(m.status, CARRY) {
        1
    } else {
        0
    }
}

/// The effective operand address for `mode`, with the instruction pointer
/// already past the opcode byte. `NoneAddressing` never resolves; callers
/// must not ask for it.
pub open spec fn operand_address(m: Machine, mode: AddressingMode) -> u16
    recommends
        mode != AddressingMode::NoneAddressing,
{
    match mode {
        AddressingMode::Immediate => m.pc,
        AddressingMode::ZeroPage => read8(m, m.pc) as u16,
        AddressingMode::ZeroPageX => wrap_add8(read8(m, m.pc), m.x) as u16,
        AddressingMode::ZeroPageY => wrap_add8(read8(m, m.pc), m.y) as u16,
        AddressingMode::Absolute => read16(m, m.pc),
        AddressingMode::AbsoluteX => wrap_add16(read16(m, m.pc), m.x as u16),
        AddressingMode::AbsoluteY => wrap_add16(read16(m, m.pc), m.y as u16),
        AddressingMode::IndirectX => {
            let ptr = wrap_add8(read8(m, m.pc), m.x);
            word(m.mem[ptr as int], m.mem[wrap_add8(ptr, 1) as int])
        },
        AddressingMode::IndirectY => {
            let base = read8(m, m.pc);
            let deref = word(m.mem[base as int], m.mem[wrap_add8(base, 1) as int]);
            wrap_add16(deref, m.y as u16)
        },
        AddressingMode::NoneAddressing => 0,
    }
}

/// The operand byte itself.
pub open spec fn operand(m: Machine, mode: AddressingMode) -> u8 {
    read8(m, operand_address(m, mode))
}

/// The accumulator set to `v`, with zero and negative recomputed.
pub open spec fn with_a(m: Machine, v: u8) -> Machine {
    Machine { a: v, status: with_zero_negative(m.status, v), ..m }
}

/// The X register set to `v`, with zero and negative recomputed.
pub open spec fn with_x(m: Machine, v: u8) -> Machine {
    Machine { x: v, status: with_zero_negative(m.status, v), ..m }
}

/// The Y register set to `v`, with zero and negative recomputed.
pub open spec fn with_y(m: Machine, v: u8) -> Machine {
    Machine { y: v, status: with_zero_negative(m.status, v), ..m }
}

/// Add `v` and the carry flag into the accumulator: the sum wraps to
/// 8 bits, carry records the carry-out, and overflow records the
/// same-sign-operands / different-sign-result test.
pub open spec fn add_to_a(m: Machine, v: u8) -> Machine {
    let sum = m.a + v + carry_in(m);
    let result = (sum % 256) as u8;
    let st = with_flag(
        with_flag(m.status, CARRY, sum > 255),
        OVERFLOW,
        (v ^ result) & (result ^ m.a) & 0x80 != 0,
    );
    Machine { a: result, status: with_zero_negative(st, result), ..m }
}

pub open spec fn spec_adc(m: Machine, mode: AddressingMode) -> Machine {
    add_to_a(m, operand(m, mode))
}

/// Subtraction is addition of the bitwise inverse of the operand, which is
/// its two's complement minus one; carry plays the role of "no borrow".
pub open spec fn spec_sbc(m: Machine, mode: AddressingMode) -> Machine {
    add_to_a(m, (255 - operand(m, mode)) as u8)
}

pub open spec fn spec_and(m: Machine, mode: AddressingMode) -> Machine {
    with_a(m, operand(m, mode) & m.a)
}

pub open spec fn spec_eor(m: Machine, mode: AddressingMode) -> Machine {
    with_a(m, operand(m, mode) ^ m.a)
}

pub open spec fn spec_ora(m: Machine, mode: AddressingMode) -> Machine {
    with_a(m, m.a | operand(m, mode))
}

pub open spec fn spec_lda(m: Machine, mode: AddressingMode) -> Machine {
    with_a(m, operand(m, mode))
}

pub open spec fn spec_ldx(m: Machine, mode: AddressingMode) -> Machine {
    with_x(m, operand(m, mode))
}

pub open spec fn spec_ldy(m: Machine, mode: AddressingMode) -> Machine {
    with_y(m, operand(m, mode))
}

pub open spec fn spec_sta(m: Machine, mode: AddressingMode) -> Machine {
    write8(m, operand_address(m, mode), m.a)
}

pub open spec fn spec_stx(m: Machine, mode: AddressingMode) -> Machine {
    write8(m, operand_address(m, mode), m.x)
}

pub open spec fn spec_sty(m: Machine, mode: AddressingMode) -> Machine {
    write8(m, operand_address(m, mode), m.y)
}

/// Shift left in the accumulator: carry takes the bit shifted off the top.
pub open spec fn spec_asl_acc(m: Machine) -> Machine {
    let v = m.a;
    let r = v << 1;
    Machine { a: r, status: with_zero_negative(with_flag(m.status, CARRY, v >> 7 == 1), r), ..m }
}

/// Shift left in memory.
pub open spec fn spec_asl(m: Machine, mode: AddressingMode) -> Machine {
    let addr = operand_address(m, mode);
    let v = read8(m, addr);
    let r = v << 1;
    let m1 = write8(m, addr, r);
    Machine { status: with_zero_negative(with_flag(m.status, CARRY, v >> 7 == 1), r), ..m1 }
}

/// Shift right in the accumulator: carry takes the bit shifted off the bottom.
pub open spec fn spec_lsr_acc(m: Machine) -> Machine {
    let v = m.a;
    let r = v >> 1;
    Machine { a: r, status: with_zero_negative(with_flag(m.status, CARRY, v & 1 == 1), r), ..m }
}

/// Shift right in memory.
pub open spec fn spec_lsr(m: Machine, mode: AddressingMode) -> Machine {
    let addr = operand_address(m, mode);
    let v = read8(m, addr);
    let r = v >> 1;
    let m1 = write8(m, addr, r);
    Machine { status: with_zero_negative(with_flag(m.status, CARRY, v & 1 == 1), r), ..m1 }
}

/// Rotate left: the previous carry enters bit 0, bit 7 leaves into carry.
pub open spec fn rol_result(v: u8, old_carry: bool) -> u8 {
    if old_carry {
        (v << 1) | 1
    } else {
        v << 1
    }
}

/// Rotate right: the previous carry enters bit 7, bit 0 leaves into carry.
pub open spec fn ror_result(v: u8, old_carry: bool) -> u8 {
    if old_carry {
        (v >> 1) | 0x80
    } else {
        v >> 1
    }
}

pub open spec fn spec_rol_acc(m: Machine) -> Machine {
    let v = m.a;
    let r = rol_result(v, flag_set(m.status, CARRY));
    Machine { a: r, status: with_zero_negative(with_flag(m.status, CARRY, v >> 7 == 1), r), ..m }
}

pub open spec fn spec_rol(m: Machine, mode: AddressingMode) -> Machine {
    let addr = operand_address(m, mode);
    let v = read8(m, addr);
    let r = rol_result(v, flag_set(m.status, CARRY));
    let m1 = write8(m, addr, r);
    Machine { status: with_zero_negative(with_flag(m.status, CARRY, v >> 7 == 1), r), ..m1 }
}

pub open spec fn spec_ror_acc(m: Machine) -> Machine {
    let v = m.a;
    let r = ror_result(v, flag_set(m.status, CARRY));
    Machine { a: r, status: with_zero_negative(with_flag(m.status, CARRY, v & 1 == 1), r), ..m }
}

pub open spec fn spec_ror(m: Machine, mode: AddressingMode) -> Machine {
    let addr = operand_address(m, mode);
    let v = read8(m, addr);
    let r = ror_result(v, flag_set(m.status, CARRY));
    let m1 = write8(m, addr, r);
    Machine { status: with_zero_negative(with_flag(m.status, CARRY, v & 1 == 1), r), ..m1 }
}

/// A taken branch consumes the displacement byte and adds it, signed, to
/// the instruction pointer; an untaken branch changes nothing here (the
/// generic advance then skips the displacement byte).
pub open spec fn spec_branch(m: Machine, cond: bool) -> Machine {
    if cond {
        Machine { pc: wrap_add16(wrap_add16(m.pc, 1), sign_extend(read8(m, m.pc))), ..m }
    } else {
        m
    }
}

/// Bit test: zero from the masked accumulator, negative and overflow
/// copied from bits 7 and 6 of the operand.
pub open spec fn spec_bit(m: Machine, mode: AddressingMode) -> Machine {
    let v = operand(m, mode);
    let st = with_flag(
        with_flag(with_flag(m.status, ZERO, m.a & v == 0), NEGATIVE, v & 0x80 != 0),
        OVERFLOW,
        v & 0x40 != 0,
    );
    Machine { status: st, ..m }
}

/// Compare a register against memory: carry means no borrow (register >=
/// operand); zero and negative come from the wrapped difference, which is
/// not stored anywhere.
pub open spec fn spec_compare(m: Machine, mode: AddressingMode, with: u8) -> Machine {
    let v = operand(m, mode);
    let st = with_flag(m.status, CARRY, v <= with);
    Machine { status: with_zero_negative(st, wrap_sub8(with, v)), ..m }
}

pub open spec fn spec_inc(m: Machine, mode: AddressingMode) -> Machine {
    let addr = operand_address(m, mode);
    let r = wrap_add8(read8(m, addr), 1);
    let m1 = write8(m, addr, r);
    Machine { status: with_zero_negative(m.status, r), ..m1 }
}

pub open spec fn spec_dec(m: Machine, mode: AddressingMode) -> Machine {
    let addr = operand_address(m, mode);
    let r = wrap_sub8(read8(m, addr), 1);
    let m1 = write8(m, addr, r);
    Machine { status: with_zero_negative(m.status, r), ..m1 }
}

pub open spec fn spec_inx(m: Machine) -> Machine {
    with_x(m, wrap_add8(m.x, 1))
}

pub open spec fn spec_iny(m: Machine) -> Machine {
    with_y(m, wrap_add8(m.y, 1))
}

pub open spec fn spec_dex(m: Machine) -> Machine {
    with_x(m, wrap_sub8(m.x, 1))
}

pub open spec fn spec_dey(m: Machine) -> Machine {
    with_y(m, wrap_sub8(m.y, 1))
}

pub open spec fn spec_tax(m: Machine) -> Machine {
    with_x(m, m.a)
}

pub open spec fn spec_tay(m: Machine) -> Machine {
    with_y(m, m.a)
}

pub open spec fn spec_tsx(m: Machine) -> Machine {
    with_x(m, m.sp)
}

pub open spec fn spec_txa(m: Machine) -> Machine {
    with_a(m, m.x)
}

/// Transfer X to the stack pointer; uniquely among transfers, no flags.
pub open spec fn spec_txs(m: Machine) -> Machine {
    Machine { sp: m.x, ..m }
}

pub open spec fn spec_tya(m: Machine) -> Machine {
    with_a(m, m.y)
}

/// Push: write at the stack page slot, then decrement the pointer.
pub open spec fn push8(m: Machine, v: u8) -> Machine {
    let m1 = write8(m, (STACK_BASE + m.sp) as u16, v);
    Machine { sp: wrap_sub8(m.sp, 1), ..m1 }
}

/// The address a pop reads from: increment the pointer, then read.
pub open spec fn pop_addr(m: Machine) -> u16 {
    (STACK_BASE + wrap_add8(m.sp, 1)) as u16
}

/// The byte a pop returns.
pub open spec fn pop8_value(m: Machine) -> u8 {
    read8(m, pop_addr(m))
}

/// The machine after a pop.
pub open spec fn pop8_state(m: Machine) -> Machine {
    Machine { sp: wrap_add8(m.sp, 1), ..m }
}

/// Push a word, high byte first.
pub open spec fn push16(m: Machine, w: u16) -> Machine {
    push8(push8(m, hi_byte(w)), lo_byte(w))
}

/// The word two pops return: low byte first.
pub open spec fn pop16_value(m: Machine) -> u16 {
    word(pop8_value(m), pop8_value(pop8_state(m)))
}

/// The machine after popping a word.
pub open spec fn pop16_state(m: Machine) -> Machine {
    pop8_state(pop8_state(m))
}

pub open spec fn spec_pha(m: Machine) -> Machine {
    push8(m, m.a)
}

/// Push-flags forces both marker bits on in the pushed image.
pub open spec fn spec_php(m: Machine) -> Machine {
    push8(m, stack_image(m.status))
}

pub open spec fn spec_pla(m: Machine) -> Machine {
    with_a(pop8_state(m), pop8_value(m))
}

/// Pull-flags restores the byte with the fixed marker-bit correction.
pub open spec fn spec_plp(m: Machine) -> Machine {
    Machine { status: from_stack_image(pop8_value(m)), ..pop8_state(m) }
}

pub open spec fn spec_jmp_abs(m: Machine) -> Machine {
    Machine { pc: read16(m, m.pc), ..m }
}

/// Indirect jump, reproducing the hardware page-boundary defect: when the
/// pointer's low byte is 0xff, its high byte is fetched from the start of
/// the same page rather than from the next page.
pub open spec fn spec_jmp_ind(m: Machine) -> Machine {
    let target = read16(m, m.pc);
    let dest = if target & 0x00ff == 0x00ff {
        word(read8(m, target), read8(m, target & 0xff00))
    } else {
        read16(m, target)
    };
    Machine { pc: dest, ..m }
}

/// Subroutine call: push (return address - 1), then jump. The target word
/// is read after the push, so a push that lands on the operand bytes is
/// reflected in the target, exactly as the interpreter behaves.
pub open spec fn spec_jsr(m: Machine) -> Machine {
    let m1 = push16(m, wrap_add16(m.pc, 1));
    Machine { pc: read16(m1, m.pc), ..m1 }
}

/// Subroutine return: pop the word and add the one back.
pub open spec fn spec_rts(m: Machine) -> Machine {
    Machine { pc: wrap_add16(pop16_value(m), 1), ..pop16_state(m) }
}

/// Return from interrupt: pop the flags (with the marker correction), then
/// pop a full instruction pointer with no adjustment.
pub open spec fn spec_rti(m: Machine) -> Machine {
    let st = from_stack_image(pop8_value(m));
    let m1 = pop8_state(m);
    Machine { status: st, pc: pop16_value(m1), ..pop16_state(m1) }
}

/// The effect of one decoded instruction, with the instruction pointer
/// already past the opcode byte. Break never reaches here: the stepper
/// halts on it first.
pub open spec fn exec_instr(m: Machine, mnemonic: Mnemonic, mode: AddressingMode) -> Machine {
    match mnemonic {
        Mnemonic::Adc => spec_adc(m, mode),
        Mnemonic::And => spec_and(m, mode),
        Mnemonic::Asl => spec_asl(m, mode),
        Mnemonic::AslAcc => spec_asl_acc(m),
        Mnemonic::Bcc => spec_branch(m, !flag_set(m.status, CARRY)),
        Mnemonic::Bcs => spec_branch(m, flag_set(m.status, CARRY)),
        Mnemonic::Beq => spec_branch(m, flag_set(m.status, ZERO)),
        Mnemonic::Bit => spec_bit(m, mode),
        Mnemonic::Bmi => spec_branch(m, flag_set(m.status, NEGATIVE)),
        Mnemonic::Bne => spec_branch(m, !flag_set(m.status, ZERO)),
        Mnemonic::Bpl => spec_branch(m, !flag_set(m.status, NEGATIVE)),
        Mnemonic::Brk => m,
        Mnemonic::Bvc => spec_branch(m, !flag_set(m.status, OVERFLOW)),
        Mnemonic::Bvs => spec_branch(m, flag_set(m.status, OVERFLOW)),
        Mnemonic::Clc => Machine { status: with_flag(m.status, CARRY, false), ..m },
        Mnemonic::Cld => Machine { status: with_flag(m.status, DECIMAL_MODE, false), ..m },
        Mnemonic::Cli => Machine { status: with_flag(m.status, INTERRUPT_DISABLE, false), ..m },
        Mnemonic::Clv => Machine { status: with_flag(m.status, OVERFLOW, false), ..m },
        Mnemonic::Cmp => spec_compare(m, mode, m.a),
        Mnemonic::Cpx => spec_compare(m, mode, m.x),
        Mnemonic::Cpy => spec_compare(m, mode, m.y),
        Mnemonic::Dec => spec_dec(m, mode),
        Mnemonic::Dex => spec_dex(m),
        Mnemonic::Dey => spec_dey(m),
        Mnemonic::Eor => spec_eor(m, mode),
        Mnemonic::Inc => spec_inc(m, mode),
        Mnemonic::Inx => spec_inx(m),
        Mnemonic::Iny => spec_iny(m),
        Mnemonic::JmpAbs => spec_jmp_abs(m),
        Mnemonic::JmpInd => spec_jmp_ind(m),
        Mnemonic::Jsr => spec_jsr(m),
        Mnemonic::Lda => spec_lda(m, mode),
        Mnemonic::Ldx => spec_ldx(m, mode),
        Mnemonic::Ldy => spec_ldy(m, mode),
        Mnemonic::Lsr => spec_lsr(m, mode),
        Mnemonic::LsrAcc => spec_lsr_acc(m),
        Mnemonic::Nop => m,
        Mnemonic::Ora => spec_ora(m, mode),
        Mnemonic::Pha => spec_pha(m),
        Mnemonic::Php => spec_php(m),
        Mnemonic::Pla => spec_pla(m),
        Mnemonic::Plp => spec_plp(m),
        Mnemonic::Rol => spec_rol(m, mode),
        Mnemonic::RolAcc => spec_rol_acc(m),
        Mnemonic::Ror => spec_ror(m, mode),
        Mnemonic::RorAcc => spec_ror_acc(m),
        Mnemonic::Rti => spec_rti(m),
        Mnemonic::Rts => spec_rts(m),
        Mnemonic::Sbc => spec_sbc(m, mode),
        Mnemonic::Sec => Machine { status: with_flag(m.status, CARRY, true), ..m },
        Mnemonic::Sed => Machine { status: with_flag(m.status, DECIMAL_MODE, true), ..m },
        Mnemonic::Sei => Machine { status: with_flag(m.status, INTERRUPT_DISABLE, true), ..m },
        Mnemonic::Sta => spec_sta(m, mode),
        Mnemonic::Stx => spec_stx(m, mode),
        Mnemonic::Sty => spec_sty(m, mode),
        Mnemonic::Tax => spec_tax(m),
        Mnemonic::Tay => spec_tay(m),
        Mnemonic::Tsx => spec_tsx(m),
        Mnemonic::Txa => spec_txa(m),
        Mnemonic::Txs => spec_txs(m),
        Mnemonic::Tya => spec_tya(m),
    }
}

/// How one fetch-decode-execute cycle ended.
#[derive(Clone, Copy, PartialEq, Eq, Structural, Debug)]
pub enum StepOutcome {
    /// An instruction was retired and execution goes on.
    Running,
    /// The break instruction was fetched: execution halts.
    Halted,
    /// The fetched byte has no dispatch-table entry: a malformed program or
    /// caller bug. `opcode` is the offending byte, `at` the address it was
    /// fetched from. The machine keeps the state it had after the fetch.
    Fault { opcode: u8, at: u16 },
}

/// One full fetch-decode-execute cycle: fetch the opcode and advance past
/// it, decode, execute, then advance over the operand bytes unless the
/// handler itself moved the instruction pointer.
pub open spec fn spec_step(m: Machine) -> (Machine, StepOutcome) {
    let code = read8(m, m.pc);
    let m1 = Machine { pc: wrap_add16(m.pc, 1), ..m };
    match spec_opcode(code) {
        None => (m1, StepOutcome::Fault { opcode: code, at: m.pc }),
        Some(op) => {
            if op.mnemonic is Brk {
                (m1, StepOutcome::Halted)
            } else {
                let m2 = exec_instr(m1, op.mnemonic, op.mode);
                let m3 = if m2.pc == m1.pc {
                    Machine { pc: wrap_add16(m2.pc, (op.len - 1) as u16), ..m2 }
                } else {
                    m2
                };
                (m3, StepOutcome::Running)
            }
        },
    }
}

/// The machine after `n` cycles.
pub open spec fn run_n(m: Machine, n: nat) -> Machine
    decreases n,
{
    if n == 0 {
        m
    } else {
        spec_step(run_n(m, (n - 1) as nat)).0
    }
}

/// A machine as freshly constructed: registers cleared, the stack pointer
/// and status at their reset values, and memory all zero.
pub open spec fn machine_new() -> Machine {
    Machine {
        a: 0,
        x: 0,
        y: 0,
        sp: STACK_RESET,
        pc: 0,
        status: STATUS_RESET,
        mem: Seq::new(0x10000, |i: int| 0u8),
    }
}

/// Reset: clear the general registers, restore the stack pointer and
/// status to their reset values, and resume at the word stored in the
/// reset vector. Memory is untouched.
pub open spec fn spec_reset(m: Machine) -> Machine {
    Machine {
        a: 0,
        x: 0,
        y: 0,
        sp: STACK_RESET,
        status: STATUS_RESET,
        pc: read16(m, RESET_VECTOR),
        ..m
    }
}

/// Load: copy `program` verbatim into memory at `base` and point the reset
/// vector at `base`. Nothing else changes; no format is interpreted.
pub open spec fn spec_load(m: Machine, program: Seq<u8>, base: u16) -> Machine {
    let loaded = Machine {
        mem: Seq::new(
            m.mem.len(),
            |i: int|
                if base <= i && i < base + program.len() {
                    program[i - base]
                } else {
                    m.mem[i]
                },
        ),
        ..m
    };
    write16(loaded, RESET_VECTOR, base)
}

} // verus!
