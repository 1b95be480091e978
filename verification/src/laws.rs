//! Laws of the instruction semantics, proved once and for all inputs:
//! the arithmetic of add-with-carry, increment/decrement round trips,
//! stack push/pop round trips, the subroutine call/return pairing, and
//! zero-page indexed address wraparound.

use vstd::prelude::*;

use crate::flags::{
    flag_set, lemma_flag_get_other, lemma_flag_get_set, lemma_masks_disjoint,
    lemma_zero_negative_read, with_flag, CARRY, NEGATIVE, OVERFLOW, ZERO,
};
use crate::model::{
    add_to_a, operand_address, pop8_state, pop8_value, pop_addr, push8, read16, read8, spec_dex,
    spec_dey, spec_inx, spec_iny, spec_jmp_ind, spec_jsr, spec_rts, word, wrap_add16, wrap_add8,
    wrap_sub8, Machine, STACK_BASE,
};
use crate::opcodes::AddressingMode;

verus! {

/// Add-with-carry computes `(a + operand + carry-in) mod 256`; the carry
/// flag afterwards records whether the true sum exceeded 255, overflow
/// follows the sign-mismatch rule, zero and negative reflect the result,
/// and nothing but the accumulator and status changes.
pub proof fn lemma_add_with_carry(m: Machine, v: u8)
    ensures
        ({
            let m2 = add_to_a(m, v);
            let c: int = if flag_set(m.status, CARRY) {
                1int
            } else {
                0int
            };
            &&& m2.a == (m.a + v + c) % 256
            &&& flag_set(m2.status, CARRY) == (m.a + v + c > 255)
            &&& flag_set(m2.status, OVERFLOW) == ((v ^ m2.a) & (m2.a ^ m.a) & 0x80 != 0)
            &&& flag_set(m2.status, ZERO) == (m2.a == 0)
            &&& flag_set(m2.status, NEGATIVE) == (m2.a & 0x80 != 0)
            &&& m2.x == m.x
            &&& m2.y == m.y
            &&& m2.sp == m.sp
            &&& m2.pc == m.pc
            &&& m2.mem == m.mem
        }),
{
    let sum = m.a + v + (if flag_set(m.status, CARRY) {
        1int
    } else {
        0int
    });
    let result = (sum % 256) as u8;
    let st1 = with_flag(m.status, CARRY, sum > 255);
    let st2 = with_flag(st1, OVERFLOW, (v ^ result) & (result ^ m.a) & 0x80 != 0);
    lemma_masks_disjoint();
    lemma_zero_negative_read(st2, result);
    lemma_flag_get_set(m.status, CARRY, sum > 255);
    lemma_flag_get_other(st1, OVERFLOW, CARRY, (v ^ result) & (result ^ m.a) & 0x80 != 0);
    lemma_flag_get_set(st1, OVERFLOW, (v ^ result) & (result ^ m.a) & 0x80 != 0);
}

/// 8-bit increment and decrement undo one another.
pub proof fn lemma_wrap8_round_trip(v: u8)
    ensures
        wrap_sub8(wrap_add8(v, 1), 1) == v,
        wrap_add8(wrap_sub8(v, 1), 1) == v,
{
}

/// Incrementing then decrementing the X register (or the reverse) restores
/// it, and the zero and negative flags afterwards reflect only that final
/// value; nothing else changes.
pub proof fn lemma_increment_decrement_x(m: Machine)
    ensures
        ({
            let m2 = spec_dex(spec_inx(m));
            &&& m2.x == m.x
            &&& flag_set(m2.status, ZERO) == (m.x == 0)
            &&& flag_set(m2.status, NEGATIVE) == (m.x & 0x80 != 0)
            &&& m2.a == m.a
            &&& m2.y == m.y
            &&& m2.sp == m.sp
            &&& m2.pc == m.pc
            &&& m2.mem == m.mem
        }),
        spec_inx(spec_dex(m)).x == m.x,
        flag_set(spec_inx(spec_dex(m)).status, ZERO) == (m.x == 0),
        flag_set(spec_inx(spec_dex(m)).status, NEGATIVE) == (m.x & 0x80 != 0),
{
    lemma_wrap8_round_trip(m.x);
    lemma_zero_negative_read(m.status, wrap_add8(m.x, 1));
    lemma_zero_negative_read(
        crate::flags::with_zero_negative(m.status, wrap_add8(m.x, 1)),
        m.x,
    );
    lemma_zero_negative_read(m.status, wrap_sub8(m.x, 1));
    lemma_zero_negative_read(
        crate::flags::with_zero_negative(m.status, wrap_sub8(m.x, 1)),
        m.x,
    );
}

/// Incrementing then decrementing the Y register (or the reverse) restores
/// it, with the zero and negative flags reflecting only that final value.
pub proof fn lemma_increment_decrement_y(m: Machine)
    ensures
        ({
            let m2 = spec_dey(spec_iny(m));
            &&& m2.y == m.y
            &&& flag_set(m2.status, ZERO) == (m.y == 0)
            &&& flag_set(m2.status, NEGATIVE) == (m.y & 0x80 != 0)
            &&& m2.a == m.a
            &&& m2.x == m.x
            &&& m2.sp == m.sp
            &&& m2.pc == m.pc
            &&& m2.mem == m.mem
        }),
        spec_iny(spec_dey(m)).y == m.y,
        flag_set(spec_iny(spec_dey(m)).status, ZERO) == (m.y == 0),
        flag_set(spec_iny(spec_dey(m)).status, NEGATIVE) == (m.y & 0x80 != 0),
{
    lemma_wrap8_round_trip(m.y);
    lemma_zero_negative_read(m.status, wrap_add8(m.y, 1));
    lemma_zero_negative_read(
        crate::flags::with_zero_negative(m.status, wrap_add8(m.y, 1)),
        m.y,
    );
    lemma_zero_negative_read(m.status, wrap_sub8(m.y, 1));
    lemma_zero_negative_read(
        crate::flags::with_zero_negative(m.status, wrap_sub8(m.y, 1)),
        m.y,
    );
}

/// Pushing any byte and then popping returns that byte unchanged, and the
/// popped machine differs from the starting one only in that stack slot:
/// in particular the stack pointer is back at its pre-push value.
pub proof fn lemma_stack_push_pop(m: Machine, v: u8)
    requires
        m.wf(),
    ensures
        pop8_value(push8(m, v)) == v,
        pop8_state(push8(m, v)) == (Machine {
            mem: m.mem.update(STACK_BASE + m.sp, v),
            ..m
        }),
{
    lemma_wrap8_round_trip(m.sp);
    assert(pop8_state(push8(m, v)) =~= (Machine {
        mem: m.mem.update(STACK_BASE + m.sp, v),
        ..m
    }));
}

/// Wrapped 16-bit additions compose.
pub proof fn lemma_wrap16_add(a: u16, b: u16, c: u16)
    requires
        b + c <= 0xffff,
    ensures
        wrap_add16(wrap_add16(a, b), c) == wrap_add16(a, (b + c) as u16),
{
    if a + b < 0x10000 {
        assert(wrap_add16(a, b) == a + b);
    } else {
        assert(wrap_add16(a, b) == a + b - 0x10000);
    }
}

/// A subroutine call fetched from address `P` (so dispatched with the
/// instruction pointer at `P + 1`) pushes a return address such that an
/// immediate subroutine return resumes at `P + 3` — `P` plus the length of
/// the call instruction — with the stack pointer restored.
pub proof fn lemma_call_return(m: Machine)
    requires
        m.wf(),
    ensures
        ({
            let after_call = spec_jsr(Machine { pc: wrap_add16(m.pc, 1), ..m });
            let after_ret = spec_rts(after_call);
            &&& after_ret.pc == wrap_add16(m.pc, 3)
            &&& after_ret.sp == m.sp
        }),
{
    let m1 = Machine { pc: wrap_add16(m.pc, 1), ..m };
    let ret = wrap_add16(m1.pc, 1);
    let sp1 = wrap_sub8(m.sp, 1);
    lemma_wrap8_round_trip(m.sp);
    lemma_wrap8_round_trip(sp1);
    assert(wrap_sub8(m.sp, 1) != m.sp);
    assert(STACK_BASE + sp1 != STACK_BASE + m.sp);
    lemma_wrap16_add(m.pc, 1, 1);
    lemma_wrap16_add(m.pc, 2, 1);
    let after_call = spec_jsr(m1);
    let after_ret = spec_rts(after_call);
    assert(pop8_value(after_call) == crate::model::lo_byte(ret));
    assert(pop8_value(pop8_state(after_call)) == crate::model::hi_byte(ret));
    assert(crate::model::word(crate::model::lo_byte(ret), crate::model::hi_byte(ret)) == ret);
}

/// The call/return pairing survives any subroutine body that keeps the
/// stack balanced: take a call fetched at `P` (so dispatched with the
/// instruction pointer at `P + 1`), and any machine `m2` the subroutine
/// later reaches whose stack pointer is back where the call left it and
/// whose two pushed return-address bytes are untouched. Whatever else the
/// subroutine did to registers, flags, memory or the instruction pointer,
/// the return resumes at `P + 3` — `P` plus the call instruction's length
/// — with the stack pointer restored to its pre-call value.
pub proof fn lemma_call_return_balanced(m: Machine, m2: Machine)
    requires
        m.wf(),
        m2.wf(),
        ({
            let after_call = spec_jsr(Machine { pc: wrap_add16(m.pc, 1), ..m });
            &&& m2.sp == after_call.sp
            &&& m2.mem[pop_addr(m2) as int] == after_call.mem[pop_addr(after_call) as int]
            &&& m2.mem[pop_addr(pop8_state(m2)) as int] == after_call.mem[pop_addr(
                pop8_state(after_call),
            ) as int]
        }),
    ensures
        spec_rts(m2).pc == wrap_add16(m.pc, 3),
        spec_rts(m2).sp == m.sp,
{
    let m1 = Machine { pc: wrap_add16(m.pc, 1), ..m };
    let ret = wrap_add16(m1.pc, 1);
    let sp_mid = wrap_sub8(m.sp, 1);
    lemma_wrap8_round_trip(m.sp);
    lemma_wrap8_round_trip(sp_mid);
    assert(wrap_sub8(m.sp, 1) != m.sp);
    assert(STACK_BASE + sp_mid != STACK_BASE + m.sp);
    lemma_wrap16_add(m.pc, 1, 1);
    lemma_wrap16_add(m.pc, 2, 1);
    let after_call = spec_jsr(m1);
    assert(pop8_value(after_call) == crate::model::lo_byte(ret));
    assert(pop8_value(pop8_state(after_call)) == crate::model::hi_byte(ret));
    assert(pop8_value(m2) == crate::model::lo_byte(ret));
    assert(pop8_value(pop8_state(m2)) == crate::model::hi_byte(ret));
    assert(crate::model::word(crate::model::lo_byte(ret), crate::model::hi_byte(ret)) == ret);
}

/// The indirect jump reproduces the hardware page-boundary defect for
/// every pointer word: when its low byte is 0xff the destination's high
/// byte is fetched from the start of the same page, never from the next
/// one; for every other pointer the destination is the word at the
/// pointer.
pub proof fn lemma_indirect_jump_page_wrap(m: Machine)
    ensures
        read16(m, m.pc) & 0x00ff == 0x00ff ==> spec_jmp_ind(m).pc == word(
            read8(m, read16(m, m.pc)),
            read8(m, read16(m, m.pc) & 0xff00),
        ),
        read16(m, m.pc) & 0x00ff != 0x00ff ==> spec_jmp_ind(m).pc == read16(m, read16(m, m.pc)),
{
}

/// Zero-page indexed addressing wraps within the zero page: the effective
/// address is `(base + index) mod 256`, zero-extended, and never leaves
/// the page — index 0xff with base 0x80 resolves to 0x7f, never 0x17f.
pub proof fn lemma_zero_page_indexed_wraps(m: Machine)
    ensures
        operand_address(m, AddressingMode::ZeroPageX) == wrap_add8(read8(m, m.pc), m.x) as u16,
        operand_address(m, AddressingMode::ZeroPageX) < 0x100,
        operand_address(m, AddressingMode::ZeroPageY) == wrap_add8(read8(m, m.pc), m.y) as u16,
        operand_address(m, AddressingMode::ZeroPageY) < 0x100,
        wrap_add8(0x80, 0xff) == 0x7f,
{
}

} // verus!
