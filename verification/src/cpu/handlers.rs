//! Instruction handlers and the instruction semantics they implement.
//!
//! Handlers return [`StepOk::Advance`] for normal instructions or
//! [`StepOk::Jump`] when they set PC directly (branches, jumps).

use vstd::prelude::*;
use super::{machine, flag, with_flag, with_nz, Cpu, Machine, BREAK, CARRY, DECIMAL, IRQ_DISABLE, NEGATIVE, OVERFLOW, UNUSED, ZERO};
use super::addr::Operand;
use super::opcodes::Op;
use super::step::{StepErr, StepOk, StepResult};
use crate::bits::{wadd8, wadd16, wsub8, wsub16};
use crate::bus::Bus;
use crate::ppu::Ppu;

verus! {

/// One extra cycle when the operand address crossed a page.
pub open spec fn penalty(o: Operand) -> u8 {
    if o.page_cross {
        1
    } else {
        0
    }
}

/// A normal step of the operand's size taking `cy` cycles.
pub open spec fn advance_spec(o: Operand, cy: u8) -> StepResult {
    Ok(StepOk::Advance { size: o.size, cycles: cy })
}

/// A branch: taken, it jumps to the operand address and costs one cycle
/// more (two when it crosses a page); not taken, it advances.
pub open spec fn branch_spec(m: Machine, o: Operand, cy: u8, cond: bool) -> (StepResult, Machine) {
    if cond {
        (Ok(StepOk::Jump { cycles: (cy + 1 + penalty(o)) as u8 }), m.with_cpu(Cpu { pc: o.addr, ..m.cpu }))
    } else {
        (advance_spec(o, cy), m)
    }
}

/// Semantics of instruction `Adc`.
pub open spec fn spec_adc(m: Machine, o: Operand, cy: u8) -> (StepResult, Machine) {
    let (v, m1) = m.read(o.addr);
    let c = m1.cpu;
    let carry: int = if flag(c.status, CARRY) { 1 } else { 0 };
    let sum = c.a + v + carry;
    let res = sum as u8;
    let st = with_flag(with_flag(c.status, CARRY, sum > 0xFF), OVERFLOW, (c.a ^ res) & (v ^ res) & 0x80 != 0);
    (advance_spec(o, (cy + penalty(o)) as u8), m1.with_cpu(Cpu { a: res, status: with_nz(st, res), ..c }))
}

/// Semantics of instruction `And`.
pub open spec fn spec_and(m: Machine, o: Operand, cy: u8) -> (StepResult, Machine) {
    let (v, m1) = m.read(o.addr);
    let c = m1.cpu;
    let res = c.a & v;
    (advance_spec(o, (cy + penalty(o)) as u8), m1.with_cpu(Cpu { a: res, status: with_nz(c.status, res), ..c }))
}

/// Semantics of instruction `AslAcc`.
pub open spec fn spec_asl_acc(m: Machine, o: Operand, cy: u8) -> (StepResult, Machine) {
    let c = m.cpu;
    let res = c.a << 1u8;
    (advance_spec(o, cy), m.with_cpu(Cpu { a: res, status: with_nz(with_flag(c.status, CARRY, c.a & 0x80 != 0), res), ..c }))
}

/// Semantics of instruction `AslMem`.
pub open spec fn spec_asl_mem(m: Machine, o: Operand, cy: u8) -> (StepResult, Machine) {
    let (v, m1) = m.read(o.addr);
    let c = m1.cpu;
    let res = v << 1u8;
    let m2 = m1.write(o.addr, res);
    (advance_spec(o, cy), m2.with_cpu(Cpu { status: with_nz(with_flag(c.status, CARRY, v & 0x80 != 0), res), ..c }))
}

/// Semantics of instruction `Bcc`.
pub open spec fn spec_bcc(m: Machine, o: Operand, cy: u8) -> (StepResult, Machine) {
    branch_spec(m, o, cy, !flag(m.cpu.status, CARRY))
}

/// Semantics of instruction `Bcs`.
pub open spec fn spec_bcs(m: Machine, o: Operand, cy: u8) -> (StepResult, Machine) {
    branch_spec(m, o, cy, flag(m.cpu.status, CARRY))
}

/// Semantics of instruction `Beq`.
pub open spec fn spec_beq(m: Machine, o: Operand, cy: u8) -> (StepResult, Machine) {
    branch_spec(m, o, cy, flag(m.cpu.status, ZERO))
}

/// Semantics of instruction `Bmi`.
pub open spec fn spec_bmi(m: Machine, o: Operand, cy: u8) -> (StepResult, Machine) {
    branch_spec(m, o, cy, flag(m.cpu.status, NEGATIVE))
}

/// Semantics of instruction `Bne`.
pub open spec fn spec_bne(m: Machine, o: Operand, cy: u8) -> (StepResult, Machine) {
    branch_spec(m, o, cy, !flag(m.cpu.status, ZERO))
}

/// Semantics of instruction `Bpl`.
pub open spec fn spec_bpl(m: Machine, o: Operand, cy: u8) -> (StepResult, Machine) {
    branch_spec(m, o, cy, !flag(m.cpu.status, NEGATIVE))
}

/// Semantics of instruction `Bvc`.
pub open spec fn spec_bvc(m: Machine, o: Operand, cy: u8) -> (StepResult, Machine) {
    branch_spec(m, o, cy, !flag(m.cpu.status, OVERFLOW))
}

/// Semantics of instruction `Bvs`.
pub open spec fn spec_bvs(m: Machine, o: Operand, cy: u8) -> (StepResult, Machine) {
    branch_spec(m, o, cy, flag(m.cpu.status, OVERFLOW))
}

/// Semantics of instruction `Bit`.
pub open spec fn spec_bit(m: Machine, o: Operand, cy: u8) -> (StepResult, Machine) {
    let (v, m1) = m.read(o.addr);
    let c = m1.cpu;
    let st = with_flag(with_flag(with_flag(c.status, ZERO, c.a & v == 0), OVERFLOW, v & 0x40 != 0), NEGATIVE, v & 0x80 != 0);
    (advance_spec(o, cy), m1.with_cpu(Cpu { status: st, ..c }))
}

/// Semantics of instruction `Brk`.
pub open spec fn spec_brk(m: Machine, o: Operand, cy: u8) -> (StepResult, Machine) {
    (Err(StepErr::Break), m)
}

/// Semantics of instruction `Clc`.
pub open spec fn spec_clc(m: Machine, o: Operand, cy: u8) -> (StepResult, Machine) {
    (advance_spec(o, cy), m.with_cpu(Cpu { status: with_flag(m.cpu.status, CARRY, false), ..m.cpu }))
}

/// Semantics of instruction `Cld`.
pub open spec fn spec_cld(m: Machine, o: Operand, cy: u8) -> (StepResult, Machine) {
    (advance_spec(o, cy), m.with_cpu(Cpu { status: with_flag(m.cpu.status, DECIMAL, false), ..m.cpu }))
}

/// Semantics of instruction `Cli`.
pub open spec fn spec_cli(m: Machine, o: Operand, cy: u8) -> (StepResult, Machine) {
    (advance_spec(o, cy), m.with_cpu(Cpu { status: with_flag(m.cpu.status, IRQ_DISABLE, false), ..m.cpu }))
}

/// Semantics of instruction `Clv`.
pub open spec fn spec_clv(m: Machine, o: Operand, cy: u8) -> (StepResult, Machine) {
    (advance_spec(o, cy), m.with_cpu(Cpu { status: with_flag(m.cpu.status, OVERFLOW, false), ..m.cpu }))
}

/// Semantics of instruction `Cmp` (compare with the accumulator).
pub open spec fn spec_compare_acc(m: Machine, o: Operand, cy: u8) -> (StepResult, Machine) {
    let (v, m1) = m.read(o.addr);
    let c = m1.cpu;
    let diff = wsub8(c.a, v);
    (advance_spec(o, (cy + penalty(o)) as u8), m1.with_cpu(Cpu { status: with_nz(with_flag(c.status, CARRY, c.a >= v), diff), ..c }))
}

/// Semantics of instruction `Cpx`.
pub open spec fn spec_cpx(m: Machine, o: Operand, cy: u8) -> (StepResult, Machine) {
    let (v, m1) = m.read(o.addr);
    let c = m1.cpu;
    let diff = wsub8(c.x, v);
    (advance_spec(o, cy), m1.with_cpu(Cpu { status: with_nz(with_flag(c.status, CARRY, c.x >= v), diff), ..c }))
}

/// Semantics of instruction `Cpy`.
pub open spec fn spec_cpy(m: Machine, o: Operand, cy: u8) -> (StepResult, Machine) {
    let (v, m1) = m.read(o.addr);
    let c = m1.cpu;
    let diff = wsub8(c.y, v);
    (advance_spec(o, cy), m1.with_cpu(Cpu { status: with_nz(with_flag(c.status, CARRY, c.y >= v), diff), ..c }))
}

/// Semantics of instruction `Dec`.
pub open spec fn spec_dec(m: Machine, o: Operand, cy: u8) -> (StepResult, Machine) {
    let (v, m1) = m.read(o.addr);
    let res = wsub8(v, 1);
    let m2 = m1.write(o.addr, res);
    (advance_spec(o, cy), m2.with_cpu(Cpu { status: with_nz(m1.cpu.status, res), ..m1.cpu }))
}

/// Semantics of instruction `Dex`.
pub open spec fn spec_dex(m: Machine, o: Operand, cy: u8) -> (StepResult, Machine) {
    let c = m.cpu;
    let res = wsub8(c.x, 1);
    (advance_spec(o, cy), m.with_cpu(Cpu { x: res, status: with_nz(c.status, res), ..c }))
}

/// Semantics of instruction `Dey`.
pub open spec fn spec_dey(m: Machine, o: Operand, cy: u8) -> (StepResult, Machine) {
    let c = m.cpu;
    let res = wsub8(c.y, 1);
    (advance_spec(o, cy), m.with_cpu(Cpu { y: res, status: with_nz(c.status, res), ..c }))
}

/// Semantics of instruction `Eor`.
pub open spec fn spec_eor(m: Machine, o: Operand, cy: u8) -> (StepResult, Machine) {
    let (v, m1) = m.read(o.addr);
    let c = m1.cpu;
    let res = c.a ^ v;
    (advance_spec(o, (cy + penalty(o)) as u8), m1.with_cpu(Cpu { a: res, status: with_nz(c.status, res), ..c }))
}

/// Semantics of instruction `Inc`.
pub open spec fn spec_inc(m: Machine, o: Operand, cy: u8) -> (StepResult, Machine) {
    let (v, m1) = m.read(o.addr);
    let res = wadd8(v, 1);
    let m2 = m1.write(o.addr, res);
    (advance_spec(o, cy), m2.with_cpu(Cpu { status: with_nz(m1.cpu.status, res), ..m1.cpu }))
}

/// Semantics of instruction `Inx`.
pub open spec fn spec_inx(m: Machine, o: Operand, cy: u8) -> (StepResult, Machine) {
    let c = m.cpu;
    let res = wadd8(c.x, 1);
    (advance_spec(o, cy), m.with_cpu(Cpu { x: res, status: with_nz(c.status, res), ..c }))
}

/// Semantics of instruction `Iny`.
pub open spec fn spec_iny(m: Machine, o: Operand, cy: u8) -> (StepResult, Machine) {
    let c = m.cpu;
    let res = wadd8(c.y, 1);
    (advance_spec(o, cy), m.with_cpu(Cpu { y: res, status: with_nz(c.status, res), ..c }))
}

/// Semantics of instruction `Jmp`.
pub open spec fn spec_jmp(m: Machine, o: Operand, cy: u8) -> (StepResult, Machine) {
    (Ok(StepOk::Jump { cycles: cy }), m.with_cpu(Cpu { pc: o.addr, ..m.cpu }))
}

/// Semantics of instruction `Jsr`.
pub open spec fn spec_jsr(m: Machine, o: Operand, cy: u8) -> (StepResult, Machine) {
    let ret = wsub16(wadd16(m.cpu.pc, o.size as u16), 1);
    let m1 = m.push_u16(ret);
    (Ok(StepOk::Jump { cycles: cy }), m1.with_cpu(Cpu { pc: o.addr, ..m1.cpu }))
}

/// Semantics of instruction `Lda`.
pub open spec fn spec_lda(m: Machine, o: Operand, cy: u8) -> (StepResult, Machine) {
    let (v, m1) = m.read(o.addr);
    (advance_spec(o, (cy + penalty(o)) as u8), m1.with_cpu(Cpu { a: v, status: with_nz(m1.cpu.status, v), ..m1.cpu }))
}

/// Semantics of instruction `Ldx`.
pub open spec fn spec_ldx(m: Machine, o: Operand, cy: u8) -> (StepResult, Machine) {
    let (v, m1) = m.read(o.addr);
    (advance_spec(o, (cy + penalty(o)) as u8), m1.with_cpu(Cpu { x: v, status: with_nz(m1.cpu.status, v), ..m1.cpu }))
}

/// Semantics of instruction `Ldy`.
pub open spec fn spec_ldy(m: Machine, o: Operand, cy: u8) -> (StepResult, Machine) {
    let (v, m1) = m.read(o.addr);
    (advance_spec(o, (cy + penalty(o)) as u8), m1.with_cpu(Cpu { y: v, status: with_nz(m1.cpu.status, v), ..m1.cpu }))
}

/// Semantics of instruction `LsrAcc`.
pub open spec fn spec_lsr_acc(m: Machine, o: Operand, cy: u8) -> (StepResult, Machine) {
    let c = m.cpu;
    let res = c.a >> 1u8;
    (advance_spec(o, cy), m.with_cpu(Cpu { a: res, status: with_nz(with_flag(c.status, CARRY, c.a & 0x01 != 0), res), ..c }))
}

/// Semantics of instruction `LsrMem`.
pub open spec fn spec_lsr_mem(m: Machine, o: Operand, cy: u8) -> (StepResult, Machine) {
    let (v, m1) = m.read(o.addr);
    let c = m1.cpu;
    let res = v >> 1u8;
    let m2 = m1.write(o.addr, res);
    (advance_spec(o, cy), m2.with_cpu(Cpu { status: with_nz(with_flag(c.status, CARRY, v & 0x01 != 0), res), ..c }))
}

/// Semantics of instruction `Nop`.
pub open spec fn spec_nop(m: Machine, o: Operand, cy: u8) -> (StepResult, Machine) {
    (advance_spec(o, cy), m)
}

/// Semantics of instruction `Ora`.
pub open spec fn spec_ora(m: Machine, o: Operand, cy: u8) -> (StepResult, Machine) {
    let (v, m1) = m.read(o.addr);
    let c = m1.cpu;
    let res = c.a | v;
    (advance_spec(o, (cy + penalty(o)) as u8), m1.with_cpu(Cpu { a: res, status: with_nz(c.status, res), ..c }))
}

/// Semantics of instruction `Pha`.
pub open spec fn spec_pha(m: Machine, o: Operand, cy: u8) -> (StepResult, Machine) {
    (advance_spec(o, cy), m.push(m.cpu.a))
}

/// Semantics of instruction `Php`.
pub open spec fn spec_php(m: Machine, o: Operand, cy: u8) -> (StepResult, Machine) {
    (advance_spec(o, cy), m.push(m.cpu.status | BREAK | UNUSED))
}

/// Semantics of instruction `Pla`.
pub open spec fn spec_pla(m: Machine, o: Operand, cy: u8) -> (StepResult, Machine) {
    let (v, m1) = m.pop();
    (advance_spec(o, cy), m1.with_cpu(Cpu { a: v, status: with_nz(m1.cpu.status, v), ..m1.cpu }))
}

/// Semantics of instruction `Plp`.
pub open spec fn spec_plp(m: Machine, o: Operand, cy: u8) -> (StepResult, Machine) {
    let (v, m1) = m.pop();
    (advance_spec(o, cy), m1.with_cpu(Cpu { status: (v & !BREAK) | UNUSED, ..m1.cpu }))
}

/// Semantics of instruction `RolAcc`.
pub open spec fn spec_rol_acc(m: Machine, o: Operand, cy: u8) -> (StepResult, Machine) {
    let c = m.cpu;
    let oc: u8 = if flag(c.status, CARRY) { 1 } else { 0 };
    let res = (c.a << 1u8) | oc;
    (advance_spec(o, cy), m.with_cpu(Cpu { a: res, status: with_nz(with_flag(c.status, CARRY, c.a & 0x80 != 0), res), ..c }))
}

/// Semantics of instruction `RolMem`.
pub open spec fn spec_rol_mem(m: Machine, o: Operand, cy: u8) -> (StepResult, Machine) {
    let (v, m1) = m.read(o.addr);
    let c = m1.cpu;
    let oc: u8 = if flag(c.status, CARRY) { 1 } else { 0 };
    let res = (v << 1u8) | oc;
    let m2 = m1.write(o.addr, res);
    (advance_spec(o, cy), m2.with_cpu(Cpu { status: with_nz(with_flag(c.status, CARRY, v & 0x80 != 0), res), ..c }))
}

/// Semantics of instruction `RorAcc`.
pub open spec fn spec_ror_acc(m: Machine, o: Operand, cy: u8) -> (StepResult, Machine) {
    let c = m.cpu;
    let oc: u8 = if flag(c.status, CARRY) { 1 } else { 0 };
    let res = (c.a >> 1u8) | (oc << 7u8);
    (advance_spec(o, cy), m.with_cpu(Cpu { a: res, status: with_nz(with_flag(c.status, CARRY, c.a & 0x01 != 0), res), ..c }))
}

/// Semantics of instruction `RorMem`.
pub open spec fn spec_ror_mem(m: Machine, o: Operand, cy: u8) -> (StepResult, Machine) {
    let (v, m1) = m.read(o.addr);
    let c = m1.cpu;
    let oc: u8 = if flag(c.status, CARRY) { 1 } else { 0 };
    let res = (v >> 1u8) | (oc << 7u8);
    let m2 = m1.write(o.addr, res);
    (advance_spec(o, cy), m2.with_cpu(Cpu { status: with_nz(with_flag(c.status, CARRY, v & 0x01 != 0), res), ..c }))
}

/// Semantics of instruction `Rti`.
pub open spec fn spec_rti(m: Machine, o: Operand, cy: u8) -> (StepResult, Machine) {
    let (v, m1) = m.pop();
    let m2 = m1.with_cpu(Cpu { status: (v & !BREAK) | UNUSED, ..m1.cpu });
    let (a, m3) = m2.pop_u16();
    (Ok(StepOk::Jump { cycles: cy }), m3.with_cpu(Cpu { pc: a, ..m3.cpu }))
}

/// Semantics of instruction `Rts`.
pub open spec fn spec_rts(m: Machine, o: Operand, cy: u8) -> (StepResult, Machine) {
    let (a, m1) = m.pop_u16();
    (Ok(StepOk::Jump { cycles: cy }), m1.with_cpu(Cpu { pc: wadd16(a, 1), ..m1.cpu }))
}

/// Semantics of instruction `Sbc`.
pub open spec fn spec_sbc(m: Machine, o: Operand, cy: u8) -> (StepResult, Machine) {
    let (v, m1) = m.read(o.addr);
    let c = m1.cpu;
    let carry: u16 = if flag(c.status, CARRY) { 1 } else { 0 };
    let diff = wsub16(wsub16(c.a as u16, v as u16), (1 - carry) as u16);
    let res = diff as u8;
    let st = with_flag(with_flag(c.status, CARRY, diff < 0x100), OVERFLOW, (c.a ^ res) & (!v ^ res) & 0x80 != 0);
    (advance_spec(o, (cy + penalty(o)) as u8), m1.with_cpu(Cpu { a: res, status: with_nz(st, res), ..c }))
}

/// Semantics of instruction `Sec`.
pub open spec fn spec_sec(m: Machine, o: Operand, cy: u8) -> (StepResult, Machine) {
    (advance_spec(o, cy), m.with_cpu(Cpu { status: with_flag(m.cpu.status, CARRY, true), ..m.cpu }))
}

/// Semantics of instruction `Sed`.
pub open spec fn spec_sed(m: Machine, o: Operand, cy: u8) -> (StepResult, Machine) {
    (advance_spec(o, cy), m.with_cpu(Cpu { status: with_flag(m.cpu.status, DECIMAL, true), ..m.cpu }))
}

/// Semantics of instruction `Sei`.
pub open spec fn spec_sei(m: Machine, o: Operand, cy: u8) -> (StepResult, Machine) {
    (advance_spec(o, cy), m.with_cpu(Cpu { status: with_flag(m.cpu.status, IRQ_DISABLE, true), ..m.cpu }))
}

/// Semantics of instruction `Sta`.
pub open spec fn spec_sta(m: Machine, o: Operand, cy: u8) -> (StepResult, Machine) {
    (advance_spec(o, cy), m.write(o.addr, m.cpu.a))
}

/// Semantics of instruction `Stx`.
pub open spec fn spec_stx(m: Machine, o: Operand, cy: u8) -> (StepResult, Machine) {
    (advance_spec(o, cy), m.write(o.addr, m.cpu.x))
}

/// Semantics of instruction `Sty`.
pub open spec fn spec_sty(m: Machine, o: Operand, cy: u8) -> (StepResult, Machine) {
    (advance_spec(o, cy), m.write(o.addr, m.cpu.y))
}

/// Semantics of instruction `Tax`.
pub open spec fn spec_tax(m: Machine, o: Operand, cy: u8) -> (StepResult, Machine) {
    let c = m.cpu;
    (advance_spec(o, cy), m.with_cpu(Cpu { x: c.a, status: with_nz(c.status, c.a), ..c }))
}

/// Semantics of instruction `Tay`.
pub open spec fn spec_tay(m: Machine, o: Operand, cy: u8) -> (StepResult, Machine) {
    let c = m.cpu;
    (advance_spec(o, cy), m.with_cpu(Cpu { y: c.a, status: with_nz(c.status, c.a), ..c }))
}

/// Semantics of instruction `Tsx`.
pub open spec fn spec_tsx(m: Machine, o: Operand, cy: u8) -> (StepResult, Machine) {
    let c = m.cpu;
    (advance_spec(o, cy), m.with_cpu(Cpu { x: c.sp, status: with_nz(c.status, c.sp), ..c }))
}

/// Semantics of instruction `Txa`.
pub open spec fn spec_txa(m: Machine, o: Operand, cy: u8) -> (StepResult, Machine) {
    let c = m.cpu;
    (advance_spec(o, cy), m.with_cpu(Cpu { a: c.x, status: with_nz(c.status, c.x), ..c }))
}

/// Semantics of instruction `Txs`.
pub open spec fn spec_txs(m: Machine, o: Operand, cy: u8) -> (StepResult, Machine) {
    (advance_spec(o, cy), m.with_cpu(Cpu { sp: m.cpu.x, ..m.cpu }))
}

/// Semantics of instruction `Tya`.
pub open spec fn spec_tya(m: Machine, o: Operand, cy: u8) -> (StepResult, Machine) {
    let c = m.cpu;
    (advance_spec(o, cy), m.with_cpu(Cpu { a: c.y, status: with_nz(c.status, c.y), ..c }))
}

/// What instruction `op` does to the machine with the resolved operand
/// `o` and base cycle count `cy`: the step result and the machine after it.
pub open spec fn execute(op: Op, m: Machine, o: Operand, cy: u8) -> (StepResult, Machine) {
    match op {
        Op::Adc => spec_adc(m, o, cy),
        Op::And => spec_and(m, o, cy),
        Op::AslAcc => spec_asl_acc(m, o, cy),
        Op::AslMem => spec_asl_mem(m, o, cy),
        Op::Bcc => spec_bcc(m, o, cy),
        Op::Bcs => spec_bcs(m, o, cy),
        Op::Beq => spec_beq(m, o, cy),
        Op::Bmi => spec_bmi(m, o, cy),
        Op::Bne => spec_bne(m, o, cy),
        Op::Bpl => spec_bpl(m, o, cy),
        Op::Bvc => spec_bvc(m, o, cy),
        Op::Bvs => spec_bvs(m, o, cy),
        Op::Bit => spec_bit(m, o, cy),
        Op::Brk => spec_brk(m, o, cy),
        Op::Clc => spec_clc(m, o, cy),
        Op::Cld => spec_cld(m, o, cy),
        Op::Cli => spec_cli(m, o, cy),
        Op::Clv => spec_clv(m, o, cy),
        Op::Cmp => spec_compare_acc(m, o, cy),
        Op::Cpx => spec_cpx(m, o, cy),
        Op::Cpy => spec_cpy(m, o, cy),
        Op::Dec => spec_dec(m, o, cy),
        Op::Dex => spec_dex(m, o, cy),
        Op::Dey => spec_dey(m, o, cy),
        Op::Eor => spec_eor(m, o, cy),
        Op::Inc => spec_inc(m, o, cy),
        Op::Inx => spec_inx(m, o, cy),
        Op::Iny => spec_iny(m, o, cy),
        Op::Jmp => spec_jmp(m, o, cy),
        Op::Jsr => spec_jsr(m, o, cy),
        Op::Lda => spec_lda(m, o, cy),
        Op::Ldx => spec_ldx(m, o, cy),
        Op::Ldy => spec_ldy(m, o, cy),
        Op::LsrAcc => spec_lsr_acc(m, o, cy),
        Op::LsrMem => spec_lsr_mem(m, o, cy),
        Op::Nop => spec_nop(m, o, cy),
        Op::Ora => spec_ora(m, o, cy),
        Op::Pha => spec_pha(m, o, cy),
        Op::Php => spec_php(m, o, cy),
        Op::Pla => spec_pla(m, o, cy),
        Op::Plp => spec_plp(m, o, cy),
        Op::RolAcc => spec_rol_acc(m, o, cy),
        Op::RolMem => spec_rol_mem(m, o, cy),
        Op::RorAcc => spec_ror_acc(m, o, cy),
        Op::RorMem => spec_ror_mem(m, o, cy),
        Op::Rti => spec_rti(m, o, cy),
        Op::Rts => spec_rts(m, o, cy),
        Op::Sbc => spec_sbc(m, o, cy),
        Op::Sec => spec_sec(m, o, cy),
        Op::Sed => spec_sed(m, o, cy),
        Op::Sei => spec_sei(m, o, cy),
        Op::Sta => spec_sta(m, o, cy),
        Op::Stx => spec_stx(m, o, cy),
        Op::Sty => spec_sty(m, o, cy),
        Op::Tax => spec_tax(m, o, cy),
        Op::Tay => spec_tay(m, o, cy),
        Op::Tsx => spec_tsx(m, o, cy),
        Op::Txa => spec_txa(m, o, cy),
        Op::Txs => spec_txs(m, o, cy),
        Op::Tya => spec_tya(m, o, cy),
    }
}

/// Returns 1 if the operand crossed a page, 0 otherwise.
pub fn page_penalty(op: Operand) -> (p: u8)
    ensures
        p == penalty(op),
{
    if op.page_cross {
        1
    } else {
        0
    }
}

/// A normal step result.
pub fn advance(op: Operand, cycles: u8) -> (r: StepResult)
    ensures
        r == advance_spec(op, cycles),
{
    Ok(StepOk::Advance { size: op.size, cycles })
}

/// Generic compare: sets C when `reg >= val`, and Z/N from `reg - val`.
pub fn compare(cpu: &mut Cpu, reg: u8, val: u8)
    ensures
        *final(cpu) == (Cpu { status: with_nz(with_flag(old(cpu).status, CARRY, reg >= val), wsub8(reg, val)), ..*old(cpu) }),
{
    let diff = reg.wrapping_sub(val);
    cpu.set_flag(CARRY, reg >= val);
    cpu.update_nz(diff);
}

/// Generic branch: if `condition` holds, jump to the operand address.
pub fn branch(cpu: &mut Cpu, op: Operand, cy: u8, condition: bool) -> (r: StepResult)
    requires
        cy <= 253,
    ensures
        condition ==> r == Ok::<StepOk, StepErr>(StepOk::Jump { cycles: (cy + 1 + penalty(op)) as u8 })
            && *final(cpu) == (Cpu { pc: op.addr, ..*old(cpu) }),
        !condition ==> r == advance_spec(op, cy) && *final(cpu) == *old(cpu),
{
    if condition {
        cpu.pc = op.addr;
        Ok(StepOk::Jump { cycles: cy + 1 + page_penalty(op) })
    } else {
        advance(op, cy)
    }
}

/// ADC — add with carry.
pub fn adc(cpu: &mut Cpu, bus: &mut Bus, ppu: &mut Ppu, op: Operand, cy: u8) -> (r: StepResult)
    requires
        old(bus)@.wf(),
        old(ppu)@.wf(),
        cy <= 253,
    ensures
        (r, machine(*final(cpu), final(bus)@, final(ppu)@)) == spec_adc(machine(*old(cpu), old(bus)@, old(ppu)@), op, cy),
        final(bus)@.wf(),
        final(ppu)@.wf(),
{
    let val = bus.read(op.addr, ppu);
    let carry: u16 = if cpu.get_flag(CARRY) { 1 } else { 0 };
    let sum = (cpu.a as u16) + (val as u16) + carry;
    let result = sum as u8;
    cpu.set_flag(CARRY, sum > 0xFF);
    cpu.set_flag(OVERFLOW, (cpu.a ^ result) & (val ^ result) & 0x80 != 0);
    cpu.a = result;
    cpu.update_nz(result);
    advance(op, cy + page_penalty(op))
}

/// AND — logical AND with the accumulator.
pub fn and(cpu: &mut Cpu, bus: &mut Bus, ppu: &mut Ppu, op: Operand, cy: u8) -> (r: StepResult)
    requires
        old(bus)@.wf(),
        old(ppu)@.wf(),
        cy <= 253,
    ensures
        (r, machine(*final(cpu), final(bus)@, final(ppu)@)) == spec_and(machine(*old(cpu), old(bus)@, old(ppu)@), op, cy),
        final(bus)@.wf(),
        final(ppu)@.wf(),
{
    let val = bus.read(op.addr, ppu);
    cpu.a = cpu.a & val;
    cpu.update_nz(cpu.a);
    advance(op, cy + page_penalty(op))
}

/// ASL — arithmetic shift left (accumulator).
pub fn asl_acc(cpu: &mut Cpu, _bus: &mut Bus, _ppu: &mut Ppu, op: Operand, cy: u8) -> (r: StepResult)
    requires
        old(_bus)@.wf(),
        old(_ppu)@.wf(),
        cy <= 253,
    ensures
        (r, machine(*final(cpu), final(_bus)@, final(_ppu)@)) == spec_asl_acc(machine(*old(cpu), old(_bus)@, old(_ppu)@), op, cy),
        final(_bus)@.wf(),
        final(_ppu)@.wf(),
{
    let res = cpu.a << 1;
    cpu.set_flag(CARRY, cpu.a & 0x80 != 0);
    cpu.a = res;
    cpu.update_nz(cpu.a);
    advance(op, cy)
}

/// ASL — arithmetic shift left (memory).
pub fn asl_mem(cpu: &mut Cpu, bus: &mut Bus, ppu: &mut Ppu, op: Operand, cy: u8) -> (r: StepResult)
    requires
        old(bus)@.wf(),
        old(ppu)@.wf(),
        cy <= 253,
    ensures
        (r, machine(*final(cpu), final(bus)@, final(ppu)@)) == spec_asl_mem(machine(*old(cpu), old(bus)@, old(ppu)@), op, cy),
        final(bus)@.wf(),
        final(ppu)@.wf(),
{
    let val = bus.read(op.addr, ppu);
    cpu.set_flag(CARRY, val & 0x80 != 0);
    let res = val << 1;
    bus.write(op.addr, res, ppu);
    cpu.update_nz(res);
    advance(op, cy)
}

/// BCC — branch if carry clear.
pub fn bcc(cpu: &mut Cpu, _bus: &mut Bus, _ppu: &mut Ppu, op: Operand, cy: u8) -> (r: StepResult)
    requires
        old(_bus)@.wf(),
        old(_ppu)@.wf(),
        cy <= 253,
    ensures
        (r, machine(*final(cpu), final(_bus)@, final(_ppu)@)) == spec_bcc(machine(*old(cpu), old(_bus)@, old(_ppu)@), op, cy),
        final(_bus)@.wf(),
        final(_ppu)@.wf(),
{
    let cond = !cpu.get_flag(CARRY);
    branch(cpu, op, cy, cond)
}

/// BCS — branch if carry set.
pub fn bcs(cpu: &mut Cpu, _bus: &mut Bus, _ppu: &mut Ppu, op: Operand, cy: u8) -> (r: StepResult)
    requires
        old(_bus)@.wf(),
        old(_ppu)@.wf(),
        cy <= 253,
    ensures
        (r, machine(*final(cpu), final(_bus)@, final(_ppu)@)) == spec_bcs(machine(*old(cpu), old(_bus)@, old(_ppu)@), op, cy),
        final(_bus)@.wf(),
        final(_ppu)@.wf(),
{
    let cond = cpu.get_flag(CARRY);
    branch(cpu, op, cy, cond)
}

/// BEQ — branch if zero set.
pub fn beq(cpu: &mut Cpu, _bus: &mut Bus, _ppu: &mut Ppu, op: Operand, cy: u8) -> (r: StepResult)
    requires
        old(_bus)@.wf(),
        old(_ppu)@.wf(),
        cy <= 253,
    ensures
        (r, machine(*final(cpu), final(_bus)@, final(_ppu)@)) == spec_beq(machine(*old(cpu), old(_bus)@, old(_ppu)@), op, cy),
        final(_bus)@.wf(),
        final(_ppu)@.wf(),
{
    let cond = cpu.get_flag(ZERO);
    branch(cpu, op, cy, cond)
}

/// BMI — branch if negative set.
pub fn bmi(cpu: &mut Cpu, _bus: &mut Bus, _ppu: &mut Ppu, op: Operand, cy: u8) -> (r: StepResult)
    requires
        old(_bus)@.wf(),
        old(_ppu)@.wf(),
        cy <= 253,
    ensures
        (r, machine(*final(cpu), final(_bus)@, final(_ppu)@)) == spec_bmi(machine(*old(cpu), old(_bus)@, old(_ppu)@), op, cy),
        final(_bus)@.wf(),
        final(_ppu)@.wf(),
{
    let cond = cpu.get_flag(NEGATIVE);
    branch(cpu, op, cy, cond)
}

/// BNE — branch if zero clear.
pub fn bne(cpu: &mut Cpu, _bus: &mut Bus, _ppu: &mut Ppu, op: Operand, cy: u8) -> (r: StepResult)
    requires
        old(_bus)@.wf(),
        old(_ppu)@.wf(),
        cy <= 253,
    ensures
        (r, machine(*final(cpu), final(_bus)@, final(_ppu)@)) == spec_bne(machine(*old(cpu), old(_bus)@, old(_ppu)@), op, cy),
        final(_bus)@.wf(),
        final(_ppu)@.wf(),
{
    let cond = !cpu.get_flag(ZERO);
    branch(cpu, op, cy, cond)
}

/// BPL — branch if negative clear.
pub fn bpl(cpu: &mut Cpu, _bus: &mut Bus, _ppu: &mut Ppu, op: Operand, cy: u8) -> (r: StepResult)
    requires
        old(_bus)@.wf(),
        old(_ppu)@.wf(),
        cy <= 253,
    ensures
        (r, machine(*final(cpu), final(_bus)@, final(_ppu)@)) == spec_bpl(machine(*old(cpu), old(_bus)@, old(_ppu)@), op, cy),
        final(_bus)@.wf(),
        final(_ppu)@.wf(),
{
    let cond = !cpu.get_flag(NEGATIVE);
    branch(cpu, op, cy, cond)
}

/// BVC — branch if overflow clear.
pub fn bvc(cpu: &mut Cpu, _bus: &mut Bus, _ppu: &mut Ppu, op: Operand, cy: u8) -> (r: StepResult)
    requires
        old(_bus)@.wf(),
        old(_ppu)@.wf(),
        cy <= 253,
    ensures
        (r, machine(*final(cpu), final(_bus)@, final(_ppu)@)) == spec_bvc(machine(*old(cpu), old(_bus)@, old(_ppu)@), op, cy),
        final(_bus)@.wf(),
        final(_ppu)@.wf(),
{
    let cond = !cpu.get_flag(OVERFLOW);
    branch(cpu, op, cy, cond)
}

/// BVS — branch if overflow set.
pub fn bvs(cpu: &mut Cpu, _bus: &mut Bus, _ppu: &mut Ppu, op: Operand, cy: u8) -> (r: StepResult)
    requires
        old(_bus)@.wf(),
        old(_ppu)@.wf(),
        cy <= 253,
    ensures
        (r, machine(*final(cpu), final(_bus)@, final(_ppu)@)) == spec_bvs(machine(*old(cpu), old(_bus)@, old(_ppu)@), op, cy),
        final(_bus)@.wf(),
        final(_ppu)@.wf(),
{
    let cond = cpu.get_flag(OVERFLOW);
    branch(cpu, op, cy, cond)
}

/// BIT — test memory against the accumulator: Z from A & M, V and N from bits 6 and 7 of M.
pub fn bit(cpu: &mut Cpu, bus: &mut Bus, ppu: &mut Ppu, op: Operand, cy: u8) -> (r: StepResult)
    requires
        old(bus)@.wf(),
        old(ppu)@.wf(),
        cy <= 253,
    ensures
        (r, machine(*final(cpu), final(bus)@, final(ppu)@)) == spec_bit(machine(*old(cpu), old(bus)@, old(ppu)@), op, cy),
        final(bus)@.wf(),
        final(ppu)@.wf(),
{
    let val = bus.read(op.addr, ppu);
    cpu.set_flag(ZERO, cpu.a & val == 0);
    cpu.set_flag(OVERFLOW, val & 0x40 != 0);
    cpu.set_flag(NEGATIVE, val & 0x80 != 0);
    advance(op, cy)
}

/// BRK — halts execution with `StepErr::Break`.
pub fn brk(cpu: &mut Cpu, _bus: &mut Bus, _ppu: &mut Ppu, op: Operand, cy: u8) -> (r: StepResult)
    requires
        old(_bus)@.wf(),
        old(_ppu)@.wf(),
        cy <= 253,
    ensures
        (r, machine(*final(cpu), final(_bus)@, final(_ppu)@)) == spec_brk(machine(*old(cpu), old(_bus)@, old(_ppu)@), op, cy),
        final(_bus)@.wf(),
        final(_ppu)@.wf(),
{
    Err(StepErr::Break)
}

/// CLC — clear the carry flag.
pub fn clc(cpu: &mut Cpu, _bus: &mut Bus, _ppu: &mut Ppu, op: Operand, cy: u8) -> (r: StepResult)
    requires
        old(_bus)@.wf(),
        old(_ppu)@.wf(),
        cy <= 253,
    ensures
        (r, machine(*final(cpu), final(_bus)@, final(_ppu)@)) == spec_clc(machine(*old(cpu), old(_bus)@, old(_ppu)@), op, cy),
        final(_bus)@.wf(),
        final(_ppu)@.wf(),
{
    cpu.set_flag(CARRY, false);
    advance(op, cy)
}

/// CLD — clear the decimal flag.
pub fn cld(cpu: &mut Cpu, _bus: &mut Bus, _ppu: &mut Ppu, op: Operand, cy: u8) -> (r: StepResult)
    requires
        old(_bus)@.wf(),
        old(_ppu)@.wf(),
        cy <= 253,
    ensures
        (r, machine(*final(cpu), final(_bus)@, final(_ppu)@)) == spec_cld(machine(*old(cpu), old(_bus)@, old(_ppu)@), op, cy),
        final(_bus)@.wf(),
        final(_ppu)@.wf(),
{
    cpu.set_flag(DECIMAL, false);
    advance(op, cy)
}

/// CLI — clear the irq disable flag.
pub fn cli(cpu: &mut Cpu, _bus: &mut Bus, _ppu: &mut Ppu, op: Operand, cy: u8) -> (r: StepResult)
    requires
        old(_bus)@.wf(),
        old(_ppu)@.wf(),
        cy <= 253,
    ensures
        (r, machine(*final(cpu), final(_bus)@, final(_ppu)@)) == spec_cli(machine(*old(cpu), old(_bus)@, old(_ppu)@), op, cy),
        final(_bus)@.wf(),
        final(_ppu)@.wf(),
{
    cpu.set_flag(IRQ_DISABLE, false);
    advance(op, cy)
}

/// CLV — clear the overflow flag.
pub fn clv(cpu: &mut Cpu, _bus: &mut Bus, _ppu: &mut Ppu, op: Operand, cy: u8) -> (r: StepResult)
    requires
        old(_bus)@.wf(),
        old(_ppu)@.wf(),
        cy <= 253,
    ensures
        (r, machine(*final(cpu), final(_bus)@, final(_ppu)@)) == spec_clv(machine(*old(cpu), old(_bus)@, old(_ppu)@), op, cy),
        final(_bus)@.wf(),
        final(_ppu)@.wf(),
{
    cpu.set_flag(OVERFLOW, false);
    advance(op, cy)
}

/// CMP — compare the accumulator with memory: C = reg >= M, Z/N from reg - M.
pub fn cmp(cpu: &mut Cpu, bus: &mut Bus, ppu: &mut Ppu, op: Operand, cy: u8) -> (r: StepResult)
    requires
        old(bus)@.wf(),
        old(ppu)@.wf(),
        cy <= 253,
    ensures
        (r, machine(*final(cpu), final(bus)@, final(ppu)@)) == spec_compare_acc(machine(*old(cpu), old(bus)@, old(ppu)@), op, cy),
        final(bus)@.wf(),
        final(ppu)@.wf(),
{
    let reg = cpu.a;
    let val = bus.read(op.addr, ppu);
    compare(cpu, reg, val);
    advance(op, cy + page_penalty(op))
}

/// CPX — compare X with memory: C = reg >= M, Z/N from reg - M.
pub fn cpx(cpu: &mut Cpu, bus: &mut Bus, ppu: &mut Ppu, op: Operand, cy: u8) -> (r: StepResult)
    requires
        old(bus)@.wf(),
        old(ppu)@.wf(),
        cy <= 253,
    ensures
        (r, machine(*final(cpu), final(bus)@, final(ppu)@)) == spec_cpx(machine(*old(cpu), old(bus)@, old(ppu)@), op, cy),
        final(bus)@.wf(),
        final(ppu)@.wf(),
{
    let reg = cpu.x;
    let val = bus.read(op.addr, ppu);
    compare(cpu, reg, val);
    advance(op, cy)
}

/// CPY — compare Y with memory: C = reg >= M, Z/N from reg - M.
pub fn cpy(cpu: &mut Cpu, bus: &mut Bus, ppu: &mut Ppu, op: Operand, cy: u8) -> (r: StepResult)
    requires
        old(bus)@.wf(),
        old(ppu)@.wf(),
        cy <= 253,
    ensures
        (r, machine(*final(cpu), final(bus)@, final(ppu)@)) == spec_cpy(machine(*old(cpu), old(bus)@, old(ppu)@), op, cy),
        final(bus)@.wf(),
        final(ppu)@.wf(),
{
    let reg = cpu.y;
    let val = bus.read(op.addr, ppu);
    compare(cpu, reg, val);
    advance(op, cy)
}

/// DEC — decrement memory.
pub fn dec(cpu: &mut Cpu, bus: &mut Bus, ppu: &mut Ppu, op: Operand, cy: u8) -> (r: StepResult)
    requires
        old(bus)@.wf(),
        old(ppu)@.wf(),
        cy <= 253,
    ensures
        (r, machine(*final(cpu), final(bus)@, final(ppu)@)) == spec_dec(machine(*old(cpu), old(bus)@, old(ppu)@), op, cy),
        final(bus)@.wf(),
        final(ppu)@.wf(),
{
    let val = bus.read(op.addr, ppu).wrapping_sub(1);
    bus.write(op.addr, val, ppu);
    cpu.update_nz(val);
    advance(op, cy)
}

/// DEX — decrement X.
pub fn dex(cpu: &mut Cpu, _bus: &mut Bus, _ppu: &mut Ppu, op: Operand, cy: u8) -> (r: StepResult)
    requires
        old(_bus)@.wf(),
        old(_ppu)@.wf(),
        cy <= 253,
    ensures
        (r, machine(*final(cpu), final(_bus)@, final(_ppu)@)) == spec_dex(machine(*old(cpu), old(_bus)@, old(_ppu)@), op, cy),
        final(_bus)@.wf(),
        final(_ppu)@.wf(),
{
    cpu.x = cpu.x.wrapping_sub(1);
    cpu.update_nz(cpu.x);
    advance(op, cy)
}

/// DEY — decrement Y.
pub fn dey(cpu: &mut Cpu, _bus: &mut Bus, _ppu: &mut Ppu, op: Operand, cy: u8) -> (r: StepResult)
    requires
        old(_bus)@.wf(),
        old(_ppu)@.wf(),
        cy <= 253,
    ensures
        (r, machine(*final(cpu), final(_bus)@, final(_ppu)@)) == spec_dey(machine(*old(cpu), old(_bus)@, old(_ppu)@), op, cy),
        final(_bus)@.wf(),
        final(_ppu)@.wf(),
{
    cpu.y = cpu.y.wrapping_sub(1);
    cpu.update_nz(cpu.y);
    advance(op, cy)
}

/// EOR — exclusive OR with the accumulator.
pub fn eor(cpu: &mut Cpu, bus: &mut Bus, ppu: &mut Ppu, op: Operand, cy: u8) -> (r: StepResult)
    requires
        old(bus)@.wf(),
        old(ppu)@.wf(),
        cy <= 253,
    ensures
        (r, machine(*final(cpu), final(bus)@, final(ppu)@)) == spec_eor(machine(*old(cpu), old(bus)@, old(ppu)@), op, cy),
        final(bus)@.wf(),
        final(ppu)@.wf(),
{
    let val = bus.read(op.addr, ppu);
    cpu.a = cpu.a ^ val;
    cpu.update_nz(cpu.a);
    advance(op, cy + page_penalty(op))
}

/// INC — increment memory.
pub fn inc(cpu: &mut Cpu, bus: &mut Bus, ppu: &mut Ppu, op: Operand, cy: u8) -> (r: StepResult)
    requires
        old(bus)@.wf(),
        old(ppu)@.wf(),
        cy <= 253,
    ensures
        (r, machine(*final(cpu), final(bus)@, final(ppu)@)) == spec_inc(machine(*old(cpu), old(bus)@, old(ppu)@), op, cy),
        final(bus)@.wf(),
        final(ppu)@.wf(),
{
    let val = bus.read(op.addr, ppu).wrapping_add(1);
    bus.write(op.addr, val, ppu);
    cpu.update_nz(val);
    advance(op, cy)
}

/// INX — increment X.
pub fn inx(cpu: &mut Cpu, _bus: &mut Bus, _ppu: &mut Ppu, op: Operand, cy: u8) -> (r: StepResult)
    requires
        old(_bus)@.wf(),
        old(_ppu)@.wf(),
        cy <= 253,
    ensures
        (r, machine(*final(cpu), final(_bus)@, final(_ppu)@)) == spec_inx(machine(*old(cpu), old(_bus)@, old(_ppu)@), op, cy),
        final(_bus)@.wf(),
        final(_ppu)@.wf(),
{
    cpu.x = cpu.x.wrapping_add(1);
    cpu.update_nz(cpu.x);
    advance(op, cy)
}

/// INY — increment Y.
pub fn iny(cpu: &mut Cpu, _bus: &mut Bus, _ppu: &mut Ppu, op: Operand, cy: u8) -> (r: StepResult)
    requires
        old(_bus)@.wf(),
        old(_ppu)@.wf(),
        cy <= 253,
    ensures
        (r, machine(*final(cpu), final(_bus)@, final(_ppu)@)) == spec_iny(machine(*old(cpu), old(_bus)@, old(_ppu)@), op, cy),
        final(_bus)@.wf(),
        final(_ppu)@.wf(),
{
    cpu.y = cpu.y.wrapping_add(1);
    cpu.update_nz(cpu.y);
    advance(op, cy)
}

/// JMP — jump to the address.
pub fn jmp(cpu: &mut Cpu, _bus: &mut Bus, _ppu: &mut Ppu, op: Operand, cy: u8) -> (r: StepResult)
    requires
        old(_bus)@.wf(),
        old(_ppu)@.wf(),
        cy <= 253,
    ensures
        (r, machine(*final(cpu), final(_bus)@, final(_ppu)@)) == spec_jmp(machine(*old(cpu), old(_bus)@, old(_ppu)@), op, cy),
        final(_bus)@.wf(),
        final(_ppu)@.wf(),
{
    cpu.pc = op.addr;
    Ok(StepOk::Jump { cycles: cy })
}

/// JSR — push the return address minus one and jump.
pub fn jsr(cpu: &mut Cpu, bus: &mut Bus, ppu: &mut Ppu, op: Operand, cy: u8) -> (r: StepResult)
    requires
        old(bus)@.wf(),
        old(ppu)@.wf(),
        cy <= 253,
    ensures
        (r, machine(*final(cpu), final(bus)@, final(ppu)@)) == spec_jsr(machine(*old(cpu), old(bus)@, old(ppu)@), op, cy),
        final(bus)@.wf(),
        final(ppu)@.wf(),
{
    let ret = cpu.pc.wrapping_add(op.size as u16).wrapping_sub(1);
    cpu.push_u16(bus, ppu, ret);
    cpu.pc = op.addr;
    Ok(StepOk::Jump { cycles: cy })
}

/// LDA — load A from memory.
pub fn lda(cpu: &mut Cpu, bus: &mut Bus, ppu: &mut Ppu, op: Operand, cy: u8) -> (r: StepResult)
    requires
        old(bus)@.wf(),
        old(ppu)@.wf(),
        cy <= 253,
    ensures
        (r, machine(*final(cpu), final(bus)@, final(ppu)@)) == spec_lda(machine(*old(cpu), old(bus)@, old(ppu)@), op, cy),
        final(bus)@.wf(),
        final(ppu)@.wf(),
{
    cpu.a = bus.read(op.addr, ppu);
    cpu.update_nz(cpu.a);
    advance(op, cy + page_penalty(op))
}

/// LDX — load X from memory.
pub fn ldx(cpu: &mut Cpu, bus: &mut Bus, ppu: &mut Ppu, op: Operand, cy: u8) -> (r: StepResult)
    requires
        old(bus)@.wf(),
        old(ppu)@.wf(),
        cy <= 253,
    ensures
        (r, machine(*final(cpu), final(bus)@, final(ppu)@)) == spec_ldx(machine(*old(cpu), old(bus)@, old(ppu)@), op, cy),
        final(bus)@.wf(),
        final(ppu)@.wf(),
{
    cpu.x = bus.read(op.addr, ppu);
    cpu.update_nz(cpu.x);
    advance(op, cy + page_penalty(op))
}

/// LDY — load Y from memory.
pub fn ldy(cpu: &mut Cpu, bus: &mut Bus, ppu: &mut Ppu, op: Operand, cy: u8) -> (r: StepResult)
    requires
        old(bus)@.wf(),
        old(ppu)@.wf(),
        cy <= 253,
    ensures
        (r, machine(*final(cpu), final(bus)@, final(ppu)@)) == spec_ldy(machine(*old(cpu), old(bus)@, old(ppu)@), op, cy),
        final(bus)@.wf(),
        final(ppu)@.wf(),
{
    cpu.y = bus.read(op.addr, ppu);
    cpu.update_nz(cpu.y);
    advance(op, cy + page_penalty(op))
}

/// LSR — logical shift right (accumulator).
pub fn lsr_acc(cpu: &mut Cpu, _bus: &mut Bus, _ppu: &mut Ppu, op: Operand, cy: u8) -> (r: StepResult)
    requires
        old(_bus)@.wf(),
        old(_ppu)@.wf(),
        cy <= 253,
    ensures
        (r, machine(*final(cpu), final(_bus)@, final(_ppu)@)) == spec_lsr_acc(machine(*old(cpu), old(_bus)@, old(_ppu)@), op, cy),
        final(_bus)@.wf(),
        final(_ppu)@.wf(),
{
    let res = cpu.a >> 1;
    cpu.set_flag(CARRY, cpu.a & 0x01 != 0);
    cpu.a = res;
    cpu.update_nz(cpu.a);
    advance(op, cy)
}

/// LSR — logical shift right (memory).
pub fn lsr_mem(cpu: &mut Cpu, bus: &mut Bus, ppu: &mut Ppu, op: Operand, cy: u8) -> (r: StepResult)
    requires
        old(bus)@.wf(),
        old(ppu)@.wf(),
        cy <= 253,
    ensures
        (r, machine(*final(cpu), final(bus)@, final(ppu)@)) == spec_lsr_mem(machine(*old(cpu), old(bus)@, old(ppu)@), op, cy),
        final(bus)@.wf(),
        final(ppu)@.wf(),
{
    let val = bus.read(op.addr, ppu);
    cpu.set_flag(CARRY, val & 0x01 != 0);
    let res = val >> 1;
    bus.write(op.addr, res, ppu);
    cpu.update_nz(res);
    advance(op, cy)
}

/// NOP — no operation.
pub fn nop(cpu: &mut Cpu, _bus: &mut Bus, _ppu: &mut Ppu, op: Operand, cy: u8) -> (r: StepResult)
    requires
        old(_bus)@.wf(),
        old(_ppu)@.wf(),
        cy <= 253,
    ensures
        (r, machine(*final(cpu), final(_bus)@, final(_ppu)@)) == spec_nop(machine(*old(cpu), old(_bus)@, old(_ppu)@), op, cy),
        final(_bus)@.wf(),
        final(_ppu)@.wf(),
{
    advance(op, cy)
}

/// ORA — logical OR with the accumulator.
pub fn ora(cpu: &mut Cpu, bus: &mut Bus, ppu: &mut Ppu, op: Operand, cy: u8) -> (r: StepResult)
    requires
        old(bus)@.wf(),
        old(ppu)@.wf(),
        cy <= 253,
    ensures
        (r, machine(*final(cpu), final(bus)@, final(ppu)@)) == spec_ora(machine(*old(cpu), old(bus)@, old(ppu)@), op, cy),
        final(bus)@.wf(),
        final(ppu)@.wf(),
{
    let val = bus.read(op.addr, ppu);
    cpu.a = cpu.a | val;
    cpu.update_nz(cpu.a);
    advance(op, cy + page_penalty(op))
}

/// PHA — push the accumulator.
pub fn pha(cpu: &mut Cpu, bus: &mut Bus, ppu: &mut Ppu, op: Operand, cy: u8) -> (r: StepResult)
    requires
        old(bus)@.wf(),
        old(ppu)@.wf(),
        cy <= 253,
    ensures
        (r, machine(*final(cpu), final(bus)@, final(ppu)@)) == spec_pha(machine(*old(cpu), old(bus)@, old(ppu)@), op, cy),
        final(bus)@.wf(),
        final(ppu)@.wf(),
{
    let a = cpu.a;
    cpu.push(bus, ppu, a);
    advance(op, cy)
}

/// PHP — push the status with Break and Unused set.
pub fn php(cpu: &mut Cpu, bus: &mut Bus, ppu: &mut Ppu, op: Operand, cy: u8) -> (r: StepResult)
    requires
        old(bus)@.wf(),
        old(ppu)@.wf(),
        cy <= 253,
    ensures
        (r, machine(*final(cpu), final(bus)@, final(ppu)@)) == spec_php(machine(*old(cpu), old(bus)@, old(ppu)@), op, cy),
        final(bus)@.wf(),
        final(ppu)@.wf(),
{
    let st = cpu.status | BREAK | UNUSED;
    cpu.push(bus, ppu, st);
    advance(op, cy)
}

/// PLA — pull the accumulator.
pub fn pla(cpu: &mut Cpu, bus: &mut Bus, ppu: &mut Ppu, op: Operand, cy: u8) -> (r: StepResult)
    requires
        old(bus)@.wf(),
        old(ppu)@.wf(),
        cy <= 253,
    ensures
        (r, machine(*final(cpu), final(bus)@, final(ppu)@)) == spec_pla(machine(*old(cpu), old(bus)@, old(ppu)@), op, cy),
        final(bus)@.wf(),
        final(ppu)@.wf(),
{
    cpu.a = cpu.pop(bus, ppu);
    cpu.update_nz(cpu.a);
    advance(op, cy)
}

/// PLP — pull the status (Break ignored, Unused set).
pub fn plp(cpu: &mut Cpu, bus: &mut Bus, ppu: &mut Ppu, op: Operand, cy: u8) -> (r: StepResult)
    requires
        old(bus)@.wf(),
        old(ppu)@.wf(),
        cy <= 253,
    ensures
        (r, machine(*final(cpu), final(bus)@, final(ppu)@)) == spec_plp(machine(*old(cpu), old(bus)@, old(ppu)@), op, cy),
        final(bus)@.wf(),
        final(ppu)@.wf(),
{
    let v = cpu.pop(bus, ppu);
    cpu.status = (v & !BREAK) | UNUSED;
    advance(op, cy)
}

/// ROL — rotate left through carry (accumulator).
pub fn rol_acc(cpu: &mut Cpu, _bus: &mut Bus, _ppu: &mut Ppu, op: Operand, cy: u8) -> (r: StepResult)
    requires
        old(_bus)@.wf(),
        old(_ppu)@.wf(),
        cy <= 253,
    ensures
        (r, machine(*final(cpu), final(_bus)@, final(_ppu)@)) == spec_rol_acc(machine(*old(cpu), old(_bus)@, old(_ppu)@), op, cy),
        final(_bus)@.wf(),
        final(_ppu)@.wf(),
{
    let old_carry: u8 = if cpu.get_flag(CARRY) { 1 } else { 0 };
    let res = (cpu.a << 1) | old_carry;
    cpu.set_flag(CARRY, cpu.a & 0x80 != 0);
    cpu.a = res;
    cpu.update_nz(cpu.a);
    advance(op, cy)
}

/// ROL — rotate left through carry (memory).
pub fn rol_mem(cpu: &mut Cpu, bus: &mut Bus, ppu: &mut Ppu, op: Operand, cy: u8) -> (r: StepResult)
    requires
        old(bus)@.wf(),
        old(ppu)@.wf(),
        cy <= 253,
    ensures
        (r, machine(*final(cpu), final(bus)@, final(ppu)@)) == spec_rol_mem(machine(*old(cpu), old(bus)@, old(ppu)@), op, cy),
        final(bus)@.wf(),
        final(ppu)@.wf(),
{
    let old_carry: u8 = if cpu.get_flag(CARRY) { 1 } else { 0 };
    let val = bus.read(op.addr, ppu);
    cpu.set_flag(CARRY, val & 0x80 != 0);
    let res = (val << 1) | old_carry;
    bus.write(op.addr, res, ppu);
    cpu.update_nz(res);
    advance(op, cy)
}

/// ROR — rotate right through carry (accumulator).
pub fn ror_acc(cpu: &mut Cpu, _bus: &mut Bus, _ppu: &mut Ppu, op: Operand, cy: u8) -> (r: StepResult)
    requires
        old(_bus)@.wf(),
        old(_ppu)@.wf(),
        cy <= 253,
    ensures
        (r, machine(*final(cpu), final(_bus)@, final(_ppu)@)) == spec_ror_acc(machine(*old(cpu), old(_bus)@, old(_ppu)@), op, cy),
        final(_bus)@.wf(),
        final(_ppu)@.wf(),
{
    let old_carry: u8 = if cpu.get_flag(CARRY) { 1 } else { 0 };
    let res = (cpu.a >> 1) | (old_carry << 7);
    cpu.set_flag(CARRY, cpu.a & 0x01 != 0);
    cpu.a = res;
    cpu.update_nz(cpu.a);
    advance(op, cy)
}

/// ROR — rotate right through carry (memory).
pub fn ror_mem(cpu: &mut Cpu, bus: &mut Bus, ppu: &mut Ppu, op: Operand, cy: u8) -> (r: StepResult)
    requires
        old(bus)@.wf(),
        old(ppu)@.wf(),
        cy <= 253,
    ensures
        (r, machine(*final(cpu), final(bus)@, final(ppu)@)) == spec_ror_mem(machine(*old(cpu), old(bus)@, old(ppu)@), op, cy),
        final(bus)@.wf(),
        final(ppu)@.wf(),
{
    let old_carry: u8 = if cpu.get_flag(CARRY) { 1 } else { 0 };
    let val = bus.read(op.addr, ppu);
    cpu.set_flag(CARRY, val & 0x01 != 0);
    let res = (val >> 1) | (old_carry << 7);
    bus.write(op.addr, res, ppu);
    cpu.update_nz(res);
    advance(op, cy)
}

/// RTI — pull the status, then the program counter.
pub fn rti(cpu: &mut Cpu, bus: &mut Bus, ppu: &mut Ppu, op: Operand, cy: u8) -> (r: StepResult)
    requires
        old(bus)@.wf(),
        old(ppu)@.wf(),
        cy <= 253,
    ensures
        (r, machine(*final(cpu), final(bus)@, final(ppu)@)) == spec_rti(machine(*old(cpu), old(bus)@, old(ppu)@), op, cy),
        final(bus)@.wf(),
        final(ppu)@.wf(),
{
    let v = cpu.pop(bus, ppu);
    cpu.status = (v & !BREAK) | UNUSED;
    cpu.pc = cpu.pop_u16(bus, ppu);
    Ok(StepOk::Jump { cycles: cy })
}

/// RTS — pull the return address and continue after it.
pub fn rts(cpu: &mut Cpu, bus: &mut Bus, ppu: &mut Ppu, op: Operand, cy: u8) -> (r: StepResult)
    requires
        old(bus)@.wf(),
        old(ppu)@.wf(),
        cy <= 253,
    ensures
        (r, machine(*final(cpu), final(bus)@, final(ppu)@)) == spec_rts(machine(*old(cpu), old(bus)@, old(ppu)@), op, cy),
        final(bus)@.wf(),
        final(ppu)@.wf(),
{
    let a = cpu.pop_u16(bus, ppu);
    cpu.pc = a.wrapping_add(1);
    Ok(StepOk::Jump { cycles: cy })
}

/// SBC — subtract with borrow (A - M - (1 - C)).
pub fn sbc(cpu: &mut Cpu, bus: &mut Bus, ppu: &mut Ppu, op: Operand, cy: u8) -> (r: StepResult)
    requires
        old(bus)@.wf(),
        old(ppu)@.wf(),
        cy <= 253,
    ensures
        (r, machine(*final(cpu), final(bus)@, final(ppu)@)) == spec_sbc(machine(*old(cpu), old(bus)@, old(ppu)@), op, cy),
        final(bus)@.wf(),
        final(ppu)@.wf(),
{
    let val = bus.read(op.addr, ppu);
    let carry: u16 = if cpu.get_flag(CARRY) { 1 } else { 0 };
    let diff = (cpu.a as u16).wrapping_sub(val as u16).wrapping_sub(1 - carry);
    let result = diff as u8;
    cpu.set_flag(CARRY, diff < 0x100);
    cpu.set_flag(OVERFLOW, (cpu.a ^ result) & (!val ^ result) & 0x80 != 0);
    cpu.a = result;
    cpu.update_nz(result);
    advance(op, cy + page_penalty(op))
}

/// SEC — set the carry flag.
pub fn sec(cpu: &mut Cpu, _bus: &mut Bus, _ppu: &mut Ppu, op: Operand, cy: u8) -> (r: StepResult)
    requires
        old(_bus)@.wf(),
        old(_ppu)@.wf(),
        cy <= 253,
    ensures
        (r, machine(*final(cpu), final(_bus)@, final(_ppu)@)) == spec_sec(machine(*old(cpu), old(_bus)@, old(_ppu)@), op, cy),
        final(_bus)@.wf(),
        final(_ppu)@.wf(),
{
    cpu.set_flag(CARRY, true);
    advance(op, cy)
}

/// SED — set the decimal flag.
pub fn sed(cpu: &mut Cpu, _bus: &mut Bus, _ppu: &mut Ppu, op: Operand, cy: u8) -> (r: StepResult)
    requires
        old(_bus)@.wf(),
        old(_ppu)@.wf(),
        cy <= 253,
    ensures
        (r, machine(*final(cpu), final(_bus)@, final(_ppu)@)) == spec_sed(machine(*old(cpu), old(_bus)@, old(_ppu)@), op, cy),
        final(_bus)@.wf(),
        final(_ppu)@.wf(),
{
    cpu.set_flag(DECIMAL, true);
    advance(op, cy)
}

/// SEI — set the irq disable flag.
pub fn sei(cpu: &mut Cpu, _bus: &mut Bus, _ppu: &mut Ppu, op: Operand, cy: u8) -> (r: StepResult)
    requires
        old(_bus)@.wf(),
        old(_ppu)@.wf(),
        cy <= 253,
    ensures
        (r, machine(*final(cpu), final(_bus)@, final(_ppu)@)) == spec_sei(machine(*old(cpu), old(_bus)@, old(_ppu)@), op, cy),
        final(_bus)@.wf(),
        final(_ppu)@.wf(),
{
    cpu.set_flag(IRQ_DISABLE, true);
    advance(op, cy)
}

/// STA — store A to memory.
pub fn sta(cpu: &mut Cpu, bus: &mut Bus, ppu: &mut Ppu, op: Operand, cy: u8) -> (r: StepResult)
    requires
        old(bus)@.wf(),
        old(ppu)@.wf(),
        cy <= 253,
    ensures
        (r, machine(*final(cpu), final(bus)@, final(ppu)@)) == spec_sta(machine(*old(cpu), old(bus)@, old(ppu)@), op, cy),
        final(bus)@.wf(),
        final(ppu)@.wf(),
{
    bus.write(op.addr, cpu.a, ppu);
    advance(op, cy)
}

/// STX — store X to memory.
pub fn stx(cpu: &mut Cpu, bus: &mut Bus, ppu: &mut Ppu, op: Operand, cy: u8) -> (r: StepResult)
    requires
        old(bus)@.wf(),
        old(ppu)@.wf(),
        cy <= 253,
    ensures
        (r, machine(*final(cpu), final(bus)@, final(ppu)@)) == spec_stx(machine(*old(cpu), old(bus)@, old(ppu)@), op, cy),
        final(bus)@.wf(),
        final(ppu)@.wf(),
{
    bus.write(op.addr, cpu.x, ppu);
    advance(op, cy)
}

/// STY — store Y to memory.
pub fn sty(cpu: &mut Cpu, bus: &mut Bus, ppu: &mut Ppu, op: Operand, cy: u8) -> (r: StepResult)
    requires
        old(bus)@.wf(),
        old(ppu)@.wf(),
        cy <= 253,
    ensures
        (r, machine(*final(cpu), final(bus)@, final(ppu)@)) == spec_sty(machine(*old(cpu), old(bus)@, old(ppu)@), op, cy),
        final(bus)@.wf(),
        final(ppu)@.wf(),
{
    bus.write(op.addr, cpu.y, ppu);
    advance(op, cy)
}

/// TAX — transfer A to X.
pub fn tax(cpu: &mut Cpu, _bus: &mut Bus, _ppu: &mut Ppu, op: Operand, cy: u8) -> (r: StepResult)
    requires
        old(_bus)@.wf(),
        old(_ppu)@.wf(),
        cy <= 253,
    ensures
        (r, machine(*final(cpu), final(_bus)@, final(_ppu)@)) == spec_tax(machine(*old(cpu), old(_bus)@, old(_ppu)@), op, cy),
        final(_bus)@.wf(),
        final(_ppu)@.wf(),
{
    cpu.x = cpu.a;
    cpu.update_nz(cpu.x);
    advance(op, cy)
}

/// TAY — transfer A to Y.
pub fn tay(cpu: &mut Cpu, _bus: &mut Bus, _ppu: &mut Ppu, op: Operand, cy: u8) -> (r: StepResult)
    requires
        old(_bus)@.wf(),
        old(_ppu)@.wf(),
        cy <= 253,
    ensures
        (r, machine(*final(cpu), final(_bus)@, final(_ppu)@)) == spec_tay(machine(*old(cpu), old(_bus)@, old(_ppu)@), op, cy),
        final(_bus)@.wf(),
        final(_ppu)@.wf(),
{
    cpu.y = cpu.a;
    cpu.update_nz(cpu.y);
    advance(op, cy)
}

/// TSX — transfer SP to X.
pub fn tsx(cpu: &mut Cpu, _bus: &mut Bus, _ppu: &mut Ppu, op: Operand, cy: u8) -> (r: StepResult)
    requires
        old(_bus)@.wf(),
        old(_ppu)@.wf(),
        cy <= 253,
    ensures
        (r, machine(*final(cpu), final(_bus)@, final(_ppu)@)) == spec_tsx(machine(*old(cpu), old(_bus)@, old(_ppu)@), op, cy),
        final(_bus)@.wf(),
        final(_ppu)@.wf(),
{
    cpu.x = cpu.sp;
    cpu.update_nz(cpu.x);
    advance(op, cy)
}

/// TXA — transfer X to A.
pub fn txa(cpu: &mut Cpu, _bus: &mut Bus, _ppu: &mut Ppu, op: Operand, cy: u8) -> (r: StepResult)
    requires
        old(_bus)@.wf(),
        old(_ppu)@.wf(),
        cy <= 253,
    ensures
        (r, machine(*final(cpu), final(_bus)@, final(_ppu)@)) == spec_txa(machine(*old(cpu), old(_bus)@, old(_ppu)@), op, cy),
        final(_bus)@.wf(),
        final(_ppu)@.wf(),
{
    cpu.a = cpu.x;
    cpu.update_nz(cpu.a);
    advance(op, cy)
}

/// TXS — transfer X to SP (flags unchanged).
pub fn txs(cpu: &mut Cpu, _bus: &mut Bus, _ppu: &mut Ppu, op: Operand, cy: u8) -> (r: StepResult)
    requires
        old(_bus)@.wf(),
        old(_ppu)@.wf(),
        cy <= 253,
    ensures
        (r, machine(*final(cpu), final(_bus)@, final(_ppu)@)) == spec_txs(machine(*old(cpu), old(_bus)@, old(_ppu)@), op, cy),
        final(_bus)@.wf(),
        final(_ppu)@.wf(),
{
    cpu.sp = cpu.x;
    advance(op, cy)
}

/// TYA — transfer Y to A.
pub fn tya(cpu: &mut Cpu, _bus: &mut Bus, _ppu: &mut Ppu, op: Operand, cy: u8) -> (r: StepResult)
    requires
        old(_bus)@.wf(),
        old(_ppu)@.wf(),
        cy <= 253,
    ensures
        (r, machine(*final(cpu), final(_bus)@, final(_ppu)@)) == spec_tya(machine(*old(cpu), old(_bus)@, old(_ppu)@), op, cy),
        final(_bus)@.wf(),
        final(_ppu)@.wf(),
{
    cpu.a = cpu.y;
    cpu.update_nz(cpu.a);
    advance(op, cy)
}

/// Runs the handler of instruction `op`.
pub fn execute_op(op: Op, cpu: &mut Cpu, bus: &mut Bus, ppu: &mut Ppu, operand: Operand, cy: u8) -> (r: StepResult)
    requires
        old(bus)@.wf(),
        old(ppu)@.wf(),
        cy <= 253,
    ensures
        (r, machine(*final(cpu), final(bus)@, final(ppu)@)) == execute(
            op,
            machine(*old(cpu), old(bus)@, old(ppu)@),
            operand,
            cy,
        ),
        final(bus)@.wf(),
        final(ppu)@.wf(),
{
    match op {
        Op::Adc => adc(cpu, bus, ppu, operand, cy),
        Op::And => and(cpu, bus, ppu, operand, cy),
        Op::AslAcc => asl_acc(cpu, bus, ppu, operand, cy),
        Op::AslMem => asl_mem(cpu, bus, ppu, operand, cy),
        Op::Bcc => bcc(cpu, bus, ppu, operand, cy),
        Op::Bcs => bcs(cpu, bus, ppu, operand, cy),
        Op::Beq => beq(cpu, bus, ppu, operand, cy),
        Op::Bmi => bmi(cpu, bus, ppu, operand, cy),
        Op::Bne => bne(cpu, bus, ppu, operand, cy),
        Op::Bpl => bpl(cpu, bus, ppu, operand, cy),
        Op::Bvc => bvc(cpu, bus, ppu, operand, cy),
        Op::Bvs => bvs(cpu, bus, ppu, operand, cy),
        Op::Bit => bit(cpu, bus, ppu, operand, cy),
        Op::Brk => brk(cpu, bus, ppu, operand, cy),
        Op::Clc => clc(cpu, bus, ppu, operand, cy),
        Op::Cld => cld(cpu, bus, ppu, operand, cy),
        Op::Cli => cli(cpu, bus, ppu, operand, cy),
        Op::Clv => clv(cpu, bus, ppu, operand, cy),
        Op::Cmp => cmp(cpu, bus, ppu, operand, cy),
        Op::Cpx => cpx(cpu, bus, ppu, operand, cy),
        Op::Cpy => cpy(cpu, bus, ppu, operand, cy),
        Op::Dec => dec(cpu, bus, ppu, operand, cy),
        Op::Dex => dex(cpu, bus, ppu, operand, cy),
        Op::Dey => dey(cpu, bus, ppu, operand, cy),
        Op::Eor => eor(cpu, bus, ppu, operand, cy),
        Op::Inc => inc(cpu, bus, ppu, operand, cy),
        Op::Inx => inx(cpu, bus, ppu, operand, cy),
        Op::Iny => iny(cpu, bus, ppu, operand, cy),
        Op::Jmp => jmp(cpu, bus, ppu, operand, cy),
        Op::Jsr => jsr(cpu, bus, ppu, operand, cy),
        Op::Lda => lda(cpu, bus, ppu, operand, cy),
        Op::Ldx => ldx(cpu, bus, ppu, operand, cy),
        Op::Ldy => ldy(cpu, bus, ppu, operand, cy),
        Op::LsrAcc => lsr_acc(cpu, bus, ppu, operand, cy),
        Op::LsrMem => lsr_mem(cpu, bus, ppu, operand, cy),
        Op::Nop => nop(cpu, bus, ppu, operand, cy),
        Op::Ora => ora(cpu, bus, ppu, operand, cy),
        Op::Pha => pha(cpu, bus, ppu, operand, cy),
        Op::Php => php(cpu, bus, ppu, operand, cy),
        Op::Pla => pla(cpu, bus, ppu, operand, cy),
        Op::Plp => plp(cpu, bus, ppu, operand, cy),
        Op::RolAcc => rol_acc(cpu, bus, ppu, operand, cy),
        Op::RolMem => rol_mem(cpu, bus, ppu, operand, cy),
        Op::RorAcc => ror_acc(cpu, bus, ppu, operand, cy),
        Op::RorMem => ror_mem(cpu, bus, ppu, operand, cy),
        Op::Rti => rti(cpu, bus, ppu, operand, cy),
        Op::Rts => rts(cpu, bus, ppu, operand, cy),
        Op::Sbc => sbc(cpu, bus, ppu, operand, cy),
        Op::Sec => sec(cpu, bus, ppu, operand, cy),
        Op::Sed => sed(cpu, bus, ppu, operand, cy),
        Op::Sei => sei(cpu, bus, ppu, operand, cy),
        Op::Sta => sta(cpu, bus, ppu, operand, cy),
        Op::Stx => stx(cpu, bus, ppu, operand, cy),
        Op::Sty => sty(cpu, bus, ppu, operand, cy),
        Op::Tax => tax(cpu, bus, ppu, operand, cy),
        Op::Tay => tay(cpu, bus, ppu, operand, cy),
        Op::Tsx => tsx(cpu, bus, ppu, operand, cy),
        Op::Txa => txa(cpu, bus, ppu, operand, cy),
        Op::Txs => txs(cpu, bus, ppu, operand, cy),
        Op::Tya => tya(cpu, bus, ppu, operand, cy),
    }
}

} // verus!
