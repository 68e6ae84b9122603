//! Properties of the CPU that span several instructions.

use vstd::prelude::*;
use super::{
    flag, stack_addr, with_flag, with_nz, Cpu, Machine, BREAK, CARRY, DECIMAL, IRQ_DISABLE, NEGATIVE,
    OVERFLOW, UNUSED, ZERO,
};
use super::addr::Operand;
use super::handlers::{
    branch_spec, execute, spec_adc, spec_asl_acc, spec_bcc, spec_bcs, spec_beq, spec_bmi, spec_bne,
    spec_bit, spec_bpl, spec_bvc, spec_bvs, spec_dex, spec_dey, spec_inx, spec_iny, spec_tax,
    spec_tay, spec_txa, spec_tya, spec_compare_acc, spec_lsr_acc, spec_rol_acc, spec_ror_acc,
    spec_sbc,
};
use super::opcodes::{spec_lookup, Op};
use super::run::step_spec;
use super::step::{spec_cycles, StepErr, StepOk, StepResult};
use crate::bits::{wadd16, wadd8, wsub16, wsub8};
use crate::bus::{bus_read, bus_write, ram_index};

verus! {

/// The stack lives in RAM page $01: a write there changes one RAM byte
/// and nothing else, and a read there has no side effect.
proof fn lemma_stack_access(m: Machine, sp: u8, val: u8)
    requires
        m.wf(),
    ensures
        m.write(stack_addr(sp), val) == (Machine {
            bus: crate::bus::BusView { ram: m.bus.ram.update(0x100 + sp, val), ..m.bus },
            ..m
        }),
        m.read(stack_addr(sp)) == (m.bus.ram[0x100 + sp], m),
        ram_index(stack_addr(sp)) == 0x100 + sp,
{
    reveal(bus_read);
    reveal(bus_write);
}

/// A pushed byte is popped back: pushing `val` and popping gives `val`
/// and the same registers (stack pointer included), PPU and devices.
pub proof fn lemma_push_pop(m: Machine, val: u8)
    requires
        m.wf(),
    ensures
        ({
            let (v, m2) = m.push(val).pop();
            &&& v == val
            &&& m2.cpu == m.cpu
            &&& m2.ppu == m.ppu
            &&& m2.bus.ram == m.bus.ram.update(0x100 + m.cpu.sp, val)
            &&& m2.bus.mapper == m.bus.mapper
            &&& m2.wf()
        }),
{
    lemma_stack_access(m, m.cpu.sp, val);
    let m1 = m.push(val);
    let sp1 = wsub8(m.cpu.sp, 1);
    assert(wadd8(sp1, 1) == m.cpu.sp);
    lemma_stack_access(m1.with_cpu(Cpu { sp: m.cpu.sp, ..m1.cpu }), m.cpu.sp, 0);
}

/// A pushed word is popped back: pushing `val` (high byte first) and
/// popping a word (low byte first) gives `val` and the same registers.
pub proof fn lemma_push_pop_u16(m: Machine, val: u16)
    requires
        m.wf(),
    ensures
        ({
            let (v, m2) = m.push_u16(val).pop_u16();
            &&& v == val
            &&& m2.cpu == m.cpu
            &&& m2.ppu == m.ppu
            &&& m2.wf()
        }),
{
    let sp = m.cpu.sp;
    let hi = (val / 256) as u8;
    let lo = (val % 256) as u8;
    lemma_stack_access(m, sp, hi);
    let m1 = m.push(hi);
    lemma_stack_access(m1, wsub8(sp, 1), lo);
    let m2 = m1.push(lo);
    assert(m2.cpu.sp == wsub8(sp, 2));
    let sp_a = wadd8(m2.cpu.sp, 1);
    assert(sp_a == wsub8(sp, 1));
    let ma = m2.with_cpu(Cpu { sp: sp_a, ..m2.cpu });
    lemma_stack_access(ma, sp_a, 0);
    let (v1, m3) = m2.pop();
    assert(v1 == lo);
    let sp_b = wadd8(m3.cpu.sp, 1);
    assert(sp_b == sp);
    let mb = m3.with_cpu(Cpu { sp: sp_b, ..m3.cpu });
    lemma_stack_access(mb, sp_b, 0);
    let (v2, m4) = m3.pop();
    assert(0x100 + wsub8(sp, 1) != 0x100 + sp);
    assert(v2 == hi);
    assert(hi * 256 + lo == val);
}

/// PHA then PLA restores the accumulator and the stack pointer.
pub proof fn lemma_pha_pla(m: Machine, o1: Operand, o2: Operand, cy1: u8, cy2: u8)
    requires
        m.wf(),
    ensures
        ({
            let (_, m1) = execute(Op::Pha, m, o1, cy1);
            let (_, m2) = execute(Op::Pla, m1, o2, cy2);
            &&& m2.cpu.a == m.cpu.a
            &&& m2.cpu.sp == m.cpu.sp
            &&& m2.cpu.pc == m.cpu.pc
        }),
{
    lemma_push_pop(m, m.cpu.a);
}

/// JSR to `target` then RTS returns to the instruction after the JSR
/// (three bytes on) with the stack pointer restored.
pub proof fn lemma_jsr_rts(m: Machine, target: u16, o2: Operand, cy1: u8, cy2: u8)
    requires
        m.wf(),
    ensures
        ({
            let o = Operand { addr: target, size: 3, page_cross: false };
            let (_, m1) = execute(Op::Jsr, m, o, cy1);
            let (_, m2) = execute(Op::Rts, m1, o2, cy2);
            &&& m1.cpu.pc == target
            &&& m2.cpu.pc == wadd16(m.cpu.pc, 3)
            &&& m2.cpu.sp == m.cpu.sp
        }),
{
    let ret = crate::bits::wsub16(wadd16(m.cpu.pc, 3), 1);
    lemma_push_pop_u16(m, ret);
    lemma_stack_access(m, m.cpu.sp, (ret / 256) as u8);
    let mh = m.push((ret / 256) as u8);
    lemma_stack_access(mh, mh.cpu.sp, (ret % 256) as u8);
    let m1 = m.push_u16(ret);
    lemma_pop_u16_ignores_pc(m1, target);
}

/// Reads of cartridge space have no side effect.
proof fn lemma_cartridge_read(m: Machine, addr: u16)
    requires
        addr >= 0x4020,
    ensures
        m.read(addr).1 == m,
{
    reveal(bus_read);
}

/// An interrupt followed by RTI resumes the interrupted program: PC
/// and the stack pointer come back, and so does the status (with
/// Break clear and Unused set, as it was pushed). During the handler
/// IRQs are disabled.
pub proof fn lemma_interrupt_rti(m: Machine, vector: u16, o: Operand, cy: u8)
    requires
        m.wf(),
        0x4020 <= vector < 0xFFFF,
    ensures
        ({
            let m1 = m.interrupt(vector);
            let (_, m2) = execute(Op::Rti, m1, o, cy);
            &&& flag(m1.cpu.status, IRQ_DISABLE)
            &&& m2.cpu.pc == m.cpu.pc
            &&& m2.cpu.sp == m.cpu.sp
            &&& m2.cpu.status == (m.cpu.status & !BREAK) | UNUSED
        }),
{
    let sp = m.cpu.sp;
    let pc = m.cpu.pc;
    let hi = (pc / 256) as u8;
    let lo = (pc % 256) as u8;
    let st = (m.cpu.status & !BREAK) | UNUSED;
    lemma_stack_access(m, sp, hi);
    let ma = m.push(hi);
    lemma_stack_access(ma, wsub8(sp, 1), lo);
    let mb = ma.push(lo);
    assert(mb == m.push_u16(pc));
    lemma_stack_access(mb, wsub8(sp, 2), st);
    let mc = mb.push(st);
    let md = mc.with_cpu(Cpu { status: mc.cpu.status | IRQ_DISABLE, ..mc.cpu });
    lemma_cartridge_read(md, vector);
    lemma_cartridge_read(md, (vector + 1) as u16);
    let m1 = m.interrupt(vector);
    assert(m1.bus == mc.bus);
    assert(m1.cpu.sp == wsub8(sp, 3));
    assert(flag(m1.cpu.status, IRQ_DISABLE)) by {
        let s = mc.cpu.status;
        assert((s | IRQ_DISABLE) & IRQ_DISABLE != 0) by (bit_vector);
    }
    // RTI: pop the status, then the return address.
    let s1 = wsub8(sp, 2);
    lemma_stack_access(m1.with_cpu(Cpu { sp: s1, ..m1.cpu }), s1, 0);
    let (v, m2) = m1.pop();
    assert(0x100 + s1 != 0x100 + wsub8(sp, 1) && 0x100 + s1 != 0x100 + sp);
    assert(v == st);
    let m3 = m2.with_cpu(Cpu { status: (v & !BREAK) | UNUSED, ..m2.cpu });
    let s2 = wsub8(sp, 1);
    lemma_stack_access(m3.with_cpu(Cpu { sp: s2, ..m3.cpu }), s2, 0);
    let (l2, m4) = m3.pop();
    assert(0x100 + s2 != 0x100 + sp);
    assert(l2 == lo);
    lemma_stack_access(m4.with_cpu(Cpu { sp, ..m4.cpu }), sp, 0);
    let (h2, m5) = m4.pop();
    assert(h2 == hi);
    assert(hi * 256 + lo == pc);
    let s0 = m.cpu.status;
    assert((((s0 & !BREAK) | UNUSED) & !BREAK) | UNUSED == (s0 & !BREAK) | UNUSED) by (bit_vector);
}

/// Whether a step result is the illegal-opcode error.
pub open spec fn is_illegal(r: StepResult) -> bool {
    r matches Err(StepErr::IllegalOpcode(_))
}

/// Executing an instruction never reports an illegal opcode: that
/// error comes from decoding alone.
proof fn lemma_execute_not_illegal(op: Op, m: Machine, o: Operand, cy: u8)
    ensures
        !is_illegal(execute(op, m, o, cy).0),
{
}

/// With no interrupt to serve, a step fails with `IllegalOpcode`
/// exactly when the byte at PC has no entry in the opcode table, and
/// the error carries that byte.
pub proof fn lemma_illegal_opcode(m: Machine)
    requires
        m.wf(),
        !m.cpu.nmi_pending,
        !(m.cpu.irq_pending && !flag(m.cpu.status, IRQ_DISABLE)),
    ensures
        ({
            let m0 = m.with_cpu(Cpu { irq_pending: false, ..m.cpu });
            let opcode = m0.read(m0.cpu.pc).0;
            &&& is_illegal(step_spec(m).0) <==> spec_lookup(opcode) is None
            &&& spec_lookup(opcode) is None ==> step_spec(m).0 == Err::<super::step::StepOk, StepErr>(
                StepErr::IllegalOpcode(opcode),
            )
        }),
{
    reveal(step_spec);
    let m0 = m.with_cpu(Cpu { irq_pending: false, ..m.cpu });
    let (opcode, m1) = m0.read(m0.cpu.pc);
    match spec_lookup(opcode) {
        None => {},
        Some(e) => {
            let (o, m2) = super::addr::resolve_spec(e.mode, m1);
            lemma_execute_not_illegal(e.op, m2, o, e.base_cycles);
        },
    }
}

/// Every opcode of the table costs from two to seven base cycles.
pub proof fn lemma_base_cycles(opcode: u8)
    ensures
        spec_lookup(opcode) matches Some(e) ==> 2 <= e.base_cycles <= 7,
{
}

/// An instruction takes at least its base cycle count.
proof fn lemma_execute_cycles(op: Op, m: Machine, o: Operand, cy: u8)
    requires
        cy <= 7,
    ensures
        execute(op, m, o, cy).0 matches Ok(ok) ==> spec_cycles(ok) >= cy,
{
}

/// Every successful step takes at least two CPU cycles, so time always
/// moves forward.
pub proof fn lemma_step_cycles(m: Machine)
    ensures
        step_spec(m).0 matches Ok(ok) ==> spec_cycles(ok) >= 2,
{
    reveal(step_spec);
    if !m.cpu.nmi_pending && !(m.cpu.irq_pending && !flag(m.cpu.status, IRQ_DISABLE)) {
        let m0 = m.with_cpu(Cpu { irq_pending: false, ..m.cpu });
        let (opcode, m1) = m0.read(m0.cpu.pc);
        lemma_base_cycles(opcode);
        match spec_lookup(opcode) {
            None => {},
            Some(e) => {
                let (o, m2) = super::addr::resolve_spec(e.mode, m1);
                lemma_execute_cycles(e.op, m2, o, e.base_cycles);
            },
        }
    }
}

/// Popping a word does not depend on the program counter.
proof fn lemma_pop_u16_ignores_pc(m: Machine, pc: u16)
    requires
        m.wf(),
    ensures
        ({
            let (v, m2) = m.pop_u16();
            let (w, m3) = m.with_cpu(Cpu { pc, ..m.cpu }).pop_u16();
            &&& v == w
            &&& m3.cpu == Cpu { pc, ..m2.cpu }
        }),
{
    let sp = m.cpu.sp;
    lemma_stack_access(m.with_cpu(Cpu { sp: wadd8(sp, 1), ..m.cpu }), wadd8(sp, 1), 0);
    lemma_stack_access(m.with_cpu(Cpu { sp: wadd8(sp, 1), pc, ..m.cpu }), wadd8(sp, 1), 0);
    let s2 = wadd8(wadd8(sp, 1), 1);
    lemma_stack_access(m.with_cpu(Cpu { sp: s2, ..m.cpu }), s2, 0);
    lemma_stack_access(m.with_cpu(Cpu { sp: s2, pc, ..m.cpu }), s2, 0);
}

/// Bit facts behind the Unused flag: no other flag's update touches
/// it, and the status pulled from the stack has it set.
proof fn lemma_unused_bits()
    ensures
        forall|s: u8, v: bool| #[trigger] flag(with_flag(s, CARRY, v), UNUSED) == flag(s, UNUSED),
        forall|s: u8, v: bool| #[trigger] flag(with_flag(s, ZERO, v), UNUSED) == flag(s, UNUSED),
        forall|s: u8, v: bool|
            #[trigger] flag(with_flag(s, IRQ_DISABLE, v), UNUSED) == flag(s, UNUSED),
        forall|s: u8, v: bool| #[trigger] flag(with_flag(s, DECIMAL, v), UNUSED) == flag(s, UNUSED),
        forall|s: u8, v: bool|
            #[trigger] flag(with_flag(s, OVERFLOW, v), UNUSED) == flag(s, UNUSED),
        forall|s: u8, v: bool|
            #[trigger] flag(with_flag(s, NEGATIVE, v), UNUSED) == flag(s, UNUSED),
        forall|s: u8, val: u8| #[trigger] flag(with_nz(s, val), UNUSED) == flag(s, UNUSED),
        forall|v: u8| #[trigger] flag((v & !BREAK) | UNUSED, UNUSED),
        forall|s: u8| #[trigger] flag(s | IRQ_DISABLE, UNUSED) == flag(s, UNUSED),
{
    assert forall|s: u8, f: u8, v: bool|
        f == CARRY || f == ZERO || f == IRQ_DISABLE || f == DECIMAL || f == OVERFLOW || f
            == NEGATIVE implies #[trigger] flag(with_flag(s, f, v), UNUSED) == flag(s, UNUSED) by {
        assert((f == 1 || f == 2 || f == 4 || f == 8 || f == 0x40 || f == 0x80) ==> (((s | f)
            & 0x20 != 0) == (s & 0x20 != 0) && ((s & !f) & 0x20 != 0) == (s & 0x20 != 0)))
            by (bit_vector);
    }
    assert forall|v: u8| #[trigger] flag((v & !BREAK) | UNUSED, UNUSED) by {
        assert(((v & !0x10u8) | 0x20) & 0x20 != 0) by (bit_vector);
    }
    assert forall|s: u8| #[trigger] flag(s | IRQ_DISABLE, UNUSED) == flag(s, UNUSED) by {
        assert(((s | 0x04) & 0x20 != 0) == (s & 0x20 != 0)) by (bit_vector);
    }
}

/// Every instruction keeps the Unused flag set.
#[verifier::spinoff_prover]
#[verifier::rlimit(50)]
proof fn lemma_execute_keeps_unused(op: Op, m: Machine, o: Operand, cy: u8)
    requires
        flag(m.cpu.status, UNUSED),
    ensures
        flag(execute(op, m, o, cy).1.cpu.status, UNUSED),
{
    lemma_unused_bits();
    match op {
        Op::Adc => {},
        Op::And => {},
        Op::AslAcc => {},
        Op::AslMem => {},
        Op::Bcc => {},
        Op::Bcs => {},
        Op::Beq => {},
        Op::Bmi => {},
        Op::Bne => {},
        Op::Bpl => {},
        Op::Bvc => {},
        Op::Bvs => {},
        Op::Bit => {},
        Op::Brk => {},
        Op::Clc => {},
        Op::Cld => {},
        Op::Cli => {},
        Op::Clv => {},
        Op::Cmp => {},
        Op::Cpx => {},
        Op::Cpy => {},
        Op::Dec => {},
        Op::Dex => {},
        Op::Dey => {},
        Op::Eor => {},
        Op::Inc => {},
        Op::Inx => {},
        Op::Iny => {},
        Op::Jmp => {},
        Op::Jsr => {},
        Op::Lda => {},
        Op::Ldx => {},
        Op::Ldy => {},
        Op::LsrAcc => {},
        Op::LsrMem => {},
        Op::Nop => {},
        Op::Ora => {},
        Op::Pha => {},
        Op::Php => {},
        Op::Pla => {},
        Op::Plp => {},
        Op::RolAcc => {},
        Op::RolMem => {},
        Op::RorAcc => {},
        Op::RorMem => {},
        Op::Rti => {},
        Op::Rts => {},
        Op::Sbc => {},
        Op::Sec => {},
        Op::Sed => {},
        Op::Sei => {},
        Op::Sta => {},
        Op::Stx => {},
        Op::Sty => {},
        Op::Tax => {},
        Op::Tay => {},
        Op::Tsx => {},
        Op::Txa => {},
        Op::Txs => {},
        Op::Tya => {},
    }
}

/// Resolving an operand reads memory but leaves the registers alone.
proof fn lemma_resolve_keeps_cpu(mode: super::addr::AddrMode, m: Machine)
    ensures
        super::addr::resolve_spec(mode, m).1.cpu == m.cpu,
{
}

/// The Unused status flag always reads as 1: once set (as at power-on
/// and reset), no step clears it.
pub proof fn lemma_unused_stays_set(m: Machine)
    requires
        flag(m.cpu.status, UNUSED),
    ensures
        flag(step_spec(m).1.cpu.status, UNUSED),
{
    reveal(step_spec);
    lemma_unused_bits();
    if !m.cpu.nmi_pending && !(m.cpu.irq_pending && !flag(m.cpu.status, IRQ_DISABLE)) {
        let m0 = m.with_cpu(Cpu { irq_pending: false, ..m.cpu });
        let (opcode, m1) = m0.read(m0.cpu.pc);
        match spec_lookup(opcode) {
            None => {},
            Some(e) => {
                lemma_resolve_keeps_cpu(e.mode, m1);
                let (o, m2) = super::addr::resolve_spec(e.mode, m1);
                lemma_execute_keeps_unused(e.op, m2, o, e.base_cycles);
            },
        }
    }
}

/// Setting or clearing one flag leaves the other flags of interest as
/// they are and reads back as set or cleared.
proof fn lemma_flag_update(s: u8, f: u8, v: bool, g: u8)
    requires
        f == CARRY || f == ZERO || f == OVERFLOW || f == NEGATIVE,
        g == CARRY || g == ZERO || g == OVERFLOW || g == NEGATIVE,
    ensures
        flag(with_flag(s, f, v), f) == v,
        f != g ==> flag(with_flag(s, f, v), g) == flag(s, g),
{
    assert((f == 1 || f == 2 || f == 0x40 || f == 0x80) && (g == 1 || g == 2 || g == 0x40 || g
        == 0x80) ==> ((s | f) & f
        != 0 && (s & !f) & f == 0 && (f != g ==> (((s | f) & g) == (s & g) && ((s & !f) & g) == (s
        & g))))) by (bit_vector);
}

/// Bit 7 of a byte is set exactly when the byte is at least 128.
proof fn lemma_sign_bit(res: u8)
    ensures
        (res & 0x80 != 0) == (res >= 128),
{
    assert((res & 0x80 != 0) == (res >= 128)) by (bit_vector);
}

/// The carry, zero and negative flags after an instruction that sets
/// the carry to `c` and N and Z from `res`.
proof fn lemma_carry_nz(s: u8, c: bool, res: u8)
    ensures
        flag(with_nz(with_flag(s, CARRY, c), res), CARRY) == c,
        flag(with_nz(with_flag(s, CARRY, c), res), ZERO) == (res == 0),
        flag(with_nz(with_flag(s, CARRY, c), res), NEGATIVE) == (res >= 128),
{
    let s1 = with_flag(s, CARRY, c);
    let s2 = with_flag(s1, ZERO, res == 0);
    lemma_flag_update(s, CARRY, c, CARRY);
    lemma_flag_update(s1, ZERO, res == 0, CARRY);
    lemma_flag_update(s1, ZERO, res == 0, ZERO);
    lemma_flag_update(s2, NEGATIVE, res & 0x80 != 0, CARRY);
    lemma_flag_update(s2, NEGATIVE, res & 0x80 != 0, ZERO);
    lemma_flag_update(s2, NEGATIVE, res & 0x80 != 0, NEGATIVE);
    lemma_sign_bit(res);
}

/// ROR A rotates the accumulator right through the carry: the old
/// carry becomes bit 7 (worth 128), bits 7–1 move down one place, and
/// the old bit 0 becomes the new carry; N shows bit 7 (the old carry)
/// and Z an all-zero result. Nothing but A and the status changes.
pub proof fn lemma_ror_acc_rotates_through_carry(m: Machine, o: Operand, cy: u8)
    ensures
        spec_ror_acc(m, o, cy).1.cpu.a == m.cpu.a / 2 + if flag(m.cpu.status, CARRY) {
            128int
        } else {
            0int
        },
        flag(spec_ror_acc(m, o, cy).1.cpu.status, CARRY) == (m.cpu.a % 2 == 1),
        flag(spec_ror_acc(m, o, cy).1.cpu.status, NEGATIVE) == flag(m.cpu.status, CARRY),
        flag(spec_ror_acc(m, o, cy).1.cpu.status, ZERO) == (m.cpu.a < 2 && !flag(
            m.cpu.status,
            CARRY,
        )),
        spec_ror_acc(m, o, cy).1 == m.with_cpu(
            Cpu {
                a: spec_ror_acc(m, o, cy).1.cpu.a,
                status: spec_ror_acc(m, o, cy).1.cpu.status,
                ..m.cpu
            },
        ),
{
    let a = m.cpu.a;
    let oc: u8 = if flag(m.cpu.status, CARRY) { 1 } else { 0 };
    assert(oc <= 1 ==> ((a >> 1u8) | (oc << 7u8)) == a / 2 + oc * 128 && ((a & 0x01 != 0) == (a
        % 2 == 1))) by (bit_vector);
    let res = (a >> 1u8) | (oc << 7u8);
    lemma_carry_nz(m.cpu.status, a & 0x01 != 0, res);
}

/// ROL A undoes ROR A: rotating right and then left through the carry
/// gives back the accumulator and the carry.
pub proof fn lemma_rol_undoes_ror(m: Machine, o1: Operand, cy1: u8, o2: Operand, cy2: u8)
    ensures
        spec_rol_acc(spec_ror_acc(m, o1, cy1).1, o2, cy2).1.cpu.a == m.cpu.a,
        flag(spec_rol_acc(spec_ror_acc(m, o1, cy1).1, o2, cy2).1.cpu.status, CARRY) == flag(
            m.cpu.status,
            CARRY,
        ),
{
    let a = m.cpu.a;
    let oc: u8 = if flag(m.cpu.status, CARRY) { 1 } else { 0 };
    let res = (a >> 1u8) | (oc << 7u8);
    lemma_carry_nz(m.cpu.status, a & 0x01 != 0, res);
    let s1 = spec_ror_acc(m, o1, cy1).1.cpu.status;
    let oc2: u8 = if flag(s1, CARRY) { 1 } else { 0 };
    assert(oc <= 1 && oc2 == (a & 1) ==> ((res << 1u8) | oc2) == a && ((res & 0x80 != 0) == (oc
        == 1))) by (bit_vector)
        requires
            res == (a >> 1u8) | (oc << 7u8),
    ;
    assert((a & 0x01 != 0) == (a & 1 == 1)) by (bit_vector);
    lemma_carry_nz(s1, res & 0x80 != 0, (res << 1u8) | oc2);
}

/// The carry, overflow, zero and negative flags after an instruction
/// that sets the carry to `c`, the overflow to `o` and N and Z from `res`.
proof fn lemma_carry_overflow_nz(s: u8, c: bool, o: bool, res: u8)
    ensures
        flag(with_nz(with_flag(with_flag(s, CARRY, c), OVERFLOW, o), res), CARRY) == c,
        flag(with_nz(with_flag(with_flag(s, CARRY, c), OVERFLOW, o), res), OVERFLOW) == o,
        flag(with_nz(with_flag(with_flag(s, CARRY, c), OVERFLOW, o), res), ZERO) == (res == 0),
        flag(with_nz(with_flag(with_flag(s, CARRY, c), OVERFLOW, o), res), NEGATIVE) == (res >= 128),
{
    let s1 = with_flag(s, CARRY, c);
    let s2 = with_flag(s1, OVERFLOW, o);
    let s3 = with_flag(s2, ZERO, res == 0);
    lemma_flag_update(s, CARRY, c, CARRY);
    lemma_flag_update(s1, OVERFLOW, o, CARRY);
    lemma_flag_update(s1, OVERFLOW, o, OVERFLOW);
    lemma_flag_update(s2, ZERO, res == 0, CARRY);
    lemma_flag_update(s2, ZERO, res == 0, OVERFLOW);
    lemma_flag_update(s2, ZERO, res == 0, ZERO);
    lemma_flag_update(s3, NEGATIVE, res & 0x80 != 0, CARRY);
    lemma_flag_update(s3, NEGATIVE, res & 0x80 != 0, OVERFLOW);
    lemma_flag_update(s3, NEGATIVE, res & 0x80 != 0, ZERO);
    lemma_flag_update(s3, NEGATIVE, res & 0x80 != 0, NEGATIVE);
    lemma_sign_bit(res);
}

/// A byte read as a two's-complement number (-128 to 127).
pub open spec fn signed(x: u8) -> int {
    if x >= 128 {
        x - 256
    } else {
        x as int
    }
}

/// The carry flag as a number.
pub open spec fn carry_in(m: Machine) -> int {
    if flag(m.cpu.status, CARRY) {
        1
    } else {
        0
    }
}

/// ASL A doubles the accumulator modulo 256 and moves the old bit 7 into
/// the carry; LSR A halves it, moving the old bit 0 into the carry and
/// clearing N; ROL A doubles it and adds the old carry. Z and N describe
/// each result.
pub proof fn lemma_shifts_on_the_accumulator(m: Machine, o: Operand, cy: u8)
    ensures
        spec_asl_acc(m, o, cy).1.cpu.a == (m.cpu.a * 2) % 256,
        flag(spec_asl_acc(m, o, cy).1.cpu.status, CARRY) == (m.cpu.a >= 128),
        flag(spec_asl_acc(m, o, cy).1.cpu.status, ZERO) == (spec_asl_acc(m, o, cy).1.cpu.a == 0),
        flag(spec_asl_acc(m, o, cy).1.cpu.status, NEGATIVE) == (spec_asl_acc(m, o, cy).1.cpu.a
            >= 128),
        spec_lsr_acc(m, o, cy).1.cpu.a == m.cpu.a / 2,
        flag(spec_lsr_acc(m, o, cy).1.cpu.status, CARRY) == (m.cpu.a % 2 == 1),
        flag(spec_lsr_acc(m, o, cy).1.cpu.status, ZERO) == (m.cpu.a < 2),
        !flag(spec_lsr_acc(m, o, cy).1.cpu.status, NEGATIVE),
        spec_rol_acc(m, o, cy).1.cpu.a == (m.cpu.a * 2) % 256 + carry_in(m),
        flag(spec_rol_acc(m, o, cy).1.cpu.status, CARRY) == (m.cpu.a >= 128),
        flag(spec_rol_acc(m, o, cy).1.cpu.status, ZERO) == (spec_rol_acc(m, o, cy).1.cpu.a == 0),
        flag(spec_rol_acc(m, o, cy).1.cpu.status, NEGATIVE) == (spec_rol_acc(m, o, cy).1.cpu.a
            >= 128),
{
    let a = m.cpu.a;
    let oc: u8 = if flag(m.cpu.status, CARRY) { 1 } else { 0 };
    assert(oc <= 1 ==> (a << 1u8) == (a * 2) % 256 && (a >> 1u8) == a / 2 && ((a << 1u8) | oc)
        == (a * 2) % 256 + oc && ((a & 0x80 != 0) == (a >= 128)) && ((a & 0x01 != 0) == (a % 2
        == 1))) by (bit_vector);
    lemma_carry_nz(m.cpu.status, a & 0x80 != 0, a << 1u8);
    lemma_carry_nz(m.cpu.status, a & 0x01 != 0, a >> 1u8);
    lemma_carry_nz(m.cpu.status, a & 0x80 != 0, (a << 1u8) | oc);
}

/// The bit arithmetic of ADC: the carry is the ninth bit of the sum and
/// the overflow flag reports a signed result outside -128..127.
proof fn lemma_adc_bits(a: u8, v: u8, c: u8)
    requires
        c <= 1,
    ensures
        ((a + v + c) as u8) == (a + v + c) % 256,
        ((a ^ ((a + v + c) as u8)) & (v ^ ((a + v + c) as u8)) & 0x80 != 0) == !(-128 <= signed(a)
            + signed(v) + c <= 127),
{
    let r = (a + v + c) as u8;
    assert(r == (a + v + c) % 256) by (bit_vector)
        requires
            r == (a + v + c) as u8,
    ;
    assert(((a ^ r) & (v ^ r) & 0x80 != 0) == ((a >= 128) == (v >= 128) && (r >= 128) != (a
        >= 128))) by (bit_vector);
}

/// ADC adds the operand and the carry to the accumulator: the new
/// accumulator plus 256 for a set carry equals the old accumulator
/// plus the operand plus the old carry; V is set exactly when the
/// signed sum leaves -128..127; Z and N describe the result.
pub proof fn lemma_adc_adds(m: Machine, o: Operand, cy: u8)
    ensures
        ({
            let (v, m1) = m.read(o.addr);
            let c2 = spec_adc(m, o, cy).1.cpu;
            &&& c2.a + (if flag(c2.status, CARRY) { 256int } else { 0int }) == m1.cpu.a + v
                + carry_in(m1)
            &&& flag(c2.status, OVERFLOW) == !(-128 <= signed(m1.cpu.a) + signed(v) + carry_in(m1)
                <= 127)
            &&& flag(c2.status, ZERO) == (c2.a == 0)
            &&& flag(c2.status, NEGATIVE) == (c2.a >= 128)
        }),
{
    let (v, m1) = m.read(o.addr);
    let c = m1.cpu;
    let cin: u8 = if flag(c.status, CARRY) { 1 } else { 0 };
    lemma_adc_bits(c.a, v, cin);
    let sum = c.a + v + carry_in(m1);
    let res = sum as u8;
    lemma_carry_overflow_nz(
        c.status,
        sum > 0xFF,
        (c.a ^ res) & (v ^ res) & 0x80 != 0,
        res,
    );
}

/// The bit arithmetic of SBC: the borrow clears the carry, and the
/// overflow flag reports a signed difference outside -128..127.
proof fn lemma_sbc_bits(a: u8, v: u8, c: u8)
    requires
        c <= 1,
    ensures
        ({
            let d = wsub16(wsub16(a as u16, v as u16), (1 - c) as u16);
            &&& (d < 0x100) == (a - v - (1 - c) >= 0)
            &&& (d as u8) == (a - v - (1 - c) + 256) % 256
            &&& ((a ^ (d as u8)) & (!v ^ (d as u8)) & 0x80 != 0) == !(-128 <= signed(a) - signed(v)
                - (1 - c) <= 127)
        }),
{
    let d = wsub16(wsub16(a as u16, v as u16), (1 - c) as u16);
    let r = d as u8;
    let b = (1 - c) as u16;
    assert(b <= 1 ==> (d < 0x100) == (a - v - b >= 0) && r == (a - v - b + 256) % 256) by (
    bit_vector)
        requires
            d == wsub16(wsub16(a as u16, v as u16), b),
            r == d as u8,
    ;
    assert(((a ^ r) & (!v ^ r) & 0x80 != 0) == ((a >= 128) != (v >= 128) && (r >= 128) != (a
        >= 128))) by (bit_vector);
}

/// SBC subtracts the operand and the borrow (the cleared carry) from
/// the accumulator: the new accumulator equals that difference modulo
/// 256; the carry is set exactly when no borrow was needed; V is set
/// exactly when the signed difference leaves -128..127.
pub proof fn lemma_sbc_subtracts(m: Machine, o: Operand, cy: u8)
    ensures
        ({
            let (v, m1) = m.read(o.addr);
            let c2 = spec_sbc(m, o, cy).1.cpu;
            let diff = m1.cpu.a - v - (1 - carry_in(m1));
            &&& c2.a == (diff + 256) % 256
            &&& flag(c2.status, CARRY) == (diff >= 0)
            &&& flag(c2.status, OVERFLOW) == !(-128 <= signed(m1.cpu.a) - signed(v) - (1
                - carry_in(m1)) <= 127)
            &&& flag(c2.status, ZERO) == (c2.a == 0)
            &&& flag(c2.status, NEGATIVE) == (c2.a >= 128)
        }),
{
    let (v, m1) = m.read(o.addr);
    let c = m1.cpu;
    let cin: u8 = if flag(c.status, CARRY) { 1 } else { 0 };
    lemma_sbc_bits(c.a, v, cin);
    let carry: u16 = if flag(c.status, CARRY) { 1 } else { 0 };
    let d = wsub16(wsub16(c.a as u16, v as u16), (1 - carry) as u16);
    let res = d as u8;
    lemma_carry_overflow_nz(
        c.status,
        d < 0x100,
        (c.a ^ res) & (!v ^ res) & 0x80 != 0,
        res,
    );
}

/// CMP sets the carry when the accumulator is at least the operand, Z
/// when they are equal, and N from bit 7 of their difference; the
/// accumulator itself is left alone.
pub proof fn lemma_compare_acc(m: Machine, o: Operand, cy: u8)
    ensures
        ({
            let (v, m1) = m.read(o.addr);
            let c2 = spec_compare_acc(m, o, cy).1.cpu;
            &&& c2.a == m1.cpu.a
            &&& flag(c2.status, CARRY) == (m1.cpu.a >= v)
            &&& flag(c2.status, ZERO) == (m1.cpu.a == v)
            &&& flag(c2.status, NEGATIVE) == ((m1.cpu.a - v + 256) % 256 >= 128)
        }),
{
    let (v, m1) = m.read(o.addr);
    let c = m1.cpu;
    let diff = wsub8(c.a, v);
    lemma_carry_nz(c.status, c.a >= v, diff);
}

/// Whether a step result jumped (set the program counter itself).
pub open spec fn jumped(r: StepResult) -> bool {
    r matches Ok(StepOk::Jump { .. })
}

/// A branch that is taken moves the program counter to the target and
/// costs one cycle more, two when the target is on another page; one
/// that is not taken changes nothing and advances past the instruction.
pub proof fn lemma_branch_outcome(m: Machine, o: Operand, cy: u8, cond: bool)
    requires
        cy <= 253,
    ensures
        cond ==> branch_spec(m, o, cy, cond).0 == Ok::<StepOk, StepErr>(
            StepOk::Jump { cycles: (cy + if o.page_cross { 2int } else { 1int }) as u8 },
        ) && branch_spec(m, o, cy, cond).1 == m.with_cpu(Cpu { pc: o.addr, ..m.cpu }),
        !cond ==> branch_spec(m, o, cy, cond).0 == Ok::<StepOk, StepErr>(
            StepOk::Advance { size: o.size, cycles: cy },
        ) && branch_spec(m, o, cy, cond).1 == m,
{
}

/// Each flag has a pair of branches and exactly one of them is taken:
/// BCS, BEQ, BMI and BVS when carry, zero, negative and overflow are
/// set, BCC, BNE, BPL and BVC when they are clear.
pub proof fn lemma_branch_conditions(m: Machine, o: Operand, cy: u8)
    ensures
        jumped(spec_bcs(m, o, cy).0) == flag(m.cpu.status, CARRY),
        jumped(spec_bcc(m, o, cy).0) == !flag(m.cpu.status, CARRY),
        jumped(spec_beq(m, o, cy).0) == flag(m.cpu.status, ZERO),
        jumped(spec_bne(m, o, cy).0) == !flag(m.cpu.status, ZERO),
        jumped(spec_bmi(m, o, cy).0) == flag(m.cpu.status, NEGATIVE),
        jumped(spec_bpl(m, o, cy).0) == !flag(m.cpu.status, NEGATIVE),
        jumped(spec_bvs(m, o, cy).0) == flag(m.cpu.status, OVERFLOW),
        jumped(spec_bvc(m, o, cy).0) == !flag(m.cpu.status, OVERFLOW),
{
}

/// Z and N after an instruction that sets them from `res`: the carry
/// and overflow flags are kept.
proof fn lemma_nz(s: u8, res: u8)
    ensures
        flag(with_nz(s, res), ZERO) == (res == 0),
        flag(with_nz(s, res), NEGATIVE) == (res >= 128),
        flag(with_nz(s, res), CARRY) == flag(s, CARRY),
        flag(with_nz(s, res), OVERFLOW) == flag(s, OVERFLOW),
{
    let s1 = with_flag(s, ZERO, res == 0);
    lemma_flag_update(s, ZERO, res == 0, ZERO);
    lemma_flag_update(s, ZERO, res == 0, CARRY);
    lemma_flag_update(s, ZERO, res == 0, OVERFLOW);
    lemma_flag_update(s1, NEGATIVE, res & 0x80 != 0, ZERO);
    lemma_flag_update(s1, NEGATIVE, res & 0x80 != 0, NEGATIVE);
    lemma_flag_update(s1, NEGATIVE, res & 0x80 != 0, CARRY);
    lemma_flag_update(s1, NEGATIVE, res & 0x80 != 0, OVERFLOW);
    lemma_sign_bit(res);
}

/// INX, INY, DEX and DEY count their register up or down by one,
/// wrapping at 256; the transfers copy one register into another. Each
/// sets Z and N from the new value and keeps the carry.
pub proof fn lemma_counts_and_transfers(m: Machine, o: Operand, cy: u8)
    ensures
        spec_inx(m, o, cy).1.cpu.x == (m.cpu.x + 1) % 256,
        spec_iny(m, o, cy).1.cpu.y == (m.cpu.y + 1) % 256,
        spec_dex(m, o, cy).1.cpu.x == (m.cpu.x + 255) % 256,
        spec_dey(m, o, cy).1.cpu.y == (m.cpu.y + 255) % 256,
        spec_tax(m, o, cy).1.cpu.x == m.cpu.a,
        spec_tay(m, o, cy).1.cpu.y == m.cpu.a,
        spec_txa(m, o, cy).1.cpu.a == m.cpu.x,
        spec_tya(m, o, cy).1.cpu.a == m.cpu.y,
        flag(spec_inx(m, o, cy).1.cpu.status, ZERO) == (m.cpu.x == 255),
        flag(spec_dex(m, o, cy).1.cpu.status, ZERO) == (m.cpu.x == 1),
        flag(spec_inx(m, o, cy).1.cpu.status, NEGATIVE) == (spec_inx(m, o, cy).1.cpu.x >= 128),
        flag(spec_dey(m, o, cy).1.cpu.status, NEGATIVE) == (spec_dey(m, o, cy).1.cpu.y >= 128),
        flag(spec_tax(m, o, cy).1.cpu.status, ZERO) == (m.cpu.a == 0),
        flag(spec_inx(m, o, cy).1.cpu.status, CARRY) == flag(m.cpu.status, CARRY),
{
    lemma_nz(m.cpu.status, spec_inx(m, o, cy).1.cpu.x);
    lemma_nz(m.cpu.status, spec_dex(m, o, cy).1.cpu.x);
    lemma_nz(m.cpu.status, spec_dey(m, o, cy).1.cpu.y);
    lemma_nz(m.cpu.status, m.cpu.a);
}

/// BIT sets Z when the accumulator and the operand share no set bit, and
/// copies the operand's bits 6 and 7 into V and N; the accumulator and
/// the carry are left alone.
pub proof fn lemma_bit_test(m: Machine, o: Operand, cy: u8)
    ensures
        ({
            let (v, m1) = m.read(o.addr);
            let c2 = spec_bit(m, o, cy).1.cpu;
            &&& c2.a == m1.cpu.a
            &&& flag(c2.status, ZERO) == (m1.cpu.a & v == 0)
            &&& flag(c2.status, OVERFLOW) == (v / 64 % 2 == 1)
            &&& flag(c2.status, NEGATIVE) == (v >= 128)
            &&& flag(c2.status, CARRY) == flag(m1.cpu.status, CARRY)
        }),
{
    let (v, m1) = m.read(o.addr);
    let s = m1.cpu.status;
    let s1 = with_flag(s, ZERO, m1.cpu.a & v == 0);
    let s2 = with_flag(s1, OVERFLOW, v & 0x40 != 0);
    lemma_flag_update(s, ZERO, m1.cpu.a & v == 0, ZERO);
    lemma_flag_update(s, ZERO, m1.cpu.a & v == 0, CARRY);
    lemma_flag_update(s1, OVERFLOW, v & 0x40 != 0, ZERO);
    lemma_flag_update(s1, OVERFLOW, v & 0x40 != 0, OVERFLOW);
    lemma_flag_update(s1, OVERFLOW, v & 0x40 != 0, CARRY);
    lemma_flag_update(s2, NEGATIVE, v & 0x80 != 0, ZERO);
    lemma_flag_update(s2, NEGATIVE, v & 0x80 != 0, OVERFLOW);
    lemma_flag_update(s2, NEGATIVE, v & 0x80 != 0, NEGATIVE);
    lemma_flag_update(s2, NEGATIVE, v & 0x80 != 0, CARRY);
    assert((v & 0x40 != 0) == (v / 64 % 2 == 1) && (v & 0x80 != 0) == (v >= 128)) by (bit_vector);
}

} // verus!
