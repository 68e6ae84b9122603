use nes_rs::bus::Bus;
use nes_rs::cartridge::Cartridge;
use nes_rs::cpu::step::{StepErr, StepOk};
use nes_rs::cpu::{Cpu, BREAK, CARRY, IRQ_DISABLE, NEGATIVE, OVERFLOW, UNUSED, ZERO};
use nes_rs::ppu::Ppu;

fn load_program(cpu: &mut Cpu, bus: &mut Bus, ppu: &mut Ppu, origin: u16, program: &[u8]) {
    cpu.pc = origin;
    for (i, &byte) in program.iter().enumerate() {
        bus.write(origin.wrapping_add(i as u16), byte, ppu);
    }
}

fn run_until_halt(cpu: &mut Cpu, bus: &mut Bus, ppu: &mut Ppu) -> u64 {
    let start = cpu.cycles;
    while cpu.step(bus, ppu).is_ok() {}
    cpu.cycles - start
}

#[test]
fn lda_immediate_sta_zeropage() {
    let mut cpu = Cpu::new();
    let mut bus = Bus::new();
    let mut ppu = Ppu::new();
    load_program(&mut cpu, &mut bus, &mut ppu, 0x0200, &[0xA9, 0x42, 0x85, 0x10, 0x00]);
    let _ = run_until_halt(&mut cpu, &mut bus, &mut ppu);

    assert_eq!(cpu.a, 0x42);
    assert_eq!(bus.read(0x0010, &mut ppu), 0x42);
}

#[test]
fn adc_with_carry() {
    let mut cpu = Cpu::new();
    let mut bus = Bus::new();
    let mut ppu = Ppu::new();
    load_program(&mut cpu, &mut bus, &mut ppu, 0x0200, &[0x38, 0xA9, 0x01, 0x69, 0x01, 0x00]);
    let _ = run_until_halt(&mut cpu, &mut bus, &mut ppu);
    assert_eq!(cpu.a, 3);
}

#[test]
fn adc_overflow_and_carry_flags() {
    let mut cpu = Cpu::new();
    let mut bus = Bus::new();
    let mut ppu = Ppu::new();
    load_program(&mut cpu, &mut bus, &mut ppu, 0x0200, &[0x18, 0xA9, 0xFF, 0x69, 0x01, 0x00]);
    let _ = run_until_halt(&mut cpu, &mut bus, &mut ppu);
    assert_eq!(cpu.a, 0x00);
    assert!(cpu.get_flag(CARRY));
    assert!(cpu.get_flag(ZERO));
}

#[test]
fn branch_bne_loop() {
    let mut cpu = Cpu::new();
    let mut bus = Bus::new();
    let mut ppu = Ppu::new();
    load_program(&mut cpu, &mut bus, &mut ppu, 0x0200, &[0xA2, 0x03, 0xCA, 0xD0, 0xFD, 0x00]);
    let _ = run_until_halt(&mut cpu, &mut bus, &mut ppu);
    assert_eq!(cpu.x, 0x00);
    assert!(cpu.get_flag(ZERO));
}

#[test]
fn jsr_rts_round_trip() {
    let mut cpu = Cpu::new();
    let mut bus = Bus::new();
    let mut ppu = Ppu::new();
    load_program(&mut cpu, &mut bus, &mut ppu, 0x0200, &[0x20, 0x10, 0x02, 0xA9, 0xAA, 0x00]);
    load_program(&mut cpu, &mut bus, &mut ppu, 0x0210, &[0xA9, 0x55, 0x60]);
    cpu.pc = 0x0200;
    let _ = run_until_halt(&mut cpu, &mut bus, &mut ppu);
    assert_eq!(cpu.a, 0xAA);
}

#[test]
fn push_pop_stack() {
    let mut cpu = Cpu::new();
    let mut bus = Bus::new();
    let mut ppu = Ppu::new();
    load_program(&mut cpu, &mut bus, &mut ppu, 0x0200, &[0xA9, 0x42, 0x48, 0xA9, 0x00, 0x68, 0x00]);
    let _ = run_until_halt(&mut cpu, &mut bus, &mut ppu);
    assert_eq!(cpu.a, 0x42);
}

#[test]
fn jmp_absolute() {
    let mut cpu = Cpu::new();
    let mut bus = Bus::new();
    let mut ppu = Ppu::new();
    load_program(&mut cpu, &mut bus, &mut ppu, 0x0200, &[0x4C, 0x10, 0x02]);
    load_program(&mut cpu, &mut bus, &mut ppu, 0x0210, &[0xA9, 0x77, 0x00]);
    cpu.pc = 0x0200;
    let _ = run_until_halt(&mut cpu, &mut bus, &mut ppu);
    assert_eq!(cpu.a, 0x77);
}

#[test]
fn step_returns_correct_cycles() {
    let mut cpu = Cpu::new();
    let mut bus = Bus::new();
    let mut ppu = Ppu::new();
    load_program(&mut cpu, &mut bus, &mut ppu, 0x0200, &[0xA9, 0x42, 0xEA, 0x00]);

    let ok1 = cpu.step(&mut bus, &mut ppu);
    assert!(matches!(ok1, Ok(StepOk::Advance { cycles: 2, size: 2 })));
    let ok2 = cpu.step(&mut bus, &mut ppu);
    assert!(matches!(ok2, Ok(StepOk::Advance { cycles: 2, size: 1 })));
    let err = cpu.step(&mut bus, &mut ppu);
    assert!(matches!(err, Err(StepErr::Break)));
}

#[test]
fn illegal_opcode_returns_error() {
    let mut cpu = Cpu::new();
    let mut bus = Bus::new();
    let mut ppu = Ppu::new();
    load_program(&mut cpu, &mut bus, &mut ppu, 0x0200, &[0x02]);
    let result = cpu.step(&mut bus, &mut ppu);
    assert!(matches!(result, Err(StepErr::IllegalOpcode(0x02))));
}

#[test]
fn power_on_state() {
    let cpu = Cpu::new();
    assert_eq!(cpu.status, 0x24);
    assert_eq!(cpu.sp, 0xFD);
    assert_eq!(cpu.pc, 0);
    assert_eq!(cpu.cycles, 0);
}

#[test]
fn cycles_add_up_with_page_cross() {
    let mut cpu = Cpu::new();
    let mut bus = Bus::new();
    let mut ppu = Ppu::new();
    // LDX #$01; LDA $02FF,X (crosses into page $03: 4 + 1 cycles); BRK
    load_program(&mut cpu, &mut bus, &mut ppu, 0x0200, &[0xA2, 0x01, 0xBD, 0xFF, 0x02, 0x00]);
    assert_eq!(run_until_halt(&mut cpu, &mut bus, &mut ppu), 2 + 5);
}

#[test]
fn taken_branch_costs_one_more_cycle() {
    let mut cpu = Cpu::new();
    let mut bus = Bus::new();
    let mut ppu = Ppu::new();
    // SEC; BCS +0 (taken, same page: 3 cycles)
    load_program(&mut cpu, &mut bus, &mut ppu, 0x0200, &[0x38, 0xB0, 0x00, 0x00]);
    let _ = cpu.step(&mut bus, &mut ppu);
    let r = cpu.step(&mut bus, &mut ppu);
    assert!(matches!(r, Ok(StepOk::Jump { cycles: 3 })));
    assert_eq!(cpu.pc, 0x0203);
}

#[test]
fn sbc_borrows_and_sets_flags() {
    let mut cpu = Cpu::new();
    let mut bus = Bus::new();
    let mut ppu = Ppu::new();
    // SEC; LDA #$50; SBC #$B0 → $A0, overflow, negative, borrow (C clear)
    load_program(&mut cpu, &mut bus, &mut ppu, 0x0200, &[0x38, 0xA9, 0x50, 0xE9, 0xB0, 0x00]);
    let _ = run_until_halt(&mut cpu, &mut bus, &mut ppu);
    assert_eq!(cpu.a, 0xA0);
    assert!(cpu.get_flag(OVERFLOW));
    assert!(cpu.get_flag(NEGATIVE));
    assert!(!cpu.get_flag(CARRY));
}

#[test]
fn php_plp_keeps_unused_and_drops_break() {
    let mut cpu = Cpu::new();
    let mut bus = Bus::new();
    let mut ppu = Ppu::new();
    // SEC; PHP; CLC; PLP; BRK
    load_program(&mut cpu, &mut bus, &mut ppu, 0x0200, &[0x38, 0x08, 0x18, 0x28, 0x00]);
    let _ = run_until_halt(&mut cpu, &mut bus, &mut ppu);
    assert!(cpu.get_flag(CARRY));
    assert!(cpu.get_flag(UNUSED));
    assert!(!cpu.get_flag(BREAK));
    assert_eq!(cpu.sp, 0xFD);
}

#[test]
fn jmp_indirect_wraps_within_page() {
    let mut cpu = Cpu::new();
    let mut bus = Bus::new();
    let mut ppu = Ppu::new();
    // Pointer at $02FF: low byte at $02FF, high byte read from $0200.
    load_program(&mut cpu, &mut bus, &mut ppu, 0x02FF, &[0x34]);
    load_program(&mut cpu, &mut bus, &mut ppu, 0x0200, &[0x03]);
    load_program(&mut cpu, &mut bus, &mut ppu, 0x0100, &[0x6C, 0xFF, 0x02]);
    let r = cpu.step(&mut bus, &mut ppu);
    assert!(matches!(r, Ok(StepOk::Jump { cycles: 5 })));
    assert_eq!(cpu.pc, 0x0334);
}

fn cart_with_vectors(nmi: u16, reset: u16, irq: u16, code: &[(u16, u8)]) -> Cartridge {
    let mut prg = vec![0u8; 16_384];
    for &(addr, byte) in code {
        prg[(addr as usize - 0x8000) & 0x3FFF] = byte;
    }
    prg[0x3FFA] = nmi as u8;
    prg[0x3FFB] = (nmi >> 8) as u8;
    prg[0x3FFC] = reset as u8;
    prg[0x3FFD] = (reset >> 8) as u8;
    prg[0x3FFE] = irq as u8;
    prg[0x3FFF] = (irq >> 8) as u8;
    let mut data = Vec::new();
    data.extend_from_slice(b"NES\x1a");
    data.push(1);
    data.push(0);
    data.extend_from_slice(&[0u8; 10]);
    data.extend_from_slice(&prg);
    Cartridge::from_ines(&data).expect("valid image")
}

#[test]
fn reset_loads_the_reset_vector() {
    let mut cpu = Cpu::new();
    let mut bus = Bus::new();
    let mut ppu = Ppu::new();
    bus.load_cartridge(cart_with_vectors(0x9000, 0x8123, 0xA000, &[])).expect("supported");
    cpu.a = 5;
    cpu.reset(&mut bus, &mut ppu);
    assert_eq!(cpu.pc, 0x8123);
    assert_eq!(cpu.a, 0);
    assert_eq!(cpu.sp, 0xFD);
    assert_eq!(cpu.status, 0x24);
}

#[test]
fn nmi_then_rti_resumes() {
    let mut cpu = Cpu::new();
    let mut bus = Bus::new();
    let mut ppu = Ppu::new();
    // Handler at $9000: RTI.
    bus.load_cartridge(cart_with_vectors(0x9000, 0x8000, 0xA000, &[(0x9000, 0x40)]))
        .expect("supported");
    cpu.pc = 0x0234;
    cpu.status = CARRY | UNUSED;
    cpu.request_nmi();
    let r = cpu.step(&mut bus, &mut ppu);
    assert!(matches!(r, Ok(StepOk::Jump { cycles: 7 })));
    assert_eq!(cpu.pc, 0x9000);
    assert!(cpu.get_flag(IRQ_DISABLE));
    assert_eq!(cpu.sp, 0xFA);
    let _ = cpu.step(&mut bus, &mut ppu);
    assert_eq!(cpu.pc, 0x0234);
    assert_eq!(cpu.sp, 0xFD);
    assert_eq!(cpu.status, CARRY | UNUSED);
}

#[test]
fn masked_irq_is_dropped() {
    let mut cpu = Cpu::new();
    let mut bus = Bus::new();
    let mut ppu = Ppu::new();
    load_program(&mut cpu, &mut bus, &mut ppu, 0x0200, &[0xEA, 0xEA]);
    cpu.request_irq();
    let r = cpu.step(&mut bus, &mut ppu);
    assert!(matches!(r, Ok(StepOk::Advance { cycles: 2, size: 1 })));
    assert!(!cpu.irq_pending);
    assert_eq!(cpu.pc, 0x0201);
}

#[test]
fn irq_served_when_enabled() {
    let mut cpu = Cpu::new();
    let mut bus = Bus::new();
    let mut ppu = Ppu::new();
    bus.load_cartridge(cart_with_vectors(0x9000, 0x8000, 0xA000, &[])).expect("supported");
    cpu.pc = 0x0300;
    cpu.status = UNUSED;
    cpu.request_irq();
    let r = cpu.step(&mut bus, &mut ppu);
    assert!(matches!(r, Ok(StepOk::Jump { cycles: 7 })));
    assert_eq!(cpu.pc, 0xA000);
    assert_eq!(cpu.cycles, 7);
}
