use tetanes_core::apu::dmc::Dmc;
use tetanes_core::common::{NesRegion, ResetKind};
use tetanes_core::cpu::disasm::Resolved;
use tetanes_core::cpu::instr::{AddrMode, Instr};
use tetanes_core::cpu::{Cpu, IrqFlags, Status};

fn cpu() -> Cpu {
    let mut cpu = Cpu::new(NesRegion::Ntsc);
    cpu.reset(ResetKind::Hard);
    cpu
}

fn load(cpu: &mut Cpu, at: u16, bytes: &[u8]) {
    for (i, byte) in bytes.iter().enumerate() {
        cpu.mem[usize::from(at) + i] = *byte;
    }
}

#[test]
fn the_parts_join_back_into_one_aligned_line() {
    let mut cpu = cpu();
    cpu.x = 0x02;
    cpu.y = 0x03;
    for (addr, val) in [
        (0x0010u16, 0x34u8),
        (0x0011, 0x12),
        (0x0012, 0x78),
        (0x0013, 0x56),
        (0x0234, 0xCC),
        (0x0237, 0xBB),
    ] {
        cpu.write(addr, val);
    }

    for (bytes, expected) in [
        (&[0x0Au8] as &[u8], "$0700 $0A          ASL"),
        (&[0xEA], "$0700 $EA          NOP"),
        (&[0xA9, 0x42], "$0700 $A9 $42      LDA #$42"),
        (&[0x10, 0x7F], "$0700 $10 $7F      BPL $0781"),
        (&[0x10, 0xF0], "$0700 $10 $F0      BPL $06F2"),
        (&[0xA5, 0x10], "$0700 $A5 $10      LDA $10 = #$34"),
        (&[0xB5, 0x10], "$0700 $B5 $10      LDA $10,X @ $12 = #$78"),
        (&[0xB6, 0x10], "$0700 $B6 $10      LDX $10,Y @ $13 = #$56"),
        (
            &[0x6C, 0x10, 0x00],
            "$0700 $6C $10 $00  JMP ($0010) = $1234",
        ),
        (
            &[0xA1, 0x0E],
            "$0700 $A1 $0E      LDA ($0E,X) @ $1234 = #$CC",
        ),
        (
            &[0xB1, 0x10],
            "$0700 $B1 $10      LDA ($10),Y @ $1237 = #$BB",
        ),
        (
            &[0x91, 0x10],
            "$0700 $91 $10      STA ($10),Y @ $1237 = #$BB",
        ),
        (&[0xAD, 0x34, 0x12], "$0700 $AD $34 $12  LDA $1234 = #$CC"),
        (&[0x4C, 0x34, 0x12], "$0700 $4C $34 $12  JMP $1234"),
        (
            &[0xBD, 0x34, 0x12],
            "$0700 $BD $34 $12  LDA $1234,X @ $1236 = #$00",
        ),
        (
            &[0x9D, 0x34, 0x12],
            "$0700 $9D $34 $12  STA $1234,X @ $1236 = #$00",
        ),
        (
            &[0xB9, 0x34, 0x12],
            "$0700 $B9 $34 $12  LDA $1234,Y @ $1237 = #$BB",
        ),
        (
            &[0x99, 0x34, 0x12],
            "$0700 $99 $34 $12  STA $1234,Y @ $1237 = #$BB",
        ),
        (&[0x20, 0x34, 0x12], "$0700 $20 $34 $12  JSR $1234"),
        (
            &[0x9B, 0x34, 0x12],
            "$0700 $9B $34 $12 *TAS $1234,Y @ $1237 = #$BB",
        ),
        (
            &[0x9C, 0x34, 0x12],
            "$0700 $9C $34 $12 *SYA $1234,X @ $1236 = #$00",
        ),
        (
            &[0x9E, 0x34, 0x12],
            "$0700 $9E $34 $12 *SXA $1234,Y @ $1237 = #$BB",
        ),
        (
            &[0x9F, 0x34, 0x12],
            "$0700 $9F $34 $12 *SHAA $1234,Y @ $1237 = #$BB",
        ),
        (&[0x07, 0x10], "$0700 $07 $10     *SLO $10 = #$34"),
        (&[0x1A], "$0700 $1A         *NOP"),
    ] {
        load(&mut cpu, 0x0700, bytes);
        let mut pc = 0x0700;
        let disasm = cpu.disassemble(&mut pc);
        assert_eq!(disasm.text(), expected);
        assert_eq!(
            usize::from(disasm.len()),
            bytes.len(),
            "${:02X} reported the wrong length for {expected}",
            bytes[0]
        );
        assert_eq!(pc, 0x0700 + disasm.len());
    }
}

#[test]
fn every_opcodes_length_matches_what_executing_it_consumes() {
    for opcode in 0..=u8::MAX {
        let instr_ref = Cpu::instr_ref(opcode);
        if matches!(
            instr_ref.instr,
            Instr::HLT
                | Instr::JMP
                | Instr::JSR
                | Instr::RTS
                | Instr::RTI
                | Instr::BRK
                | Instr::BCC
                | Instr::BCS
                | Instr::BEQ
                | Instr::BMI
                | Instr::BNE
                | Instr::BPL
                | Instr::BVC
                | Instr::BVS
        ) {
            continue;
        }
        let mut cpu = cpu();
        cpu.mem[0] = opcode;
        cpu.pc = 0x0000;
        let mut pc = 0x0000;
        let disasm = cpu.disassemble(&mut pc);
        cpu.clock_instr();
        let consumed = cpu.pc;
        assert_eq!(
            disasm.len(),
            consumed,
            "${:02X} {:?} #{:?} runs {consumed} bytes",
            instr_ref.opcode,
            instr_ref.instr,
            instr_ref.addr_mode
        );
    }
}

#[test]
fn an_instruction_reads_as_its_mnemonic_with_a_mark_when_undocumented() {
    assert_eq!(Cpu::instr_ref(0xEA).text(), " NOP");
    assert_eq!(Cpu::instr_ref(0x1A).text(), "*NOP");
    assert_eq!(Cpu::instr_ref(0xE9).text(), " SBC");
    assert_eq!(Cpu::instr_ref(0xEB).text(), "*SBC");
    assert_eq!(Cpu::instr_ref(0xA9).instr.name(), "LDA");
    assert_eq!(Cpu::instr_ref(0xA9).addr_mode, AddrMode::IMM);
    assert_eq!(Resolved::Byte(0x05).text(), "#$05");
    assert_eq!(Resolved::Word(0xBEEF).text(), "$BEEF");
}

#[test]
fn a_load_sets_the_register_and_the_zero_and_negative_flags() {
    let mut cpu = cpu();
    load(&mut cpu, 0x0200, &[0xA9, 0x80, 0xA2, 0x00]);
    cpu.pc = 0x0200;
    cpu.clock_instr();
    assert_eq!(cpu.acc, 0x80);
    assert!(cpu.status.contains(Status::N));
    assert!(!cpu.status.contains(Status::Z));
    assert_eq!(cpu.pc, 0x0202);
    cpu.clock_instr();
    assert_eq!(cpu.x, 0x00);
    assert!(cpu.status.contains(Status::Z));
    assert!(!cpu.status.contains(Status::N));
}

#[test]
fn a_subroutine_call_returns_past_itself() {
    let mut cpu = cpu();
    load(&mut cpu, 0x0200, &[0x20, 0x00, 0x03]);
    load(&mut cpu, 0x0300, &[0x60]);
    cpu.pc = 0x0200;
    let sp = cpu.sp;
    cpu.clock_instr();
    assert_eq!(cpu.pc, 0x0300);
    assert_eq!(cpu.sp, sp.wrapping_sub(2));
    assert_eq!(cpu.peek_word(0x0100 + u16::from(sp.wrapping_sub(1))), 0x0202);
    cpu.clock_instr();
    assert_eq!(cpu.pc, 0x0203);
    assert_eq!(cpu.sp, sp);
}

#[test]
fn adding_with_carry_sets_carry_and_overflow() {
    let mut cpu = cpu();
    load(&mut cpu, 0x0200, &[0xA9, 0x7F, 0x69, 0x01, 0x69, 0x80]);
    cpu.pc = 0x0200;
    cpu.clock_instr();
    cpu.clock_instr();
    assert_eq!(cpu.acc, 0x80);
    assert!(cpu.status.contains(Status::V));
    assert!(!cpu.status.contains(Status::C));
    cpu.clock_instr();
    assert_eq!(cpu.acc, 0x00);
    assert!(cpu.status.contains(Status::C));
    assert!(cpu.status.contains(Status::Z));
}

#[test]
fn the_stack_gives_back_what_was_pushed() {
    let mut cpu = cpu();
    cpu.push_word(0xBEEF);
    cpu.push_byte(0x42);
    assert_eq!(cpu.peek_stack(), 0x42);
    assert_eq!(cpu.pop_byte(), 0x42);
    assert_eq!(cpu.pop_word(), 0xBEEF);
    assert_eq!(cpu.sp, Cpu::POWER_ON_SP);
}

#[test]
fn an_nmi_pushes_the_return_state_and_takes_its_vector() {
    let mut cpu = cpu();
    cpu.mem[0xFFFA] = 0x00;
    cpu.mem[0xFFFB] = 0x90;
    load(&mut cpu, 0x0200, &[0xEA]);
    cpu.pc = 0x0200;
    cpu.handle_interrupts(true, false, false);
    assert!(cpu.irq_flags(IrqFlags::NMI));
    cpu.handle_interrupts(true, false, false);
    assert!(cpu.irq_flags(IrqFlags::PREV_NMI));
    cpu.clock_instr();
    assert_eq!(cpu.pc, 0x9000);
    assert!(cpu.status.contains(Status::I));
    assert!(!cpu.irq_flags(IrqFlags::NMI));
    assert_eq!(cpu.peek_word(0x0100 + u16::from(cpu.sp) + 2), 0x0201);
}

#[test]
fn a_soft_reset_masks_interrupts_and_drops_the_stack_by_three() {
    let mut cpu = cpu();
    let sp = cpu.sp;
    cpu.reset(ResetKind::Soft);
    assert!(cpu.status.contains(Status::I));
    assert_eq!(cpu.sp, sp.wrapping_sub(3));
    cpu.reset(ResetKind::Hard);
    assert_eq!(cpu.status.bits(), Cpu::POWER_ON_STATUS);
    assert_eq!(cpu.sp, Cpu::POWER_ON_SP);
}

#[test]
fn an_oam_dma_copies_the_whole_page_in_order() {
    let mut cpu = cpu();
    for i in 0..256usize {
        cpu.mem[0x0200 + i] = i as u8 ^ 0x5A;
    }
    cpu.cycle = 0;
    cpu.start_oam_dma(0x0200);
    let mut dmc = Dmc::new(NesRegion::Ntsc);
    let before = dmc;
    let mut oam = Vec::new();
    cpu.handle_dma(0x8000, &mut dmc, &mut oam);
    let expected: Vec<u8> = (0..256usize).map(|i| i as u8 ^ 0x5A).collect();
    assert_eq!(oam, expected);
    assert_eq!(cpu.dma_oam_addr, None);
    assert!(!cpu.irq_flags(IrqFlags::DMA_HALT));
    assert_eq!(cpu.cycle, 514, "a halt, an alignment cycle, then a read and a write per byte");
    assert_eq!(dmc, before, "the DMC asked for nothing");
}

#[test]
fn a_dmc_dma_fetches_one_byte_after_its_halt_and_dummy_read() {
    let mut cpu = cpu();
    cpu.mem[0xC000] = 0x99;
    cpu.cycle = 10;
    cpu.irq_flags.bits = IrqFlags::DMA_DMC | IrqFlags::DMA_HALT | IrqFlags::DMA_DUMMY_READ;
    let mut dmc = Dmc::new(NesRegion::Ntsc);
    dmc.addr = 0xC000;
    dmc.bytes_remaining = 2;
    let mut oam = Vec::new();
    cpu.handle_dma(0x8000, &mut dmc, &mut oam);
    assert_eq!(dmc.sample_buffer, 0x99);
    assert!(!dmc.buffer_empty);
    assert_eq!(dmc.addr, 0xC001);
    assert_eq!(dmc.bytes_remaining, 1);
    assert!(oam.is_empty());
    assert!(!cpu.irq_flags(IrqFlags::DMA_DMC));
    assert_eq!(cpu.cycle, 13, "the halt, the dummy read, then the fetch on an even cycle");
}

#[test]
fn a_held_nmi_line_asks_for_one_nmi_and_irq_follows_its_line() {
    let mut cpu = cpu();
    cpu.handle_interrupts(true, false, false);
    assert!(cpu.irq_flags(IrqFlags::NMI), "the rising edge latches an NMI");
    cpu.clear_irq_flags(IrqFlags::NMI);
    cpu.handle_interrupts(true, false, false);
    assert!(!cpu.irq_flags(IrqFlags::NMI), "a line held high asks for no second one");
    cpu.handle_interrupts(false, false, false);
    cpu.handle_interrupts(true, false, false);
    assert!(cpu.irq_flags(IrqFlags::NMI), "the next rising edge latches again");

    cpu.status.set(Status::I, false);
    cpu.handle_interrupts(false, true, false);
    assert!(cpu.irq_flags(IrqFlags::RUN_IRQ));
    assert!(!cpu.irq_flags(IrqFlags::PREV_RUN_IRQ), "an IRQ runs one poll late");
    cpu.handle_interrupts(false, true, false);
    assert!(cpu.irq_flags(IrqFlags::PREV_RUN_IRQ));
    cpu.status.set(Status::I, true);
    cpu.handle_interrupts(false, true, false);
    assert!(!cpu.irq_flags(IrqFlags::RUN_IRQ), "masked while I is set");
    cpu.handle_interrupts(false, false, true);
    assert!(cpu.irq_flags(IrqFlags::DMA_DMC | IrqFlags::DMA_HALT | IrqFlags::DMA_DUMMY_READ));
}

#[test]
fn reads_and_writes_reach_work_ram_through_its_mirrors() {
    let mut cpu = cpu();
    cpu.write(0x1237, 0xBB);
    assert_eq!(cpu.peek(0x0237), 0xBB);
    assert_eq!(cpu.peek(0x0A37), 0xBB);
    assert_eq!(cpu.read(0x1A37), 0xBB);
    cpu.write(0x0010, 0x42);
    assert_eq!(cpu.peek(0x1810), 0x42);
    cpu.write(0x3FFF, 0x07);
    assert_eq!(cpu.peek(0x2007), 0x07);
    assert_eq!(cpu.peek(0x4000), 0x00);
}
