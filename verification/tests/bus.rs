use tetanes_core::apu::Channel;
use tetanes_core::bus::{cpu_bus_read_source, cpu_bus_write_target, mirror, Bus, BusRead, BusWrite};
use tetanes_core::genie::GenieCode;
use tetanes_core::input::JoypadBtn;
use tetanes_core::patch::Patch;

#[test]
fn work_ram_repeats_every_two_kilobytes() {
    for addr in [0x0000u16, 0x0123, 0x07FF] {
        for mirror_base in [0x0000u16, 0x0800, 0x1000, 0x1800] {
            assert_eq!(cpu_bus_write_target(mirror_base + addr), BusWrite::Wram(addr));
            assert_eq!(cpu_bus_read_source(mirror_base + addr), BusRead::Wram(addr));
        }
    }
}

#[test]
fn ppu_registers_repeat_every_eight_bytes() {
    assert_eq!(mirror(0x2008), 0x2000);
    assert_eq!(mirror(0x3FFF), 0x2007);
    assert_eq!(mirror(0x4000), 0x4000);
    assert_eq!(cpu_bus_write_target(0x3FFC), BusWrite::OamData);
    assert_eq!(cpu_bus_write_target(0x2006), BusWrite::PpuAddr);
    assert_eq!(cpu_bus_read_source(0x200A), BusRead::PpuStatus);
    assert_eq!(cpu_bus_read_source(0x2001), BusRead::PpuOpenBus);
}

#[test]
fn apu_and_input_registers_route_to_their_units() {
    assert_eq!(cpu_bus_write_target(0x4003), BusWrite::ApuTimerHi(Channel::Pulse1));
    assert_eq!(cpu_bus_write_target(0x4005), BusWrite::ApuSweep(Channel::Pulse2));
    assert_eq!(cpu_bus_write_target(0x4008), BusWrite::ApuLinearCounter);
    assert_eq!(cpu_bus_write_target(0x4009), BusWrite::Unmapped);
    assert_eq!(cpu_bus_write_target(0x400F), BusWrite::ApuLength(Channel::Noise));
    assert_eq!(cpu_bus_write_target(0x4010), BusWrite::ApuTimerLo(Channel::Dmc));
    assert_eq!(cpu_bus_write_target(0x4014), BusWrite::Unmapped);
    assert_eq!(cpu_bus_write_target(0x4016), BusWrite::InputStrobe);
    assert_eq!(cpu_bus_write_target(0x4017), BusWrite::FrameCounter);
    assert_eq!(cpu_bus_read_source(0x4016), BusRead::Input(0));
    assert_eq!(cpu_bus_read_source(0x4017), BusRead::Input(1));
    assert_eq!(cpu_bus_read_source(0x4015), BusRead::ApuStatus);
    assert_eq!(cpu_bus_read_source(0x4000), BusRead::OpenBus);
}

#[test]
fn the_cartridge_answers_from_4100_up() {
    assert_eq!(cpu_bus_write_target(0x4100), BusWrite::Cart(0x4100));
    assert_eq!(cpu_bus_write_target(0x8000), BusWrite::Cart(0x8000));
    assert_eq!(cpu_bus_read_source(0xFFFF), BusRead::Cart(0xFFFF));
    assert_eq!(cpu_bus_read_source(0x40FF), BusRead::OpenBus);
}

#[test]
fn read_write_ram() {
    let mut bus = Bus::default();

    bus.cpu_bus_write(0x0001, 0x66);
    assert_eq!(bus.cpu_bus_peek(0x0001), 0x66, "peek ram");
    assert_eq!(bus.cpu_bus_read(0x0001), 0x66, "read ram");
    assert_eq!(bus.cpu_bus_read(0x0801), 0x66, "peek mirror 1");
    assert_eq!(bus.cpu_bus_read(0x0801), 0x66, "read mirror 1");
    assert_eq!(bus.cpu_bus_read(0x1001), 0x66, "peek mirror 2");
    assert_eq!(bus.cpu_bus_read(0x1001), 0x66, "read mirror 2");
    assert_eq!(bus.cpu_bus_read(0x1801), 0x66, "peek mirror 3");
    assert_eq!(bus.cpu_bus_read(0x1801), 0x66, "read mirror 3");

    bus.cpu_bus_write(0x0802, 0x77);
    assert_eq!(bus.cpu_bus_read(0x0002), 0x77, "write mirror 1");
    bus.cpu_bus_write(0x1002, 0x88);
    assert_eq!(bus.cpu_bus_read(0x0002), 0x88, "write mirror 2");
    bus.cpu_bus_write(0x1802, 0x99);
    assert_eq!(bus.cpu_bus_read(0x0002), 0x99, "write mirror 3");
}

#[test]
fn write_apu_pulse() {
    let mut bus = Bus::default();

    bus.cpu_bus_write(0x4000, 0x3F); // duty 0, constant volume 15
    bus.cpu_bus_write(0x4002, 0x34); // timer low
    bus.cpu_bus_write(0x4003, 0x01); // timer high
    assert_eq!(bus.apu.pulse1.real_period, 0x134, "pulse1 period");
    assert_eq!(bus.apu.pulse2.real_period, 0, "pulse2 untouched");

    bus.cpu_bus_write(0x4006, 0x78);
    bus.cpu_bus_write(0x4007, 0x02);
    assert_eq!(bus.apu.pulse2.real_period, 0x278, "pulse2 period");
    assert_eq!(bus.apu.pulse1.real_period, 0x134, "pulse1 still untouched");

    // $4001/$4005 are the sweep units.
    bus.cpu_bus_write(0x4001, 0x8F);
    assert!(bus.apu.pulse1.sweep.enabled, "$4001 pulse1 sweep");
    assert!(!bus.apu.pulse2.sweep.enabled, "pulse2 sweep untouched");
    bus.cpu_bus_write(0x4005, 0x8F);
    assert!(bus.apu.pulse2.sweep.enabled, "$4005 pulse2 sweep");
}

#[test]
fn write_apu_triangle() {
    let mut bus = Bus::default();

    bus.cpu_bus_write(0x400A, 0x56);
    bus.cpu_bus_write(0x400B, 0x03);
    assert_eq!(bus.apu.triangle.timer.period, 0x356, "triangle period");

    bus.cpu_bus_write(0x4008, 0x7F);
    assert_eq!(bus.apu.triangle.linear.counter_reload, 0x7F, "$4008 linear counter");

    // $4009 is not a register; it must not disturb the channel.
    let before = bus.apu.triangle.timer.period;
    bus.cpu_bus_write(0x4009, 0xFF);
    assert_eq!(bus.apu.triangle.timer.period, before, "$4009 is unmapped");
}

#[test]
fn write_dmc() {
    let mut bus = Bus::default();

    bus.cpu_bus_write(0x4010, 0x0F); // rate index 15, IRQ and loop clear
    assert!(!bus.apu.dmc.irq_enabled, "$4010 IRQ disabled");
    assert!(!bus.apu.dmc.loops, "$4010 loop clear");
    bus.cpu_bus_write(0x4010, 0xC0);
    assert!(bus.apu.dmc.irq_enabled, "$4010 bit 7 enables the IRQ");
    assert!(bus.apu.dmc.loops, "$4010 bit 6 sets loop");

    bus.cpu_bus_write(0x4011, 0xFF);
    assert_eq!(bus.apu.dmc.output_level, 0x7F, "$4011 keeps 7 bits");

    bus.cpu_bus_write(0x4012, 0x02);
    assert_eq!(bus.apu.dmc.sample_addr, 0xC080, "$4012 is $C000 + n*64");

    bus.cpu_bus_write(0x4013, 0x02);
    assert_eq!(bus.apu.dmc.sample_length, 0x21, "$4013 is n*16 + 1");
}

#[test]
fn read_write_input() {
    let mut bus = Bus::default();

    bus.input.joypads[0].set_button(JoypadBtn::A.bits(), true);
    bus.input.joypads[0].set_button(JoypadBtn::Right.bits(), true);

    // Strobe high then low latches the button state and rewinds to bit 0.
    bus.cpu_bus_write(0x4016, 0x01);
    bus.cpu_bus_write(0x4016, 0x00);

    // A, B, Select, Start, Up, Down, Left, Right - so bit 0 is A and bit 7 is Right.
    let bits: Vec<u8> = (0..8).map(|_| bus.cpu_bus_read(0x4016) & 0x01).collect();
    assert_eq!(bits, [1, 0, 0, 0, 0, 0, 0, 1], "controller one shifts out");

    // Re-strobing rewinds it.
    bus.cpu_bus_write(0x4016, 0x01);
    bus.cpu_bus_write(0x4016, 0x00);
    assert_eq!(bus.cpu_bus_read(0x4016) & 0x01, 0x01, "back to the A button");

    // Controller two is a separate shift register on $4017.
    assert_eq!(bus.cpu_bus_read(0x4017) & 0x01, 0x00, "controller two is idle");
}

#[test]
fn the_channel_enables_and_the_status_read_back() {
    let mut bus = Bus::default();
    bus.cpu_bus_write(0x4015, 0x0F);
    assert_eq!(bus.cpu_bus_peek(0x4015), 0x00);
    bus.cpu_bus_write(0x4003, 0x08);
    bus.cpu_bus_write(0x400B, 0x08);
    assert_eq!(bus.cpu_bus_read(0x4015), 0x05);
    bus.cpu_bus_write(0x4015, 0x00);
    assert_eq!(bus.apu.pulse1.length.counter, 0);
    assert_eq!(bus.cpu_bus_peek(0x4015), 0x00);
    bus.cpu_bus_write(0x4017, 0x40);
    assert_eq!(bus.apu.frame_counter.write_buffer, Some(0x40));
    assert_eq!(bus.open_bus, 0x40);
    assert_eq!(bus.cpu_bus_peek(0x5000 - 0x0F00), 0x40);
}

#[test]
fn a_patch_substitutes_wram_reads_the_genie_cannot_reach() {
    let mut bus = Bus::default();
    bus.wram[0x10] = 0x03;
    bus.wram[0x11] = 0x03;

    bus.patches.insert(Patch::new(0x0010, 0x63, None));
    assert_eq!(bus.cpu_bus_read(0x0010), 0x63, "read is substituted");
    assert_eq!(bus.cpu_bus_peek(0x0010), 0x63, "and so is peek");
    assert_eq!(bus.cpu_bus_peek(0x0011), 0x03, "the next byte is not");
    // The mirrors fold onto the same address, so they are patched with it.
    assert_eq!(bus.cpu_bus_peek(0x0810), 0x63, "and its mirror");

    // Substitution is on the way out, so the game's own writes still land.
    bus.cpu_bus_write(0x0010, 0x01);
    assert_eq!(bus.wram[0x10], 0x01, "the write reaches memory");
    assert_eq!(bus.cpu_bus_peek(0x0010), 0x63, "and the read still does not");

    bus.patches.remove(0x0010);
    assert_eq!(bus.cpu_bus_peek(0x0010), 0x01);
}

#[test]
fn genie_codes() {
    let mut bus = Bus::default();
    let code = "YYKPOYZZ"; // The Legend of Zelda: New character with 8 Hearts
    let addr = 0x9F41;
    let orig_value = 0x22; // 3 Hearts
    let new_value = 0x77; // 8 Hearts

    bus.add_genie_code(GenieCode::new(code.to_string()).expect("valid genie code"));
    assert_eq!(bus.patches.read(addr, orig_value), new_value, "patched value");
    assert_eq!(bus.patches.read(addr, 0x23), 0x23, "the compare byte guards it");
    bus.remove_genie_code("not a code");
    assert_eq!(bus.patches.read(addr, orig_value), new_value, "an unreadable code removes nothing");
    bus.remove_genie_code(code);
    assert_eq!(bus.patches.read(addr, orig_value), orig_value, "original value");

    bus.patches.insert(Patch::new(0x0100, 0x01, None));
    bus.patches.insert(Patch::new(0x0100, 0x02, None));
    assert_eq!(bus.patches.read(0x0100, 0x00), 0x02, "a patch replaces the one at its address");
    bus.clear_genie_codes();
    assert_eq!(bus.patches.read(0x0100, 0x00), 0x00);
}
