//! The CPU's address decode: which part of the console owns each of the 64K addresses it can
//! read and write.
use vstd::prelude::*;

use crate::apu::{apu_status, Apu, Channel};
use crate::cart::RamState;
use crate::common::NesRegion;
use crate::genie::{decode_addr, GenieCode};
use crate::input::{input_strobed, port_read, Input, InputView, Player};
use crate::patch::{patched, Patch, Patches};

verus! {

/// Where a CPU write lands.
#[derive(Debug, Copy, Clone, PartialEq, Eq, Structural)]
pub enum BusWrite {
    /// The 2K of work RAM, at this offset.
    Wram(u16),
    /// The cartridge: its PRG memory, then its board's registers.
    Cart(u16),
    /// PPU `$2000`.
    PpuCtrl,
    /// PPU `$2001`.
    PpuMask,
    /// PPU `$2002`, read-only: the write only sets the PPU's open bus.
    PpuOpenBus,
    /// PPU `$2003`.
    OamAddr,
    /// PPU `$2004`.
    OamData,
    /// PPU `$2005`.
    PpuScroll,
    /// PPU `$2006`.
    PpuAddr,
    /// PPU `$2007`.
    PpuData,
    /// A channel's control register: `$4000`, `$4004`, `$400C`.
    ApuCtrl(Channel),
    /// A pulse channel's sweep unit: `$4001`, `$4005`.
    ApuSweep(Channel),
    /// A channel's timer low byte, or the DMC's rate: `$4002`, `$4006`, `$400A`, `$400E`,
    /// `$4010`.
    ApuTimerLo(Channel),
    /// A channel's timer high byte and length: `$4003`, `$4007`, `$400B`.
    ApuTimerHi(Channel),
    /// The triangle's linear counter, `$4008`.
    ApuLinearCounter,
    /// A channel's length: `$400F`, `$4013`.
    ApuLength(Channel),
    /// The DMC's output level, `$4011`.
    DmcOutput,
    /// The DMC's sample address, `$4012`.
    DmcAddr,
    /// The APU's channel enables, `$4015`.
    ApuStatus,
    /// The controller strobe, `$4016`.
    InputStrobe,
    /// The APU frame counter, `$4017`.
    FrameCounter,
    /// Nothing listens: unused registers, and `$4014`, whose OAM DMA the CPU starts itself.
    Unmapped,
}

/// Where a CPU read is answered from.
#[derive(Debug, Copy, Clone, PartialEq, Eq, Structural)]
pub enum BusRead {
    /// The 2K of work RAM, at this offset.
    Wram(u16),
    /// The cartridge.
    Cart(u16),
    /// PPU `$2002`.
    PpuStatus,
    /// PPU `$2004`.
    OamData,
    /// PPU `$2007`.
    PpuData,
    /// The write-only PPU registers, which answer with the PPU's open bus.
    PpuOpenBus,
    /// The APU's status, `$4015`.
    ApuStatus,
    /// A controller port: `$4016` for player one, `$4017` for player two.
    Input(u8),
    /// Nothing drives the bus: the last value on it is read back.
    OpenBus,
}

/// The address an access reaches once the mirrors are folded: work RAM repeats every 2K up to
/// `$1FFF`, and the eight PPU registers every 8 bytes up to `$3FFF`.
pub open spec fn mirrored(addr: u16) -> u16 {
    if 0x0800 <= addr <= 0x1FFF {
        (addr % 0x0800) as u16
    } else if 0x2008 <= addr <= 0x3FFF {
        (0x2000 + addr % 8) as u16
    } else {
        addr
    }
}

/// Where a CPU write to `addr` lands.
pub open spec fn write_target(addr: u16) -> BusWrite {
    let a = mirrored(addr);
    if a <= 0x07FF {
        BusWrite::Wram(a)
    } else if a >= 0x4100 {
        BusWrite::Cart(a)
    } else {
        match a {
            0x2000 => BusWrite::PpuCtrl,
            0x2001 => BusWrite::PpuMask,
            0x2002 => BusWrite::PpuOpenBus,
            0x2003 => BusWrite::OamAddr,
            0x2004 => BusWrite::OamData,
            0x2005 => BusWrite::PpuScroll,
            0x2006 => BusWrite::PpuAddr,
            0x2007 => BusWrite::PpuData,
            0x4000 => BusWrite::ApuCtrl(Channel::Pulse1),
            0x4001 => BusWrite::ApuSweep(Channel::Pulse1),
            0x4002 => BusWrite::ApuTimerLo(Channel::Pulse1),
            0x4003 => BusWrite::ApuTimerHi(Channel::Pulse1),
            0x4004 => BusWrite::ApuCtrl(Channel::Pulse2),
            0x4005 => BusWrite::ApuSweep(Channel::Pulse2),
            0x4006 => BusWrite::ApuTimerLo(Channel::Pulse2),
            0x4007 => BusWrite::ApuTimerHi(Channel::Pulse2),
            0x4008 => BusWrite::ApuLinearCounter,
            0x400A => BusWrite::ApuTimerLo(Channel::Triangle),
            0x400B => BusWrite::ApuTimerHi(Channel::Triangle),
            0x400C => BusWrite::ApuCtrl(Channel::Noise),
            0x400E => BusWrite::ApuTimerLo(Channel::Noise),
            0x400F => BusWrite::ApuLength(Channel::Noise),
            0x4010 => BusWrite::ApuTimerLo(Channel::Dmc),
            0x4011 => BusWrite::DmcOutput,
            0x4012 => BusWrite::DmcAddr,
            0x4013 => BusWrite::ApuLength(Channel::Dmc),
            0x4015 => BusWrite::ApuStatus,
            0x4016 => BusWrite::InputStrobe,
            0x4017 => BusWrite::FrameCounter,
            _ => BusWrite::Unmapped,
        }
    }
}

/// Where a CPU read of `addr` is answered from.
pub open spec fn read_source(addr: u16) -> BusRead {
    let a = mirrored(addr);
    if a <= 0x07FF {
        BusRead::Wram(a)
    } else if a >= 0x4100 {
        BusRead::Cart(a)
    } else {
        match a {
            0x2002 => BusRead::PpuStatus,
            0x2004 => BusRead::OamData,
            0x2007 => BusRead::PpuData,
            0x2000 | 0x2001 | 0x2003 | 0x2005 | 0x2006 => BusRead::PpuOpenBus,
            0x4015 => BusRead::ApuStatus,
            0x4016 => BusRead::Input(0),
            0x4017 => BusRead::Input(1),
            _ => BusRead::OpenBus,
        }
    }
}

/// Folds the work RAM and PPU register mirrors.
pub fn mirror(addr: u16) -> (a: u16)
    ensures
        a == mirrored(addr),
{
    proof {
        assert(addr & 0x07FF == addr % 0x0800 && (0x2008 <= addr <= 0x3FFF ==> addr & 0x2007 == 0x2000 + addr % 8))
            by (bit_vector);
    }
    if 0x0800 <= addr && addr <= 0x1FFF {
        addr & 0x07FF
    } else if 0x2008 <= addr && addr <= 0x3FFF {
        addr & 0x2007
    } else {
        addr
    }
}

/// Where a CPU write to `addr` lands.
pub fn cpu_bus_write_target(addr: u16) -> (t: BusWrite)
    ensures
        t == write_target(addr),
{
    let a = mirror(addr);
    if a <= 0x07FF {
        return BusWrite::Wram(a);
    }
    if a >= 0x4100 {
        return BusWrite::Cart(a);
    }
    match a {
        0x2000 => BusWrite::PpuCtrl,
        0x2001 => BusWrite::PpuMask,
        0x2002 => BusWrite::PpuOpenBus,
        0x2003 => BusWrite::OamAddr,
        0x2004 => BusWrite::OamData,
        0x2005 => BusWrite::PpuScroll,
        0x2006 => BusWrite::PpuAddr,
        0x2007 => BusWrite::PpuData,
        0x4000 => BusWrite::ApuCtrl(Channel::Pulse1),
        0x4001 => BusWrite::ApuSweep(Channel::Pulse1),
        0x4002 => BusWrite::ApuTimerLo(Channel::Pulse1),
        0x4003 => BusWrite::ApuTimerHi(Channel::Pulse1),
        0x4004 => BusWrite::ApuCtrl(Channel::Pulse2),
        0x4005 => BusWrite::ApuSweep(Channel::Pulse2),
        0x4006 => BusWrite::ApuTimerLo(Channel::Pulse2),
        0x4007 => BusWrite::ApuTimerHi(Channel::Pulse2),
        0x4008 => BusWrite::ApuLinearCounter,
        0x400A => BusWrite::ApuTimerLo(Channel::Triangle),
        0x400B => BusWrite::ApuTimerHi(Channel::Triangle),
        0x400C => BusWrite::ApuCtrl(Channel::Noise),
        0x400E => BusWrite::ApuTimerLo(Channel::Noise),
        0x400F => BusWrite::ApuLength(Channel::Noise),
        0x4010 => BusWrite::ApuTimerLo(Channel::Dmc),
        0x4011 => BusWrite::DmcOutput,
        0x4012 => BusWrite::DmcAddr,
        0x4013 => BusWrite::ApuLength(Channel::Dmc),
        0x4015 => BusWrite::ApuStatus,
        0x4016 => BusWrite::InputStrobe,
        0x4017 => BusWrite::FrameCounter,
        _ => BusWrite::Unmapped,
    }
}

/// Where a CPU read of `addr` is answered from.
pub fn cpu_bus_read_source(addr: u16) -> (s: BusRead)
    ensures
        s == read_source(addr),
{
    let a = mirror(addr);
    if a <= 0x07FF {
        return BusRead::Wram(a);
    }
    if a >= 0x4100 {
        return BusRead::Cart(a);
    }
    match a {
        0x2002 => BusRead::PpuStatus,
        0x2004 => BusRead::OamData,
        0x2007 => BusRead::PpuData,
        0x2000 | 0x2001 | 0x2003 | 0x2005 | 0x2006 => BusRead::PpuOpenBus,
        0x4015 => BusRead::ApuStatus,
        0x4016 => BusRead::Input(0),
        0x4017 => BusRead::Input(1),
        _ => BusRead::OpenBus,
    }
}

/// Every address of work RAM's mirrors reaches the same byte as the one 2K, 4K or 6K below it,
/// and every PPU register mirror the register 8 bytes below it.
pub proof fn lemma_mirrors_reach_the_same_place(addr: u16)
    ensures
        0x0800 <= addr <= 0x1FFF ==> write_target(addr) == write_target((addr - 0x0800) as u16)
            && read_source(addr) == read_source((addr - 0x0800) as u16),
        0x2008 <= addr <= 0x3FFF ==> write_target(addr) == write_target((addr - 8) as u16)
            && read_source(addr) == read_source((addr - 8) as u16),
{
}

/// What is written to work RAM through one of its mirrors reads back through any other: the
/// 2K repeat every `$0800` bytes up to `$1FFF`.
pub proof fn lemma_a_ram_write_reads_back_through_every_mirror(wram: Seq<u8>, addr: u16, other: u16, val: u8)
    requires
        wram.len() == 0x800,
        addr < 0x2000,
        other < 0x2000,
        addr % 0x800 == other % 0x800,
    ensures
        read_source(other) == BusRead::Wram(mirrored(other)),
        wram_written(wram, write_target(addr), val)[mirrored(other) as int] == val,
{
}

/// Work RAM after a write that lands on `target`.
pub open spec fn wram_written(wram: Seq<u8>, target: BusWrite, val: u8) -> Seq<u8> {
    match target {
        BusWrite::Wram(a) => wram.update(a as int, val),
        _ => wram,
    }
}

/// The APU after a write that lands on `target`: each register hands the value to its channel.
pub open spec fn apu_written(apu: Apu, target: BusWrite, val: u8) -> Apu {
    match target {
        BusWrite::ApuCtrl(c) => apu.ctrl_written(c, val),
        BusWrite::ApuSweep(c) => apu.sweep_written(c, val),
        BusWrite::ApuTimerLo(c) => apu.timer_lo_written(c, val),
        BusWrite::ApuTimerHi(c) => apu.timer_hi_written(c, val),
        BusWrite::ApuLinearCounter => apu.linear_counter_written(val),
        BusWrite::ApuLength(c) => apu.length_written(c, val),
        BusWrite::DmcOutput => apu.dmc_output_written(val),
        BusWrite::DmcAddr => apu.dmc_addr_written(val),
        BusWrite::ApuStatus => apu.status_written(val),
        BusWrite::FrameCounter => apu.frame_counter_written(val),
        _ => apu,
    }
}

/// The controllers after a write that lands on `target`: `$4016` strobes them.
pub open spec fn input_written(input: InputView, target: BusWrite, val: u8) -> InputView {
    match target {
        BusWrite::InputStrobe => input_strobed(input, val),
        _ => input,
    }
}

/// The controller port a read of `$4016` (`0`) or `$4017` (`1`) reaches.
pub open spec fn port_player(port: u8) -> Player {
    if port == 0 { Player::One } else { Player::Two }
}

/// What a read answered from `source` returns: a byte of work RAM, the APU status, a controller's
/// next bit with the open-bus bit 6 set, or, where nothing this type holds drives the bus, the
/// last value on it.
pub open spec fn peeked(wram: Seq<u8>, patches: Map<u16, Patch>, apu: Apu, input: InputView, open_bus: u8, source: BusRead) -> u8 {
    match source {
        BusRead::Wram(a) => patched(patches, a, wram[a as int]),
        BusRead::ApuStatus => apu_status(apu),
        BusRead::Input(port) => port_read(input, port_player(port)).1 | 0x40,
        _ => open_bus,
    }
}

/// The controllers after a read answered from `source`: a controller port shifts its register.
pub open spec fn input_read(input: InputView, source: BusRead) -> InputView {
    match source {
        BusRead::Input(port) => port_read(input, port_player(port)).0,
        _ => input,
    }
}

/// The console parts the CPU bus reaches that live on the console itself: work RAM, the APU's
/// registers and the controller ports.
///
/// The PPU and the cartridge are not part of this type: a write that lands on them changes
/// nothing here but the open bus.
#[derive(Debug, Clone)]
pub struct Bus {
    /// 2K of work RAM on the console itself, at `$0000-$07FF` and mirrored to `$1FFF`.
    pub wram: Vec<u8>,
    /// Audio Processing Unit.
    pub apu: Apu,
    /// Joypad inputs.
    pub input: Input,
    /// Whatever was last read or written to the bus.
    pub open_bus: u8,
    /// RAM initialization state.
    pub ram_state: RamState,
    /// NES Region.
    pub region: NesRegion,
    /// Cheats: values substituted for what a read of work RAM would otherwise return.
    pub patches: Patches,
}

impl Default for Bus {
    fn default() -> (bus: Self)
        ensures
            bus.wf(),
            bus.wram@ == Seq::new(0x800, |_i: int| 0u8),
            bus.open_bus == 0,
            bus.ram_state == RamState::AllZeros,
            bus.region == NesRegion::Ntsc,
            bus.patches@ == Map::<u16, Patch>::empty(),
    {
        Self::new(NesRegion::Ntsc, RamState::AllZeros)
    }
}

impl Bus {
    /// Bytes of work RAM.
    pub const WRAM_SIZE: usize = 0x800;

    /// Work RAM is 2K and the APU keeps its invariant.
    pub open spec fn wf(&self) -> bool {
        &&& self.wram@.len() == 0x800
        &&& self.apu.wf()
    }

    /// A console timed for `region`, with zeroed work RAM, a silent APU and no buttons held.
    pub fn new(region: NesRegion, ram_state: RamState) -> (bus: Self)
        ensures
            bus.wf(),
            bus.wram@ == Seq::new(0x800, |_i: int| 0u8),
            bus.open_bus == 0,
            bus.ram_state == ram_state,
            bus.region == region,
            bus.patches@ == Map::<u16, Patch>::empty(),
            bus.apu.frame_counter.region == region,
            bus.input@.four_player == crate::input::FourPlayer::Disabled,
    {
        let bus = Bus {
            wram: vec![0u8; Self::WRAM_SIZE],
            apu: Apu::new(region),
            input: Input::new(),
            open_bus: 0x00,
            patches: Patches::new(),
            ram_state,
            region,
        };
        proof {
            assert(bus.wram@ =~= Seq::new(0x800, |_i: int| 0u8));
        }
        bus
    }

    /// Route a write to whichever component owns `addr`, without moving the console: work RAM
    /// through its mirrors, the APU's registers to their channels, and `$4016` to the
    /// controllers' strobe. The value is left on the open bus.
    #[verifier::spinoff_prover]
    #[verifier::rlimit(30)]
    pub fn cpu_bus_write(&mut self, addr: u16, val: u8)
        requires
            old(self).wf(),
        ensures
            final(self).wf(),
            final(self).open_bus == val,
            final(self).wram@ == wram_written(old(self).wram@, write_target(addr), val),
            final(self).apu == apu_written(old(self).apu, write_target(addr), val),
            final(self).input@ == input_written(old(self).input@, write_target(addr), val),
            final(self).ram_state == old(self).ram_state,
            final(self).region == old(self).region,
            final(self).patches@ == old(self).patches@,
    {
        self.open_bus = val;
        let target = cpu_bus_write_target(addr);
        match target {
            BusWrite::Wram(a) => self.wram.set(a as usize, val),
            BusWrite::ApuCtrl(c) => self.apu.write_ctrl(c, val),
            BusWrite::ApuSweep(c) => self.apu.write_sweep(c, val),
            BusWrite::ApuTimerLo(c) => self.apu.write_timer_lo(c, val),
            BusWrite::ApuTimerHi(c) => self.apu.write_timer_hi(c, val),
            BusWrite::ApuLinearCounter => self.apu.write_linear_counter(val),
            BusWrite::ApuLength(c) => self.apu.write_length(c, val),
            BusWrite::DmcOutput => self.apu.write_dmc_output(val),
            BusWrite::DmcAddr => self.apu.write_dmc_addr(val),
            BusWrite::ApuStatus => self.apu.write_status(val),
            BusWrite::InputStrobe => self.input.write(val),
            BusWrite::FrameCounter => self.apu.write_frame_counter(val),
            _ => {},
        }
    }

    /// Route a read to whichever component owns `addr`, with no side effects at all.
    pub fn cpu_bus_peek(&self, addr: u16) -> (val: u8)
        requires
            self.wf(),
        ensures
            val == peeked(self.wram@, self.patches@, self.apu, self.input@, self.open_bus, read_source(addr)),
    {
        match cpu_bus_read_source(addr) {
            BusRead::Wram(a) => self.patches.read(a, self.wram[a as usize]),
            BusRead::ApuStatus => self.apu.peek_status(),
            BusRead::Input(port) => {
                let player = if port == 0 { Player::One } else { Player::Two };
                self.input.peek_port(player) | 0x40
            },
            _ => self.open_bus,
        }
    }

    /// Route a read to whichever component owns `addr`, without moving the console. A
    /// controller port shifts, and the value read is left on the open bus.
    pub fn cpu_bus_read(&mut self, addr: u16) -> (val: u8)
        requires
            old(self).wf(),
        ensures
            final(self).wf(),
            val == peeked(old(self).wram@, old(self).patches@, old(self).apu, old(self).input@, old(self).open_bus, read_source(addr)),
            final(self).open_bus == val,
            final(self).wram@ == old(self).wram@,
            final(self).apu == old(self).apu,
            final(self).input@ == input_read(old(self).input@, read_source(addr)),
            final(self).ram_state == old(self).ram_state,
            final(self).region == old(self).region,
            final(self).patches@ == old(self).patches@,
    {
        let val = match cpu_bus_read_source(addr) {
            BusRead::Wram(a) => self.patches.read(a, self.wram[a as usize]),
            BusRead::ApuStatus => self.apu.read_status(),
            BusRead::Input(port) => {
                let player = if port == 0 { Player::One } else { Player::Two };
                self.input.read_port(player) | 0x40
            },
            _ => self.open_bus,
        };
        self.open_bus = val;
        val
    }

    /// Apply a Game Genie code, replacing any patch already at its address.
    pub fn add_genie_code(&mut self, genie_code: GenieCode)
        ensures
            final(self).patches@ == old(self).patches@.insert(
                genie_code.spec_addr(),
                Patch { addr: genie_code.spec_addr(), data: genie_code.spec_data(), compare: genie_code.spec_compare() },
            ),
            final(self).wram@ == old(self).wram@,
            final(self).apu == old(self).apu,
            final(self).input@ == old(self).input@,
            final(self).open_bus == old(self).open_bus,
    {
        self.patches.insert(Patch::from_genie(&genie_code));
    }

    /// Remove the patch a Game Genie code applies, if the code is one this build can read.
    pub fn remove_genie_code(&mut self, code: &str)
        ensures
            match GenieCode::parse_spec(code@) {
                Ok(hex) => final(self).patches@ == old(self).patches@.remove(decode_addr(hex)),
                Err(_) => final(self).patches@ == old(self).patches@,
            },
            final(self).wram@ == old(self).wram@,
            final(self).apu == old(self).apu,
            final(self).input@ == old(self).input@,
            final(self).open_bus == old(self).open_bus,
    {
        if let Ok(genie_code) = GenieCode::new(String::from_str(code)) {
            self.patches.remove(genie_code.addr());
        }
    }

    /// Remove every patch.
    pub fn clear_genie_codes(&mut self)
        ensures
            final(self).patches@ == Map::<u16, Patch>::empty(),
            final(self).wram@ == old(self).wram@,
            final(self).apu == old(self).apu,
            final(self).input@ == old(self).input@,
            final(self).open_bus == old(self).open_bus,
    {
        self.patches.clear();
    }
}

} // verus!
