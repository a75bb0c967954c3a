use crate::apu::unit::APU;
use crate::bus::{Bus, BusMode, BusState};
use crate::component::{Component, ComponentState};
use crate::controller::Controller;
use crate::cpu::processor::{power_on, CpuState, Interrupt, CPU};
use crate::cpu::step::ticking;
use crate::error::CoreError;
use crate::ppu::oam::OamEntry;
use crate::ppu::render::{dots_edge, dots_screen, dots_state};
use crate::ppu::sprite::SpriteShift;
use crate::ppu::unit::{PpuRegisters, PpuState, PPU};
use crate::ppu::video::{VideoComponent, VideoState};
use crate::ppu::vram::{VRam, VRamState};
use crate::rom::mmc1::Mmc1Registers;
use crate::rom::{cartridge_sides, load_failure, load_rom, Cartridge, MirrorArrangement, RomHeader};
use vstd::prelude::*;

verus! {

/// The processor cycles of one frame.
pub const CPU_CYCLES_PER_FRAME: usize = 29780;

/// The console: the processor with everything that is bound to its bus. The
/// video unit, the controller, the audio registers and the cartridge are
/// reached through their slots on the bus.
pub struct Nes {
    pub cpu: CPU,
    /// The cycles run so far, modulo the machine word.
    pub cycle_count: usize,
    pub cartridge: Cartridge,
    pub ppu_slot: usize,
    pub controller_slot: usize,
    pub apu_slot: usize,
    /// The slot of the nametable memory on the video bus.
    pub vram_slot: usize,
}

/// The content of a `Nes`.
pub struct NesState {
    pub cpu: CpuState,
    pub cycle_count: usize,
    pub cartridge: Cartridge,
    pub ppu_slot: usize,
    pub controller_slot: usize,
    pub apu_slot: usize,
    pub vram_slot: usize,
}

impl View for Nes {
    type V = NesState;

    open spec fn view(&self) -> NesState {
        NesState {
            cpu: self.cpu@,
            cycle_count: self.cycle_count,
            cartridge: self.cartridge,
            ppu_slot: self.ppu_slot,
            controller_slot: self.controller_slot,
            apu_slot: self.apu_slot,
            vram_slot: self.vram_slot,
        }
    }
}

/// Zeroed video memory with the given mirroring.
pub open spec fn blank_vram(mirroring: MirrorArrangement) -> VRamState {
    VRamState {
        nametable0: Seq::new(0x400, |i: int| 0u8),
        nametable1: Seq::new(0x400, |i: int| 0u8),
        palette: Seq::new(0x20, |i: int| 0u8),
        mirroring,
    }
}

/// The video unit at power-on over `memory`.
pub open spec fn video_power_on(memory: BusState<VideoState>) -> PpuState {
    PpuState {
        regs: PpuRegisters::power_on(),
        primary_oam: Seq::new(
            64,
            |i: int| OamEntry { y: 0xFF, tile_index: 0, attributes: 0, x: 0 },
        ),
        secondary_oam: Seq::new(8, |i: int| None::<(OamEntry, usize)>),
        current_oam: Seq::new(8, |i: int| None::<(OamEntry, usize)>),
        sprite_shifters: Seq::new(
            8,
            |i: int| SpriteShift { pattern_low: 0, pattern_high: 0, attribute: 0 },
        ),
        memory,
    }
}

/// The console as it is assembled around a loadable ROM image. The
/// processor's bus holds, in this order, the work memory, the transfer
/// latch, the cartridge at 0x6000..=0xFFFF, the video unit at
/// 0x2000..=0x3FFF, the controller at 0x4016..=0x4017 and the audio
/// registers at 0x4000..=0x4013 and 0x4015; the video bus holds the
/// cartridge's pattern memory at 0x0000..=0x1FFF and the nametable memory at
/// 0x2000..=0x3FFF.
pub open spec fn assembled(rom: Seq<u8>, show_ops: bool) -> NesState {
    let header = RomHeader::parsed(rom.subrange(0, 16));
    let sides = cartridge_sides(rom);
    let video_memory = BusState::<VideoState>::empty(BusMode::OpenBus).registered(
        0x0000,
        0x1FFF,
        sides.1,
    ).registered(0x2000, 0x3FFF, VideoState::Memory(blank_vram(header.mirroring)));
    let start = power_on(BusState::<ComponentState>::empty(BusMode::OpenBus));
    let bus = start.bus.registered(0x6000, 0xFFFF, sides.0).registered(
        0x2000,
        0x3FFF,
        ComponentState::Video(video_power_on(video_memory)),
    ).registered(
        0x4016,
        0x4017,
        ComponentState::Pad(Controller { buttons: 0, current_buttons: 0 }),
    ).registered(0x4000, 0x4013, ComponentState::Audio(APU::initial())).shared(0x4015, 0x4015, 5);
    NesState {
        cpu: CpuState { bus, show_ops, ..start },
        cycle_count: 0,
        cartridge: Cartridge { header, prg_slot: 2, chr_slot: 0 },
        ppu_slot: 3,
        controller_slot: 4,
        apu_slot: 5,
        vram_slot: 1,
    }
}

/// The video unit of the console, if its slot holds one.
pub open spec fn video_unit(s: NesState) -> Option<PpuState> {
    if s.ppu_slot < s.cpu.bus.components.len() {
        match s.cpu.bus.components[s.ppu_slot as int] {
            ComponentState::Video(unit) => Some(unit),
            _ => None,
        }
    } else {
        None
    }
}

/// The console with its video unit replaced.
pub open spec fn with_video_unit(s: NesState, unit: PpuState) -> NesState {
    NesState {
        cpu: CpuState {
            bus: s.cpu.bus.with_component(s.ppu_slot as int, ComponentState::Video(unit)),
            ..s.cpu
        },
        ..s
    }
}

/// The registers of the cartridge's mapper, if the cartridge has the serial
/// bank-switching mapper.
pub open spec fn mapper_registers(s: NesState) -> Option<Mmc1Registers> {
    if s.cartridge.prg_slot < s.cpu.bus.components.len() {
        match s.cpu.bus.components[s.cartridge.prg_slot as int] {
            ComponentState::Mmc1(mapper) => Some(mapper.registers),
            _ => None,
        }
    } else {
        None
    }
}

/// The video bus with the bank selection of the mapper's registers taken
/// over by the pattern memory in `chr_slot`.
pub open spec fn banks_synced(
    memory: BusState<VideoState>,
    registers: Mmc1Registers,
    chr_slot: usize,
) -> BusState<VideoState> {
    if chr_slot < memory.components.len() {
        match memory.components[chr_slot as int] {
            VideoState::Banked(chr) => memory.with_component(
                chr_slot as int,
                VideoState::Banked(chr.selecting(registers)),
            ),
            _ => memory,
        }
    } else {
        memory
    }
}

/// The video bus with the mirroring that the mapper last selected, if it
/// selected one, set on the nametable memory in `vram_slot`.
pub open spec fn mirroring_synced(
    memory: BusState<VideoState>,
    registers: Mmc1Registers,
    vram_slot: usize,
) -> BusState<VideoState> {
    if vram_slot < memory.components.len() && registers.mirroring.is_some() {
        match memory.components[vram_slot as int] {
            VideoState::Memory(vram) => memory.with_component(
                vram_slot as int,
                VideoState::Memory(
                    VRamState { mirroring: registers.mirroring.unwrap(), ..vram },
                ),
            ),
            _ => memory,
        }
    } else {
        memory
    }
}

/// The console after the video side of the cartridge caught up with what
/// the processor wrote to the mapper.
#[verifier::opaque]
pub open spec fn synced(s: NesState) -> NesState {
    match (mapper_registers(s), video_unit(s)) {
        (Some(registers), Some(unit)) => with_video_unit(
            s,
            PpuState {
                memory: mirroring_synced(
                    banks_synced(unit.memory, registers, s.cartridge.chr_slot),
                    registers,
                    s.vram_slot,
                ),
                ..unit
            },
        ),
        _ => s,
    }
}

/// The console after the video unit ran `count` dots; a frame interrupt
/// that one of them raised is latched in the processor.
#[verifier::opaque]
pub open spec fn video_advanced(s: NesState, count: nat) -> NesState {
    match video_unit(s) {
        Some(unit) => {
            let moved = with_video_unit(s, dots_state(unit, count));
            if dots_edge(unit, count) {
                NesState {
                    cpu: CpuState { interrupt: Some(Interrupt::Nmi), ..moved.cpu },
                    ..moved
                }
            } else {
                moved
            }
        },
        None => s,
    }
}

/// The frame buffer after the video unit ran `count` dots.
#[verifier::opaque]
pub open spec fn screen_advanced(s: NesState, screen: Seq<u32>, count: nat) -> Seq<u32> {
    match video_unit(s) {
        Some(unit) => dots_screen(unit, screen, count),
        None => screen,
    }
}

/// The console after the processor step that took `cycles` cycles was
/// counted and the cartridge synced, as the video unit finds it.
pub open spec fn counted(s: NesState, after: CpuState, cycles: usize) -> NesState {
    synced(NesState { cpu: after, cycle_count: s.cycle_count.wrapping_add(cycles), ..s })
}

/// The console one step on: one step of the processor, followed by three
/// dots of the video unit for each cycle that the step took. A processor
/// step that fails ends the step.
#[verifier::opaque]
pub open spec fn stepped(s: NesState) -> NesState {
    let step = ticking(s.cpu);
    match step.result {
        Err(_) => NesState { cpu: step.state, ..s },
        Ok(cycles) => video_advanced(counted(s, step.state, cycles), (3 * cycles) as nat),
    }
}

/// The frame buffer one step on.
#[verifier::opaque]
pub open spec fn screen_stepped(s: NesState, screen: Seq<u32>) -> Seq<u32> {
    let step = ticking(s.cpu);
    match step.result {
        Err(_) => screen,
        Ok(cycles) => screen_advanced(counted(s, step.state, cycles), screen, (3 * cycles) as nat),
    }
}

/// The cycles of the next step, or the error it fails with.
#[verifier::opaque]
pub open spec fn step_result(s: NesState) -> Result<usize, CoreError> {
    ticking(s.cpu).result
}

/// Whether the next step succeeds and uses at least one cycle, as every
/// step that succeeds does.
pub open spec fn step_counts(s: NesState) -> bool {
    step_result(s) matches Ok(cycles) && cycles >= 1
}

/// The cycles that are left of `remaining` after a step used `used`.
pub open spec fn cycles_left(remaining: nat, used: usize) -> nat {
    if used >= remaining {
        0
    } else {
        (remaining - used) as nat
    }
}

/// The console after it ran steps until at least `remaining` cycles were
/// used or a step failed.
pub open spec fn emulated(s: NesState, remaining: nat) -> NesState
    decreases remaining,
{
    if remaining == 0 {
        s
    } else if step_counts(s) {
        emulated(stepped(s), cycles_left(remaining, step_result(s).unwrap()))
    } else {
        stepped(s)
    }
}

/// The frame buffer after the console ran as `emulated` says.
pub open spec fn screen_emulated(s: NesState, screen: Seq<u32>, remaining: nat) -> Seq<u32>
    decreases remaining,
{
    if remaining == 0 {
        screen
    } else if step_counts(s) {
        screen_emulated(
            stepped(s),
            screen_stepped(s, screen),
            cycles_left(remaining, step_result(s).unwrap()),
        )
    } else {
        screen_stepped(s, screen)
    }
}

/// The error that stops the run, if a step fails before `remaining` cycles
/// were used.
pub open spec fn emulation_result(s: NesState, remaining: nat) -> Result<(), CoreError>
    decreases remaining,
{
    if remaining == 0 {
        Ok(())
    } else if step_counts(s) {
        emulation_result(stepped(s), cycles_left(remaining, step_result(s).unwrap()))
    } else {
        match step_result(s) {
            Ok(_) => Ok(()),
            Err(e) => Err(e),
        }
    }
}

impl Nes {
    /// Assembles the console around the ROM image `rom`. It fails, with the
    /// reason, exactly when the image cannot be loaded.
    pub fn new(rom: &[u8], show_ops: bool) -> (console: Result<Self, String>)
        ensures
            match console {
                Ok(nes) => load_failure(rom@).is_none() && nes@ == assembled(rom@, show_ops),
                Err(message) => load_failure(rom@) == Some(message@),
            },
    {
        let mut cpu = CPU::new(Bus::new());
        cpu.set_show_ops(show_ops);
        let mut vram_bus: Bus<VideoComponent> = Bus::new();
        let mut vram = VRam::new();
        let ghost blank = vram@;
        let cartridge = match load_rom(rom, &mut cpu.bus, &mut vram_bus, &mut vram) {
            Ok(cartridge) => cartridge,
            Err(message) => {
                return Err(message);
            },
        };
        proof {
            assert(vram@.nametable0 =~= Seq::new(0x400, |i: int| 0u8));
            assert(vram@.nametable1 =~= Seq::new(0x400, |i: int| 0u8));
            assert(vram@.palette =~= Seq::new(0x20, |i: int| 0u8));
            assert(vram@ == blank_vram(cartridge.header.mirroring));
        }
        let vram_slot = vram_bus.register_region(0x2000, 0x3FFF, VideoComponent::Memory(vram));
        let ppu = PPU::new(vram_bus);
        let ppu_slot = cpu.bus.register_region(0x2000, 0x3FFF, Component::Video(ppu));
        let controller_slot = cpu.bus.register_region(
            0x4016,
            0x4017,
            Component::Pad(Controller::new()),
        );
        let apu_slot = cpu.bus.register_region(0x4000, 0x4013, Component::Audio(APU::new()));
        cpu.bus.share_region(0x4015, 0x4015, apu_slot);
        Ok(
            Nes {
                cpu,
                cycle_count: 0,
                cartridge,
                ppu_slot,
                controller_slot,
                apu_slot,
                vram_slot,
            },
        )
    }

    /// The registers of the cartridge's mapper, if it has the serial
    /// bank-switching mapper.
    pub fn mapper(&self) -> (registers: Option<Mmc1Registers>)
        ensures
            registers == mapper_registers(self@),
    {
        match self.cpu.bus.component(self.cartridge.prg_slot) {
            Some(Component::Mmc1(mapper)) => Some(mapper.registers),
            _ => None,
        }
    }

    /// Lets the video side of the cartridge catch up with what the
    /// processor wrote to the mapper.
    pub fn sync_cartridge(&mut self)
        ensures
            final(self)@ == synced(old(self)@),
    {
        proof {
            reveal(synced);
        }
        let registers = match self.mapper() {
            Some(registers) => registers,
            None => {
                return;
            },
        };
        let chr_slot = self.cartridge.chr_slot;
        let vram_slot = self.vram_slot;
        proof {
            if self.ppu_slot < self.cpu.bus@.components.len() {
                lemma_same_component(self.cpu.bus@, self.ppu_slot as int);
            }
        }
        match self.cpu.bus.component_mut(self.ppu_slot) {
            Some(Component::Video(unit)) => {
                sync_banks(&mut unit.vram_bus, registers, chr_slot);
                sync_mirroring(&mut unit.vram_bus, registers, vram_slot);
            },
            _ => {},
        }
    }

    /// Runs the video unit for `count` dots and latches the frame interrupt
    /// in the processor if one of them raised it.
    pub fn advance_video(&mut self, screen: &mut [u32], count: usize)
        ensures
            final(self)@ == video_advanced(old(self)@, count as nat),
            final(screen)@ == screen_advanced(old(self)@, old(screen)@, count as nat),
    {
        proof {
            reveal(video_advanced);
            reveal(screen_advanced);
            if self.ppu_slot < self.cpu.bus@.components.len() {
                lemma_same_component(self.cpu.bus@, self.ppu_slot as int);
            }
        }
        let nmi = match self.cpu.bus.component_mut(self.ppu_slot) {
            Some(Component::Video(unit)) => unit.advance(screen, count),
            _ => false,
        };
        if nmi {
            self.cpu.generate_nmi();
        }
    }

    /// Runs one step of the processor and then the video unit for three
    /// dots per cycle that the step took. Returns the cycles of the step.
    pub fn step(&mut self, screen: &mut [u32]) -> (cycles: Result<usize, CoreError>)
        ensures
            cycles == step_result(old(self)@),
            final(self)@ == stepped(old(self)@),
            final(screen)@ == screen_stepped(old(self)@, old(screen)@),
            cycles matches Ok(count) ==> 1 <= count <= 514,
    {
        proof {
            reveal(stepped);
            reveal(screen_stepped);
            reveal(step_result);
        }
        let cycles = self.cpu.tick()?;
        self.cycle_count = self.cycle_count.wrapping_add(cycles);
        self.sync_cartridge();
        self.advance_video(screen, cycles * 3);
        Ok(cycles)
    }

    /// Runs the console until at least `cycles` processor cycles were used.
    /// A step that fails stops the run with its error.
    pub fn emulate(&mut self, cycles: usize, screen: &mut [u32]) -> (done: Result<(), CoreError>)
        ensures
            done == emulation_result(old(self)@, cycles as nat),
            final(self)@ == emulated(old(self)@, cycles as nat),
            final(screen)@ == screen_emulated(old(self)@, old(screen)@, cycles as nat),
    {
        let mut remaining: usize = cycles;
        while remaining > 0
            invariant
                emulation_result(self@, remaining as nat) == emulation_result(
                    old(self)@,
                    cycles as nat,
                ),
                emulated(self@, remaining as nat) == emulated(old(self)@, cycles as nat),
                screen_emulated(self@, screen@, remaining as nat) == screen_emulated(
                    old(self)@,
                    old(screen)@,
                    cycles as nat,
                ),
            decreases remaining,
        {
            let used = match self.step(screen) {
                Ok(used) => used,
                Err(e) => {
                    return Err(e);
                },
            };
            remaining = if used >= remaining {
                0
            } else {
                remaining - used
            };
        }
        Ok(())
    }
}

/// Copies the bank selection of the mapper's registers to the pattern
/// memory in `chr_slot`.
pub fn sync_banks(memory: &mut Bus<VideoComponent>, registers: Mmc1Registers, chr_slot: usize)
    ensures
        final(memory)@ == banks_synced(old(memory)@, registers, chr_slot),
{
    proof {
        if chr_slot < memory@.components.len() {
            lemma_same_component(memory@, chr_slot as int);
        }
    }
    match memory.component_mut(chr_slot) {
        Some(VideoComponent::Banked(chr)) => {
            chr.select(registers);
        },
        _ => {},
    }
}

/// Putting the component of a slot back into its slot changes nothing.
pub proof fn lemma_same_component<S>(bus: BusState<S>, slot: int)
    requires
        0 <= slot < bus.components.len(),
    ensures
        bus.with_component(slot, bus.components[slot]) == bus,
{
    assert(bus.components.update(slot, bus.components[slot]) =~= bus.components);
}

/// Sets the mirroring that the mapper last selected, if it selected one, on
/// the nametable memory in `vram_slot`.
pub fn sync_mirroring(
    memory: &mut Bus<VideoComponent>,
    registers: Mmc1Registers,
    vram_slot: usize,
)
    ensures
        final(memory)@ == mirroring_synced(old(memory)@, registers, vram_slot),
{
    proof {
        if vram_slot < memory@.components.len() {
            lemma_same_component(memory@, vram_slot as int);
        }
    }
    if let Some(mirroring) = registers.mirroring {
        match memory.component_mut(vram_slot) {
            Some(VideoComponent::Memory(vram)) => {
                vram.set_mirroring(mirroring);
            },
            _ => {},
        }
    }
}

} // verus!
