use crate::bus::{Addressable, Bus};
use crate::component::{Component, ComponentState};
use crate::ppu::video::{VideoComponent, VideoState};
use crate::rom::MirrorArrangement;
use vstd::prelude::*;

verus! {

pub const SHIFT_REGISTER_INITIAL: u8 = 0x10;

/// The control register of the mapper: mirroring in bits 0 and 1, the
/// program bank mode in bits 2 and 3, the pattern bank mode in bit 4.
#[derive(Copy, Clone, Debug, PartialEq, Eq, Structural)]
pub struct ControlRegister(pub u8);

impl ControlRegister {
    pub open spec fn spec_mirroring(&self) -> u8 {
        self.0 % 4
    }

    pub open spec fn spec_prg_mode(&self) -> u8 {
        (self.0 / 4) % 4
    }

    pub open spec fn spec_chr_mode(&self) -> bool {
        (self.0 / 16) % 2 == 1
    }

    /// The register with the program bank mode replaced by `mode` modulo 4.
    pub open spec fn with_prg_mode(self, mode: u8) -> Self {
        ControlRegister((self.0 - self.spec_prg_mode() * 4 + (mode % 4) * 4) as u8)
    }

    /// The mirroring that the register selects.
    pub open spec fn arrangement(self) -> MirrorArrangement {
        if self.spec_mirroring() == 0 {
            MirrorArrangement::OneScreenLower
        } else if self.spec_mirroring() == 1 {
            MirrorArrangement::OneScreenUpper
        } else if self.spec_mirroring() == 2 {
            MirrorArrangement::Vertical
        } else {
            MirrorArrangement::Horizontal
        }
    }

    #[verifier::when_used_as_spec(spec_mirroring)]
    pub fn mirroring(&self) -> (value: u8)
        ensures
            value == self.spec_mirroring(),
    {
        self.0 % 4
    }

    #[verifier::when_used_as_spec(spec_prg_mode)]
    pub fn prg_mode(&self) -> (value: u8)
        ensures
            value == self.spec_prg_mode(),
    {
        (self.0 / 4) % 4
    }

    #[verifier::when_used_as_spec(spec_chr_mode)]
    pub fn chr_mode(&self) -> (on: bool)
        ensures
            on == self.spec_chr_mode(),
    {
        (self.0 / 16) % 2 == 1
    }

    pub fn set_prg_mode(&mut self, mode: u8)
        ensures
            *final(self) == old(self).with_prg_mode(mode),
    {
        self.0 = self.0 - ((self.0 / 4) % 4) * 4 + (mode % 4) * 4;
    }
}

/// The registers of the mapper.
#[derive(Copy, Clone, Debug, PartialEq, Eq, Structural)]
pub struct Mmc1Registers {
    pub prg_bank_switch: u8,
    pub chr_bank0_switch: u8,
    pub chr_bank1_switch: u8,
    /// The serial shift register; it is full when its bit 0 is set.
    pub sr: u8,
    pub control: ControlRegister,
    /// The mirroring that the last write of the control register selected.
    pub mirroring: Option<MirrorArrangement>,
}

/// The shift register after one more bit of `data` was shifted in.
pub open spec fn shifted_in(sr: u8, data: u8) -> u8 {
    (sr >> 1) | ((data & 1) << 4)
}

impl Mmc1Registers {
    /// The registers at power-on.
    pub open spec fn initial() -> Self {
        Mmc1Registers {
            prg_bank_switch: 0,
            chr_bank0_switch: 0,
            chr_bank1_switch: 1,
            sr: SHIFT_REGISTER_INITIAL,
            control: ControlRegister(0x0C),
            mirroring: None,
        }
    }

    /// The registers after a write of `data` in 0x8000..=0xFFFF: a byte with
    /// bit 7 set resets the shift register; else bit 0 is shifted in, and
    /// the fifth bit completes a value that goes to the register which the
    /// address of that write selects.
    pub open spec fn written(self, address: u16, data: u8) -> Self {
        if data >= 0x80 {
            Mmc1Registers {
                control: self.control.with_prg_mode(3),
                sr: SHIFT_REGISTER_INITIAL,
                ..self
            }
        } else if self.sr % 2 == 1 {
            let value = shifted_in(self.sr, data);
            let loaded = if address <= 0x9FFF {
                Mmc1Registers {
                    control: ControlRegister(value),
                    mirroring: Some(ControlRegister(value).arrangement()),
                    ..self
                }
            } else if address <= 0xBFFF {
                Mmc1Registers { chr_bank0_switch: value, ..self }
            } else if address <= 0xDFFF {
                Mmc1Registers { chr_bank1_switch: value, ..self }
            } else {
                Mmc1Registers { prg_bank_switch: value % 16, ..self }
            };
            Mmc1Registers { sr: SHIFT_REGISTER_INITIAL, ..loaded }
        } else {
            Mmc1Registers { sr: shifted_in(self.sr, data), ..self }
        }
    }

    /// The program bank that `address` (0x8000..=0xFFFF) reads from, among
    /// `banks` banks.
    pub open spec fn prg_bank(self, address: u16, banks: int) -> int {
        let mode = self.control.spec_prg_mode();
        let even = self.prg_bank_switch - self.prg_bank_switch % 2;
        if address < 0xC000 {
            if mode <= 1 {
                even
            } else if mode == 2 {
                0
            } else {
                self.prg_bank_switch as int
            }
        } else {
            if mode <= 1 {
                even + 1
            } else if mode == 2 {
                self.prg_bank_switch as int
            } else {
                banks - 1
            }
        }
    }

    /// The pattern bank that `address` (0x0000..=0x1FFF) reads from.
    pub open spec fn chr_bank(self, address: u16) -> int {
        if address < 0x1000 {
            self.chr_bank0_switch as int
        } else if self.control.spec_chr_mode() {
            self.chr_bank1_switch as int
        } else {
            self.chr_bank0_switch + 1
        }
    }
}

/// The processor side of a cartridge with the serial bank-switching mapper:
/// 8 KiB of work memory and 16 KiB banks of program memory.
pub struct Mmc1 {
    pub registers: Mmc1Registers,
    pub prg_ram: [u8; 0x2000],
    pub prg_rom: Vec<u8>,
}

/// The content of a `Mmc1`.
pub struct Mmc1State {
    pub registers: Mmc1Registers,
    pub prg_ram: Seq<u8>,
    pub prg_rom: Seq<u8>,
}

impl View for Mmc1 {
    type V = Mmc1State;

    open spec fn view(&self) -> Mmc1State {
        Mmc1State { registers: self.registers, prg_ram: self.prg_ram@, prg_rom: self.prg_rom@ }
    }
}

impl Mmc1State {
    /// The index into program memory that `address` (0x8000..=0xFFFF) reads.
    pub open spec fn rom_index(self, address: u16) -> int {
        self.registers.prg_bank(address, self.prg_rom.len() as int / 0x4000) * 0x4000 + address
            % 0x4000
    }
}

impl Addressable for Mmc1 {
    open spec fn read_value(state: Mmc1State, address: u16) -> Option<u8> {
        if 0x6000 <= address <= 0x7FFF {
            Some(state.prg_ram[address - 0x6000])
        } else if address >= 0x8000 && 0 <= state.rom_index(address) < state.prg_rom.len() {
            Some(state.prg_rom[state.rom_index(address)])
        } else {
            None
        }
    }

    open spec fn after_read(state: Mmc1State, address: u16) -> Mmc1State {
        state
    }

    open spec fn after_write(state: Mmc1State, address: u16, data: u8) -> Mmc1State {
        if 0x6000 <= address <= 0x7FFF {
            Mmc1State { prg_ram: state.prg_ram.update(address - 0x6000, data), ..state }
        } else if address >= 0x8000 {
            Mmc1State { registers: state.registers.written(address, data), ..state }
        } else {
            state
        }
    }

    fn read_byte(&mut self, address: u16) -> (value: Option<u8>) {
        if 0x6000 <= address && address <= 0x7FFF {
            Some(self.prg_ram[(address - 0x6000) as usize])
        } else if address >= 0x8000 {
            let banks: usize = self.prg_rom.len() / 0x4000;
            let mode = self.registers.control.prg_mode();
            let switch = self.registers.prg_bank_switch as usize;
            let even: usize = switch - switch % 2;
            let bank: usize = if address < 0xC000 {
                if mode <= 1 {
                    even
                } else if mode == 2 {
                    0
                } else {
                    switch
                }
            } else {
                if mode <= 1 {
                    even + 1
                } else if mode == 2 {
                    switch
                } else {
                    if banks == 0 {
                        return None;
                    }
                    banks - 1
                }
            };
            let index: usize = bank * 0x4000 + (address % 0x4000) as usize;
            if index < self.prg_rom.len() {
                Some(self.prg_rom[index])
            } else {
                None
            }
        } else {
            None
        }
    }

    fn write_byte(&mut self, address: u16, data: u8) {
        if 0x6000 <= address && address <= 0x7FFF {
            self.prg_ram[(address - 0x6000) as usize] = data;
            assert(self@.prg_ram =~= old(self)@.prg_ram.update(address - 0x6000, data));
        } else if address >= 0x8000 {
            self.registers.write(address, data);
        }
    }
}

impl Mmc1Registers {
    /// Takes a write of `data` at `address`, which lies in 0x8000..=0xFFFF.
    pub fn write(&mut self, address: u16, data: u8)
        ensures
            *final(self) == old(self).written(address, data),
    {
        if data >= 0x80 {
            self.control.set_prg_mode(3);
            self.sr = SHIFT_REGISTER_INITIAL;
        } else if self.sr % 2 == 1 {
            let value = (self.sr >> 1) | ((data & 1) << 4);
            if address <= 0x9FFF {
                self.control = ControlRegister(value);
                self.mirroring = Some(arrangement_of(self.control));
            } else if address <= 0xBFFF {
                self.chr_bank0_switch = value;
            } else if address <= 0xDFFF {
                self.chr_bank1_switch = value;
            } else {
                self.prg_bank_switch = value % 16;
            }
            self.sr = SHIFT_REGISTER_INITIAL;
        } else {
            self.sr = (self.sr >> 1) | ((data & 1) << 4);
        }
    }
}

/// The mirroring that a control register selects.
pub fn arrangement_of(control: ControlRegister) -> (mirroring: MirrorArrangement)
    ensures
        mirroring == control.arrangement(),
{
    match control.mirroring() {
        0 => MirrorArrangement::OneScreenLower,
        1 => MirrorArrangement::OneScreenUpper,
        2 => MirrorArrangement::Vertical,
        _ => MirrorArrangement::Horizontal,
    }
}

/// The five writes that load a register shift its five bits in, lowest
/// first: after four bits a register that started empty is full, and the
/// value that the fifth write completes is made of the five bits.
pub proof fn lemma_five_writes(d0: u8, d1: u8, d2: u8, d3: u8, d4: u8)
    ensures
        ({
            let s1 = shifted_in(SHIFT_REGISTER_INITIAL, d0);
            let s2 = shifted_in(s1, d1);
            let s3 = shifted_in(s2, d2);
            let s4 = shifted_in(s3, d3);
            &&& s1 % 2 == 0 && s2 % 2 == 0 && s3 % 2 == 0
            &&& s4 % 2 == 1
            &&& shifted_in(s4, d4) == (d0 & 1) | ((d1 & 1) << 1) | ((d2 & 1) << 2) | ((d3 & 1)
                << 3) | ((d4 & 1) << 4)
        }),
{
    assert({
        let s1 = (0x10u8 >> 1) | ((d0 & 1) << 4);
        let s2 = (s1 >> 1) | ((d1 & 1) << 4);
        let s3 = (s2 >> 1) | ((d2 & 1) << 4);
        let s4 = (s3 >> 1) | ((d3 & 1) << 4);
        &&& s1 % 2 == 0 && s2 % 2 == 0 && s3 % 2 == 0
        &&& s4 % 2 == 1
        &&& (s4 >> 1) | ((d4 & 1) << 4) == (d0 & 1) | ((d1 & 1) << 1) | ((d2 & 1) << 2) | ((d3
            & 1) << 3) | ((d4 & 1) << 4)
    }) by (bit_vector);
}

/// The pattern memory side of a cartridge with the serial bank-switching
/// mapper: 4 KiB banks, of which two are visible at a time. The bank
/// selection is a copy of the mapper's registers.
pub struct Mmc1Chr {
    pub chr_bank0_switch: u8,
    pub chr_bank1_switch: u8,
    pub chr_mode: bool,
    pub chr_rom: Vec<u8>,
}

/// The content of a `Mmc1Chr`.
pub struct Mmc1ChrState {
    pub chr_bank0_switch: u8,
    pub chr_bank1_switch: u8,
    pub chr_mode: bool,
    pub chr_rom: Seq<u8>,
}

impl View for Mmc1Chr {
    type V = Mmc1ChrState;

    open spec fn view(&self) -> Mmc1ChrState {
        Mmc1ChrState {
            chr_bank0_switch: self.chr_bank0_switch,
            chr_bank1_switch: self.chr_bank1_switch,
            chr_mode: self.chr_mode,
            chr_rom: self.chr_rom@,
        }
    }
}

impl Mmc1ChrState {
    /// The index into pattern memory that `address` (0x0000..=0x1FFF)
    /// reads and writes.
    pub open spec fn chr_index(self, address: u16) -> int {
        (if address < 0x1000 {
            self.chr_bank0_switch as int
        } else if self.chr_mode {
            self.chr_bank1_switch as int
        } else {
            self.chr_bank0_switch + 1
        }) * 0x1000 + address % 0x1000
    }

    /// Whether `address` reaches pattern memory.
    pub open spec fn reaches(self, address: u16) -> bool {
        address < 0x2000 && self.chr_index(address) < self.chr_rom.len()
    }

    /// The state with the bank selection of `registers`.
    pub open spec fn selecting(self, registers: Mmc1Registers) -> Mmc1ChrState {
        Mmc1ChrState {
            chr_bank0_switch: registers.chr_bank0_switch,
            chr_bank1_switch: registers.chr_bank1_switch,
            chr_mode: registers.control.spec_chr_mode(),
            ..self
        }
    }
}

impl Addressable for Mmc1Chr {
    open spec fn read_value(state: Mmc1ChrState, address: u16) -> Option<u8> {
        if state.reaches(address) {
            Some(state.chr_rom[state.chr_index(address)])
        } else {
            None
        }
    }

    open spec fn after_read(state: Mmc1ChrState, address: u16) -> Mmc1ChrState {
        state
    }

    open spec fn after_write(state: Mmc1ChrState, address: u16, data: u8) -> Mmc1ChrState {
        if state.reaches(address) {
            Mmc1ChrState { chr_rom: state.chr_rom.update(state.chr_index(address), data), ..state }
        } else {
            state
        }
    }

    fn read_byte(&mut self, address: u16) -> (value: Option<u8>) {
        match self.locate(address) {
            Some(index) => Some(self.chr_rom[index]),
            None => None,
        }
    }

    fn write_byte(&mut self, address: u16, data: u8) {
        match self.locate(address) {
            Some(index) => {
                self.chr_rom[index] = data;
            },
            None => {},
        }
    }
}

impl Mmc1Chr {
    fn locate(&self, address: u16) -> (index: Option<usize>)
        ensures
            match index {
                Some(i) => self@.reaches(address) && i == self@.chr_index(address),
                None => !self@.reaches(address),
            },
    {
        if address >= 0x2000 {
            return None;
        }
        let bank: usize = if address < 0x1000 {
            self.chr_bank0_switch as usize
        } else if self.chr_mode {
            self.chr_bank1_switch as usize
        } else {
            self.chr_bank0_switch as usize + 1
        };
        let index: usize = bank * 0x1000 + (address % 0x1000) as usize;
        if index < self.chr_rom.len() {
            Some(index)
        } else {
            None
        }
    }

    /// Takes over the bank selection of the mapper's registers.
    pub fn select(&mut self, registers: Mmc1Registers)
        ensures
            final(self)@ == old(self)@.selecting(registers),
    {
        self.chr_bank0_switch = registers.chr_bank0_switch;
        self.chr_bank1_switch = registers.chr_bank1_switch;
        self.chr_mode = registers.control.chr_mode();
    }
}

/// The bytes `data[from..from + count]` as a vector.
pub fn copy_bytes(data: &[u8], from: usize, count: usize) -> (bytes: Vec<u8>)
    requires
        from + count <= data@.len(),
    ensures
        bytes@ == data@.subrange(from as int, from + count),
{
    let length: usize = data.len();
    let mut bytes: Vec<u8> = Vec::new();
    let mut i: usize = 0;
    while i < count
        invariant
            0 <= i <= count,
            from + count <= data@.len() == length,
            bytes@ == data@.subrange(from as int, from + i),
        decreases count - i,
    {
        bytes.push(data[from + i]);
        assert(bytes@ =~= data@.subrange(from as int, from + i + 1));
        i += 1;
    }
    bytes
}

/// `count` zero bytes.
pub fn zero_bytes(count: usize) -> (bytes: Vec<u8>)
    ensures
        bytes@ == Seq::new(count as nat, |i: int| 0u8),
{
    let mut bytes: Vec<u8> = Vec::new();
    let mut i: usize = 0;
    while i < count
        invariant
            0 <= i <= count,
            bytes@ == Seq::new(i as nat, |j: int| 0u8),
        decreases count - i,
    {
        bytes.push(0);
        assert(bytes@ =~= Seq::new((i + 1) as nat, |j: int| 0u8));
        i += 1;
    }
    bytes
}

/// The halves of a cartridge with the mapper, as they are built from the
/// image `data`.
pub open spec fn mmc1_halves(data: Seq<u8>, num_rom_banks: u8, num_chr_banks: u8) -> (
    Mmc1State,
    Mmc1ChrState,
) {
    (
        Mmc1State {
            registers: Mmc1Registers::initial(),
            prg_ram: Seq::new(0x2000, |i: int| 0u8),
            prg_rom: data.subrange(0, 0x4000 * num_rom_banks),
        },
        Mmc1ChrState {
            chr_bank0_switch: 0,
            chr_bank1_switch: 1,
            chr_mode: false,
            chr_rom: if num_chr_banks > 0 {
                data.subrange(
                    0x4000 * num_rom_banks,
                    0x4000 * num_rom_banks + 0x1000 * num_chr_banks,
                )
            } else {
                Seq::new(0x2000, |i: int| 0u8)
            },
        },
    )
}

impl Mmc1 {
    /// Builds the cartridge from its image `data` and binds its processor
    /// side to 0x6000..=0xFFFF of `bus` and its pattern memory to
    /// 0x0000..=0x1FFF of `vram_bus`. Returns the two slots.
    pub fn register(
        data: &[u8],
        num_rom_banks: u8,
        num_chr_banks: u8,
        bus: &mut Bus<Component>,
        vram_bus: &mut Bus<VideoComponent>,
    ) -> (slots: (usize, usize))
        requires
            0x4000 * num_rom_banks + 0x1000 * num_chr_banks <= data@.len(),
        ensures
            slots.0 == old(bus)@.components.len(),
            slots.1 == old(vram_bus)@.components.len(),
            final(bus)@ == old(bus)@.registered(
                0x6000,
                0xFFFF,
                ComponentState::Mmc1(mmc1_halves(data@, num_rom_banks, num_chr_banks).0),
            ),
            final(vram_bus)@ == old(vram_bus)@.registered(
                0x0000,
                0x1FFF,
                VideoState::Banked(mmc1_halves(data@, num_rom_banks, num_chr_banks).1),
            ),
    {
        let (rom, chr) = Mmc1::new(data, num_rom_banks, num_chr_banks);
        let prg_slot = bus.register_region(0x6000, 0xFFFF, Component::Mmc1(rom));
        let chr_slot = vram_bus.register_region(0x0000, 0x1FFF, VideoComponent::Banked(chr));
        (prg_slot, chr_slot)
    }

    /// The two halves of a cartridge whose image `data` holds
    /// `num_rom_banks` banks of program memory followed by `num_chr_banks`
    /// banks of pattern memory. An image without pattern memory gets two
    /// zeroed banks.
    pub fn new(data: &[u8], num_rom_banks: u8, num_chr_banks: u8) -> (halves: (Mmc1, Mmc1Chr))
        requires
            0x4000 * num_rom_banks + 0x1000 * num_chr_banks <= data@.len(),
        ensures
            halves.0@.registers == Mmc1Registers::initial(),
            halves.0@.prg_rom == data@.subrange(0, 0x4000 * num_rom_banks),
            halves.0@.prg_ram == Seq::new(0x2000, |i: int| 0u8),
            halves.1@ == (Mmc1ChrState {
                chr_bank0_switch: 0,
                chr_bank1_switch: 1,
                chr_mode: false,
                chr_rom: if num_chr_banks > 0 {
                    data@.subrange(
                        0x4000 * num_rom_banks,
                        0x4000 * num_rom_banks + 0x1000 * num_chr_banks,
                    )
                } else {
                    Seq::new(0x2000, |i: int| 0u8)
                },
            }),
    {
        let prg_size: usize = 0x4000 * num_rom_banks as usize;
        let prg_rom = copy_bytes(data, 0, prg_size);
        let chr_rom = if num_chr_banks > 0 {
            copy_bytes(data, prg_size, 0x1000 * num_chr_banks as usize)
        } else {
            zero_bytes(0x2000)
        };
        let rom = Mmc1 {
            registers: Mmc1Registers {
                prg_bank_switch: 0,
                chr_bank0_switch: 0,
                chr_bank1_switch: 1,
                sr: SHIFT_REGISTER_INITIAL,
                control: ControlRegister(0x0C),
                mirroring: None,
            },
            prg_ram: [0; 0x2000],
            prg_rom,
        };
        assert(rom@.prg_ram =~= Seq::new(0x2000, |i: int| 0u8));
        (rom, Mmc1Chr { chr_bank0_switch: 0, chr_bank1_switch: 1, chr_mode: false, chr_rom })
    }
}

} // verus!
