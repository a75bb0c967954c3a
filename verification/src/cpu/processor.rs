use crate::bus::{Bus, BusState};
use crate::component::{Component, ComponentState};
use crate::cpu::address_mode::AddressMode;
use crate::cpu::dma::OamDmaRequest;
use crate::cpu::memory::InternalRam;
use crate::cpu::status::StatusRegister;
use crate::error::CoreError;
use vstd::prelude::*;

verus! {

/// An interrupt that waits for the next instruction boundary.
#[derive(Copy, Clone, Debug, PartialEq, Eq, Structural)]
pub enum Interrupt {
    Reset,
    Nmi,
}

/// The first address of the 256-byte window that the stack pointer indexes:
/// the second page of the address space.
pub const STACK_BASE: u16 = 0x0100;

/// The bus of the processor.
pub type CpuBus = Bus<Component>;

/// The content of the processor's bus.
pub type Memory = BusState<ComponentState>;

/// The 6502-family processor together with the bus it drives.
pub struct CPU {
    pub bus: Bus<Component>,
    pub a: u8,
    pub x: u8,
    pub y: u8,
    pub sp: u8,
    pub pc: u16,
    pub p: StatusRegister,
    pub interrupt: Option<Interrupt>,
    pub show_ops: bool,
    /// The bus slot of the object-table transfer latch.
    pub oam_slot: usize,
    /// The cycles spent so far, modulo the machine word.
    pub cycles: usize,
}

/// The content of a `CPU`.
pub struct CpuState {
    pub bus: Memory,
    pub a: u8,
    pub x: u8,
    pub y: u8,
    pub sp: u8,
    pub pc: u16,
    pub p: StatusRegister,
    pub interrupt: Option<Interrupt>,
    pub show_ops: bool,
    pub oam_slot: usize,
    pub cycles: usize,
}

impl View for CPU {
    type V = CpuState;

    open spec fn view(&self) -> CpuState {
        CpuState {
            bus: self.bus@,
            a: self.a,
            x: self.x,
            y: self.y,
            sp: self.sp,
            pc: self.pc,
            p: self.p,
            interrupt: self.interrupt,
            show_ops: self.show_ops,
            oam_slot: self.oam_slot,
            cycles: self.cycles,
        }
    }
}

/// The outcome of a piece of work of the processor: the state it leaves and
/// what it returns. Work that touches the bus stops at the first access that
/// the bus refuses, in the state reached by then.
pub struct Step<T> {
    pub state: CpuState,
    pub result: Result<T, CoreError>,
}

/// The page of an address: its high byte.
pub open spec fn page_of(address: u16) -> int {
    address as int / 256
}

/// Reading one byte from the bus.
pub open spec fn reading(s: CpuState, address: u16) -> Step<u8> {
    Step {
        state: CpuState { bus: CpuBus::after_read(s.bus, address), ..s },
        result: CpuBus::read_result(s.bus, address),
    }
}

/// Writing one byte to the bus.
pub open spec fn writing(s: CpuState, address: u16, data: u8) -> Step<()> {
    Step {
        state: CpuState { bus: CpuBus::after_write(s.bus, address, data), ..s },
        result: CpuBus::write_result(s.bus, address),
    }
}

/// Reading a little-endian word from the bus.
pub open spec fn reading_word(s: CpuState, address: u16) -> Step<u16> {
    Step {
        state: CpuState {
            bus: CpuBus::after_read_pair(s.bus, address, address.wrapping_add(1)),
            ..s
        },
        result: CpuBus::read_pair_result(s.bus, address, address.wrapping_add(1)),
    }
}

/// Reading a little-endian word whose two bytes lie in one page.
pub open spec fn reading_word_in_page(s: CpuState, address: u16) -> Step<u16> {
    Step {
        state: CpuState {
            bus: CpuBus::after_read_pair(s.bus, address, CpuBus::next_in_page(address)),
            ..s
        },
        result: CpuBus::read_pair_result(s.bus, address, CpuBus::next_in_page(address)),
    }
}

/// The zero-page address that the operand byte names.
pub open spec fn zero_page_address(s: CpuState) -> Step<u16> {
    let read = reading(s, s.pc.wrapping_add(1));
    Step {
        state: read.state,
        result: match read.result {
            Ok(value) => Ok(value as u16),
            Err(e) => Err(e),
        },
    }
}

/// An address in the zero page `index` bytes on, wrapping within the page.
pub open spec fn indexed_in_page(base: Step<u16>, index: u8) -> Step<u16> {
    Step {
        state: base.state,
        result: match base.result {
            Ok(address) => Ok(((address + index) % 256) as u16),
            Err(e) => Err(e),
        },
    }
}

/// An address `index` bytes on, with the flag that says whether the sum
/// lies in another page than the base.
pub open spec fn indexed(base: Step<u16>, index: u8) -> Step<(u16, bool)> {
    Step {
        state: base.state,
        result: match base.result {
            Ok(address) => Ok(
                (
                    address.wrapping_add(index as u16),
                    page_of(address) != page_of(address.wrapping_add(index as u16)),
                ),
            ),
            Err(e) => Err(e),
        },
    }
}

/// An address that is used as it stands.
pub open spec fn unindexed(base: Step<u16>) -> Step<(u16, bool)> {
    Step {
        state: base.state,
        result: match base.result {
            Ok(address) => Ok((address, false)),
            Err(e) => Err(e),
        },
    }
}

/// The word that the zero-page pointer `pointer` points at.
pub open spec fn dereferenced(pointer: Step<u16>) -> Step<u16> {
    match pointer.result {
        Ok(address) => reading_word_in_page(pointer.state, address),
        Err(e) => Step { state: pointer.state, result: Err(e) },
    }
}

/// The effective address of the operand of the instruction at the program
/// counter, with the page-cross flag of the indexed modes. The implied and
/// accumulator modes have no address and give 0.
#[verifier::opaque]
pub open spec fn resolving(s: CpuState, mode: AddressMode) -> Step<(u16, bool)> {
    match mode {
        AddressMode::Implied | AddressMode::Accumulator => Step {
            state: s,
            result: Ok((0u16, false)),
        },
        AddressMode::Immediate => Step { state: s, result: Ok((s.pc.wrapping_add(1), false)) },
        AddressMode::ZeroPage => unindexed(zero_page_address(s)),
        AddressMode::ZeroPageX => unindexed(indexed_in_page(zero_page_address(s), s.x)),
        AddressMode::ZeroPageY => unindexed(indexed_in_page(zero_page_address(s), s.y)),
        AddressMode::Absolute => unindexed(reading_word(s, s.pc.wrapping_add(1))),
        AddressMode::AbsoluteX => indexed(reading_word(s, s.pc.wrapping_add(1)), s.x),
        AddressMode::AbsoluteY => indexed(reading_word(s, s.pc.wrapping_add(1)), s.y),
        AddressMode::IndirectX => unindexed(
            dereferenced(indexed_in_page(zero_page_address(s), s.x)),
        ),
        AddressMode::IndirectY => indexed(dereferenced(zero_page_address(s)), s.y),
        AddressMode::Indirect => unindexed(dereferenced(reading_word(s, s.pc.wrapping_add(1)))),
    }
}

/// Reading the operand of the instruction at the program counter: the
/// accumulator in the accumulator mode, else the byte at the effective
/// address.
#[verifier::opaque]
pub open spec fn reading_operand(s: CpuState, mode: AddressMode) -> Step<(u8, bool)> {
    if mode is Accumulator {
        Step { state: s, result: Ok((s.a, false)) }
    } else {
        let found = resolving(s, mode);
        match found.result {
            Err(e) => Step { state: found.state, result: Err(e) },
            Ok((address, page_cross)) => {
                let read = reading(found.state, address);
                Step {
                    state: read.state,
                    result: match read.result {
                        Ok(value) => Ok((value, page_cross)),
                        Err(e) => Err(e),
                    },
                }
            },
        }
    }
}

/// Writing the operand of the instruction at the program counter: to the
/// accumulator in the accumulator mode, else to the effective address, which
/// is resolved anew.
#[verifier::opaque]
pub open spec fn writing_operand(s: CpuState, operand: u8, mode: AddressMode) -> Step<()> {
    if mode is Accumulator {
        Step { state: CpuState { a: operand, ..s }, result: Ok(()) }
    } else {
        let found = resolving(s, mode);
        match found.result {
            Err(e) => Step { state: found.state, result: Err(e) },
            Ok((address, _)) => writing(found.state, address, operand),
        }
    }
}

/// The address that the stack pointer `sp` indexes.
pub open spec fn stack_address(sp: u8) -> u16 {
    (STACK_BASE + sp) as u16
}

/// Pushing one byte: it is written where the stack pointer points, and the
/// pointer moves down by one, wrapping within the window.
pub open spec fn pushing(s: CpuState, data: u8) -> Step<()> {
    let written = writing(s, stack_address(s.sp), data);
    match written.result {
        Err(e) => written,
        Ok(_) => Step {
            state: CpuState { sp: s.sp.wrapping_sub(1), ..written.state },
            result: Ok(()),
        },
    }
}

/// Popping one byte: the stack pointer moves up by one and the byte it then
/// points at is read.
pub open spec fn popping(s: CpuState) -> Step<u8> {
    reading(CpuState { sp: s.sp.wrapping_add(1), ..s }, stack_address(s.sp.wrapping_add(1)))
}

/// Pushing a word, high byte first.
pub open spec fn pushing_word(s: CpuState, data: u16) -> Step<()> {
    let high = pushing(s, crate::bus::high_byte(data));
    match high.result {
        Err(e) => high,
        Ok(_) => pushing(high.state, crate::bus::low_byte(data)),
    }
}

/// Popping a word, low byte first.
pub open spec fn popping_word(s: CpuState) -> Step<u16> {
    let low = popping(s);
    match low.result {
        Err(e) => Step { state: low.state, result: Err(e) },
        Ok(l) => {
            let high = popping(low.state);
            Step {
                state: high.state,
                result: match high.result {
                    Ok(h) => Ok(crate::bus::word(l, h)),
                    Err(e) => Err(e),
                },
            }
        },
    }
}

/// The processor at power-on over `bus`: zeroed work memory is bound at
/// 0x0000..=0x1FFF and an idle transfer latch at 0x4014, behind the regions
/// that `bus` has.
pub open spec fn power_on(bus: Memory) -> CpuState {
    CpuState {
        bus: bus.registered(
            0x0000,
            0x1FFF,
            ComponentState::Ram(Seq::new(0x800, |i: int| 0u8)),
        ).registered(0x4014, 0x4014, ComponentState::Dma(OamDmaRequest { address: 0, length: 0 })),
        a: 0,
        x: 0,
        y: 0,
        sp: 0xFF,
        pc: 0xFFFC,
        p: StatusRegister(0),
        interrupt: Some(Interrupt::Reset),
        show_ops: false,
        oam_slot: (bus.components.len() + 1) as usize,
        cycles: 0,
    }
}

impl CpuState {
    /// The state with negative and zero recomputed from `value`.
    pub open spec fn with_nz(self, value: u8) -> CpuState {
        CpuState { p: self.p.with_nz(value), ..self }
    }
}

impl CPU {
    /// A processor at power-on over `bus`, to which it binds its work memory
    /// at 0x0000..=0x1FFF and the object-table transfer latch at 0x4014. The
    /// stack pointer is 0xFF and a reset is pending.
    pub fn new(bus: Bus<Component>) -> (cpu: Self)
        ensures
            cpu@ == power_on(bus@),
    {
        let mut bus = bus;
        let ram = InternalRam::new();
        assert(ram@ =~= Seq::new(0x800, |i: int| 0u8));
        bus.register_region(0x0000, 0x1FFF, Component::Ram(ram));
        let oam_slot = bus.register_region(0x4014, 0x4014, Component::Dma(OamDmaRequest::new()));
        CPU {
            bus,
            a: 0,
            x: 0,
            y: 0,
            sp: 0xFF,
            pc: 0xFFFC,
            p: StatusRegister(0),
            interrupt: Some(Interrupt::Reset),
            show_ops: false,
            oam_slot,
            cycles: 0,
        }
    }

    pub fn set_show_ops(&mut self, show: bool)
        ensures
            final(self)@ == (CpuState { show_ops: show, ..old(self)@ }),
    {
        self.show_ops = show;
    }

    /// Latches a non-maskable interrupt, which is served at the next step.
    pub fn generate_nmi(&mut self)
        ensures
            final(self)@ == (CpuState { interrupt: Some(Interrupt::Nmi), ..old(self)@ }),
    {
        self.interrupt = Some(Interrupt::Nmi);
    }

    pub fn set_nz_flags(&mut self, operand: u8)
        ensures
            final(self)@ == old(self)@.with_nz(operand),
    {
        self.p.set_n(operand >= 0x80);
        self.p.set_z(operand == 0);
    }

    fn zero_page(&mut self) -> (address: Result<u16, CoreError>)
        ensures
            (Step { state: final(self)@, result: address }) == zero_page_address(old(self)@),
    {
        let value = self.bus.read_byte(self.pc.wrapping_add(1))?;
        Ok(value as u16)
    }

    fn zero_page_indexed(&mut self, index: u8) -> (address: Result<u16, CoreError>)
        ensures
            (Step { state: final(self)@, result: address }) == indexed_in_page(
                zero_page_address(old(self)@),
                index,
            ),
    {
        let base = self.zero_page()?;
        Ok((base + index as u16) % 256)
    }

    fn absolute(&mut self) -> (address: Result<u16, CoreError>)
        ensures
            (Step { state: final(self)@, result: address }) == reading_word(
                old(self)@,
                old(self)@.pc.wrapping_add(1),
            ),
    {
        self.bus.read_word(self.pc.wrapping_add(1))
    }

    fn pointer_target(&mut self, pointer: u16) -> (address: Result<u16, CoreError>)
        ensures
            (Step { state: final(self)@, result: address }) == reading_word_in_page(
                old(self)@,
                pointer,
            ),
    {
        self.bus.read_word_bug(pointer)
    }

    /// Resolves the effective address of the operand of the instruction at
    /// the program counter.
    pub fn get_address(&mut self, address_mode: AddressMode) -> (found: Result<
        (u16, bool),
        CoreError,
    >)
        ensures
            (Step { state: final(self)@, result: found }) == resolving(old(self)@, address_mode),
    {
        proof {
            reveal(resolving);
        }
        match address_mode {
            AddressMode::Implied | AddressMode::Accumulator => Ok((0, false)),
            AddressMode::Immediate => Ok((self.pc.wrapping_add(1), false)),
            AddressMode::ZeroPage => {
                let address = self.zero_page()?;
                Ok((address, false))
            },
            AddressMode::ZeroPageX => {
                let address = self.zero_page_indexed(self.x)?;
                Ok((address, false))
            },
            AddressMode::ZeroPageY => {
                let address = self.zero_page_indexed(self.y)?;
                Ok((address, false))
            },
            AddressMode::Absolute => {
                let address = self.absolute()?;
                Ok((address, false))
            },
            AddressMode::AbsoluteX => {
                let base = self.absolute()?;
                let address = base.wrapping_add(self.x as u16);
                Ok((address, base / 256 != address / 256))
            },
            AddressMode::AbsoluteY => {
                let base = self.absolute()?;
                let address = base.wrapping_add(self.y as u16);
                Ok((address, base / 256 != address / 256))
            },
            AddressMode::IndirectX => {
                let pointer = self.zero_page_indexed(self.x)?;
                let address = self.pointer_target(pointer)?;
                Ok((address, false))
            },
            AddressMode::IndirectY => {
                let pointer = self.zero_page()?;
                let base = self.pointer_target(pointer)?;
                let address = base.wrapping_add(self.y as u16);
                Ok((address, base / 256 != address / 256))
            },
            AddressMode::Indirect => {
                let pointer = self.absolute()?;
                let address = self.pointer_target(pointer)?;
                Ok((address, false))
            },
        }
    }

    pub fn read_operand(&mut self, address_mode: AddressMode) -> (operand: Result<
        (u8, bool),
        CoreError,
    >)
        ensures
            (Step { state: final(self)@, result: operand }) == reading_operand(
                old(self)@,
                address_mode,
            ),
    {
        proof {
            reveal(reading_operand);
        }
        match address_mode {
            AddressMode::Accumulator => Ok((self.a, false)),
            _ => {
                let (address, page_cross) = self.get_address(address_mode)?;
                let value = self.bus.read_byte(address)?;
                Ok((value, page_cross))
            },
        }
    }

    pub fn write_operand(&mut self, operand: u8, address_mode: AddressMode) -> (done: Result<
        (),
        CoreError,
    >)
        ensures
            (Step { state: final(self)@, result: done }) == writing_operand(
                old(self)@,
                operand,
                address_mode,
            ),
    {
        proof {
            reveal(writing_operand);
        }
        match address_mode {
            AddressMode::Accumulator => {
                self.a = operand;
                Ok(())
            },
            _ => {
                let (address, _) = self.get_address(address_mode)?;
                self.bus.write_byte(address, operand)
            },
        }
    }

    pub fn push_byte(&mut self, data: u8) -> (done: Result<(), CoreError>)
        ensures
            (Step { state: final(self)@, result: done }) == pushing(old(self)@, data),
    {
        self.bus.write_byte(STACK_BASE + self.sp as u16, data)?;
        self.sp = self.sp.wrapping_sub(1);
        Ok(())
    }

    pub fn pop_byte(&mut self) -> (value: Result<u8, CoreError>)
        ensures
            (Step { state: final(self)@, result: value }) == popping(old(self)@),
    {
        self.sp = self.sp.wrapping_add(1);
        self.bus.read_byte(STACK_BASE + self.sp as u16)
    }

    pub fn push_word(&mut self, data: u16) -> (done: Result<(), CoreError>)
        ensures
            (Step { state: final(self)@, result: done }) == pushing_word(old(self)@, data),
    {
        self.push_byte(crate::bus::split_high(data))?;
        self.push_byte(crate::bus::split_low(data))
    }

    pub fn pop_word(&mut self) -> (value: Result<u16, CoreError>)
        ensures
            (Step { state: final(self)@, result: value }) == popping_word(old(self)@),
    {
        let low = self.pop_byte()?;
        let high = self.pop_byte()?;
        Ok(crate::bus::make_word(low, high))
    }
}

} // verus!
