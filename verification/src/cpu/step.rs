use crate::component::{Component, ComponentState};
use crate::cpu::alu::running_alu;
use crate::cpu::control::{done, running_control};
use crate::cpu::dma::OamDmaRequest;
use crate::cpu::processor::{
    pushing, pushing_word, reading, reading_word, writing, CpuState, Interrupt, Step, CPU,
};
use crate::cpu::rwm::running_rwm;
use crate::cpu::unofficial::running_unofficial;
use crate::error::CoreError;
use crate::ppu::registers::OAMDATA;
use vstd::prelude::*;

verus! {

/// The address that the program counter is loaded from when a non-maskable
/// interrupt is served.
pub const NMI_VECTOR: u16 = 0xFFFA;

/// The address that the program counter is loaded from at reset.
pub const RESET_VECTOR: u16 = 0xFFFC;

/// The latch of the object-table transfer, if the processor's slot holds
/// one.
pub open spec fn dma_request(s: CpuState) -> Option<OamDmaRequest> {
    if s.oam_slot < s.bus.components.len() {
        match s.bus.components[s.oam_slot as int] {
            ComponentState::Dma(request) => Some(request),
            _ => None,
        }
    } else {
        None
    }
}

/// Whether a transfer to the object table is pending.
pub open spec fn dma_pending(s: CpuState) -> bool {
    dma_request(s) matches Some(request) && request.length > 0
}

/// Copying `count` bytes from `source` on, one after the other, to the
/// object data port of the video unit.
pub open spec fn copying(s: CpuState, source: u16, count: nat) -> Step<()>
    decreases count,
{
    if count == 0 {
        Step { state: s, result: Ok(()) }
    } else {
        let read = reading(s, source);
        match read.result {
            Err(e) => Step { state: read.state, result: Err(e) },
            Ok(value) => {
                let written = writing(read.state, OAMDATA, value);
                match written.result {
                    Err(e) => written,
                    Ok(_) => copying(written.state, source.wrapping_add(1), (count - 1) as nat),
                }
            },
        }
    }
}

/// The state with the transfer latch idle and its source one page on.
pub open spec fn with_dma_served(s: CpuState, request: OamDmaRequest) -> CpuState {
    CpuState {
        bus: s.bus.with_component(
            s.oam_slot as int,
            ComponentState::Dma(
                OamDmaRequest { address: request.address.wrapping_add(256), length: 0 },
            ),
        ),
        ..s
    }
}

/// The transfer to the object table: 256 bytes are copied from the latched
/// page. It stalls the processor for 513 cycles, and for 514 when it starts
/// on an odd cycle.
pub open spec fn dma_step(s: CpuState, request: OamDmaRequest) -> Step<usize> {
    let copied = copying(with_dma_served(s, request), request.address, 256);
    match copied.result {
        Err(e) => Step { state: copied.state, result: Err(e) },
        Ok(_) => done(
            copied.state,
            if s.cycles % 2 == 1 {
                514
            } else {
                513
            },
        ),
    }
}

/// The vector of an interrupt.
pub open spec fn vector_of(interrupt: Interrupt) -> u16 {
    match interrupt {
        Interrupt::Nmi => NMI_VECTOR,
        Interrupt::Reset => RESET_VECTOR,
    }
}

/// The entry into an interrupt: the program counter and the status, with
/// its break bits cleared, are pushed; the program counter is loaded from
/// the vector of the interrupt, interrupts are disabled and the pending
/// interrupt is dropped. It takes 7 cycles.
pub open spec fn interrupt_step(s: CpuState, interrupt: Interrupt) -> Step<usize> {
    let address = pushing_word(s, s.pc);
    match address.result {
        Err(e) => Step { state: address.state, result: Err(e) },
        Ok(_) => {
            let status = pushing(address.state, address.state.p.with_b(0).0);
            match status.result {
                Err(e) => Step { state: status.state, result: Err(e) },
                Ok(_) => {
                    let vector = reading_word(status.state, vector_of(interrupt));
                    match vector.result {
                        Err(e) => Step { state: vector.state, result: Err(e) },
                        Ok(target) => done(
                            CpuState {
                                pc: target,
                                p: vector.state.p.with_i(true),
                                interrupt: None,
                                ..vector.state
                            },
                            7,
                        ),
                    }
                },
            }
        },
    }
}

/// One instruction: the opcode at the program counter is fetched and run by
/// the family that its low two bits name.
pub open spec fn instruction_step(s: CpuState) -> Step<usize> {
    let fetched = reading(s, s.pc);
    match fetched.result {
        Err(e) => Step { state: fetched.state, result: Err(e) },
        Ok(opcode) => {
            if opcode % 4 == 0 {
                running_control(fetched.state, opcode)
            } else if opcode % 4 == 1 {
                running_alu(fetched.state, opcode)
            } else if opcode % 4 == 2 {
                running_rwm(fetched.state, opcode)
            } else {
                running_unofficial(fetched.state, opcode)
            }
        },
    }
}

/// What a step of the processor does: a pending transfer to the object
/// table comes first, then a pending interrupt, then the next instruction.
pub open spec fn stepping(s: CpuState) -> Step<usize> {
    if dma_pending(s) {
        dma_step(s, dma_request(s).unwrap())
    } else if s.interrupt.is_some() {
        interrupt_step(s, s.interrupt.unwrap())
    } else {
        instruction_step(s)
    }
}

/// One step of the processor; the cycles that a step took are added to the
/// cycle counter, which wraps with the machine word.
pub open spec fn ticking(s: CpuState) -> Step<usize> {
    let step = stepping(s);
    match step.result {
        Err(e) => step,
        Ok(cycles) => done(
            CpuState { cycles: step.state.cycles.wrapping_add(cycles), ..step.state },
            cycles,
        ),
    }
}

/// An access fails only on a strict bus, with `InvalidRegion` of its
/// address, and leaves the mode of the bus as it is. On an open bus no
/// access fails.
pub proof fn lemma_access_outcome(s: CpuState, address: u16, data: u8)
    ensures
        reading(s, address).state.bus.mode == s.bus.mode,
        writing(s, address, data).state.bus.mode == s.bus.mode,
        reading(s, address).result matches Err(e) ==> s.bus.mode is Strict && e
            == CoreError::InvalidRegion(address),
        writing(s, address, data).result matches Err(e) ==> s.bus.mode is Strict && e
            == CoreError::InvalidRegion(address),
{
}

/// The copy of a transfer fails only on a strict bus, with `InvalidRegion`.
pub proof fn lemma_copy_outcome(s: CpuState, source: u16, count: nat)
    ensures
        copying(s, source, count).state.bus.mode == s.bus.mode,
        copying(s, source, count).result matches Err(e) ==> s.bus.mode is Strict && e
            is InvalidRegion,
    decreases count,
{
    if count > 0 {
        let read = reading(s, source);
        lemma_access_outcome(s, source, 0);
        if read.result.is_ok() {
            let value = read.result.unwrap();
            lemma_access_outcome(read.state, OAMDATA, value);
            let written = writing(read.state, OAMDATA, value);
            if written.result.is_ok() {
                lemma_copy_outcome(written.state, source.wrapping_add(1), (count - 1) as nat);
            }
        }
    }
}

/// A step with a pending transfer to the object table is that transfer:
/// it reports 513 cycles when it starts on an even cycle and 514 when it
/// starts on an odd one, unless the bus is strict and refuses an address of
/// the copy, when it fails with `InvalidRegion`. On an open bus it cannot
/// fail.
pub proof fn lemma_dma_stall(s: CpuState)
    requires
        dma_pending(s),
    ensures
        match ticking(s).result {
            Ok(cycles) => cycles == (if s.cycles % 2 == 1 {
                514usize
            } else {
                513usize
            }),
            Err(e) => s.bus.mode is Strict && e is InvalidRegion,
        },
        s.bus.mode is OpenBus ==> ticking(s).result.is_ok(),
{
    let request = dma_request(s).unwrap();
    lemma_copy_outcome(with_dma_served(s, request), request.address, 256);
}

impl CPU {
    /// The pending transfer to the object table, if there is one.
    pub fn pending_dma(&self) -> (request: Option<OamDmaRequest>)
        ensures
            request == (if dma_pending(self@) {
                dma_request(self@)
            } else {
                None
            }),
    {
        match self.bus.component(self.oam_slot) {
            Some(Component::Dma(request)) => {
                if request.length > 0 {
                    Some(*request)
                } else {
                    None
                }
            },
            _ => None,
        }
    }

    fn serve_dma(&mut self, request: OamDmaRequest)
        requires
            dma_request(old(self)@) == Some(request),
        ensures
            final(self)@ == with_dma_served(old(self)@, request),
    {
        match self.bus.component_mut(self.oam_slot) {
            Some(component) => {
                *component = Component::Dma(
                    OamDmaRequest { address: request.address.wrapping_add(256), length: 0 },
                );
            },
            None => {},
        }
    }

    fn copy_page(&mut self, source: u16) -> (copied: Result<(), CoreError>)
        ensures
            (Step { state: final(self)@, result: copied }) == copying(old(self)@, source, 256),
    {
        let mut address = source;
        let mut remaining: usize = 256;
        while remaining > 0
            invariant
                copying(self@, address, remaining as nat) == copying(old(self)@, source, 256),
            decreases remaining,
        {
            let value = match self.bus.read_byte(address) {
                Ok(value) => value,
                Err(e) => {
                    return Err(e);
                },
            };
            match self.bus.write_byte(OAMDATA, value) {
                Ok(_) => {},
                Err(e) => {
                    return Err(e);
                },
            }
            address = address.wrapping_add(1);
            remaining = remaining - 1;
        }
        Ok(())
    }

    fn run_dma(&mut self, request: OamDmaRequest) -> (cycles: Result<usize, CoreError>)
        requires
            dma_request(old(self)@) == Some(request),
        ensures
            (Step { state: final(self)@, result: cycles }) == dma_step(old(self)@, request),
    {
        let odd = self.cycles % 2 == 1;
        self.serve_dma(request);
        self.copy_page(request.address)?;
        if odd {
            Ok(514)
        } else {
            Ok(513)
        }
    }

    fn enter_interrupt(&mut self, interrupt: Interrupt) -> (cycles: Result<usize, CoreError>)
        ensures
            (Step { state: final(self)@, result: cycles }) == interrupt_step(
                old(self)@,
                interrupt,
            ),
    {
        self.push_word(self.pc)?;
        let mut status = self.p;
        status.set_b(0);
        self.push_byte(status.0)?;
        let vector = match interrupt {
            Interrupt::Nmi => NMI_VECTOR,
            Interrupt::Reset => RESET_VECTOR,
        };
        let target = self.bus.read_word(vector)?;
        self.pc = target;
        self.p.set_i(true);
        self.interrupt = None;
        Ok(7)
    }

    fn run_instruction(&mut self) -> (cycles: Result<usize, CoreError>)
        ensures
            (Step { state: final(self)@, result: cycles }) == instruction_step(old(self)@),
            cycles matches Ok(count) ==> 1 <= count <= 12,
    {
        let opcode = self.bus.read_byte(self.pc)?;
        if opcode % 4 == 0 {
            self.run_control_op(opcode)
        } else if opcode % 4 == 1 {
            self.run_alu_op(opcode)
        } else if opcode % 4 == 2 {
            self.run_rwm_op(opcode)
        } else {
            self.run_unofficial_op(opcode)
        }
    }

    fn step(&mut self) -> (cycles: Result<usize, CoreError>)
        ensures
            (Step { state: final(self)@, result: cycles }) == stepping(old(self)@),
            cycles matches Ok(count) ==> 1 <= count <= 514,
    {
        if let Some(request) = self.pending_dma() {
            return self.run_dma(request);
        }
        if let Some(interrupt) = self.interrupt {
            return self.enter_interrupt(interrupt);
        }
        self.run_instruction()
    }

    /// Runs one step of the processor and returns the cycles it took: a
    /// pending transfer to the object table, else the entry into a pending
    /// interrupt, else one instruction. A step that fails leaves the cycle
    /// counter as it was.
    pub fn tick(&mut self) -> (cycles: Result<usize, CoreError>)
        ensures
            (Step { state: final(self)@, result: cycles }) == ticking(old(self)@),
            cycles matches Ok(count) ==> 1 <= count <= 514,
    {
        let cycles = self.step()?;
        self.cycles = self.cycles.wrapping_add(cycles);
        Ok(cycles)
    }
}

} // verus!
