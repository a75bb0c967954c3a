use crate::bus::high_byte;
use crate::cpu::address_mode::AddressMode;
use crate::cpu::alu::{
    adding, advancing, anding, comparing, exclusive_oring, loading, low_eight, oring, subtracting,
};
use crate::cpu::control::{done, setting_x, taking};
use crate::cpu::processor::{
    reading_operand, resolving, writing_operand, CpuState, Step, CPU,
};
use crate::cpu::rwm::{
    decrementing, incrementing, rotating_left, rotating_right, shifting_left, shifting_right,
};
use crate::error::CoreError;
use vstd::prelude::*;

verus! {

/// Storing `value` and-ed with the high byte of the effective address. The
/// address is resolved once for the high byte and once more for the write.
pub open spec fn storing_masked(s: CpuState, value: u8, mode: AddressMode) -> Step<()> {
    let found = resolving(s, mode);
    match found.result {
        Err(e) => Step { state: found.state, result: Err(e) },
        Ok((address, _)) => writing_operand(found.state, value & high_byte(address), mode),
    }
}

/// AND, then a shift of the accumulator to the right.
pub open spec fn anding_shifting(s: CpuState, operand: u8) -> Step<usize> {
    shifting_right(anding(s, operand), anding(s, operand).a, AddressMode::Accumulator)
}

/// AND, then carry takes the sign of the result.
pub open spec fn anding_carrying(s: CpuState, operand: u8) -> CpuState {
    let and = anding(s, operand);
    CpuState { p: and.p.with_c(and.p.spec_n()), ..and }
}

/// AND, then a rotation of the accumulator to the right; carry and overflow
/// come from bits 5 and 4 of the operand.
pub open spec fn anding_rotating(s: CpuState, operand: u8) -> Step<usize> {
    let carry = (operand / 32) % 2 == 1;
    let overflow = carry != ((operand / 16) % 2 == 1);
    let rotated = rotating_right(
        anding(s, operand),
        anding(s, operand).a,
        AddressMode::Accumulator,
    );
    match rotated.result {
        Err(e) => rotated,
        Ok(_) => done(
            CpuState { p: rotated.state.p.with_c(carry).with_v(overflow), ..rotated.state },
            1,
        ),
    }
}

/// X becomes (accumulator AND X) - operand; carry says that the subtraction
/// borrowed.
pub open spec fn subtracting_from_both(s: CpuState, operand: u8) -> CpuState {
    let difference = (s.a & s.x) - operand;
    let flagged = setting_x(s, low_eight(difference));
    CpuState { p: flagged.p.with_c(difference < 0), ..flagged }
}

/// The operand loaded into the accumulator and X.
pub open spec fn loading_both(s: CpuState, operand: u8) -> CpuState {
    setting_x(loading(s, operand), operand)
}

/// The accumulator and X cleared, with the flags as they are.
pub open spec fn clearing_both(s: CpuState) -> CpuState {
    CpuState { a: 0, x: 0, ..s }
}

/// Storing accumulator AND X.
pub open spec fn storing_both(s: CpuState, mode: AddressMode) -> Step<usize> {
    taking(writing_operand(s, s.a & s.x, mode), 1)
}

/// A read-modify-write instruction followed by a second read of the operand
/// and an instruction of the accumulator family on what was read.
#[verifier::opaque]
pub open spec fn combining(modified: Step<usize>, mode: AddressMode, kind: u8) -> Step<usize> {
    match modified.result {
        Err(e) => modified,
        Ok(_) => {
            let read = reading_operand(modified.state, mode);
            match read.result {
                Err(e) => Step { state: read.state, result: Err(e) },
                Ok((operand, _)) => done(combined(read.state, operand, kind), 3),
            }
        },
    }
}

/// The second half of a combined instruction, by the top three bits of its
/// opcode: ORA, AND, EOR, ADC after a shift or rotate, CMP after a
/// decrement, SBC after an increment.
pub open spec fn combined(s: CpuState, operand: u8, kind: u8) -> CpuState {
    if kind == 0 {
        oring(s, operand)
    } else if kind == 1 {
        anding(s, operand)
    } else if kind == 2 {
        exclusive_oring(s, operand)
    } else if kind == 3 {
        adding(s, operand)
    } else if kind == 6 {
        comparing(s, s.a, operand)
    } else {
        subtracting(s, operand)
    }
}

/// The first half of a combined instruction, by the top three bits of its
/// opcode: ASL, ROL, LSR, ROR, DEC, INC.
pub open spec fn modifying(s: CpuState, operand: u8, mode: AddressMode, kind: u8) -> Step<usize> {
    if kind == 0 {
        shifting_left(s, operand, mode)
    } else if kind == 1 {
        rotating_left(s, operand, mode)
    } else if kind == 2 {
        shifting_right(s, operand, mode)
    } else if kind == 3 {
        rotating_right(s, operand, mode)
    } else if kind == 6 {
        decrementing(s, operand, mode)
    } else {
        incrementing(s, operand, mode)
    }
}

/// X copied to the accumulator, which is then and-ed with the operand.
pub open spec fn transferring_anding(s: CpuState, operand: u8) -> CpuState {
    anding(CpuState { a: s.x, ..s }.with_nz(s.x), operand)
}

/// Storing accumulator AND X AND the high byte of the effective address.
pub open spec fn storing_both_masked(s: CpuState, mode: AddressMode) -> Step<usize> {
    taking(storing_masked(s, s.a & s.x, mode), 1)
}

/// The stack pointer becomes accumulator AND X, which is then stored and-ed
/// with the high byte of the effective address.
pub open spec fn storing_to_stack_pointer(s: CpuState, mode: AddressMode) -> Step<usize> {
    let found = resolving(s, mode);
    match found.result {
        Err(e) => Step { state: found.state, result: Err(e) },
        Ok((address, _)) => taking(
            writing_operand(
                CpuState { sp: found.state.a & found.state.x, ..found.state },
                found.state.a & found.state.x & high_byte(address),
                mode,
            ),
            1,
        ),
    }
}

/// Accumulator, X and stack pointer all become operand AND stack pointer.
pub open spec fn loading_from_stack_pointer(s: CpuState, operand: u8) -> CpuState {
    CpuState { a: operand & s.sp, x: operand & s.sp, sp: operand & s.sp, ..s }
}

/// Whether the family reads no operand for `opcode` before it runs the
/// instruction.
pub open spec fn unofficial_skips_operand(opcode: u8) -> bool {
    opcode == 0xAB || opcode == 0x83 || opcode == 0x87 || opcode == 0x8F || opcode == 0x97
        || opcode == 0x93 || opcode == 0x9F || opcode == 0x9B
}

/// The operand that the family works on, with its page-cross flag: 0 and
/// no crossing where it reads none.
#[verifier::opaque]
pub open spec fn unofficial_operand(s: CpuState, opcode: u8) -> Step<(u8, bool)> {
    if unofficial_skips_operand(opcode) {
        Step { state: s, result: Ok((0u8, false)) }
    } else {
        reading_operand(s, AddressMode::decode(opcode))
    }
}

/// Whether `opcode` is one of the combined read-modify-write instructions
/// (SLO, RLA, SRE, RRA, DCP, ISC).
pub open spec fn is_combined(opcode: u8) -> bool {
    opcode % 4 == 3 && (opcode < 0x80 || opcode >= 0xC0) && opcode % 32 != 0x0B
}

/// Whether `opcode` is an immediate instruction of the family.
pub open spec fn is_unofficial_immediate(opcode: u8) -> bool {
    opcode % 32 == 0x0B
}

/// The immediate instructions of the family: ANC, ALR, ARR, XAA, LXA, AXS
/// and the second SBC.
#[verifier::opaque]
pub open spec fn unofficial_immediate(s: CpuState, opcode: u8, operand: u8) -> Step<usize> {
    if opcode == 0x0B || opcode == 0x2B {
        done(anding_carrying(s, operand), 1)
    } else if opcode == 0x4B {
        anding_shifting(s, operand)
    } else if opcode == 0x6B {
        anding_rotating(s, operand)
    } else if opcode == 0x8B {
        done(transferring_anding(s, operand), 1)
    } else if opcode == 0xAB {
        done(clearing_both(s), 1)
    } else if opcode == 0xCB {
        done(subtracting_from_both(s, operand), 1)
    } else {
        done(subtracting(s, operand), 1)
    }
}

/// The loads and stores of the family: LAX, SAX, AHX, TAS, LAS; any other
/// opcode has no handler.
#[verifier::opaque]
pub open spec fn unofficial_transfer(s: CpuState, opcode: u8, operand: u8) -> Step<usize> {
    let mode = AddressMode::decode(opcode);
    if opcode == 0xA3 || opcode == 0xA7 || opcode == 0xAF || opcode == 0xB3 || opcode == 0xB7
        || opcode == 0xBF {
        done(loading_both(s, operand), 1)
    } else if opcode == 0x83 || opcode == 0x87 || opcode == 0x8F || opcode == 0x97 {
        storing_both(s, mode)
    } else if opcode == 0x93 || opcode == 0x9F {
        storing_both_masked(s, mode)
    } else if opcode == 0x9B {
        storing_to_stack_pointer(s, mode)
    } else if opcode == 0xBB {
        done(loading_from_stack_pointer(s, operand), 1)
    } else {
        Step { state: s, result: Err(CoreError::OpcodeNotImplemented(opcode)) }
    }
}

/// The instruction `opcode` of the family on an operand that was read,
/// without the move of the program counter and the cost of the addressing
/// mode.
#[verifier::opaque]
pub open spec fn unofficial_body(s: CpuState, opcode: u8, operand: u8) -> Step<usize> {
    if is_unofficial_immediate(opcode) {
        unofficial_immediate(s, opcode, operand)
    } else if is_combined(opcode) {
        combining(
            modifying(s, operand, AddressMode::decode(opcode), opcode / 32),
            AddressMode::decode(opcode),
            opcode / 32,
        )
    } else {
        unofficial_transfer(s, opcode, operand)
    }
}

/// Whether the instruction pays for a page crossing only when one happens:
/// the loads LAX and LAS. Every other instruction of the family always
/// pays.
pub open spec fn unofficial_counts_crossing(opcode: u8) -> bool {
    opcode == 0xA3 || opcode == 0xA7 || opcode == 0xAF || opcode == 0xB3 || opcode == 0xB7
        || opcode == 0xBF || opcode == 0xBB
}

/// One instruction of the family of undocumented opcodes.
pub open spec fn running_unofficial(s: CpuState, opcode: u8) -> Step<usize> {
    let mode = AddressMode::decode(opcode);
    let operand = unofficial_operand(s, opcode);
    match operand.result {
        Err(e) => Step { state: operand.state, result: Err(e) },
        Ok((value, page_cross)) => {
            let body = unofficial_body(operand.state, opcode, value);
            match body.result {
                Err(e) => body,
                Ok(cycles) => Step {
                    state: advancing(body.state, mode),
                    result: Ok(
                        (cycles + mode.spec_cycle_cost(
                            !unofficial_counts_crossing(opcode) || page_cross,
                        )) as usize,
                    ),
                },
            }
        },
    }
}

impl CPU {
    fn store_masked(&mut self, value: u8, address_mode: AddressMode) -> (done: Result<
        (),
        CoreError,
    >)
        ensures
            (Step { state: final(self)@, result: done }) == storing_masked(
                old(self)@,
                value,
                address_mode,
            ),
    {
        let (address, _) = self.get_address(address_mode)?;
        let operand = value & crate::bus::split_high(address);
        self.write_operand(operand, address_mode)
    }

    /// Stores Y and-ed with the high byte of the effective address.
    pub fn shy(&mut self, address_mode: AddressMode) -> (cycles: Result<usize, CoreError>)
        ensures
            final(self)@ == storing_masked(old(self)@, old(self)@.y, address_mode).state,
            cycles == (match storing_masked(old(self)@, old(self)@.y, address_mode).result {
                Ok(_) => Ok(1usize),
                Err(e) => Err(e),
            }),
    {
        self.store_masked(self.y, address_mode)?;
        Ok(1)
    }

    /// Stores X and-ed with the high byte of the effective address.
    pub fn shx(&mut self, address_mode: AddressMode) -> (cycles: Result<usize, CoreError>)
        ensures
            final(self)@ == storing_masked(old(self)@, old(self)@.x, address_mode).state,
            cycles == (match storing_masked(old(self)@, old(self)@.x, address_mode).result {
                Ok(_) => Ok(1usize),
                Err(e) => Err(e),
            }),
    {
        self.store_masked(self.x, address_mode)?;
        Ok(1)
    }
    pub fn alr(&mut self, operand: u8) -> (cycles: Result<usize, CoreError>)
        ensures
            (Step { state: final(self)@, result: cycles }) == anding_shifting(old(self)@, operand),
    {
        self.and(operand);
        self.lsr(self.a, AddressMode::Accumulator)
    }

    pub fn anc(&mut self, operand: u8) -> (cycles: usize)
        ensures
            final(self)@ == anding_carrying(old(self)@, operand),
            cycles == 1,
    {
        self.and(operand);
        let negative = self.p.n();
        self.p.set_c(negative);
        1
    }

    pub fn arr(&mut self, operand: u8) -> (cycles: Result<usize, CoreError>)
        ensures
            (Step { state: final(self)@, result: cycles }) == anding_rotating(old(self)@, operand),
    {
        self.and(operand);
        let carry = (operand / 32) % 2 == 1;
        let overflow = carry != ((operand / 16) % 2 == 1);
        self.ror(self.a, AddressMode::Accumulator)?;
        self.p.set_c(carry);
        self.p.set_v(overflow);
        Ok(1)
    }

    pub fn axs(&mut self, operand: u8) -> (cycles: usize)
        ensures
            final(self)@ == subtracting_from_both(old(self)@, operand),
            cycles == 1,
    {
        let both = self.a & self.x;
        self.x = both.wrapping_sub(operand);
        self.set_nz_flags(self.x);
        self.p.set_c(both < operand);
        1
    }

    pub fn lax(&mut self, operand: u8) -> (cycles: usize)
        ensures
            final(self)@ == loading_both(old(self)@, operand),
            cycles == 1,
    {
        self.lda(operand);
        self.tax();
        1
    }

    /// Loads the accumulator and X; the family hands this instruction no
    /// operand, so that both are cleared.
    pub fn lxa(&mut self, operand: u8) -> (cycles: usize)
        ensures
            final(self)@ == (CpuState { a: operand, x: operand, ..old(self)@ }),
            cycles == 1,
    {
        self.a = operand;
        self.x = self.a;
        1
    }

    pub fn sax(&mut self, address_mode: AddressMode) -> (cycles: Result<usize, CoreError>)
        ensures
            (Step { state: final(self)@, result: cycles }) == storing_both(
                old(self)@,
                address_mode,
            ),
    {
        self.write_operand(self.a & self.x, address_mode)?;
        Ok(1)
    }

    fn combine(&mut self, address_mode: AddressMode, kind: u8) -> (cycles: Result<
        usize,
        CoreError,
    >)
        ensures
            (Step { state: final(self)@, result: cycles }) == combining(
                done(old(self)@, 0),
                address_mode,
                kind,
            ),
    {
        proof {
            reveal(combining);
        }
        let (operand, _) = self.read_operand(address_mode)?;
        if kind == 0 {
            self.ora(operand);
        } else if kind == 1 {
            self.and(operand);
        } else if kind == 2 {
            self.eor(operand);
        } else if kind == 3 {
            self.adc(operand);
        } else if kind == 6 {
            self.cmp(operand);
        } else {
            self.sbc(operand);
        }
        Ok(3)
    }

    pub fn dcp(&mut self, operand: u8, address_mode: AddressMode) -> (cycles: Result<
        usize,
        CoreError,
    >)
        ensures
            (Step { state: final(self)@, result: cycles }) == combining(
                decrementing(old(self)@, operand, address_mode),
                address_mode,
                6,
            ),
    {
        proof {
            reveal(combining);
        }
        self.dec(operand, address_mode)?;
        self.combine(address_mode, 6)
    }

    pub fn isc(&mut self, operand: u8, address_mode: AddressMode) -> (cycles: Result<
        usize,
        CoreError,
    >)
        ensures
            (Step { state: final(self)@, result: cycles }) == combining(
                incrementing(old(self)@, operand, address_mode),
                address_mode,
                7,
            ),
    {
        proof {
            reveal(combining);
        }
        self.inc(operand, address_mode)?;
        self.combine(address_mode, 7)
    }

    pub fn rla(&mut self, operand: u8, address_mode: AddressMode) -> (cycles: Result<
        usize,
        CoreError,
    >)
        ensures
            (Step { state: final(self)@, result: cycles }) == combining(
                rotating_left(old(self)@, operand, address_mode),
                address_mode,
                1,
            ),
    {
        proof {
            reveal(combining);
        }
        self.rol(operand, address_mode)?;
        self.combine(address_mode, 1)
    }

    pub fn rra(&mut self, operand: u8, address_mode: AddressMode) -> (cycles: Result<
        usize,
        CoreError,
    >)
        ensures
            (Step { state: final(self)@, result: cycles }) == combining(
                rotating_right(old(self)@, operand, address_mode),
                address_mode,
                3,
            ),
    {
        proof {
            reveal(combining);
        }
        self.ror(operand, address_mode)?;
        self.combine(address_mode, 3)
    }

    pub fn slo(&mut self, operand: u8, address_mode: AddressMode) -> (cycles: Result<
        usize,
        CoreError,
    >)
        ensures
            (Step { state: final(self)@, result: cycles }) == combining(
                shifting_left(old(self)@, operand, address_mode),
                address_mode,
                0,
            ),
    {
        proof {
            reveal(combining);
        }
        self.asl(operand, address_mode)?;
        self.combine(address_mode, 0)
    }

    pub fn sre(&mut self, operand: u8, address_mode: AddressMode) -> (cycles: Result<
        usize,
        CoreError,
    >)
        ensures
            (Step { state: final(self)@, result: cycles }) == combining(
                shifting_right(old(self)@, operand, address_mode),
                address_mode,
                2,
            ),
    {
        proof {
            reveal(combining);
        }
        self.lsr(operand, address_mode)?;
        self.combine(address_mode, 2)
    }

    pub fn xaa(&mut self, operand: u8) -> (cycles: usize)
        ensures
            final(self)@ == transferring_anding(old(self)@, operand),
            cycles == 1,
    {
        self.txa();
        self.and(operand);
        1
    }

    pub fn sha(&mut self, address_mode: AddressMode) -> (cycles: Result<usize, CoreError>)
        ensures
            (Step { state: final(self)@, result: cycles }) == storing_both_masked(
                old(self)@,
                address_mode,
            ),
    {
        self.store_masked(self.a & self.x, address_mode)?;
        Ok(1)
    }

    pub fn tas(&mut self, address_mode: AddressMode) -> (cycles: Result<usize, CoreError>)
        ensures
            (Step { state: final(self)@, result: cycles }) == storing_to_stack_pointer(
                old(self)@,
                address_mode,
            ),
    {
        let (address, _) = self.get_address(address_mode)?;
        self.sp = self.a & self.x;
        let operand = self.a & self.x & crate::bus::split_high(address);
        self.write_operand(operand, address_mode)?;
        Ok(1)
    }

    pub fn las(&mut self, operand: u8) -> (cycles: usize)
        ensures
            final(self)@ == loading_from_stack_pointer(old(self)@, operand),
            cycles == 1,
    {
        self.a = operand & self.sp;
        self.x = self.a;
        self.sp = self.a;
        1
    }

    fn read_unofficial_operand(&mut self, opcode: u8) -> (operand: Result<(u8, bool), CoreError>)
        ensures
            (Step { state: final(self)@, result: operand }) == unofficial_operand(
                old(self)@,
                opcode,
            ),
    {
        proof {
            reveal(unofficial_operand);
        }
        if opcode == 0xAB || opcode == 0x83 || opcode == 0x87 || opcode == 0x8F || opcode == 0x97
            || opcode == 0x93 || opcode == 0x9F || opcode == 0x9B {
            Ok((0, false))
        } else {
            self.read_operand(AddressMode::from_code(opcode))
        }
    }

    fn run_unofficial_immediate(&mut self, opcode: u8, operand: u8) -> (cycles: Result<
        usize,
        CoreError,
    >)
        ensures
            (Step { state: final(self)@, result: cycles }) == unofficial_immediate(
                old(self)@,
                opcode,
                operand,
            ),
            cycles matches Ok(count) ==> 1 <= count <= 4,
    {
        proof {
            reveal(unofficial_immediate);
        }
        if opcode == 0x0B || opcode == 0x2B {
            Ok(self.anc(operand))
        } else if opcode == 0x4B {
            self.alr(operand)
        } else if opcode == 0x6B {
            self.arr(operand)
        } else if opcode == 0x8B {
            Ok(self.xaa(operand))
        } else if opcode == 0xAB {
            Ok(self.lxa(0))
        } else if opcode == 0xCB {
            Ok(self.axs(operand))
        } else {
            self.sbc(operand);
            Ok(1)
        }
    }

    fn run_combined(&mut self, opcode: u8, operand: u8) -> (cycles: Result<usize, CoreError>)
        requires
            is_combined(opcode),
        ensures
            (Step { state: final(self)@, result: cycles }) == combining(
                modifying(old(self)@, operand, AddressMode::decode(opcode), opcode / 32),
                AddressMode::decode(opcode),
                opcode / 32,
            ),
            cycles matches Ok(count) ==> 1 <= count <= 4,
    {
        proof {
            reveal(combining);
        }
        let address_mode = AddressMode::from_code(opcode);
        let kind = opcode / 32;
        if kind == 0 {
            self.slo(operand, address_mode)
        } else if kind == 1 {
            self.rla(operand, address_mode)
        } else if kind == 2 {
            self.sre(operand, address_mode)
        } else if kind == 3 {
            self.rra(operand, address_mode)
        } else if kind == 6 {
            self.dcp(operand, address_mode)
        } else {
            self.isc(operand, address_mode)
        }
    }

    fn run_unofficial_transfer(&mut self, opcode: u8, operand: u8) -> (cycles: Result<
        usize,
        CoreError,
    >)
        ensures
            (Step { state: final(self)@, result: cycles }) == unofficial_transfer(
                old(self)@,
                opcode,
                operand,
            ),
            cycles matches Ok(count) ==> 1 <= count <= 4,
    {
        proof {
            reveal(unofficial_transfer);
        }
        let address_mode = AddressMode::from_code(opcode);
        if opcode == 0xA3 || opcode == 0xA7 || opcode == 0xAF || opcode == 0xB3 || opcode == 0xB7
            || opcode == 0xBF {
            Ok(self.lax(operand))
        } else if opcode == 0x83 || opcode == 0x87 || opcode == 0x8F || opcode == 0x97 {
            self.sax(address_mode)
        } else if opcode == 0x93 || opcode == 0x9F {
            self.sha(address_mode)
        } else if opcode == 0x9B {
            self.tas(address_mode)
        } else if opcode == 0xBB {
            Ok(self.las(operand))
        } else {
            Err(CoreError::OpcodeNotImplemented(opcode))
        }
    }

    fn run_unofficial_body(&mut self, opcode: u8, operand: u8) -> (cycles: Result<
        usize,
        CoreError,
    >)
        ensures
            (Step { state: final(self)@, result: cycles }) == unofficial_body(
                old(self)@,
                opcode,
                operand,
            ),
            cycles matches Ok(count) ==> 1 <= count <= 4,
    {
        proof {
            reveal(unofficial_body);
        }
        if opcode % 32 == 0x0B {
            self.run_unofficial_immediate(opcode, operand)
        } else if opcode % 4 == 3 && (opcode < 0x80 || opcode >= 0xC0) {
            self.run_combined(opcode, operand)
        } else {
            self.run_unofficial_transfer(opcode, operand)
        }
    }

    /// Runs the instruction of the family of undocumented opcodes that
    /// `opcode` encodes and returns the cycles it took. An opcode outside the
    /// family fails with `OpcodeNotImplemented`.
    pub fn run_unofficial_op(&mut self, opcode: u8) -> (cycles: Result<usize, CoreError>)
        ensures
            (Step { state: final(self)@, result: cycles }) == running_unofficial(
                old(self)@,
                opcode,
            ),
            cycles matches Ok(count) ==> 1 <= count <= 9,
    {
        let address_mode = AddressMode::from_code(opcode);
        let (operand, page_cross) = self.read_unofficial_operand(opcode)?;
        let counts = opcode == 0xA3 || opcode == 0xA7 || opcode == 0xAF || opcode == 0xB3
            || opcode == 0xB7 || opcode == 0xBF || opcode == 0xBB;
        let cycles = self.run_unofficial_body(opcode, operand)?;
        self.advance(address_mode);
        Ok(cycles + address_mode.cycle_cost(!counts || page_cross))
    }
}

} // verus!
