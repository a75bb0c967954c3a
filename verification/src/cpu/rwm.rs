use crate::cpu::address_mode::AddressMode;
use crate::cpu::alu::advancing;
use crate::cpu::control::{done, setting_a, setting_x, taking};
use crate::cpu::nop::idling;
use crate::cpu::processor::{reading_operand, writing_operand, CpuState, Step, CPU};
use crate::cpu::unofficial::storing_masked;
use crate::error::CoreError;
use vstd::prelude::*;

verus! {

/// The cycles that a read-modify-write instruction takes in `mode` beyond
/// the cost of the mode, which for these instructions always includes the
/// page crossing: one on the accumulator, three on memory, for the second
/// read and the write back.
pub open spec fn rwm_cycles(mode: AddressMode) -> usize {
    match mode {
        AddressMode::Accumulator | AddressMode::Immediate => 1,
        _ => 3,
    }
}

/// The carry flag as a bit.
pub open spec fn carry_bit(s: CpuState) -> u8 {
    if s.p.spec_c() {
        1
    } else {
        0
    }
}

/// The end of a read-modify-write instruction: carry is set, the result is
/// written back to the operand, and negative and zero follow the result.
pub open spec fn rewriting(s: CpuState, carry: bool, result: u8, mode: AddressMode) -> Step<
    usize,
> {
    let written = writing_operand(CpuState { p: s.p.with_c(carry), ..s }, result, mode);
    match written.result {
        Err(e) => Step { state: written.state, result: Err(e) },
        Ok(_) => done(written.state.with_nz(result), rwm_cycles(mode)),
    }
}

/// The end of an increment or decrement, which leaves carry alone.
pub open spec fn rewriting_count(s: CpuState, result: u8, mode: AddressMode) -> Step<usize> {
    let written = writing_operand(s, result, mode);
    match written.result {
        Err(e) => Step { state: written.state, result: Err(e) },
        Ok(_) => done(written.state.with_nz(result), rwm_cycles(mode)),
    }
}

/// The operand shifted left by one bit: bit 7 goes to carry.
pub open spec fn shifting_left(s: CpuState, operand: u8, mode: AddressMode) -> Step<usize> {
    rewriting(s, operand >= 0x80, ((operand % 0x80) * 2) as u8, mode)
}

/// The operand rotated left through carry.
pub open spec fn rotating_left(s: CpuState, operand: u8, mode: AddressMode) -> Step<usize> {
    rewriting(s, operand >= 0x80, ((operand % 0x80) * 2 + carry_bit(s)) as u8, mode)
}

/// The operand shifted right by one bit: bit 0 goes to carry.
pub open spec fn shifting_right(s: CpuState, operand: u8, mode: AddressMode) -> Step<usize> {
    rewriting(s, operand % 2 == 1, operand / 2, mode)
}

/// The operand rotated right through carry.
pub open spec fn rotating_right(s: CpuState, operand: u8, mode: AddressMode) -> Step<usize> {
    rewriting(s, operand % 2 == 1, (operand / 2 + carry_bit(s) * 0x80) as u8, mode)
}

/// The operand less one, wrapping.
pub open spec fn decrementing(s: CpuState, operand: u8, mode: AddressMode) -> Step<usize> {
    rewriting_count(s, operand.wrapping_sub(1), mode)
}

/// The operand plus one, wrapping.
pub open spec fn incrementing(s: CpuState, operand: u8, mode: AddressMode) -> Step<usize> {
    rewriting_count(s, operand.wrapping_add(1), mode)
}

/// Storing X.
pub open spec fn storing_x(s: CpuState, mode: AddressMode) -> Step<usize> {
    taking(writing_operand(s, s.x, mode), 1)
}

/// Loading X from the operand, which costs a cycle more when the read
/// crosses a page.
pub open spec fn loading_x(s: CpuState, mode: AddressMode) -> Step<usize> {
    let read = reading_operand(s, mode);
    match read.result {
        Err(e) => Step { state: read.state, result: Err(e) },
        Ok((operand, page_cross)) => done(
            setting_x(read.state, operand),
            if page_cross {
                2
            } else {
                1
            },
        ),
    }
}

/// Whether the family reads no operand for `opcode` before it runs the
/// instruction.
pub open spec fn rwm_skips_operand(opcode: u8) -> bool {
    opcode == 0x86 || opcode == 0x96 || opcode == 0x8E || opcode == 0x8A || opcode == 0x9A
        || opcode == 0xA2 || opcode == 0xA6 || opcode == 0xB6 || opcode == 0xAE || opcode == 0xBE
        || opcode == 0xAA || opcode == 0xBA || opcode == 0xCA || opcode == 0x1A || opcode == 0x3A
        || opcode == 0x5A || opcode == 0x7A || opcode == 0x82 || opcode == 0xC2 || opcode == 0xDA
        || opcode == 0xE2 || opcode == 0xEA || opcode == 0xFA || opcode == 0x9E
}

/// The operand that the family works on: 0 where it reads none.
#[verifier::opaque]
pub open spec fn rwm_operand(s: CpuState, opcode: u8) -> Step<u8> {
    if rwm_skips_operand(opcode) {
        Step { state: s, result: Ok(0u8) }
    } else {
        let read = reading_operand(s, AddressMode::decode(opcode));
        Step {
            state: read.state,
            result: match read.result {
                Ok((value, _)) => Ok(value),
                Err(e) => Err(e),
            },
        }
    }
}

/// Whether `opcode` is a shift or rotate.
pub open spec fn is_shift(opcode: u8) -> bool {
    opcode < 0x80 && (opcode % 32 == 0x06 || opcode % 32 == 0x0A || opcode % 32 == 0x0E || opcode
        % 32 == 0x16 || opcode % 32 == 0x1E)
}

/// The shifts and rotates: ASL, ROL, LSR, ROR by bits 5 and 6 of the opcode.
#[verifier::opaque]
pub open spec fn shift_op(s: CpuState, opcode: u8, operand: u8) -> Step<usize> {
    let mode = AddressMode::decode(opcode);
    if opcode / 32 == 0 {
        shifting_left(s, operand, mode)
    } else if opcode / 32 == 1 {
        rotating_left(s, operand, mode)
    } else if opcode / 32 == 2 {
        shifting_right(s, operand, mode)
    } else {
        rotating_right(s, operand, mode)
    }
}

/// Whether `opcode` is one of the implied transfers of the family.
pub open spec fn is_x_transfer(opcode: u8) -> bool {
    opcode == 0x8A || opcode == 0x9A || opcode == 0xAA || opcode == 0xBA || opcode == 0xCA
}

/// The implied transfers: TXA, TXS, TAX, TSX, DEX.
pub open spec fn x_transfer(s: CpuState, opcode: u8) -> CpuState {
    if opcode == 0x8A {
        setting_a(s, s.x)
    } else if opcode == 0x9A {
        CpuState { sp: s.x, ..s }
    } else if opcode == 0xAA {
        setting_x(s, s.a)
    } else if opcode == 0xBA {
        setting_x(s, s.sp)
    } else {
        setting_x(s, s.x.wrapping_sub(1))
    }
}

/// Whether `opcode` is an instruction of the family without effect.
pub open spec fn is_rwm_nop(opcode: u8) -> bool {
    opcode == 0x1A || opcode == 0x3A || opcode == 0x5A || opcode == 0x7A || opcode == 0x82
        || opcode == 0xC2 || opcode == 0xDA || opcode == 0xE2 || opcode == 0xEA || opcode == 0xFA
}

/// The instructions of the family that work on memory or X: STX, LDX, DEC,
/// INC, SHX and those without effect; any other opcode has no handler.
#[verifier::opaque]
pub open spec fn x_memory_op(s: CpuState, opcode: u8, operand: u8) -> Step<usize> {
    let mode = AddressMode::decode(opcode);
    if opcode == 0x86 || opcode == 0x96 || opcode == 0x8E {
        storing_x(s, mode)
    } else if opcode == 0xA2 || opcode == 0xA6 || opcode == 0xB6 || opcode == 0xAE || opcode
        == 0xBE {
        loading_x(s, mode)
    } else if opcode == 0xC6 || opcode == 0xD6 || opcode == 0xCE || opcode == 0xDE {
        decrementing(s, operand, mode)
    } else if opcode == 0xE6 || opcode == 0xF6 || opcode == 0xEE || opcode == 0xFE {
        incrementing(s, operand, mode)
    } else if is_rwm_nop(opcode) {
        idling(s, mode)
    } else if opcode == 0x9E {
        taking(storing_masked(s, s.x, mode), 1)
    } else {
        Step { state: s, result: Err(CoreError::OpcodeNotImplemented(opcode)) }
    }
}

/// The instruction `opcode` of the family on an operand that was read,
/// without the move of the program counter and the cost of the addressing
/// mode.
#[verifier::opaque]
pub open spec fn rwm_body(s: CpuState, opcode: u8, operand: u8) -> Step<usize> {
    if is_shift(opcode) {
        shift_op(s, opcode, operand)
    } else if is_x_transfer(opcode) {
        done(x_transfer(s, opcode), 2)
    } else {
        x_memory_op(s, opcode, operand)
    }
}

/// Whether `opcode` loads X, the one instruction of the family that pays for
/// a page crossing only when one happens.
pub open spec fn is_load_x(opcode: u8) -> bool {
    opcode == 0xA2 || opcode == 0xA6 || opcode == 0xB6 || opcode == 0xAE || opcode == 0xBE
}

/// One instruction of the read-modify-write family (shifts, rotates,
/// increments, decrements, X register work). The cost of the addressing mode
/// includes the page crossing, but for a load of X, which counts a crossing
/// itself.
pub open spec fn running_rwm(s: CpuState, opcode: u8) -> Step<usize> {
    let mode = AddressMode::decode(opcode);
    let operand = rwm_operand(s, opcode);
    match operand.result {
        Err(e) => Step { state: operand.state, result: Err(e) },
        Ok(value) => {
            let body = rwm_body(operand.state, opcode, value);
            match body.result {
                Err(e) => body,
                Ok(cycles) => Step {
                    state: advancing(body.state, mode),
                    result: Ok((cycles + mode.spec_cycle_cost(!is_load_x(opcode))) as usize),
                },
            }
        },
    }
}

impl CPU {
    /// The cycles of a read-modify-write instruction in `address_mode`
    /// beyond the cost of the mode.
    pub fn get_common_rwm_cycles(&self, address_mode: AddressMode) -> (cycles: usize)
        ensures
            cycles == rwm_cycles(address_mode),
    {
        match address_mode {
            AddressMode::Accumulator | AddressMode::Immediate => 1,
            _ => 3,
        }
    }

    fn rewrite(&mut self, carry: bool, result: u8, address_mode: AddressMode) -> (cycles: Result<
        usize,
        CoreError,
    >)
        ensures
            (Step { state: final(self)@, result: cycles }) == rewriting(
                old(self)@,
                carry,
                result,
                address_mode,
            ),
    {
        self.p.set_c(carry);
        self.write_operand(result, address_mode)?;
        self.set_nz_flags(result);
        Ok(self.get_common_rwm_cycles(address_mode))
    }

    fn rewrite_count(&mut self, result: u8, address_mode: AddressMode) -> (cycles: Result<
        usize,
        CoreError,
    >)
        ensures
            (Step { state: final(self)@, result: cycles }) == rewriting_count(
                old(self)@,
                result,
                address_mode,
            ),
    {
        self.write_operand(result, address_mode)?;
        self.set_nz_flags(result);
        Ok(self.get_common_rwm_cycles(address_mode))
    }

    pub fn asl(&mut self, operand: u8, address_mode: AddressMode) -> (cycles: Result<
        usize,
        CoreError,
    >)
        ensures
            (Step { state: final(self)@, result: cycles }) == shifting_left(
                old(self)@,
                operand,
                address_mode,
            ),
    {
        self.rewrite(operand >= 0x80, (operand % 0x80) * 2, address_mode)
    }

    pub fn rol(&mut self, operand: u8, address_mode: AddressMode) -> (cycles: Result<
        usize,
        CoreError,
    >)
        ensures
            (Step { state: final(self)@, result: cycles }) == rotating_left(
                old(self)@,
                operand,
                address_mode,
            ),
    {
        let carry: u8 = if self.p.c() {
            1
        } else {
            0
        };
        self.rewrite(operand >= 0x80, (operand % 0x80) * 2 + carry, address_mode)
    }

    pub fn lsr(&mut self, operand: u8, address_mode: AddressMode) -> (cycles: Result<
        usize,
        CoreError,
    >)
        ensures
            (Step { state: final(self)@, result: cycles }) == shifting_right(
                old(self)@,
                operand,
                address_mode,
            ),
    {
        self.rewrite(operand % 2 == 1, operand / 2, address_mode)
    }

    pub fn ror(&mut self, operand: u8, address_mode: AddressMode) -> (cycles: Result<
        usize,
        CoreError,
    >)
        ensures
            (Step { state: final(self)@, result: cycles }) == rotating_right(
                old(self)@,
                operand,
                address_mode,
            ),
    {
        let carry: u8 = if self.p.c() {
            1
        } else {
            0
        };
        self.rewrite(operand % 2 == 1, operand / 2 + carry * 0x80, address_mode)
    }

    pub fn stx(&mut self, address_mode: AddressMode) -> (cycles: Result<usize, CoreError>)
        ensures
            (Step { state: final(self)@, result: cycles }) == storing_x(old(self)@, address_mode),
    {
        self.write_operand(self.x, address_mode)?;
        Ok(1)
    }

    pub fn txa(&mut self) -> (cycles: usize)
        ensures
            final(self)@ == setting_a(old(self)@, old(self)@.x),
            cycles == 2,
    {
        self.a = self.x;
        self.set_nz_flags(self.a);
        2
    }

    pub fn txs(&mut self) -> (cycles: usize)
        ensures
            final(self)@ == (CpuState { sp: old(self)@.x, ..old(self)@ }),
            cycles == 2,
    {
        self.sp = self.x;
        2
    }

    pub fn ldx(&mut self, address_mode: AddressMode) -> (cycles: Result<usize, CoreError>)
        ensures
            (Step { state: final(self)@, result: cycles }) == loading_x(old(self)@, address_mode),
    {
        let (operand, page_cross) = self.read_operand(address_mode)?;
        self.x = operand;
        self.set_nz_flags(self.x);
        if page_cross {
            Ok(2)
        } else {
            Ok(1)
        }
    }

    pub fn tax(&mut self) -> (cycles: usize)
        ensures
            final(self)@ == setting_x(old(self)@, old(self)@.a),
            cycles == 2,
    {
        self.x = self.a;
        self.set_nz_flags(self.x);
        2
    }

    pub fn tsx(&mut self) -> (cycles: usize)
        ensures
            final(self)@ == setting_x(old(self)@, old(self)@.sp),
            cycles == 2,
    {
        self.x = self.sp;
        self.set_nz_flags(self.x);
        2
    }

    pub fn dec(&mut self, operand: u8, address_mode: AddressMode) -> (cycles: Result<
        usize,
        CoreError,
    >)
        ensures
            (Step { state: final(self)@, result: cycles }) == decrementing(
                old(self)@,
                operand,
                address_mode,
            ),
    {
        self.rewrite_count(operand.wrapping_sub(1), address_mode)
    }

    pub fn dex(&mut self) -> (cycles: usize)
        ensures
            final(self)@ == setting_x(old(self)@, old(self)@.x.wrapping_sub(1)),
            cycles == 2,
    {
        self.x = self.x.wrapping_sub(1);
        self.set_nz_flags(self.x);
        2
    }

    pub fn inc(&mut self, operand: u8, address_mode: AddressMode) -> (cycles: Result<
        usize,
        CoreError,
    >)
        ensures
            (Step { state: final(self)@, result: cycles }) == incrementing(
                old(self)@,
                operand,
                address_mode,
            ),
    {
        self.rewrite_count(operand.wrapping_add(1), address_mode)
    }

    fn read_rwm_operand(&mut self, opcode: u8) -> (operand: Result<u8, CoreError>)
        ensures
            (Step { state: final(self)@, result: operand }) == rwm_operand(old(self)@, opcode),
    {
        proof {
            reveal(rwm_operand);
        }
        if opcode == 0x86 || opcode == 0x96 || opcode == 0x8E || opcode == 0x8A || opcode == 0x9A
            || opcode == 0xA2 || opcode == 0xA6 || opcode == 0xB6 || opcode == 0xAE || opcode
            == 0xBE || opcode == 0xAA || opcode == 0xBA || opcode == 0xCA || opcode == 0x1A
            || opcode == 0x3A || opcode == 0x5A || opcode == 0x7A || opcode == 0x82 || opcode
            == 0xC2 || opcode == 0xDA || opcode == 0xE2 || opcode == 0xEA || opcode == 0xFA
            || opcode == 0x9E {
            Ok(0)
        } else {
            let (value, _) = self.read_operand(AddressMode::from_code(opcode))?;
            Ok(value)
        }
    }

    fn run_shift_op(&mut self, opcode: u8, operand: u8) -> (cycles: Result<usize, CoreError>)
        ensures
            (Step { state: final(self)@, result: cycles }) == shift_op(old(self)@, opcode, operand),
            cycles matches Ok(count) ==> 1 <= count <= 4,
    {
        proof {
            reveal(shift_op);
        }
        let address_mode = AddressMode::from_code(opcode);
        if opcode / 32 == 0 {
            self.asl(operand, address_mode)
        } else if opcode / 32 == 1 {
            self.rol(operand, address_mode)
        } else if opcode / 32 == 2 {
            self.lsr(operand, address_mode)
        } else {
            self.ror(operand, address_mode)
        }
    }

    fn run_x_transfer(&mut self, opcode: u8) -> (cycles: usize)
        requires
            is_x_transfer(opcode),
        ensures
            final(self)@ == x_transfer(old(self)@, opcode),
            cycles == 2,
    {
        if opcode == 0x8A {
            self.txa()
        } else if opcode == 0x9A {
            self.txs()
        } else if opcode == 0xAA {
            self.tax()
        } else if opcode == 0xBA {
            self.tsx()
        } else {
            self.dex()
        }
    }

    fn run_x_memory_op(&mut self, opcode: u8, operand: u8) -> (cycles: Result<usize, CoreError>)
        ensures
            (Step { state: final(self)@, result: cycles }) == x_memory_op(
                old(self)@,
                opcode,
                operand,
            ),
            cycles matches Ok(count) ==> 1 <= count <= 4,
    {
        proof {
            reveal(x_memory_op);
        }
        let address_mode = AddressMode::from_code(opcode);
        if opcode == 0x86 || opcode == 0x96 || opcode == 0x8E {
            self.stx(address_mode)
        } else if opcode == 0xA2 || opcode == 0xA6 || opcode == 0xB6 || opcode == 0xAE || opcode
            == 0xBE {
            self.ldx(address_mode)
        } else if opcode == 0xC6 || opcode == 0xD6 || opcode == 0xCE || opcode == 0xDE {
            self.dec(operand, address_mode)
        } else if opcode == 0xE6 || opcode == 0xF6 || opcode == 0xEE || opcode == 0xFE {
            self.inc(operand, address_mode)
        } else if opcode == 0x1A || opcode == 0x3A || opcode == 0x5A || opcode == 0x7A || opcode
            == 0x82 || opcode == 0xC2 || opcode == 0xDA || opcode == 0xE2 || opcode == 0xEA
            || opcode == 0xFA {
            self.nop(address_mode)
        } else if opcode == 0x9E {
            self.shx(address_mode)
        } else {
            Err(CoreError::OpcodeNotImplemented(opcode))
        }
    }

    fn run_rwm_body(&mut self, opcode: u8, operand: u8) -> (cycles: Result<usize, CoreError>)
        ensures
            (Step { state: final(self)@, result: cycles }) == rwm_body(old(self)@, opcode, operand),
            cycles matches Ok(count) ==> 1 <= count <= 4,
    {
        proof {
            reveal(rwm_body);
        }
        if opcode < 0x80 && (opcode % 32 == 0x06 || opcode % 32 == 0x0A || opcode % 32 == 0x0E
            || opcode % 32 == 0x16 || opcode % 32 == 0x1E) {
            self.run_shift_op(opcode, operand)
        } else if opcode == 0x8A || opcode == 0x9A || opcode == 0xAA || opcode == 0xBA || opcode
            == 0xCA {
            Ok(self.run_x_transfer(opcode))
        } else {
            self.run_x_memory_op(opcode, operand)
        }
    }

    /// Runs the instruction of the read-modify-write family that `opcode`
    /// encodes and returns the cycles it took. An opcode without a handler
    /// fails with `OpcodeNotImplemented`.
    pub fn run_rwm_op(&mut self, opcode: u8) -> (cycles: Result<usize, CoreError>)
        ensures
            (Step { state: final(self)@, result: cycles }) == running_rwm(old(self)@, opcode),
            cycles matches Ok(count) ==> 1 <= count <= 9,
    {
        let address_mode = AddressMode::from_code(opcode);
        let operand = self.read_rwm_operand(opcode)?;
        let cycles = self.run_rwm_body(opcode, operand)?;
        self.advance(address_mode);
        let loads = opcode == 0xA2 || opcode == 0xA6 || opcode == 0xB6 || opcode == 0xAE
            || opcode == 0xBE;
        Ok(cycles + address_mode.cycle_cost(!loads))
    }
}

} // verus!
