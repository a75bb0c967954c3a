use crate::cpu::address_mode::AddressMode;
use crate::cpu::nop::idling;
use crate::cpu::processor::{reading_operand, writing_operand, CpuState, Step, CPU};
use crate::error::CoreError;
use vstd::prelude::*;

verus! {

/// The eight instructions of the accumulator family, by the top three bits
/// of the opcode.
#[derive(Debug, Clone, Copy, PartialEq, Eq, Structural)]
pub enum OpcodeGroup {
    Ora,
    And,
    Eor,
    Adc,
    Sta,
    Lda,
    Cmp,
    Sbc,
}

impl OpcodeGroup {
    /// The instruction with number `code`, which is below 8.
    pub open spec fn of(code: u8) -> OpcodeGroup {
        if code == 0 {
            OpcodeGroup::Ora
        } else if code == 1 {
            OpcodeGroup::And
        } else if code == 2 {
            OpcodeGroup::Eor
        } else if code == 3 {
            OpcodeGroup::Adc
        } else if code == 4 {
            OpcodeGroup::Sta
        } else if code == 5 {
            OpcodeGroup::Lda
        } else if code == 6 {
            OpcodeGroup::Cmp
        } else {
            OpcodeGroup::Sbc
        }
    }

    pub fn from_code(code: u8) -> (group: Self)
        requires
            code < 8,
        ensures
            group == Self::of(code),
    {
        match code {
            0 => OpcodeGroup::Ora,
            1 => OpcodeGroup::And,
            2 => OpcodeGroup::Eor,
            3 => OpcodeGroup::Adc,
            4 => OpcodeGroup::Sta,
            5 => OpcodeGroup::Lda,
            6 => OpcodeGroup::Cmp,
            _ => OpcodeGroup::Sbc,
        }
    }
}

/// Whether the byte is negative as a signed number: its top bit.
pub open spec fn negative(value: u8) -> bool {
    value >= 0x80
}

/// The byte as a signed number.
pub open spec fn signed(value: u8) -> int {
    if value >= 0x80 {
        value - 256
    } else {
        value as int
    }
}

/// The low eight bits of a number.
pub open spec fn low_eight(value: int) -> u8 {
    (value % 256) as u8
}

/// The accumulator or-ed with the operand.
pub open spec fn oring(s: CpuState, operand: u8) -> CpuState {
    CpuState { a: s.a | operand, ..s }.with_nz(s.a | operand)
}

/// The accumulator and-ed with the operand.
pub open spec fn anding(s: CpuState, operand: u8) -> CpuState {
    CpuState { a: s.a & operand, ..s }.with_nz(s.a & operand)
}

/// The accumulator exclusive-or-ed with the operand.
pub open spec fn exclusive_oring(s: CpuState, operand: u8) -> CpuState {
    CpuState { a: s.a ^ operand, ..s }.with_nz(s.a ^ operand)
}

/// The operand loaded into the accumulator.
pub open spec fn loading(s: CpuState, operand: u8) -> CpuState {
    CpuState { a: operand, ..s }.with_nz(operand)
}

/// The carry flag as a number.
pub open spec fn carry_in(s: CpuState) -> int {
    if s.p.spec_c() {
        1
    } else {
        0
    }
}

/// Addition with carry: the accumulator becomes the low eight bits of
/// accumulator + operand + carry; carry says that the sum did not fit in
/// eight bits, overflow that accumulator and operand had one sign and the
/// result has the other.
pub open spec fn adding(s: CpuState, operand: u8) -> CpuState {
    let sum = s.a + operand + carry_in(s);
    let result = low_eight(sum);
    CpuState {
        a: result,
        p: s.p.with_c(sum > 255).with_v(
            negative(s.a) == negative(operand) && negative(result) != negative(s.a),
        ),
        ..s
    }.with_nz(result)
}

/// Subtraction with borrow: the accumulator becomes the low eight bits of
/// accumulator - operand - (1 - carry); carry says that no borrow was
/// needed, overflow that accumulator and operand had different signs and the
/// result has not the sign of the accumulator.
pub open spec fn subtracting(s: CpuState, operand: u8) -> CpuState {
    let difference = s.a - operand - (1 - carry_in(s));
    let result = low_eight(difference);
    CpuState {
        a: result,
        p: s.p.with_c(difference >= 0).with_v(
            negative(s.a) != negative(operand) && negative(result) != negative(s.a),
        ),
        ..s
    }.with_nz(result)
}

/// The flags of `register` - `operand`: carry says that the register is not
/// below the operand, negative and zero are those of the low eight bits of
/// the difference. No register changes.
pub open spec fn comparing(s: CpuState, register: u8, operand: u8) -> CpuState {
    CpuState { p: s.p.with_c(register >= operand), ..s }.with_nz(low_eight(register - operand))
}

/// The overflow flag of an addition says exactly that the sum of the signed
/// operands and the carry does not fit in a signed byte, and the result is
/// the sum modulo 256.
pub proof fn lemma_adding_overflow(s: CpuState, operand: u8)
    ensures
        ({
            let sum = signed(s.a) + signed(operand) + carry_in(s);
            let result = low_eight(s.a + operand + carry_in(s));
            &&& (negative(s.a) == negative(operand) && negative(result) != negative(s.a)) <==> !(
            -128 <= sum <= 127)
            &&& (-128 <= sum <= 127 ==> signed(result) == sum)
        }),
{
}

/// The overflow flag of a subtraction says exactly that the difference of
/// the signed operands, less the borrow, does not fit in a signed byte.
pub proof fn lemma_subtracting_overflow(s: CpuState, operand: u8)
    ensures
        ({
            let difference = signed(s.a) - signed(operand) - (1 - carry_in(s));
            let result = low_eight(s.a - operand - (1 - carry_in(s)));
            &&& (negative(s.a) != negative(operand) && negative(result) != negative(s.a)) <==> !(
            -128 <= difference <= 127)
            &&& (-128 <= difference <= 127 ==> signed(result) == difference)
        }),
{
}

/// The opcode's instruction of the accumulator family applied to an operand
/// that was read.
pub open spec fn applying(s: CpuState, group: OpcodeGroup, operand: u8) -> CpuState {
    match group {
        OpcodeGroup::Ora => oring(s, operand),
        OpcodeGroup::And => anding(s, operand),
        OpcodeGroup::Eor => exclusive_oring(s, operand),
        OpcodeGroup::Adc => adding(s, operand),
        OpcodeGroup::Lda => loading(s, operand),
        OpcodeGroup::Cmp => comparing(s, s.a, operand),
        OpcodeGroup::Sbc => subtracting(s, operand),
        OpcodeGroup::Sta => s,
    }
}

/// The state with the program counter behind an instruction of `mode`.
pub open spec fn advancing(s: CpuState, mode: AddressMode) -> CpuState {
    CpuState { pc: s.pc.wrapping_add((1 + mode.spec_byte_code_size()) as u16), ..s }
}

/// The store of the accumulator family: the accumulator is written to the
/// operand; the opcode 0x89 in its place only reads it. A store always pays
/// for the page crossing.
pub open spec fn storing_accumulator(s: CpuState, opcode: u8) -> Step<usize> {
    let mode = AddressMode::decode(opcode);
    let stored: Step<()> = if opcode == 0x89 {
        let idle = idling(s, mode);
        Step {
            state: idle.state,
            result: match idle.result {
                Ok(_) => Ok(()),
                Err(e) => Err(e),
            },
        }
    } else {
        writing_operand(s, s.a, mode)
    };
    match stored.result {
        Err(e) => Step { state: stored.state, result: Err(e) },
        Ok(_) => Step {
            state: advancing(stored.state, mode),
            result: Ok((1 + mode.spec_cycle_cost(true)) as usize),
        },
    }
}

/// One instruction of the accumulator family: the operand is read, the
/// instruction applied, and the program counter moved behind the
/// instruction. It takes the cycle of the opcode fetch and the cost of the
/// addressing mode.
pub open spec fn running_alu(s: CpuState, opcode: u8) -> Step<usize> {
    let mode = AddressMode::decode(opcode);
    let group = OpcodeGroup::of(opcode / 32);
    if group is Sta {
        storing_accumulator(s, opcode)
    } else {
        let read = reading_operand(s, mode);
        match read.result {
            Err(e) => Step { state: read.state, result: Err(e) },
            Ok((operand, page_cross)) => Step {
                state: advancing(applying(read.state, group, operand), mode),
                result: Ok((1 + mode.spec_cycle_cost(page_cross)) as usize),
            },
        }
    }
}

impl CPU {
    /// Moves the program counter behind an instruction of `address_mode`.
    pub fn advance(&mut self, address_mode: AddressMode)
        ensures
            final(self)@ == advancing(old(self)@, address_mode),
    {
        self.pc = self.pc.wrapping_add(1 + address_mode.byte_code_size());
    }

    fn store_accumulator(&mut self, opcode: u8) -> (cycles: Result<usize, CoreError>)
        ensures
            (Step { state: final(self)@, result: cycles }) == storing_accumulator(
                old(self)@,
                opcode,
            ),
            cycles matches Ok(count) ==> 1 <= count <= 6,
    {
        let address_mode = AddressMode::from_code(opcode);
        if opcode == 0x89 {
            self.nop(address_mode)?;
        } else {
            self.write_operand(self.a, address_mode)?;
        }
        self.advance(address_mode);
        Ok(1 + address_mode.cycle_cost(true))
    }

    fn apply(&mut self, group: OpcodeGroup, operand: u8)
        ensures
            final(self)@ == applying(old(self)@, group, operand),
    {
        match group {
            OpcodeGroup::Ora => self.ora(operand),
            OpcodeGroup::And => self.and(operand),
            OpcodeGroup::Eor => self.eor(operand),
            OpcodeGroup::Adc => self.adc(operand),
            OpcodeGroup::Lda => self.lda(operand),
            OpcodeGroup::Cmp => self.cmp(operand),
            OpcodeGroup::Sbc => self.sbc(operand),
            OpcodeGroup::Sta => {},
        }
    }

    /// Runs the instruction of the accumulator family (ORA, AND, EOR, ADC,
    /// STA, LDA, CMP, SBC) that `opcode` encodes and returns the cycles it
    /// took.
    pub fn run_alu_op(&mut self, opcode: u8) -> (cycles: Result<usize, CoreError>)
        ensures
            (Step { state: final(self)@, result: cycles }) == running_alu(old(self)@, opcode),
            cycles matches Ok(count) ==> 1 <= count <= 6,
    {
        let address_mode = AddressMode::from_code(opcode);
        let opcode_group = OpcodeGroup::from_code(opcode / 32);
        if let OpcodeGroup::Sta = opcode_group {
            return self.store_accumulator(opcode);
        }
        let (operand, page_cross) = self.read_operand(address_mode)?;
        self.apply(opcode_group, operand);
        self.advance(address_mode);
        Ok(1 + address_mode.cycle_cost(page_cross))
    }

    pub fn ora(&mut self, operand: u8)
        ensures
            final(self)@ == oring(old(self)@, operand),
    {
        self.a = self.a | operand;
        self.set_nz_flags(self.a);
    }

    pub fn and(&mut self, operand: u8)
        ensures
            final(self)@ == anding(old(self)@, operand),
    {
        self.a = self.a & operand;
        self.set_nz_flags(self.a);
    }

    pub fn eor(&mut self, operand: u8)
        ensures
            final(self)@ == exclusive_oring(old(self)@, operand),
    {
        self.a = self.a ^ operand;
        self.set_nz_flags(self.a);
    }

    pub fn adc(&mut self, operand: u8)
        ensures
            final(self)@ == adding(old(self)@, operand),
    {
        let carry: u16 = if self.p.c() {
            1
        } else {
            0
        };
        let sum: u16 = self.a as u16 + operand as u16 + carry;
        let result: u8 = (sum % 256) as u8;
        let before = self.a;
        self.a = result;
        self.p.set_c(sum > 255);
        self.p.set_v((before >= 0x80) == (operand >= 0x80) && (result >= 0x80) != (before >= 0x80));
        self.set_nz_flags(result);
    }

    pub fn lda(&mut self, operand: u8)
        ensures
            final(self)@ == loading(old(self)@, operand),
    {
        self.a = operand;
        self.set_nz_flags(self.a);
    }

    pub fn cmp(&mut self, operand: u8)
        ensures
            final(self)@ == comparing(old(self)@, old(self)@.a, operand),
    {
        let result = self.a.wrapping_sub(operand);
        self.p.set_c(self.a >= operand);
        self.set_nz_flags(result);
    }

    pub fn sbc(&mut self, operand: u8)
        ensures
            final(self)@ == subtracting(old(self)@, operand),
    {
        let borrow: u16 = if self.p.c() {
            0
        } else {
            1
        };
        let wide: u16 = 256 + self.a as u16 - operand as u16 - borrow;
        let result: u8 = (wide % 256) as u8;
        let before = self.a;
        self.a = result;
        self.p.set_c(wide >= 256);
        self.p.set_v((before >= 0x80) != (operand >= 0x80) && (result >= 0x80) != (before >= 0x80));
        self.set_nz_flags(result);
    }
}

} // verus!
