use crate::cpu::address_mode::AddressMode;
use crate::cpu::alu::{advancing, comparing, negative};
use crate::cpu::nop::idling;
use crate::cpu::processor::{
    page_of, popping, popping_word, pushing, pushing_word, reading_operand, reading_word,
    resolving, writing_operand, CpuState, Step, CPU,
};
use crate::cpu::status::StatusRegister;
use crate::cpu::unofficial::storing_masked;
use crate::error::CoreError;
use vstd::prelude::*;

verus! {

/// A step that succeeded with `state` and took `cycles`.
pub open spec fn done(state: CpuState, cycles: usize) -> Step<usize> {
    Step { state, result: Ok(cycles) }
}

/// The outcome of `step` with its value replaced by `cycles`.
pub open spec fn taking<T>(step: Step<T>, cycles: usize) -> Step<usize> {
    Step {
        state: step.state,
        result: match step.result {
            Ok(_) => Ok(cycles),
            Err(e) => Err(e),
        },
    }
}

/// Pushing the status with both break bits set.
pub open spec fn pushing_status(s: CpuState) -> Step<usize> {
    taking(pushing(s, s.p.with_b(3).0), 3)
}

/// The software interrupt: the address two bytes on and the status are
/// pushed, the program counter is loaded from 0xFFFE and interrupts are
/// disabled.
pub open spec fn breaking(s: CpuState) -> Step<usize> {
    let address = pushing_word(s, s.pc.wrapping_add(2));
    match address.result {
        Err(e) => Step { state: address.state, result: Err(e) },
        Ok(_) => {
            let status = pushing_status(address.state);
            match status.result {
                Err(e) => status,
                Ok(_) => {
                    let vector = reading_word(status.state, 0xFFFE);
                    match vector.result {
                        Err(e) => Step { state: vector.state, result: Err(e) },
                        Ok(target) => done(
                            CpuState {
                                pc: target,
                                p: vector.state.p.with_i(true),
                                ..vector.state
                            },
                            7,
                        ),
                    }
                },
            }
        },
    }
}

/// Pulling the status: the break bits of the pulled byte are dropped.
pub open spec fn pulling_status(s: CpuState) -> Step<usize> {
    let pulled = popping(s);
    match pulled.result {
        Err(e) => Step { state: pulled.state, result: Err(e) },
        Ok(value) => done(CpuState { p: StatusRegister(value).with_b(0), ..pulled.state }, 4),
    }
}

/// Pushing the accumulator.
pub open spec fn pushing_accumulator(s: CpuState) -> Step<usize> {
    taking(pushing(s, s.a), 3)
}

/// Pulling the accumulator.
pub open spec fn pulling_accumulator(s: CpuState) -> Step<usize> {
    let pulled = popping(s);
    match pulled.result {
        Err(e) => Step { state: pulled.state, result: Err(e) },
        Ok(value) => done(CpuState { a: value, ..pulled.state }.with_nz(value), 4),
    }
}

/// The offset byte of a branch as a 16-bit number to add: sign-extended.
pub open spec fn branch_offset(operand: u8) -> u16 {
    if operand >= 0x80 {
        (0xFF00 + operand) as u16
    } else {
        operand as u16
    }
}

/// Whether a taken branch at `pc` with offset byte `operand` leaves the page
/// of its operand byte.
pub open spec fn branch_changes_page(pc: u16, operand: u8) -> bool {
    page_of(pc.wrapping_add(1)) != page_of(pc.wrapping_add(branch_offset(operand)))
}

/// The program counter after a branch at `pc` was taken: the offset counts
/// from the instruction that follows the two bytes of the branch.
pub open spec fn branch_target(pc: u16, operand: u8) -> u16 {
    pc.wrapping_add(branch_offset(operand)).wrapping_add(2)
}

/// The state after a branch: a branch that is taken sets the program
/// counter; one that is not leaves it to the caller.
pub open spec fn branched(s: CpuState, operand: u8, should_branch: bool) -> CpuState {
    if should_branch {
        CpuState { pc: branch_target(s.pc, operand), ..s }
    } else {
        s
    }
}

/// The cycles of a branch: 2 when it is not taken, 3 when it is, 4 when it
/// is taken and changes the page.
pub open spec fn branch_cycles(s: CpuState, operand: u8, should_branch: bool) -> usize {
    if !should_branch {
        2
    } else if branch_changes_page(s.pc, operand) {
        4
    } else {
        3
    }
}

/// Whether `opcode` is one of the eight branches.
pub open spec fn is_branch(opcode: u8) -> bool {
    opcode % 32 == 0x10
}

/// Whether the branch `opcode` is taken under the flags `p`: bits 6 and 7
/// of the opcode pick negative, overflow, carry or zero, bit 5 the value
/// the flag must have.
pub open spec fn branch_condition(p: StatusRegister, opcode: u8) -> bool {
    let flag = if opcode / 64 == 0 {
        p.spec_n()
    } else if opcode / 64 == 1 {
        p.spec_v()
    } else if opcode / 64 == 2 {
        p.spec_c()
    } else {
        p.spec_z()
    };
    flag == ((opcode / 32) % 2 == 1)
}

/// The call: the address of the last byte of the instruction is pushed and
/// the program counter loaded from the operand.
pub open spec fn calling(s: CpuState) -> Step<usize> {
    let pushed = pushing_word(s, s.pc.wrapping_add(2));
    match pushed.result {
        Err(e) => Step { state: pushed.state, result: Err(e) },
        Ok(_) => {
            let target = reading_word(pushed.state, s.pc.wrapping_add(1));
            match target.result {
                Err(e) => Step { state: target.state, result: Err(e) },
                Ok(address) => done(CpuState { pc: address, ..target.state }, 3),
            }
        },
    }
}

/// The bit test: zero says that accumulator and operand share no bit,
/// overflow and negative are bits 6 and 7 of the operand.
pub open spec fn bit_testing(s: CpuState, operand: u8) -> CpuState {
    CpuState {
        p: s.p.with_z(s.a & operand == 0).with_v((operand / 64) % 2 == 1).with_n(
            negative(operand),
        ),
        ..s
    }
}

/// The return from an interrupt: the status is pulled without its break
/// bits, then the program counter.
pub open spec fn returning_from_interrupt(s: CpuState) -> Step<usize> {
    let status = popping(s);
    match status.result {
        Err(e) => Step { state: status.state, result: Err(e) },
        Ok(value) => {
            let address = popping_word(
                CpuState { p: StatusRegister(value).with_b(0), ..status.state },
            );
            match address.result {
                Err(e) => Step { state: address.state, result: Err(e) },
                Ok(target) => done(CpuState { pc: target, ..address.state }, 6),
            }
        },
    }
}

/// The return from a call: the program counter is pulled. The caller moves
/// it one byte on, behind the call.
pub open spec fn returning(s: CpuState) -> Step<usize> {
    let address = popping_word(s);
    match address.result {
        Err(e) => Step { state: address.state, result: Err(e) },
        Ok(target) => done(CpuState { pc: target, ..address.state }, 6),
    }
}

/// The jump: the program counter becomes the effective address.
pub open spec fn jumping(s: CpuState, mode: AddressMode) -> Step<usize> {
    let found = resolving(s, mode);
    match found.result {
        Err(e) => Step { state: found.state, result: Err(e) },
        Ok((address, _)) => done(CpuState { pc: address, ..found.state }, 0),
    }
}

/// Storing Y.
pub open spec fn storing_y(s: CpuState, mode: AddressMode) -> Step<usize> {
    taking(writing_operand(s, s.y, mode), 1)
}

/// Y with `value` in it and the flags of `value`.
pub open spec fn setting_y(s: CpuState, value: u8) -> CpuState {
    CpuState { y: value, ..s }.with_nz(value)
}

/// X with `value` in it and the flags of `value`.
pub open spec fn setting_x(s: CpuState, value: u8) -> CpuState {
    CpuState { x: value, ..s }.with_nz(value)
}

/// The accumulator with `value` in it and the flags of `value`.
pub open spec fn setting_a(s: CpuState, value: u8) -> CpuState {
    CpuState { a: value, ..s }.with_nz(value)
}

impl CPU {
    pub fn brk(&mut self) -> (cycles: Result<usize, CoreError>)
        ensures
            (Step { state: final(self)@, result: cycles }) == breaking(old(self)@),
    {
        self.push_word(self.pc.wrapping_add(2))?;
        self.php()?;
        let target = self.bus.read_word(0xFFFE)?;
        self.pc = target;
        self.p.set_i(true);
        Ok(7)
    }

    pub fn php(&mut self) -> (cycles: Result<usize, CoreError>)
        ensures
            (Step { state: final(self)@, result: cycles }) == pushing_status(old(self)@),
    {
        let mut status = self.p;
        status.set_b(3);
        self.push_byte(status.0)?;
        Ok(3)
    }

    pub fn plp(&mut self) -> (cycles: Result<usize, CoreError>)
        ensures
            (Step { state: final(self)@, result: cycles }) == pulling_status(old(self)@),
    {
        let mut status = StatusRegister(self.pop_byte()?);
        status.set_b(0);
        self.p = status;
        Ok(4)
    }

    pub fn pha(&mut self) -> (cycles: Result<usize, CoreError>)
        ensures
            (Step { state: final(self)@, result: cycles }) == pushing_accumulator(old(self)@),
    {
        self.push_byte(self.a)?;
        Ok(3)
    }

    pub fn pla(&mut self) -> (cycles: Result<usize, CoreError>)
        ensures
            (Step { state: final(self)@, result: cycles }) == pulling_accumulator(old(self)@),
    {
        self.a = self.pop_byte()?;
        self.set_nz_flags(self.a);
        Ok(4)
    }

    /// Whether the branch `opcode` is taken under the current flags.
    pub fn branch_taken(&self, opcode: u8) -> (taken: bool)
        ensures
            taken == branch_condition(self@.p, opcode),
    {
        let flag = if opcode / 64 == 0 {
            self.p.n()
        } else if opcode / 64 == 1 {
            self.p.v()
        } else if opcode / 64 == 2 {
            self.p.c()
        } else {
            self.p.z()
        };
        flag == ((opcode / 32) % 2 == 1)
    }

    /// Takes or passes a branch with offset byte `operand` and returns the
    /// cycles of the whole instruction.
    pub fn branch(&mut self, operand: u8, should_branch: bool) -> (cycles: usize)
        ensures
            final(self)@ == branched(old(self)@, operand, should_branch),
            cycles == branch_cycles(old(self)@, operand, should_branch),
    {
        if !should_branch {
            return 2;
        }
        let offset: u16 = if operand >= 0x80 {
            0xFF00 + operand as u16
        } else {
            operand as u16
        };
        let before = self.pc.wrapping_add(1);
        let moved = self.pc.wrapping_add(offset);
        self.pc = moved.wrapping_add(2);
        if before / 256 != moved / 256 {
            4
        } else {
            3
        }
    }

    pub fn jsr(&mut self) -> (cycles: Result<usize, CoreError>)
        ensures
            (Step { state: final(self)@, result: cycles }) == calling(old(self)@),
    {
        let operand_address = self.pc.wrapping_add(1);
        self.push_word(self.pc.wrapping_add(2))?;
        let target = self.bus.read_word(operand_address)?;
        self.pc = target;
        Ok(3)
    }

    pub fn bit(&mut self, operand: u8) -> (cycles: usize)
        ensures
            final(self)@ == bit_testing(old(self)@, operand),
            cycles == 1,
    {
        self.p.set_z(self.a & operand == 0);
        self.p.set_v((operand / 64) % 2 == 1);
        self.p.set_n(operand >= 0x80);
        1
    }

    pub fn rti(&mut self) -> (cycles: Result<usize, CoreError>)
        ensures
            (Step { state: final(self)@, result: cycles }) == returning_from_interrupt(old(self)@),
    {
        let mut status = StatusRegister(self.pop_byte()?);
        status.set_b(0);
        self.p = status;
        let target = self.pop_word()?;
        self.pc = target;
        Ok(6)
    }

    pub fn rts(&mut self) -> (cycles: Result<usize, CoreError>)
        ensures
            (Step { state: final(self)@, result: cycles }) == returning(old(self)@),
    {
        let target = self.pop_word()?;
        self.pc = target;
        Ok(6)
    }

    pub fn jmp(&mut self, address_mode: AddressMode) -> (cycles: Result<usize, CoreError>)
        ensures
            (Step { state: final(self)@, result: cycles }) == jumping(old(self)@, address_mode),
    {
        let (address, _) = self.get_address(address_mode)?;
        self.pc = address;
        Ok(0)
    }

    pub fn sty(&mut self, address_mode: AddressMode) -> (cycles: Result<usize, CoreError>)
        ensures
            (Step { state: final(self)@, result: cycles }) == storing_y(old(self)@, address_mode),
    {
        self.write_operand(self.y, address_mode)?;
        Ok(1)
    }

    pub fn dey(&mut self) -> (cycles: usize)
        ensures
            final(self)@ == setting_y(old(self)@, old(self)@.y.wrapping_sub(1)),
            cycles == 2,
    {
        self.y = self.y.wrapping_sub(1);
        self.set_nz_flags(self.y);
        2
    }

    pub fn tya(&mut self) -> (cycles: usize)
        ensures
            final(self)@ == setting_a(old(self)@, old(self)@.y),
            cycles == 2,
    {
        self.a = self.y;
        self.set_nz_flags(self.a);
        2
    }

    pub fn tay(&mut self) -> (cycles: usize)
        ensures
            final(self)@ == setting_y(old(self)@, old(self)@.a),
            cycles == 2,
    {
        self.y = self.a;
        self.set_nz_flags(self.y);
        2
    }

    pub fn ldy(&mut self, operand: u8) -> (cycles: usize)
        ensures
            final(self)@ == setting_y(old(self)@, operand),
            cycles == 1,
    {
        self.y = operand;
        self.set_nz_flags(self.y);
        1
    }

    pub fn cpy(&mut self, operand: u8) -> (cycles: usize)
        ensures
            final(self)@ == comparing(old(self)@, old(self)@.y, operand),
            cycles == 1,
    {
        let result = self.y.wrapping_sub(operand);
        self.p.set_c(self.y >= operand);
        self.set_nz_flags(result);
        1
    }

    pub fn cpx(&mut self, operand: u8) -> (cycles: usize)
        ensures
            final(self)@ == comparing(old(self)@, old(self)@.x, operand),
            cycles == 1,
    {
        let result = self.x.wrapping_sub(operand);
        self.p.set_c(self.x >= operand);
        self.set_nz_flags(result);
        1
    }

    pub fn iny(&mut self) -> (cycles: usize)
        ensures
            final(self)@ == setting_y(old(self)@, old(self)@.y.wrapping_add(1)),
            cycles == 2,
    {
        self.y = self.y.wrapping_add(1);
        self.set_nz_flags(self.y);
        2
    }

    pub fn inx(&mut self) -> (cycles: usize)
        ensures
            final(self)@ == setting_x(old(self)@, old(self)@.x.wrapping_add(1)),
            cycles == 2,
    {
        self.x = self.x.wrapping_add(1);
        self.set_nz_flags(self.x);
        2
    }
}

/// Whether the control family reads an operand for `opcode` before it runs
/// the instruction: the branches, BIT, LDY, CPY and CPX.
pub open spec fn control_reads_operand(opcode: u8) -> bool {
    is_branch(opcode) || opcode == 0x24 || opcode == 0x2C || opcode == 0xA0 || opcode == 0xA4
        || opcode == 0xB4 || opcode == 0xAC || opcode == 0xBC || opcode == 0xC0 || opcode == 0xC4
        || opcode == 0xCC || opcode == 0xE0 || opcode == 0xE4 || opcode == 0xEC
}

/// The operand that the control family works on, with its page-cross
/// flag: the byte read in the opcode's mode, or 0 and no crossing for an
/// instruction that reads none.
#[verifier::opaque]
pub open spec fn control_operand(s: CpuState, opcode: u8) -> Step<(u8, bool)> {
    if control_reads_operand(opcode) {
        reading_operand(s, AddressMode::decode(opcode))
    } else {
        Step { state: s, result: Ok((0u8, false)) }
    }
}

/// Whether `opcode` is one of the control-flow instructions that set the
/// program counter themselves (BRK, JSR, JMP, RTI).
pub open spec fn control_sets_pc(opcode: u8) -> bool {
    opcode == 0x00 || opcode == 0x20 || opcode == 0x4C || opcode == 0x6C || opcode == 0x40
}

/// Whether `opcode` is one of the stack and subroutine instructions.
pub open spec fn is_stack_op(opcode: u8) -> bool {
    opcode == 0x00 || opcode == 0x08 || opcode == 0x28 || opcode == 0x48 || opcode == 0x68
        || opcode == 0x20 || opcode == 0x40 || opcode == 0x60
}

/// The stack and subroutine instructions.
#[verifier::opaque]
pub open spec fn stack_op(s: CpuState, opcode: u8) -> Step<usize> {
    if opcode == 0x00 {
        breaking(s)
    } else if opcode == 0x08 {
        pushing_status(s)
    } else if opcode == 0x28 {
        pulling_status(s)
    } else if opcode == 0x48 {
        pushing_accumulator(s)
    } else if opcode == 0x68 {
        pulling_accumulator(s)
    } else if opcode == 0x20 {
        calling(s)
    } else if opcode == 0x40 {
        returning_from_interrupt(s)
    } else {
        returning(s)
    }
}

/// Whether `opcode` sets or clears a single flag.
pub open spec fn is_flag_op(opcode: u8) -> bool {
    opcode == 0x18 || opcode == 0x38 || opcode == 0x58 || opcode == 0x78 || opcode == 0xB8
        || opcode == 0xD8 || opcode == 0xF8
}

/// The status after a flag instruction: CLC, SEC, CLI, SEI, CLV, CLD, SED.
pub open spec fn flag_op(p: StatusRegister, opcode: u8) -> StatusRegister {
    if opcode == 0x18 {
        p.with_c(false)
    } else if opcode == 0x38 {
        p.with_c(true)
    } else if opcode == 0x58 {
        p.with_i(false)
    } else if opcode == 0x78 {
        p.with_i(true)
    } else if opcode == 0xB8 {
        p.with_v(false)
    } else if opcode == 0xD8 {
        p.with_d(false)
    } else {
        p.with_d(true)
    }
}

/// Whether `opcode` is one of the register instructions of the control
/// family: DEY, TYA, TAY, INY, INX, LDY, CPY, CPX, BIT.
pub open spec fn is_register_op(opcode: u8) -> bool {
    opcode == 0x88 || opcode == 0x98 || opcode == 0xA8 || opcode == 0xC8 || opcode == 0xE8 || (
    control_reads_operand(opcode) && !is_branch(opcode))
}

/// The state after a register instruction of the control family.
#[verifier::opaque]
pub open spec fn register_op(s: CpuState, opcode: u8, operand: u8) -> CpuState {
    if opcode == 0x88 {
        setting_y(s, s.y.wrapping_sub(1))
    } else if opcode == 0x98 {
        setting_a(s, s.y)
    } else if opcode == 0xA8 {
        setting_y(s, s.a)
    } else if opcode == 0xC8 {
        setting_y(s, s.y.wrapping_add(1))
    } else if opcode == 0xE8 {
        setting_x(s, s.x.wrapping_add(1))
    } else if opcode == 0x24 || opcode == 0x2C {
        bit_testing(s, operand)
    } else if opcode / 32 == 5 {
        setting_y(s, operand)
    } else if opcode / 32 == 6 {
        comparing(s, s.y, operand)
    } else {
        comparing(s, s.x, operand)
    }
}

/// The cycles of a register instruction of the control family without the
/// cost of its addressing mode: 2 for the implied ones, 1 for those with an
/// operand.
pub open spec fn register_op_cycles(opcode: u8) -> usize {
    if control_reads_operand(opcode) {
        1
    } else {
        2
    }
}

/// Whether `opcode` is a control-family instruction without effect.
pub open spec fn is_control_nop(opcode: u8) -> bool {
    opcode == 0x80 || ((opcode % 32 == 0x04 || opcode % 32 == 0x0C) && (opcode < 0x80 && opcode
        != 0x24 && opcode != 0x2C && opcode != 0x4C && opcode != 0x6C)) || ((opcode % 32 == 0x14
        || opcode % 32 == 0x1C) && opcode != 0x94 && opcode != 0x9C && opcode != 0xB4 && opcode
        != 0xBC)
}

/// The instructions of the control family that work on memory or jump: JMP,
/// STY, SHY and those without effect; any other opcode has no handler.
#[verifier::opaque]
pub open spec fn memory_op(s: CpuState, opcode: u8) -> Step<usize> {
    let mode = AddressMode::decode(opcode);
    if opcode == 0x4C || opcode == 0x6C {
        jumping(s, mode)
    } else if opcode == 0x84 || opcode == 0x94 || opcode == 0x8C {
        storing_y(s, mode)
    } else if opcode == 0x9C {
        taking(storing_masked(s, s.y, mode), 1)
    } else if is_control_nop(opcode) {
        idling(s, mode)
    } else {
        Step { state: s, result: Err(CoreError::OpcodeNotImplemented(opcode)) }
    }
}

/// The instruction `opcode` of the control family on an operand that was
/// read, without the move of the program counter and the cost of the
/// addressing mode.
#[verifier::opaque]
pub open spec fn control_body(s: CpuState, opcode: u8, operand: u8) -> Step<usize> {
    if is_branch(opcode) {
        done(
            branched(s, operand, branch_condition(s.p, opcode)),
            branch_cycles(s, operand, branch_condition(s.p, opcode)),
        )
    } else if is_stack_op(opcode) {
        stack_op(s, opcode)
    } else if is_flag_op(opcode) {
        done(CpuState { p: flag_op(s.p, opcode), ..s }, 2)
    } else if is_register_op(opcode) {
        done(register_op(s, opcode, operand), register_op_cycles(opcode))
    } else {
        memory_op(s, opcode)
    }
}

/// Whether the program counter is moved behind the instruction after it
/// ran: not after a control-flow instruction that set it, nor after a
/// branch that was taken.
pub open spec fn control_advances(before: CpuState, opcode: u8) -> bool {
    if is_branch(opcode) {
        !branch_condition(before.p, opcode)
    } else {
        !control_sets_pc(opcode)
    }
}

/// Whether the instruction pays for a page crossing: a read does when its
/// operand crossed a page, the store SHY always.
pub open spec fn control_pays_crossing(opcode: u8, page_cross: bool) -> bool {
    page_cross || opcode == 0x9C
}

/// The end of a control-family instruction that ran in `body` from
/// `before`: the move of the program counter and the cycle count, to which
/// every instruction but a branch adds the cost of its addressing mode.
pub open spec fn control_finish(
    before: CpuState,
    body: Step<usize>,
    opcode: u8,
    page_cross: bool,
) -> Step<usize> {
    let mode = AddressMode::decode(opcode);
    match body.result {
        Err(e) => body,
        Ok(cycles) => Step {
            state: if control_advances(before, opcode) {
                advancing(body.state, mode)
            } else {
                body.state
            },
            result: Ok(
                if is_branch(opcode) {
                    cycles
                } else {
                    (cycles + mode.spec_cycle_cost(control_pays_crossing(opcode, page_cross)))
                        as usize
                },
            ),
        },
    }
}

/// One instruction of the control family (branches, stack, flags, jumps,
/// Y and X register work).
pub open spec fn running_control(s: CpuState, opcode: u8) -> Step<usize> {
    let operand = control_operand(s, opcode);
    match operand.result {
        Err(e) => Step { state: operand.state, result: Err(e) },
        Ok((value, page_cross)) => control_finish(
            operand.state,
            control_body(operand.state, opcode, value),
            opcode,
            page_cross,
        ),
    }
}

impl CPU {
    fn read_control_operand(&mut self, opcode: u8) -> (operand: Result<(u8, bool), CoreError>)
        ensures
            (Step { state: final(self)@, result: operand }) == control_operand(old(self)@, opcode),
    {
        proof {
            reveal(control_operand);
        }
        if opcode % 32 == 0x10 || opcode == 0x24 || opcode == 0x2C || opcode == 0xA0 || opcode
            == 0xA4 || opcode == 0xB4 || opcode == 0xAC || opcode == 0xBC || opcode == 0xC0
            || opcode == 0xC4 || opcode == 0xCC || opcode == 0xE0 || opcode == 0xE4 || opcode
            == 0xEC {
            self.read_operand(AddressMode::from_code(opcode))
        } else {
            Ok((0, false))
        }
    }

    fn run_stack_op(&mut self, opcode: u8) -> (cycles: Result<usize, CoreError>)
        requires
            is_stack_op(opcode),
        ensures
            (Step { state: final(self)@, result: cycles }) == stack_op(old(self)@, opcode),
            cycles matches Ok(count) ==> count <= 7 && (count >= 1 || opcode == 0x4C || opcode == 0x6C),
    {
        proof {
            reveal(stack_op);
        }
        if opcode == 0x00 {
            self.brk()
        } else if opcode == 0x08 {
            self.php()
        } else if opcode == 0x28 {
            self.plp()
        } else if opcode == 0x48 {
            self.pha()
        } else if opcode == 0x68 {
            self.pla()
        } else if opcode == 0x20 {
            self.jsr()
        } else if opcode == 0x40 {
            self.rti()
        } else {
            self.rts()
        }
    }

    fn run_flag_op(&mut self, opcode: u8)
        requires
            is_flag_op(opcode),
        ensures
            final(self)@ == (CpuState { p: flag_op(old(self)@.p, opcode), ..old(self)@ }),
    {
        if opcode == 0x18 {
            self.p.set_c(false);
        } else if opcode == 0x38 {
            self.p.set_c(true);
        } else if opcode == 0x58 {
            self.p.set_i(false);
        } else if opcode == 0x78 {
            self.p.set_i(true);
        } else if opcode == 0xB8 {
            self.p.set_v(false);
        } else if opcode == 0xD8 {
            self.p.set_d(false);
        } else {
            self.p.set_d(true);
        }
    }

    fn run_register_op(&mut self, opcode: u8, operand: u8) -> (cycles: usize)
        requires
            is_register_op(opcode),
        ensures
            final(self)@ == register_op(old(self)@, opcode, operand),
            cycles == register_op_cycles(opcode),
    {
        proof {
            reveal(register_op);
        }
        if opcode == 0x88 {
            self.dey()
        } else if opcode == 0x98 {
            self.tya()
        } else if opcode == 0xA8 {
            self.tay()
        } else if opcode == 0xC8 {
            self.iny()
        } else if opcode == 0xE8 {
            self.inx()
        } else if opcode == 0x24 || opcode == 0x2C {
            self.bit(operand)
        } else if opcode / 32 == 5 {
            self.ldy(operand)
        } else if opcode / 32 == 6 {
            self.cpy(operand)
        } else {
            self.cpx(operand)
        }
    }

    fn run_memory_op(&mut self, opcode: u8) -> (cycles: Result<usize, CoreError>)
        ensures
            (Step { state: final(self)@, result: cycles }) == memory_op(old(self)@, opcode),
            cycles matches Ok(count) ==> count <= 7 && (count >= 1 || opcode == 0x4C || opcode == 0x6C),
    {
        proof {
            reveal(memory_op);
        }
        let address_mode = AddressMode::from_code(opcode);
        if opcode == 0x4C || opcode == 0x6C {
            self.jmp(address_mode)
        } else if opcode == 0x84 || opcode == 0x94 || opcode == 0x8C {
            self.sty(address_mode)
        } else if opcode == 0x9C {
            self.shy(address_mode)
        } else if opcode == 0x80 || ((opcode % 32 == 0x04 || opcode % 32 == 0x0C) && (opcode
            < 0x80 && opcode != 0x24 && opcode != 0x2C && opcode != 0x4C && opcode != 0x6C)) || ((
        opcode % 32 == 0x14 || opcode % 32 == 0x1C) && opcode != 0x94 && opcode != 0x9C && opcode
            != 0xB4 && opcode != 0xBC) {
            self.nop(address_mode)
        } else {
            Err(CoreError::OpcodeNotImplemented(opcode))
        }
    }

    fn run_control_body(&mut self, opcode: u8, operand: u8) -> (cycles: Result<usize, CoreError>)
        ensures
            (Step { state: final(self)@, result: cycles }) == control_body(
                old(self)@,
                opcode,
                operand,
            ),
            cycles matches Ok(count) ==> count <= 7 && (count >= 1 || opcode == 0x4C || opcode == 0x6C),
    {
        proof {
            reveal(control_body);
        }
        if opcode % 32 == 0x10 {
            let taken = self.branch_taken(opcode);
            Ok(self.branch(operand, taken))
        } else if opcode == 0x00 || opcode == 0x08 || opcode == 0x28 || opcode == 0x48 || opcode
            == 0x68 || opcode == 0x20 || opcode == 0x40 || opcode == 0x60 {
            self.run_stack_op(opcode)
        } else if opcode == 0x18 || opcode == 0x38 || opcode == 0x58 || opcode == 0x78 || opcode
            == 0xB8 || opcode == 0xD8 || opcode == 0xF8 {
            self.run_flag_op(opcode);
            Ok(2)
        } else if opcode == 0x88 || opcode == 0x98 || opcode == 0xA8 || opcode == 0xC8 || opcode
            == 0xE8 || opcode == 0x24 || opcode == 0x2C || opcode == 0xA0 || opcode == 0xA4
            || opcode == 0xB4 || opcode == 0xAC || opcode == 0xBC || opcode == 0xC0 || opcode
            == 0xC4 || opcode == 0xCC || opcode == 0xE0 || opcode == 0xE4 || opcode == 0xEC {
            Ok(self.run_register_op(opcode, operand))
        } else {
            self.run_memory_op(opcode)
        }
    }

    /// Runs the instruction of the control family that `opcode` encodes and
    /// returns the cycles it took. An opcode outside the family fails with
    /// `OpcodeNotImplemented`.
    pub fn run_control_op(&mut self, opcode: u8) -> (cycles: Result<usize, CoreError>)
        ensures
            (Step { state: final(self)@, result: cycles }) == running_control(old(self)@, opcode),
            cycles matches Ok(count) ==> 1 <= count <= 12,
    {
        let address_mode = AddressMode::from_code(opcode);
        let (operand, page_cross) = self.read_control_operand(opcode)?;
        let advances = if opcode % 32 == 0x10 {
            !self.branch_taken(opcode)
        } else {
            !(opcode == 0x00 || opcode == 0x20 || opcode == 0x4C || opcode == 0x6C || opcode
                == 0x40)
        };
        let cycles = self.run_control_body(opcode, operand)?;
        if advances {
            self.advance(address_mode);
        }
        if opcode % 32 == 0x10 {
            Ok(cycles)
        } else {
            Ok(cycles + address_mode.cycle_cost(page_cross || opcode == 0x9C))
        }
    }
}

} // verus!
