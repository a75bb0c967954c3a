use vstd::prelude::*;

verus! {

/// How an instruction finds its operand.
#[derive(Copy, Clone, Debug, PartialEq, Eq, Structural)]
pub enum AddressMode {
    Implied,
    Accumulator,
    Immediate,
    ZeroPage,
    ZeroPageX,
    ZeroPageY,
    Absolute,
    AbsoluteX,
    AbsoluteY,
    Indirect,
    IndirectX,
    IndirectY,
}

impl AddressMode {
    /// The addressing mode that the opcode matrix gives `opcode`. The mode
    /// goes by the column of the opcode (its low five bits); a few columns
    /// change with the row. A relative branch takes its offset as an
    /// immediate operand.
    pub open spec fn decode(opcode: u8) -> AddressMode {
        let column = opcode % 32;
        if column == 0x00 {
            if opcode == 0x20 {
                AddressMode::Absolute
            } else if opcode >= 0x80 {
                AddressMode::Immediate
            } else {
                AddressMode::Implied
            }
        } else if column == 0x01 || column == 0x03 {
            AddressMode::IndirectX
        } else if column == 0x02 {
            if opcode >= 0x80 {
                AddressMode::Immediate
            } else {
                AddressMode::Implied
            }
        } else if 0x04 <= column <= 0x07 {
            AddressMode::ZeroPage
        } else if column == 0x08 || column == 0x12 || column == 0x18 || column == 0x1A {
            AddressMode::Implied
        } else if column == 0x09 || column == 0x0B || column == 0x10 {
            AddressMode::Immediate
        } else if column == 0x0A {
            if opcode >= 0x80 {
                AddressMode::Implied
            } else {
                AddressMode::Accumulator
            }
        } else if 0x0C <= column <= 0x0F {
            if opcode == 0x6C {
                AddressMode::Indirect
            } else {
                AddressMode::Absolute
            }
        } else if column == 0x11 || column == 0x13 {
            AddressMode::IndirectY
        } else if 0x14 <= column <= 0x17 {
            if opcode == 0x96 || opcode == 0x97 || opcode == 0xB6 || opcode == 0xB7 {
                AddressMode::ZeroPageY
            } else {
                AddressMode::ZeroPageX
            }
        } else if column == 0x19 || column == 0x1B {
            AddressMode::AbsoluteY
        } else {
            if opcode == 0x9E || opcode == 0x9F || opcode == 0xBE || opcode == 0xBF {
                AddressMode::AbsoluteY
            } else {
                AddressMode::AbsoluteX
            }
        }
    }

    /// Whether the mode adds a register to a 16-bit base address, so that
    /// the sum can cross into the next page.
    pub open spec fn indexed(self) -> bool {
        self is AbsoluteX || self is AbsoluteY || self is IndirectY
    }

    /// The cycles that finding the operand takes in the mode, beyond the
    /// cycle of the opcode fetch; a page crossing costs one more in the
    /// indexed modes.
    pub open spec fn base_cycles(self) -> nat {
        match self {
            AddressMode::Implied => 0,
            AddressMode::Accumulator | AddressMode::Immediate => 1,
            AddressMode::ZeroPage => 2,
            AddressMode::ZeroPageX | AddressMode::ZeroPageY | AddressMode::Absolute => 3,
            AddressMode::AbsoluteX | AddressMode::AbsoluteY => 3,
            AddressMode::IndirectY => 4,
            AddressMode::IndirectX | AddressMode::Indirect => 5,
        }
    }

    pub open spec fn spec_cycle_cost(&self, page_cross: bool) -> usize {
        (self.base_cycles() + if self.indexed() && page_cross {
            1nat
        } else {
            0nat
        }) as usize
    }

    /// The number of operand bytes that follow the opcode.
    pub open spec fn spec_byte_code_size(&self) -> u16 {
        match self {
            AddressMode::Implied | AddressMode::Accumulator => 0,
            AddressMode::Immediate
            | AddressMode::ZeroPage
            | AddressMode::ZeroPageX
            | AddressMode::ZeroPageY
            | AddressMode::IndirectX
            | AddressMode::IndirectY => 1,
            AddressMode::Absolute
            | AddressMode::AbsoluteX
            | AddressMode::AbsoluteY
            | AddressMode::Indirect => 2,
        }
    }

    #[verifier::when_used_as_spec(decode)]
    pub fn from_code(opcode: u8) -> (mode: AddressMode)
        ensures
            mode == Self::decode(opcode),
    {
        let column = opcode % 32;
        if column == 0x00 {
            if opcode == 0x20 {
                AddressMode::Absolute
            } else if opcode >= 0x80 {
                AddressMode::Immediate
            } else {
                AddressMode::Implied
            }
        } else if column == 0x01 || column == 0x03 {
            AddressMode::IndirectX
        } else if column == 0x02 {
            if opcode >= 0x80 {
                AddressMode::Immediate
            } else {
                AddressMode::Implied
            }
        } else if 0x04 <= column && column <= 0x07 {
            AddressMode::ZeroPage
        } else if column == 0x08 || column == 0x12 || column == 0x18 || column == 0x1A {
            AddressMode::Implied
        } else if column == 0x09 || column == 0x0B || column == 0x10 {
            AddressMode::Immediate
        } else if column == 0x0A {
            if opcode >= 0x80 {
                AddressMode::Implied
            } else {
                AddressMode::Accumulator
            }
        } else if 0x0C <= column && column <= 0x0F {
            if opcode == 0x6C {
                AddressMode::Indirect
            } else {
                AddressMode::Absolute
            }
        } else if column == 0x11 || column == 0x13 {
            AddressMode::IndirectY
        } else if 0x14 <= column && column <= 0x17 {
            if opcode == 0x96 || opcode == 0x97 || opcode == 0xB6 || opcode == 0xB7 {
                AddressMode::ZeroPageY
            } else {
                AddressMode::ZeroPageX
            }
        } else if column == 0x19 || column == 0x1B {
            AddressMode::AbsoluteY
        } else {
            if opcode == 0x9E || opcode == 0x9F || opcode == 0xBE || opcode == 0xBF {
                AddressMode::AbsoluteY
            } else {
                AddressMode::AbsoluteX
            }
        }
    }

    #[verifier::when_used_as_spec(spec_cycle_cost)]
    pub fn cycle_cost(&self, page_cross: bool) -> (cycles: usize)
        ensures
            cycles == self.spec_cycle_cost(page_cross),
            cycles <= 5,
    {
        match self {
            AddressMode::Implied => 0,
            AddressMode::Accumulator | AddressMode::Immediate => 1,
            AddressMode::ZeroPage => 2,
            AddressMode::ZeroPageX | AddressMode::ZeroPageY | AddressMode::Absolute => 3,
            AddressMode::AbsoluteX | AddressMode::AbsoluteY => {
                if page_cross {
                    4
                } else {
                    3
                }
            },
            AddressMode::IndirectX => 5,
            AddressMode::IndirectY => {
                if page_cross {
                    5
                } else {
                    4
                }
            },
            AddressMode::Indirect => 5,
        }
    }

    #[verifier::when_used_as_spec(spec_byte_code_size)]
    pub fn byte_code_size(&self) -> (size: u16)
        ensures
            size == self.spec_byte_code_size(),
            size <= 2,
    {
        match self {
            AddressMode::Implied | AddressMode::Accumulator => 0,
            AddressMode::Immediate
            | AddressMode::ZeroPage
            | AddressMode::ZeroPageX
            | AddressMode::ZeroPageY
            | AddressMode::IndirectX
            | AddressMode::IndirectY => 1,
            AddressMode::Absolute
            | AddressMode::AbsoluteX
            | AddressMode::AbsoluteY
            | AddressMode::Indirect => 2,
        }
    }

    /// The mode as assembler listings write the operand.
    pub fn notation(&self) -> (text: &'static str)
        ensures
            text@ == (match self {
                AddressMode::Implied | AddressMode::Accumulator => ""@,
                AddressMode::Immediate => "#i"@,
                AddressMode::ZeroPage => "d"@,
                AddressMode::ZeroPageX => "d,x"@,
                AddressMode::ZeroPageY => "d,y"@,
                AddressMode::Absolute => "a"@,
                AddressMode::AbsoluteX => "a,x"@,
                AddressMode::AbsoluteY => "a,y"@,
                AddressMode::Indirect => "(a)"@,
                AddressMode::IndirectX => "(d,x)"@,
                AddressMode::IndirectY => "(d),y"@,
            }),
    {
        match self {
            AddressMode::Implied | AddressMode::Accumulator => "",
            AddressMode::Immediate => "#i",
            AddressMode::ZeroPage => "d",
            AddressMode::ZeroPageX => "d,x",
            AddressMode::ZeroPageY => "d,y",
            AddressMode::Absolute => "a",
            AddressMode::AbsoluteX => "a,x",
            AddressMode::AbsoluteY => "a,y",
            AddressMode::Indirect => "(a)",
            AddressMode::IndirectX => "(d,x)",
            AddressMode::IndirectY => "(d),y",
        }
    }
}

/// The cycles that the timing tables of the processor family give an
/// instruction that reads its operand in `mode`. The indexed modes take one
/// cycle more when the index carries into the next page. No instruction
/// reads an operand in the implied or the indirect mode.
pub open spec fn published_read_cycles(mode: AddressMode, page_cross: bool) -> Option<nat> {
    match mode {
        AddressMode::Implied | AddressMode::Indirect => None,
        AddressMode::Accumulator | AddressMode::Immediate => Some(2),
        AddressMode::ZeroPage => Some(3),
        AddressMode::ZeroPageX | AddressMode::ZeroPageY | AddressMode::Absolute => Some(4),
        AddressMode::AbsoluteX | AddressMode::AbsoluteY => Some(
            if page_cross {
                5
            } else {
                4
            },
        ),
        AddressMode::IndirectX => Some(6),
        AddressMode::IndirectY => Some(
            if page_cross {
                6
            } else {
                5
            },
        ),
    }
}

/// The cycles that the timing tables give a jump in `mode`, which spends no
/// cycle on an operand.
pub open spec fn published_jump_cycles(mode: AddressMode) -> Option<nat> {
    match mode {
        AddressMode::Absolute => Some(3),
        AddressMode::Indirect => Some(5),
        _ => None,
    }
}

/// In every mode in which the family reads an operand, the cycle of the
/// opcode fetch and the cost of the mode add up to the published timing of
/// the read; in the two modes of a jump the cost alone is the published
/// timing of the jump. A page crossing costs exactly one cycle in the
/// indexed modes and nothing in the others.
pub proof fn lemma_cycle_cost_matches_timing(mode: AddressMode, page_cross: bool)
    ensures
        published_read_cycles(mode, page_cross) matches Some(cycles) ==> 1 + mode.spec_cycle_cost(
            page_cross,
        ) == cycles,
        published_jump_cycles(mode) matches Some(cycles) ==> mode.spec_cycle_cost(page_cross)
            == cycles,
        mode.spec_cycle_cost(true) == mode.spec_cycle_cost(false) + (if mode.indexed() {
            1int
        } else {
            0int
        }),
{
}

} // verus!
