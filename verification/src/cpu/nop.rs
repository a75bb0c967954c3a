use crate::cpu::address_mode::AddressMode;
use crate::cpu::processor::{reading_operand, CpuState, Step, CPU};
use crate::error::CoreError;
use vstd::prelude::*;

verus! {

/// An instruction without effect. Without an operand it takes two cycles;
/// with one it reads the operand and takes one cycle beyond the cost of
/// the addressing mode, and one more when the read crosses a page.
pub open spec fn idling(s: CpuState, mode: AddressMode) -> Step<usize> {
    if mode is Implied {
        Step { state: s, result: Ok(2usize) }
    } else {
        let read = reading_operand(s, mode);
        Step {
            state: read.state,
            result: match read.result {
                Ok((_, page_cross)) => Ok(
                    if page_cross {
                        2usize
                    } else {
                        1usize
                    },
                ),
                Err(e) => Err(e),
            },
        }
    }
}

impl CPU {
    pub fn nop(&mut self, address_mode: AddressMode) -> (cycles: Result<usize, CoreError>)
        ensures
            (Step { state: final(self)@, result: cycles }) == idling(old(self)@, address_mode),
    {
        if let AddressMode::Implied = address_mode {
            Ok(2)
        } else {
            let (_, page_cross) = self.read_operand(address_mode)?;
            if page_cross {
                Ok(2)
            } else {
                Ok(1)
            }
        }
    }
}

} // verus!
