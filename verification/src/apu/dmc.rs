use vstd::prelude::*;

verus! {

/// The part of the sample channel that walks through the sample.
#[derive(Copy, Clone, Debug, PartialEq, Eq, Structural)]
pub struct DmcMemoryReader {
    pub sample_address: u16,
    pub sample_length: u16,
    pub sample_buffer: u8,
    pub current_address: u16,
    pub bytes_remaining: u16,
}

/// The part of the sample channel that shifts a sample byte out.
#[derive(Copy, Clone, Debug, PartialEq, Eq, Structural)]
pub struct DmcOutputUnit {
    pub shift_register: u8,
    pub bits_remaining: u8,
    pub silence_flag: bool,
    pub output_level: u8,
}

/// The sample channel.
#[derive(Copy, Clone, Debug, PartialEq, Eq, Structural)]
pub struct Dmc {
    pub enabled: bool,
    pub interrupt_flag: bool,
    pub loop_flag: bool,
    pub rate: usize,
    pub memory_reader: DmcMemoryReader,
    pub output_unit: DmcOutputUnit,
}

impl Dmc {
    /// An idle channel.
    pub fn new() -> (dmc: Self)
        ensures
            dmc == (Dmc {
                enabled: false,
                interrupt_flag: false,
                loop_flag: false,
                rate: 0,
                memory_reader: DmcMemoryReader {
                    sample_address: 0,
                    sample_length: 0,
                    sample_buffer: 0,
                    current_address: 0,
                    bytes_remaining: 0,
                },
                output_unit: DmcOutputUnit {
                    shift_register: 0,
                    bits_remaining: 0,
                    silence_flag: false,
                    output_level: 0,
                },
            }),
    {
        Dmc {
            enabled: false,
            interrupt_flag: false,
            loop_flag: false,
            rate: 0,
            memory_reader: DmcMemoryReader {
                sample_address: 0,
                sample_length: 0,
                sample_buffer: 0,
                current_address: 0,
                bytes_remaining: 0,
            },
            output_unit: DmcOutputUnit {
                shift_register: 0,
                bits_remaining: 0,
                silence_flag: false,
                output_level: 0,
            },
        }
    }

    /// The channel after the sample reader ran dry: a looping sample starts
    /// over, any other raises the interrupt flag.
    pub open spec fn with_reader_reset(self) -> Dmc {
        if self.loop_flag {
            Dmc {
                memory_reader: DmcMemoryReader {
                    current_address: self.memory_reader.sample_address,
                    bytes_remaining: self.memory_reader.sample_length,
                    ..self.memory_reader
                },
                ..self
            }
        } else {
            Dmc { interrupt_flag: true, ..self }
        }
    }

    /// The channel after the output unit took the buffered sample byte.
    pub open spec fn with_output_refilled(self) -> Dmc {
        Dmc {
            output_unit: DmcOutputUnit {
                shift_register: self.memory_reader.sample_buffer,
                ..self.output_unit
            },
            memory_reader: DmcMemoryReader {
                sample_buffer: 0,
                bytes_remaining: (self.memory_reader.bytes_remaining - 1) as u16,
                ..self.memory_reader
            },
            ..self
        }
    }

    /// The channel after the output unit started a new cycle of eight bits:
    /// with sample bytes left it takes the next one, without it falls
    /// silent and the reader is reset.
    pub open spec fn with_output_reset(self) -> Dmc {
        let begun = Dmc {
            output_unit: DmcOutputUnit {
                bits_remaining: 8,
                silence_flag: self.memory_reader.bytes_remaining == 0,
                ..self.output_unit
            },
            ..self
        };
        if self.memory_reader.bytes_remaining > 0 {
            begun.with_output_refilled()
        } else {
            begun.with_reader_reset()
        }
    }

    /// The channel one tick on: an output unit without bits starts a new
    /// cycle.
    pub open spec fn ticked(self) -> Dmc {
        if self.output_unit.bits_remaining == 0 {
            self.with_output_reset()
        } else {
            self
        }
    }

    pub fn tick(&mut self)
        ensures
            *final(self) == old(self).ticked(),
    {
        if self.output_unit.bits_remaining == 0 {
            self.reset_output_unit();
        }
    }

    pub fn reset_output_unit(&mut self)
        ensures
            *final(self) == old(self).with_output_reset(),
    {
        self.output_unit.bits_remaining = 8;
        if self.memory_reader.bytes_remaining > 0 {
            self.output_unit.silence_flag = false;
            self.refill_output_unit();
        } else {
            self.output_unit.silence_flag = true;
            self.reset_memory_reader();
        }
    }

    /// Hands the buffered sample byte to the output unit. There must be a
    /// sample byte left.
    pub fn refill_output_unit(&mut self)
        requires
            old(self).memory_reader.bytes_remaining > 0,
        ensures
            *final(self) == old(self).with_output_refilled(),
    {
        self.output_unit.shift_register = self.memory_reader.sample_buffer;
        self.memory_reader.sample_buffer = 0;
        self.memory_reader.bytes_remaining = self.memory_reader.bytes_remaining - 1;
    }

    pub fn reset_memory_reader(&mut self)
        ensures
            *final(self) == old(self).with_reader_reset(),
    {
        if self.loop_flag {
            self.memory_reader.current_address = self.memory_reader.sample_address;
            self.memory_reader.bytes_remaining = self.memory_reader.sample_length;
        } else {
            self.interrupt_flag = true;
        }
    }
}

} // verus!
