use vstd::prelude::*;

verus! {

pub const LENGTH_TABLE: [u8; 32] = [
    10, 254, 20, 2, 40, 4, 80, 6, 160, 8, 60, 10, 14, 12, 26, 14, 12, 16, 24, 18, 48, 20, 96, 22,
    192, 24, 72, 26, 16, 28, 32, 30,
];

/// The counter that silences a channel when it reaches 0.
#[derive(Copy, Clone, Debug, PartialEq, Eq, Structural)]
pub struct LengthCounter {
    pub enabled: bool,
    pub counter: u8,
    pub halt: bool,
}

impl LengthCounter {
    /// A disabled counter at 0.
    pub fn new() -> (counter: Self)
        ensures
            counter == (LengthCounter { enabled: false, counter: 0, halt: false }),
    {
        LengthCounter { enabled: false, counter: 0, halt: false }
    }

    /// The counter one half-frame clock on: it counts down unless halted or
    /// at 0.
    pub open spec fn stepped(self) -> LengthCounter {
        if !self.halt && self.counter > 0 {
            LengthCounter { counter: (self.counter - 1) as u8, ..self }
        } else {
            self
        }
    }

    pub open spec fn spec_mute(&self) -> bool {
        self.counter == 0
    }

    pub fn step(&mut self)
        ensures
            *final(self) == old(self).stepped(),
    {
        if !self.halt && self.counter > 0 {
            self.counter = self.counter - 1;
        }
    }

    #[verifier::when_used_as_spec(spec_mute)]
    pub fn mute(&self) -> (muted: bool)
        ensures
            muted == self.spec_mute(),
    {
        self.counter == 0
    }

    /// Loads the counter with entry `new_counter` of the length table, if
    /// the counter is enabled.
    pub fn set_counter(&mut self, new_counter: u8)
        requires
            new_counter < 32,
        ensures
            *final(self) == (if old(self).enabled {
                LengthCounter { counter: LENGTH_TABLE@[new_counter as int], ..*old(self) }
            } else {
                *old(self)
            }),
    {
        if self.enabled {
            self.counter = LENGTH_TABLE[new_counter as usize];
        }
    }

    /// Enables or disables the counter; disabling clears it.
    pub fn set_enabled(&mut self, enabled: bool)
        ensures
            *final(self) == (LengthCounter {
                enabled,
                counter: if enabled {
                    old(self).counter
                } else {
                    0
                },
                ..*old(self)
            }),
    {
        self.enabled = enabled;
        if !enabled {
            self.counter = 0;
        }
    }
}

} // verus!
