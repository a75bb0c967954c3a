use vstd::prelude::*;

verus! {

/// The linear counter of the triangle channel.
#[derive(Copy, Clone, Debug, PartialEq, Eq, Structural)]
pub struct LinearCounter {
    pub reload: bool,
    pub control: bool,
    pub reload_value: u8,
    pub value: u8,
}

impl LinearCounter {
    /// An idle counter at 0.
    pub fn new() -> (counter: Self)
        ensures
            counter == (LinearCounter {
                reload: false,
                control: false,
                reload_value: 0,
                value: 0,
            }),
    {
        LinearCounter { reload: false, control: false, reload_value: 0, value: 0 }
    }

    /// The counter one quarter-frame clock on: a pending reload loads it,
    /// else it counts down to 0; the reload stays pending while the control
    /// flag is set.
    pub open spec fn stepped(self) -> LinearCounter {
        LinearCounter {
            value: if self.reload {
                self.reload_value
            } else if self.value > 0 {
                (self.value - 1) as u8
            } else {
                self.value
            },
            reload: self.reload && self.control,
            ..self
        }
    }

    pub open spec fn spec_mute(&self) -> bool {
        self.value == 0
    }

    pub fn step(&mut self)
        ensures
            *final(self) == old(self).stepped(),
    {
        if self.reload {
            self.value = self.reload_value;
        } else if self.value > 0 {
            self.value = self.value - 1;
        }
        if !self.control {
            self.reload = false;
        }
    }

    #[verifier::when_used_as_spec(spec_mute)]
    pub fn mute(&self) -> (muted: bool)
        ensures
            muted == self.spec_mute(),
    {
        self.value == 0
    }

    pub fn reload(&mut self, reload_value: u8)
        ensures
            *final(self) == (LinearCounter { reload: true, reload_value, ..*old(self) }),
    {
        self.reload = true;
        self.reload_value = reload_value;
    }

    pub fn reload_current(&mut self)
        ensures
            *final(self) == (LinearCounter { reload: true, ..*old(self) }),
    {
        self.reload = true;
    }
}

} // verus!
