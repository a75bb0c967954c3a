use crate::apu::length_counter::LengthCounter;
use crate::apu::linear_counter::LinearCounter;
use crate::apu::timer::Timer;
use vstd::prelude::*;

verus! {

pub const DUTY_TABLE: [u8; 32] = [
    15, 14, 13, 12, 11, 10, 9, 8, 7, 6, 5, 4, 3, 2, 1, 0, 0, 1, 2, 3, 4, 5, 6, 7, 8, 9, 10, 11, 12,
    13, 14, 15,
];

/// The triangle channel: a 32-step ramp behind a timer.
#[derive(Copy, Clone, Debug, PartialEq, Eq, Structural)]
pub struct Triangle {
    pub duty_timer: usize,
    pub enabled: bool,
    pub timer: Timer,
    pub length_counter: LengthCounter,
    pub linear_counter: LinearCounter,
}

impl Triangle {
    /// An idle channel.
    pub fn new() -> (triangle: Self)
        ensures
            triangle == (Triangle {
                duty_timer: 0,
                enabled: false,
                timer: Timer { current: 0, reload: 0, reload_now: false },
                length_counter: LengthCounter { enabled: false, counter: 0, halt: false },
                linear_counter: LinearCounter {
                    reload: false,
                    control: false,
                    reload_value: 0,
                    value: 0,
                },
            }),
    {
        Triangle {
            duty_timer: 0,
            enabled: false,
            timer: Timer::new(),
            length_counter: LengthCounter::new(),
            linear_counter: LinearCounter::new(),
        }
    }

    /// Whether the ramp moves when the timer expires: the channel is enabled
    /// and neither counter silences it.
    pub open spec fn running(self) -> bool {
        self.enabled && !self.length_counter.spec_mute() && !self.linear_counter.spec_mute()
    }

    /// The level of the channel, from 0 to 15: the step of the ramp, or 7
    /// where the period is too short to be heard.
    pub open spec fn level(self) -> u8 {
        if self.timer.reload < 2 {
            7
        } else {
            DUTY_TABLE@[self.duty_timer as int % 32]
        }
    }

    pub fn set_enabled(&mut self, enabled: bool)
        ensures
            *final(self) == (Triangle {
                enabled,
                length_counter: LengthCounter {
                    enabled,
                    counter: if enabled {
                        old(self).length_counter.counter
                    } else {
                        0
                    },
                    ..old(self).length_counter
                },
                ..*old(self)
            }),
    {
        self.enabled = enabled;
        self.length_counter.set_enabled(enabled);
    }

    pub fn tick(&mut self)
        ensures
            *final(self) == (Triangle {
                timer: old(self).timer.ticked(),
                duty_timer: if old(self).timer.expires() && old(self).running() {
                    ((old(self).duty_timer + 1) % 32) as usize
                } else {
                    old(self).duty_timer
                },
                ..*old(self)
            }),
    {
        if self.timer.tick() && self.enabled && !self.length_counter.mute()
            && !self.linear_counter.mute() {
            self.duty_timer = (self.duty_timer % 32 + 1) % 32;
        }
    }

    /// The level of the channel, a sixteenth of full scale per unit.
    pub fn amplitude(&self) -> (level: u8)
        ensures
            level == self.level(),
    {
        if self.timer.get_period() < 2 {
            return 7;
        }
        DUTY_TABLE[self.duty_timer % 32]
    }
}

} // verus!
