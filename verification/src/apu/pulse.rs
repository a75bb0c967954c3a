use crate::apu::envelope::Envelope;
use crate::apu::length_counter::LengthCounter;
use crate::apu::sweep::{Sweep, SweepType};
use crate::apu::timer::Timer;
use vstd::prelude::*;

verus! {

pub const DUTY_CYCLES: [[u8; 8]; 4] = [
    [0, 0, 0, 0, 0, 0, 0, 1],
    [0, 0, 0, 0, 0, 0, 1, 1],
    [0, 0, 0, 0, 1, 1, 1, 1],
    [1, 1, 1, 1, 1, 1, 0, 0],
];

/// A pulse channel: one of four duty patterns behind a timer, with a sweep
/// unit, an envelope and a length counter.
#[derive(Copy, Clone, Debug, PartialEq, Eq, Structural)]
pub struct Pulse {
    /// 0 for the first pulse channel, 1 for the second.
    pub channel: u8,
    pub enabled: bool,
    pub timer: Timer,
    pub duty_cycle: u8,
    pub duty_timer: usize,
    pub sweep: Sweep,
    pub envelope: Envelope,
    pub length_counter: LengthCounter,
}

impl Pulse {
    /// The idle pulse channel with number `channel`.
    pub open spec fn initial(channel: u8) -> Pulse {
        Pulse {
            channel,
            enabled: false,
            timer: Timer { current: 0, reload: 0, reload_now: false },
            duty_cycle: 0,
            duty_timer: 0,
            sweep: Sweep {
                shift: 0,
                negate: false,
                enable: false,
                divider: Timer { current: 0, reload: 0, reload_now: false },
                muted: false,
            },
            envelope: Envelope {
                start: false,
                divider: 0,
                decay: 0,
                should_loop: false,
                constant_volume: false,
                envelope: 0,
            },
            length_counter: LengthCounter { enabled: false, counter: 0, halt: false },
        }
    }

    pub fn new(channel: u8) -> (pulse: Self)
        ensures
            pulse == Self::initial(channel),
    {
        Pulse {
            channel,
            enabled: false,
            timer: Timer::new(),
            duty_cycle: 0,
            duty_timer: 0,
            sweep: Sweep::new(),
            envelope: Envelope::new(),
            length_counter: LengthCounter::new(),
        }
    }

    /// How the sweep of the channel subtracts.
    pub open spec fn spec_sweep_type(&self) -> SweepType {
        if self.channel == 0 {
            SweepType::OneComplement
        } else {
            SweepType::TwoComplement
        }
    }

    /// Whether the channel sounds: it is enabled, its length counter runs,
    /// its period is at least 8 and the sweep does not silence it.
    pub open spec fn audible(self) -> bool {
        self.enabled && !self.length_counter.spec_mute() && self.timer.reload >= 8
            && !self.sweep.muted
    }

    /// The level of the channel, from 0 to 15: its volume during the high
    /// part of the duty pattern while it sounds.
    pub open spec fn level(self) -> u8 {
        if self.audible() && DUTY_CYCLES@[self.duty_cycle as int % 4]@[self.duty_timer as int % 8]
            == 1 {
            self.envelope.spec_volume()
        } else {
            0
        }
    }

    #[verifier::when_used_as_spec(spec_sweep_type)]
    pub fn sweep_type(&self) -> (kind: SweepType)
        ensures
            kind == self.spec_sweep_type(),
    {
        if self.channel == 0 {
            SweepType::OneComplement
        } else {
            SweepType::TwoComplement
        }
    }

    pub fn set_enabled(&mut self, enabled: bool)
        ensures
            *final(self) == (Pulse {
                enabled,
                length_counter: LengthCounter {
                    enabled,
                    counter: if enabled {
                        old(self).length_counter.counter
                    } else {
                        0
                    },
                    ..old(self).length_counter
                },
                ..*old(self)
            }),
    {
        self.enabled = enabled;
        self.length_counter.set_enabled(enabled);
    }

    pub fn tick(&mut self)
        ensures
            *final(self) == (Pulse {
                timer: old(self).timer.ticked(),
                duty_timer: if old(self).timer.expires() {
                    ((old(self).duty_timer + 1) % 8) as usize
                } else {
                    old(self).duty_timer
                },
                ..*old(self)
            }),
    {
        if self.timer.tick() {
            self.duty_timer = (self.duty_timer % 8 + 1) % 8;
        }
    }

    /// The level of the channel, a sixteenth of full scale per unit.
    pub fn amplitude(&self) -> (level: u8)
        ensures
            level == self.level(),
    {
        if self.enabled && !self.length_counter.mute() && self.timer.get_period() >= 8
            && !self.sweep.mute() {
            let pattern = DUTY_CYCLES[(self.duty_cycle % 4) as usize];
            if pattern[self.duty_timer % 8] == 1 {
                self.envelope.volume()
            } else {
                0
            }
        } else {
            0
        }
    }
}

} // verus!
