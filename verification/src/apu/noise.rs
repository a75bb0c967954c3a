use crate::apu::envelope::Envelope;
use crate::apu::length_counter::LengthCounter;
use crate::apu::timer::Timer;
use vstd::prelude::*;

verus! {

pub const NOISE_PERIOD: [u16; 16] = [
    4, 8, 16, 32, 64, 96, 128, 160, 202, 254, 380, 508, 762, 1016, 2034, 4068,
];

/// The noise channel: a 15-bit feedback shift register behind a timer.
#[derive(Copy, Clone, Debug, PartialEq, Eq, Structural)]
pub struct Noise {
    pub envelope: Envelope,
    pub length_counter: LengthCounter,
    pub enabled: bool,
    pub timer: Timer,
    pub shift: u16,
}

/// The feedback register one step on: it moves one bit down and takes the
/// exclusive or of its two lowest bits in at bit 14.
pub open spec fn shifted(value: u16) -> u16 {
    (value >> 1) | (((value & 1) ^ ((value >> 1) & 1)) << 14)
}

/// Steps the feedback register.
pub fn shift(value: u16) -> (next: u16)
    ensures
        next == shifted(value),
{
    (value >> 1) | (((value & 1) ^ ((value >> 1) & 1)) << 14)
}

impl Noise {
    /// The channel with which it starts: idle, with the feedback register
    /// at 1.
    pub open spec fn initial() -> Noise {
        Noise {
            envelope: Envelope {
                start: false,
                divider: 0,
                decay: 0,
                should_loop: false,
                constant_volume: false,
                envelope: 0,
            },
            length_counter: LengthCounter { enabled: false, counter: 0, halt: false },
            enabled: false,
            timer: Timer { current: 0, reload: 0, reload_now: false },
            shift: 1,
        }
    }

    pub fn new() -> (noise: Self)
        ensures
            noise == Self::initial(),
    {
        Noise {
            envelope: Envelope::new(),
            length_counter: LengthCounter::new(),
            enabled: false,
            timer: Timer::new(),
            shift: 1,
        }
    }

    /// Whether the channel sounds: it is enabled, its length counter runs,
    /// its period is at least 8 and the low bit of the register is clear.
    pub open spec fn audible(self) -> bool {
        self.enabled && !self.length_counter.spec_mute() && self.timer.reload >= 8 && self.shift
            % 2 == 0
    }

    /// The level of the channel, from 0 to 15: its volume while it sounds.
    pub open spec fn level(self) -> u8 {
        if self.audible() {
            self.envelope.spec_volume()
        } else {
            0
        }
    }

    pub fn tick(&mut self)
        ensures
            *final(self) == (Noise {
                timer: old(self).timer.ticked(),
                shift: if old(self).timer.expires() {
                    shifted(old(self).shift)
                } else {
                    old(self).shift
                },
                ..*old(self)
            }),
    {
        if self.timer.tick() {
            self.shift = shift(self.shift);
        }
    }

    /// The level of the channel, a sixteenth of full scale per unit.
    pub fn amplitude(&self) -> (level: u8)
        ensures
            level == self.level(),
    {
        if self.enabled && !self.length_counter.mute() && self.timer.get_period() >= 8
            && self.shift % 2 == 0 {
            self.envelope.volume()
        } else {
            0
        }
    }

    pub fn set_enabled(&mut self, enabled: bool)
        ensures
            *final(self) == (Noise {
                enabled,
                length_counter: LengthCounter {
                    enabled,
                    counter: if enabled {
                        old(self).length_counter.counter
                    } else {
                        0
                    },
                    ..old(self).length_counter
                },
                ..*old(self)
            }),
    {
        self.enabled = enabled;
        self.length_counter.set_enabled(enabled);
    }

    /// Selects entry `lut_index` of the period table.
    pub fn set_period(&mut self, lut_index: u8)
        requires
            lut_index < 16,
        ensures
            *final(self) == (Noise {
                timer: Timer { reload: NOISE_PERIOD@[lut_index as int], ..old(self).timer },
                ..*old(self)
            }),
    {
        self.timer.set_period(NOISE_PERIOD[lut_index as usize]);
    }
}

/// The feedback register keeps to 15 bits, and one that is not 0 never
/// becomes 0: the channel cannot lock up.
pub proof fn lemma_shift_stays_alive(value: u16)
    requires
        0 < value < 0x8000,
    ensures
        0 < shifted(value) < 0x8000,
{
    assert(0 < value < 0x8000 ==> 0 < (value >> 1) | (((value & 1) ^ ((value >> 1) & 1)) << 14)
        < 0x8000) by (bit_vector);
}

} // verus!
