use crate::apu::timer::Timer;
use vstd::prelude::*;

verus! {

/// The sweep port byte: the shift count in bits 0 to 2, negate in bit 3,
/// the divider period in bits 4 to 6 and enable in bit 7.
#[derive(Copy, Clone, Debug, PartialEq, Eq, Structural)]
pub struct SweepSetup(pub u8);

impl SweepSetup {
    pub open spec fn spec_shift(&self) -> u8 {
        self.0 % 8
    }

    pub open spec fn spec_negate(&self) -> bool {
        (self.0 / 8) % 2 == 1
    }

    pub open spec fn spec_period(&self) -> u8 {
        (self.0 / 16) % 8
    }

    pub open spec fn spec_enable(&self) -> bool {
        self.0 >= 128
    }

    #[verifier::when_used_as_spec(spec_shift)]
    pub fn shift(&self) -> (value: u8)
        ensures
            value == self.spec_shift(),
    {
        self.0 % 8
    }

    #[verifier::when_used_as_spec(spec_negate)]
    pub fn negate(&self) -> (on: bool)
        ensures
            on == self.spec_negate(),
    {
        (self.0 / 8) % 2 == 1
    }

    #[verifier::when_used_as_spec(spec_period)]
    pub fn period(&self) -> (value: u8)
        ensures
            value == self.spec_period(),
    {
        (self.0 / 16) % 8
    }

    #[verifier::when_used_as_spec(spec_enable)]
    pub fn enable(&self) -> (on: bool)
        ensures
            on == self.spec_enable(),
    {
        self.0 >= 128
    }
}

/// How a negated sweep subtracts: the first pulse channel takes one more
/// than the second.
#[derive(Copy, Clone, Debug, PartialEq, Eq, Structural)]
pub enum SweepType {
    OneComplement,
    TwoComplement,
}

/// The unit that slides the period of a pulse channel.
#[derive(Copy, Clone, Debug, PartialEq, Eq, Structural)]
pub struct Sweep {
    pub shift: u16,
    pub negate: bool,
    pub enable: bool,
    pub divider: Timer,
    pub muted: bool,
}

impl Sweep {
    /// An idle sweep unit.
    pub fn new() -> (sweep: Self)
        ensures
            sweep == (Sweep {
                shift: 0,
                negate: false,
                enable: false,
                divider: Timer { current: 0, reload: 0, reload_now: false },
                muted: false,
            }),
    {
        Sweep { shift: 0, negate: false, enable: false, divider: Timer::new(), muted: false }
    }

    /// The amount by which the period changes: the period shifted right.
    pub open spec fn amount(self, channel_period: u16) -> u16 {
        if self.shift < 16 {
            channel_period >> self.shift
        } else {
            0
        }
    }

    /// The period that the sweep aims at: the period plus the amount, or,
    /// negated, less the amount (and less one more for the first channel),
    /// but not below 0.
    pub open spec fn target(self, channel_period: u16, sweep_type: SweepType) -> int {
        let amount = self.amount(channel_period);
        if self.negate {
            let less = if sweep_type is OneComplement {
                channel_period - amount + 1
            } else {
                channel_period - amount
            };
            if less < 0 {
                0
            } else {
                less
            }
        } else {
            channel_period + amount
        }
    }

    /// Whether the sweep silences the channel: the period is below 8 or the
    /// target above 0x7FF.
    pub open spec fn mutes(self, channel_period: u16, sweep_type: SweepType) -> bool {
        channel_period < 8 || self.target(channel_period, sweep_type) > 0x7FF
    }

    pub open spec fn spec_mute(&self) -> bool {
        self.muted
    }

    /// The sweep after a clock with the period of its channel: it notes
    /// whether it silences the channel, and its divider counts if the sweep
    /// is enabled.
    pub open spec fn stepped(self, channel_period: u16, sweep_type: SweepType) -> Sweep {
        Sweep {
            muted: self.mutes(channel_period, sweep_type),
            divider: if self.enable {
                self.divider.ticked()
            } else {
                self.divider
            },
            ..self
        }
    }

    /// The period that the channel takes at a clock of the sweep: the
    /// target, when the sweep is enabled, its divider expires and the
    /// channel is not silenced, else the period as it is.
    pub open spec fn swept(self, channel_period: u16, sweep_type: SweepType) -> u16 {
        if self.enable && self.divider.expires() && !self.mutes(channel_period, sweep_type) {
            self.target(channel_period, sweep_type) as u16
        } else {
            channel_period
        }
    }

    pub fn setup(&mut self, setup: SweepSetup)
        ensures
            *final(self) == (Sweep {
                enable: setup.spec_enable(),
                divider: Timer {
                    reload: setup.spec_period() as u16,
                    reload_now: true,
                    ..old(self).divider
                },
                negate: setup.spec_negate(),
                shift: setup.spec_shift() as u16,
                ..*old(self)
            }),
    {
        self.enable = setup.enable();
        self.divider.set_period(setup.period() as u16);
        self.divider.set_reload();
        self.negate = setup.negate();
        self.shift = setup.shift() as u16;
    }

    /// Clocks the sweep with the period of its channel, which is below
    /// 0x4000, and returns the period that the channel takes.
    pub fn step(&mut self, channel_period: u16, sweep_type: SweepType) -> (period: u16)
        requires
            channel_period < 0x4000,
        ensures
            *final(self) == old(self).stepped(channel_period, sweep_type),
            period == old(self).swept(channel_period, sweep_type),
    {
        let amount: u16 = if self.shift < 16 {
            channel_period >> self.shift
        } else {
            0
        };
        proof {
            let shift = self.shift;
            assert(shift < 16 ==> channel_period >> shift <= channel_period) by (bit_vector);
        }
        let new_channel_period: u16 = if self.negate {
            let extra: u16 = match sweep_type {
                SweepType::OneComplement => 1,
                SweepType::TwoComplement => 0,
            };
            channel_period - amount + extra
        } else {
            channel_period + amount
        };
        self.muted = channel_period < 8 || new_channel_period > 0x7FF;
        if self.enable && self.divider.tick() && !self.muted {
            new_channel_period
        } else {
            channel_period
        }
    }

    #[verifier::when_used_as_spec(spec_mute)]
    pub fn mute(&self) -> (muted: bool)
        ensures
            muted == self.spec_mute(),
    {
        self.muted
    }
}

} // verus!
