use crate::apu::dmc::Dmc;
use crate::apu::envelope::Envelope;
use crate::apu::length_counter::LENGTH_TABLE;
use crate::apu::noise::{Noise, NOISE_PERIOD};
use crate::apu::pulse::Pulse;
use crate::apu::sweep::SweepSetup;
use crate::apu::timer::Timer;
use crate::apu::triangle::Triangle;
use crate::bus::Addressable;
use vstd::prelude::*;

verus! {

/// The processor cycles between two steps of the frame sequencer.
pub const FRAME_COUNTER_FREQ: usize = 7457;

/// The audio unit: two pulse channels, a triangle, a noise and a sample
/// channel, paced by a frame sequencer.
#[derive(Copy, Clone, Debug, PartialEq, Eq, Structural)]
pub struct APU {
    pub pulse0: Pulse,
    pub pulse1: Pulse,
    pub triangle: Triangle,
    pub noise: Noise,
    pub dmc: Dmc,
    pub cycle: usize,
    pub frame_counter: u8,
    pub sequencer_mode: bool,
    pub interrupt_inhibit: bool,
    pub half_frame_flag: bool,
    pub sequence_reset: bool,
}

/// The levels of the five channels at one cycle, each from 0 to 15.
#[derive(Copy, Clone, Debug, PartialEq, Eq, Structural)]
pub struct Levels {
    pub pulse0: u8,
    pub pulse1: u8,
    pub triangle: u8,
    pub noise: u8,
    pub dmc: u8,
}

impl View for APU {
    type V = APU;

    open spec fn view(&self) -> APU {
        *self
    }
}

/// The envelope after the control port of a channel was written: loop and
/// constant-volume flags, the volume parameter, and a restart.
pub open spec fn envelope_written(envelope: Envelope, data: u8) -> Envelope {
    Envelope {
        should_loop: (data / 32) % 2 == 1,
        constant_volume: (data / 16) % 2 == 1,
        envelope: data % 16,
        start: true,
        ..envelope
    }
}

/// The timer with the low byte of its period replaced.
pub open spec fn period_low_written(timer: Timer, data: u8) -> Timer {
    Timer { reload: (timer.reload - timer.reload % 256 + data) as u16, ..timer }
}

/// The timer with the high three bits of its period replaced.
pub open spec fn period_high_written(timer: Timer, data: u8) -> Timer {
    Timer { reload: (timer.reload % 256 + (data % 8) * 256) as u16, ..timer }
}

/// A pulse channel after a write to its port `port` (0 to 3).
#[verifier::opaque]
pub open spec fn pulse_written(pulse: Pulse, port: u16, data: u8) -> Pulse {
    if port == 0 {
        Pulse {
            length_counter: crate::apu::length_counter::LengthCounter {
                halt: (data / 32) % 2 == 1,
                ..pulse.length_counter
            },
            duty_cycle: data / 64,
            envelope: envelope_written(pulse.envelope, data),
            ..pulse
        }
    } else if port == 1 {
        Pulse {
            sweep: crate::apu::sweep::Sweep {
                enable: SweepSetup(data).spec_enable(),
                divider: Timer {
                    reload: SweepSetup(data).spec_period() as u16,
                    reload_now: true,
                    ..pulse.sweep.divider
                },
                negate: SweepSetup(data).spec_negate(),
                shift: SweepSetup(data).spec_shift() as u16,
                ..pulse.sweep
            },
            ..pulse
        }
    } else if port == 2 {
        Pulse { timer: period_low_written(pulse.timer, data), ..pulse }
    } else {
        Pulse {
            length_counter: if pulse.length_counter.enabled {
                crate::apu::length_counter::LengthCounter {
                    counter: LENGTH_TABLE@[data as int / 8],
                    ..pulse.length_counter
                }
            } else {
                pulse.length_counter
            },
            timer: period_high_written(pulse.timer, data),
            duty_timer: 0,
            envelope: Envelope { start: true, ..pulse.envelope },
            ..pulse
        }
    }
}

/// The status byte: one bit per channel whose length counter still runs,
/// pulse channels first.
pub open spec fn status_of(apu: APU) -> u8 {
    ((if apu.pulse0.length_counter.spec_mute() { 0int } else { 1int }) + (
    if apu.pulse1.length_counter.spec_mute() { 0int } else { 2int }) + (
    if apu.triangle.length_counter.spec_mute() { 0int } else { 4int }) + (
    if apu.noise.length_counter.spec_mute() { 0int } else { 8int })) as u8
}

/// The triangle channel after a write to its port at `address`.
#[verifier::opaque]
pub open spec fn triangle_written(triangle: Triangle, address: u16, data: u8) -> Triangle {
    if address == 0x4008 {
        Triangle {
            length_counter: crate::apu::length_counter::LengthCounter {
                halt: data >= 128,
                ..triangle.length_counter
            },
            linear_counter: crate::apu::linear_counter::LinearCounter {
                control: data >= 128,
                reload: true,
                reload_value: data % 128,
                ..triangle.linear_counter
            },
            ..triangle
        }
    } else if address == 0x400A {
        Triangle { timer: period_low_written(triangle.timer, data), ..triangle }
    } else {
        Triangle {
            timer: period_high_written(triangle.timer, data),
            length_counter: if triangle.length_counter.enabled {
                crate::apu::length_counter::LengthCounter {
                    counter: LENGTH_TABLE@[data as int / 8],
                    ..triangle.length_counter
                }
            } else {
                triangle.length_counter
            },
            linear_counter: crate::apu::linear_counter::LinearCounter {
                reload: true,
                ..triangle.linear_counter
            },
            ..triangle
        }
    }
}

/// The noise channel after a write to its port at `address`.
#[verifier::opaque]
pub open spec fn noise_written(noise: Noise, address: u16, data: u8) -> Noise {
    if address == 0x400C {
        Noise {
            length_counter: crate::apu::length_counter::LengthCounter {
                halt: (data / 32) % 2 == 1,
                ..noise.length_counter
            },
            envelope: envelope_written(noise.envelope, data),
            ..noise
        }
    } else if address == 0x400E {
        Noise { timer: Timer { reload: NOISE_PERIOD@[data as int % 16], ..noise.timer }, ..noise }
    } else {
        Noise {
            length_counter: if noise.length_counter.enabled {
                crate::apu::length_counter::LengthCounter {
                    counter: LENGTH_TABLE@[data as int / 8],
                    ..noise.length_counter
                }
            } else {
                noise.length_counter
            },
            envelope: Envelope { start: true, ..noise.envelope },
            ..noise
        }
    }
}

/// A length counter switched on or off; off clears it.
pub open spec fn counter_enabled(
    counter: crate::apu::length_counter::LengthCounter,
    enabled: bool,
) -> crate::apu::length_counter::LengthCounter {
    crate::apu::length_counter::LengthCounter {
        enabled,
        counter: if enabled {
            counter.counter
        } else {
            0
        },
        ..counter
    }
}

/// The unit after a write to the channel enable port.
#[verifier::opaque]
pub open spec fn channels_enabled(apu: APU, data: u8) -> APU {
    APU {
        pulse0: Pulse {
            enabled: data % 2 == 1,
            length_counter: counter_enabled(apu.pulse0.length_counter, data % 2 == 1),
            ..apu.pulse0
        },
        pulse1: Pulse {
            enabled: (data / 2) % 2 == 1,
            length_counter: counter_enabled(apu.pulse1.length_counter, (data / 2) % 2 == 1),
            ..apu.pulse1
        },
        triangle: Triangle {
            enabled: (data / 4) % 2 == 1,
            length_counter: counter_enabled(apu.triangle.length_counter, (data / 4) % 2 == 1),
            ..apu.triangle
        },
        noise: Noise {
            enabled: (data / 8) % 2 == 1,
            length_counter: counter_enabled(apu.noise.length_counter, (data / 8) % 2 == 1),
            ..apu.noise
        },
        ..apu
    }
}

/// The unit after `data` was written at `address`.
pub open spec fn apu_written(apu: APU, address: u16, data: u8) -> APU {
    if 0x4000 <= address <= 0x4003 {
        let pulse = pulse_written(apu.pulse0, (address - 0x4000) as u16, data);
        if address == 0x4003 {
            APU { pulse0: pulse, frame_counter: 0, ..apu }
        } else {
            APU { pulse0: pulse, ..apu }
        }
    } else if 0x4004 <= address <= 0x4007 {
        let pulse = pulse_written(apu.pulse1, (address - 0x4004) as u16, data);
        if address == 0x4007 {
            APU { pulse1: pulse, frame_counter: 0, ..apu }
        } else {
            APU { pulse1: pulse, ..apu }
        }
    } else if address == 0x4008 || address == 0x400A || address == 0x400B {
        APU { triangle: triangle_written(apu.triangle, address, data), ..apu }
    } else if address == 0x400C || address == 0x400E || address == 0x400F {
        APU { noise: noise_written(apu.noise, address, data), ..apu }
    } else if address == 0x4015 {
        channels_enabled(apu, data)
    } else if address == 0x4017 {
        APU {
            sequencer_mode: data >= 128,
            interrupt_inhibit: (data / 64) % 2 == 1,
            frame_counter: 0,
            sequence_reset: true,
            ..apu
        }
    } else {
        apu
    }
}

impl Addressable for APU {
    /// Only the status port can be read; any other address answers with 0.
    open spec fn read_value(state: APU, address: u16) -> Option<u8> {
        if address == 0x4015 {
            Some(status_of(state))
        } else {
            Some(0u8)
        }
    }

    open spec fn after_read(state: APU, address: u16) -> APU {
        state
    }

    open spec fn after_write(state: APU, address: u16, data: u8) -> APU {
        apu_written(state, address, data)
    }

    fn read_byte(&mut self, address: u16) -> (value: Option<u8>) {
        if address == 0x4015 {
            let mut status: u8 = 0;
            if !self.pulse0.length_counter.mute() {
                status = status + 1;
            }
            if !self.pulse1.length_counter.mute() {
                status = status + 2;
            }
            if !self.triangle.length_counter.mute() {
                status = status + 4;
            }
            if !self.noise.length_counter.mute() {
                status = status + 8;
            }
            return Some(status);
        }
        Some(0)
    }

    fn write_byte(&mut self, address: u16, data: u8) {
        if 0x4000 <= address && address <= 0x4003 {
            let port = address - 0x4000;
            let mut pulse = self.pulse0;
            write_pulse(&mut pulse, port, data);
            self.pulse0 = pulse;
            if address == 0x4003 {
                self.frame_counter = 0;
            }
        } else if 0x4004 <= address && address <= 0x4007 {
            let port = address - 0x4004;
            let mut pulse = self.pulse1;
            write_pulse(&mut pulse, port, data);
            self.pulse1 = pulse;
            if address == 0x4007 {
                self.frame_counter = 0;
            }
        } else if address == 0x4008 || address == 0x400A || address == 0x400B {
            let mut triangle = self.triangle;
            write_triangle(&mut triangle, address, data);
            self.triangle = triangle;
        } else if address == 0x400C || address == 0x400E || address == 0x400F {
            let mut noise = self.noise;
            write_noise(&mut noise, address, data);
            self.noise = noise;
        } else if address == 0x4015 {
            self.enable_channels(data);
        } else if address == 0x4017 {
            self.sequencer_mode = data >= 128;
            self.interrupt_inhibit = (data / 64) % 2 == 1;
            self.frame_counter = 0;
            self.sequence_reset = true;
        }
    }
}

fn write_envelope(envelope: &mut Envelope, data: u8)
    ensures
        *final(envelope) == envelope_written(*old(envelope), data),
{
    envelope.should_loop = (data / 32) % 2 == 1;
    envelope.constant_volume = (data / 16) % 2 == 1;
    envelope.envelope = data % 16;
    envelope.reload();
}

fn write_pulse(pulse: &mut Pulse, port: u16, data: u8)
    ensures
        *final(pulse) == pulse_written(*old(pulse), port, data),
{
    proof {
        reveal(pulse_written);
    }
    if port == 0 {
        pulse.length_counter.halt = (data / 32) % 2 == 1;
        pulse.duty_cycle = data / 64;
        write_envelope(&mut pulse.envelope, data);
    } else if port == 1 {
        pulse.sweep.setup(SweepSetup(data));
    } else if port == 2 {
        let period = pulse.timer.get_period();
        pulse.timer.set_period(period - period % 256 + data as u16);
    } else {
        pulse.length_counter.set_counter(data / 8);
        let period = pulse.timer.get_period();
        pulse.timer.set_period(period % 256 + (data % 8) as u16 * 256);
        pulse.duty_timer = 0;
        pulse.envelope.reload();
    }
}

fn write_triangle(triangle: &mut Triangle, address: u16, data: u8)
    ensures
        *final(triangle) == triangle_written(*old(triangle), address, data),
{
    proof {
        reveal(triangle_written);
    }
    if address == 0x4008 {
        triangle.length_counter.halt = data >= 128;
        triangle.linear_counter.control = data >= 128;
        triangle.linear_counter.reload(data % 128);
    } else if address == 0x400A {
        let period = triangle.timer.get_period();
        triangle.timer.set_period(period - period % 256 + data as u16);
    } else {
        let period = triangle.timer.get_period();
        triangle.timer.set_period(period % 256 + (data % 8) as u16 * 256);
        triangle.length_counter.set_counter(data / 8);
        triangle.linear_counter.reload_current();
    }
}

fn write_noise(noise: &mut Noise, address: u16, data: u8)
    ensures
        *final(noise) == noise_written(*old(noise), address, data),
{
    proof {
        reveal(noise_written);
    }
    if address == 0x400C {
        noise.length_counter.halt = (data / 32) % 2 == 1;
        write_envelope(&mut noise.envelope, data);
    } else if address == 0x400E {
        noise.set_period(data % 16);
    } else {
        noise.length_counter.set_counter(data / 8);
        noise.envelope.reload();
    }
}

/// A pulse channel after a clock of its sweep unit, which is skipped for a
/// period of 0x4000 or more.
#[verifier::opaque]
pub open spec fn pulse_swept(pulse: Pulse) -> Pulse {
    if pulse.timer.reload < 0x4000 {
        Pulse {
            sweep: pulse.sweep.stepped(pulse.timer.reload, pulse.spec_sweep_type()),
            timer: Timer {
                reload: pulse.sweep.swept(pulse.timer.reload, pulse.spec_sweep_type()),
                ..pulse.timer
            },
            ..pulse
        }
    } else {
        pulse
    }
}

/// A pulse channel after a clock of its timer.
pub open spec fn pulse_ticked(pulse: Pulse) -> Pulse {
    Pulse {
        timer: pulse.timer.ticked(),
        duty_timer: if pulse.timer.expires() {
            ((pulse.duty_timer + 1) % 8) as usize
        } else {
            pulse.duty_timer
        },
        ..pulse
    }
}

/// The noise channel after a clock of its timer.
pub open spec fn noise_ticked(noise: Noise) -> Noise {
    Noise {
        timer: noise.timer.ticked(),
        shift: if noise.timer.expires() {
            crate::apu::noise::shifted(noise.shift)
        } else {
            noise.shift
        },
        ..noise
    }
}

/// The triangle channel after a clock of its timer.
pub open spec fn triangle_ticked(triangle: Triangle) -> Triangle {
    Triangle {
        timer: triangle.timer.ticked(),
        duty_timer: if triangle.timer.expires() && triangle.running() {
            ((triangle.duty_timer + 1) % 32) as usize
        } else {
            triangle.duty_timer
        },
        ..triangle
    }
}

impl APU {
    /// The unit after the timers of its channels were clocked.
    #[verifier::opaque]
    pub open spec fn channels_clocked(self) -> APU {
        let clocked = if self.cycle % 2 == 0 {
            APU {
                pulse0: pulse_ticked(self.pulse0),
                pulse1: pulse_ticked(self.pulse1),
                noise: noise_ticked(self.noise),
                dmc: self.dmc.ticked(),
                ..self
            }
        } else {
            self
        };
        APU { triangle: triangle_ticked(self.triangle), ..clocked }
    }

    /// The unit after a clock of the frame sequencer.
    #[verifier::opaque]
    pub open spec fn sequencer_clocked(self) -> APU {
        let stepped = self.frame_stepped();
        let swept = if stepped.half_frame_flag {
            APU {
                pulse0: pulse_swept(stepped.pulse0),
                pulse1: pulse_swept(stepped.pulse1),
                ..stepped
            }
        } else {
            stepped
        };
        APU { half_frame_flag: !stepped.half_frame_flag, ..swept }
    }

    /// The unit one processor cycle on.
    pub open spec fn clocked(self) -> APU {
        let counted = APU { cycle: self.cycle.wrapping_add(1), ..self };
        let channels = counted.channels_clocked();
        if channels.cycle % FRAME_COUNTER_FREQ == 0 {
            channels.sequencer_clocked()
        } else {
            channels
        }
    }
}

impl APU {
    /// The unit at power-on.
    pub open spec fn initial() -> APU {
        APU {
            pulse0: Pulse::initial(0),
            pulse1: Pulse::initial(1),
            triangle: Triangle {
                duty_timer: 0,
                enabled: false,
                timer: Timer { current: 0, reload: 0, reload_now: false },
                length_counter: crate::apu::length_counter::LengthCounter {
                    enabled: false,
                    counter: 0,
                    halt: false,
                },
                linear_counter: crate::apu::linear_counter::LinearCounter {
                    reload: false,
                    control: false,
                    reload_value: 0,
                    value: 0,
                },
            },
            noise: Noise::initial(),
            dmc: Dmc {
                enabled: false,
                interrupt_flag: false,
                loop_flag: false,
                rate: 0,
                memory_reader: crate::apu::dmc::DmcMemoryReader {
                    sample_address: 0,
                    sample_length: 0,
                    sample_buffer: 0,
                    current_address: 0,
                    bytes_remaining: 0,
                },
                output_unit: crate::apu::dmc::DmcOutputUnit {
                    shift_register: 0,
                    bits_remaining: 0,
                    silence_flag: false,
                    output_level: 0,
                },
            },
            cycle: 0,
            frame_counter: 0,
            sequencer_mode: false,
            interrupt_inhibit: false,
            half_frame_flag: false,
            sequence_reset: false,
        }
    }

    pub fn new() -> (apu: Self)
        ensures
            apu == Self::initial(),
    {
        APU {
            pulse0: Pulse::new(0),
            pulse1: Pulse::new(1),
            triangle: Triangle::new(),
            noise: Noise::new(),
            dmc: Dmc::new(),
            cycle: 0,
            frame_counter: 0,
            sequencer_mode: false,
            interrupt_inhibit: false,
            half_frame_flag: false,
            sequence_reset: false,
        }
    }

    /// Switches the four tone channels on or off by the low four bits of
    /// `data`.
    pub fn enable_channels(&mut self, data: u8)
        ensures
            *final(self) == channels_enabled(*old(self), data),
    {
        proof {
            reveal(channels_enabled);
        }
        self.pulse0.set_enabled(data % 2 == 1);
        self.pulse1.set_enabled((data / 2) % 2 == 1);
        self.triangle.set_enabled((data / 4) % 2 == 1);
        self.noise.set_enabled((data / 8) % 2 == 1);
    }

    /// Whether the sequencer step clocks the envelopes and the linear
    /// counter.
    pub open spec fn quarter_frame(self) -> bool {
        !self.sequencer_mode || self.frame_counter != 3 || self.sequence_reset
    }

    /// Whether the sequencer step clocks the length counters.
    pub open spec fn half_frame(self) -> bool {
        self.frame_counter == 1 || (self.sequencer_mode && self.frame_counter == 4) || (
        !self.sequencer_mode && self.frame_counter == 3) || (self.sequence_reset
            && self.sequencer_mode)
    }

    /// The unit one sequencer step on.
    pub open spec fn frame_stepped(self) -> APU {
        let quarter = self.quarter_frame();
        let half = self.half_frame();
        let envelopes = if quarter {
            APU {
                pulse0: Pulse { envelope: self.pulse0.envelope.stepped(), ..self.pulse0 },
                pulse1: Pulse { envelope: self.pulse1.envelope.stepped(), ..self.pulse1 },
                triangle: Triangle {
                    linear_counter: self.triangle.linear_counter.stepped(),
                    ..self.triangle
                },
                noise: Noise { envelope: self.noise.envelope.stepped(), ..self.noise },
                ..self
            }
        } else {
            self
        };
        let lengths = if half {
            APU {
                pulse0: Pulse {
                    length_counter: envelopes.pulse0.length_counter.stepped(),
                    ..envelopes.pulse0
                },
                pulse1: Pulse {
                    length_counter: envelopes.pulse1.length_counter.stepped(),
                    ..envelopes.pulse1
                },
                triangle: Triangle {
                    length_counter: envelopes.triangle.length_counter.stepped(),
                    ..envelopes.triangle
                },
                noise: Noise {
                    length_counter: envelopes.noise.length_counter.stepped(),
                    ..envelopes.noise
                },
                ..envelopes
            }
        } else {
            envelopes
        };
        APU {
            sequence_reset: false,
            frame_counter: if self.sequencer_mode {
                ((self.frame_counter as int + 1) % 5) as u8
            } else {
                ((self.frame_counter as int + 1) % 4) as u8
            },
            ..lengths
        }
    }

    /// Steps the frame sequencer.
    pub fn step_frame_counter(&mut self)
        ensures
            *final(self) == old(self).frame_stepped(),
    {
        if !self.sequencer_mode || self.frame_counter != 3 || self.sequence_reset {
            self.pulse0.envelope.step();
            self.pulse1.envelope.step();
            self.triangle.linear_counter.step();
            self.noise.envelope.step();
        }
        if self.frame_counter == 1 || (self.sequencer_mode && self.frame_counter == 4) || (
        !self.sequencer_mode && self.frame_counter == 3) || (self.sequence_reset
            && self.sequencer_mode) {
            self.pulse0.length_counter.step();
            self.pulse1.length_counter.step();
            self.triangle.length_counter.step();
            self.noise.length_counter.step();
        }
        self.sequence_reset = false;
        let next: u16 = self.frame_counter as u16 + 1;
        self.frame_counter = if self.sequencer_mode {
            (next % 5) as u8
        } else {
            (next % 4) as u8
        };
    }

    /// The levels of the channels as they stand.
    pub fn levels(&self) -> (levels: Levels)
        ensures
            levels == (Levels {
                pulse0: self.pulse0.level(),
                pulse1: self.pulse1.level(),
                triangle: self.triangle.level(),
                noise: self.noise.level(),
                dmc: 0,
            }),
    {
        Levels {
            pulse0: self.pulse0.amplitude(),
            pulse1: self.pulse1.amplitude(),
            triangle: self.triangle.amplitude(),
            noise: self.noise.amplitude(),
            dmc: 0,
        }
    }

    /// Sweeps the period of a pulse channel, if it is one that a channel
    /// can have.
    pub fn sweep_pulse(pulse: &mut Pulse)
        ensures
            *final(pulse) == pulse_swept(*old(pulse)),
    {
        proof {
            reveal(pulse_swept);
        }
        let period = pulse.timer.get_period();
        if period < 0x4000 {
            let kind = pulse.sweep_type();
            let swept = pulse.sweep.step(period, kind);
            pulse.timer.set_period(swept);
        }
    }

    /// Clocks the timers of the channels: the triangle's on every cycle,
    /// the others' on the even ones.
    pub fn clock_channels(&mut self)
        ensures
            *final(self) == old(self).channels_clocked(),
    {
        proof {
            reveal(APU::channels_clocked);
        }
        if self.cycle % 2 == 0 {
            self.pulse0.tick();
            self.pulse1.tick();
            self.noise.tick();
            self.dmc.tick();
        }
        self.triangle.tick();
    }

    /// Steps the frame sequencer and, on every second step, the sweep
    /// units.
    pub fn clock_sequencer(&mut self)
        ensures
            *final(self) == old(self).sequencer_clocked(),
    {
        proof {
            reveal(APU::sequencer_clocked);
        }
        self.step_frame_counter();
        if self.half_frame_flag {
            Self::sweep_pulse(&mut self.pulse0);
            Self::sweep_pulse(&mut self.pulse1);
        }
        self.half_frame_flag = !self.half_frame_flag;
    }

    /// Advances the unit by one processor cycle: the cycle is counted (the
    /// counter wraps with the machine word), the timers of the channels are
    /// clocked, and every 7457 cycles the frame sequencer.
    pub fn clock(&mut self)
        ensures
            *final(self) == old(self).clocked(),
    {
        self.cycle = self.cycle.wrapping_add(1);
        self.clock_channels();
        if self.cycle % FRAME_COUNTER_FREQ == 0 {
            self.clock_sequencer();
        }
    }

    /// The unit `cycles` processor cycles on.
    pub open spec fn ticked(self, cycles: nat) -> APU
        decreases cycles,
    {
        if cycles == 0 {
            self
        } else {
            self.clocked().ticked((cycles - 1) as nat)
        }
    }

    /// Advances the unit by `cycles` processor cycles.
    pub fn tick(&mut self, cycles: usize)
        ensures
            *final(self) == old(self).ticked(cycles as nat),
    {
        let mut left: usize = cycles;
        while left > 0
            invariant
                self.ticked(left as nat) == old(self).ticked(cycles as nat),
            decreases left,
        {
            self.clock();
            left = left - 1;
        }
    }
}

} // verus!
