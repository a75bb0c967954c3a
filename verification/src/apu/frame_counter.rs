use vstd::prelude::*;

verus! {

/// The sequencer that paces envelopes and length counters: four steps, or
/// five in the extended mode.
#[derive(Copy, Clone, Debug, PartialEq, Eq, Structural)]
pub struct FrameCounter {
    pub counter: u32,
    pub extended_step: bool,
}

impl FrameCounter {
    /// A four-step sequencer at step 0.
    pub fn new() -> (counter: Self)
        ensures
            counter == (FrameCounter { counter: 0, extended_step: false }),
    {
        FrameCounter { counter: 0, extended_step: false }
    }

    /// The number of steps of the sequence.
    pub open spec fn steps(self) -> u32 {
        if self.extended_step {
            5
        } else {
            4
        }
    }

    /// The sequencer one step on.
    pub open spec fn stepped(self) -> FrameCounter {
        FrameCounter { counter: self.counter.wrapping_add(1) % self.steps(), ..self }
    }

    pub open spec fn spec_half_clock(&self) -> bool {
        if self.extended_step {
            self.counter == 0 || self.counter == 2
        } else {
            self.counter == 1 || self.counter == 3
        }
    }

    pub open spec fn spec_quarter_clock(&self) -> bool {
        self.counter != 4
    }

    pub fn step(&mut self)
        ensures
            *final(self) == old(self).stepped(),
    {
        let next = self.counter.wrapping_add(1);
        if self.extended_step {
            self.counter = next % 5;
        } else {
            self.counter = next % 4;
        }
    }

    pub fn set_mode(&mut self, extended_step: bool)
        ensures
            *final(self) == (FrameCounter { counter: 0, extended_step }),
    {
        self.extended_step = extended_step;
        self.counter = 0;
    }

    #[verifier::when_used_as_spec(spec_half_clock)]
    pub fn half_clock(&self) -> (clock: bool)
        ensures
            clock == self.spec_half_clock(),
    {
        if self.extended_step {
            self.counter == 0 || self.counter == 2
        } else {
            self.counter == 1 || self.counter == 3
        }
    }

    #[verifier::when_used_as_spec(spec_quarter_clock)]
    pub fn quarter_clock(&self) -> (clock: bool)
        ensures
            clock == self.spec_quarter_clock(),
    {
        self.counter != 4
    }
}

/// The sequencer stays within its steps and comes back to step 0 after as
/// many steps as the sequence has.
pub proof fn lemma_sequence_wraps(counter: FrameCounter)
    requires
        counter.counter < counter.steps(),
    ensures
        counter.stepped().counter < counter.steps(),
        counter.stepped().counter == (if counter.counter + 1 == counter.steps() {
            0
        } else {
            counter.counter + 1
        }),
{
}

} // verus!
