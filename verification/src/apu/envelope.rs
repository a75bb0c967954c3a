use vstd::prelude::*;

verus! {

/// A volume envelope: a divider that steps a decay level from 15 down to 0.
#[derive(Copy, Clone, Debug, PartialEq, Eq, Structural)]
pub struct Envelope {
    pub start: bool,
    pub divider: u8,
    pub decay: u8,
    pub should_loop: bool,
    pub constant_volume: bool,
    pub envelope: u8,
}

impl Envelope {
    /// An idle envelope.
    pub fn new() -> (envelope: Self)
        ensures
            envelope == (Envelope {
                start: false,
                divider: 0,
                decay: 0,
                should_loop: false,
                constant_volume: false,
                envelope: 0,
            }),
    {
        Envelope {
            start: false,
            divider: 0,
            decay: 0,
            should_loop: false,
            constant_volume: false,
            envelope: 0,
        }
    }

    /// The envelope one quarter-frame clock on: a start restarts decay at 15;
    /// else the divider counts down, and on its expiry decay goes down by
    /// one, or back to 15 where it loops.
    pub open spec fn stepped(self) -> Envelope {
        if self.start {
            Envelope { start: false, decay: 15, divider: self.envelope, ..self }
        } else if self.divider > 0 {
            Envelope { divider: (self.divider - 1) as u8, ..self }
        } else if self.decay > 0 {
            Envelope { divider: self.envelope, decay: (self.decay - 1) as u8, ..self }
        } else if self.should_loop {
            Envelope { divider: self.envelope, decay: 15, ..self }
        } else {
            Envelope { divider: self.envelope, ..self }
        }
    }

    /// The volume: the envelope parameter where it is constant, else the
    /// decay level.
    pub open spec fn spec_volume(&self) -> u8 {
        if self.constant_volume {
            self.envelope
        } else {
            self.decay
        }
    }

    pub fn step(&mut self)
        ensures
            *final(self) == old(self).stepped(),
    {
        if self.start {
            self.start = false;
            self.decay = 15;
            self.divider = self.envelope;
        } else if self.divider > 0 {
            self.divider = self.divider - 1;
        } else {
            self.divider = self.envelope;
            if self.decay > 0 {
                self.decay = self.decay - 1;
            } else if self.should_loop {
                self.decay = 15;
            }
        }
    }

    pub fn reload(&mut self)
        ensures
            *final(self) == (Envelope { start: true, ..*old(self) }),
    {
        self.start = true;
    }

    #[verifier::when_used_as_spec(spec_volume)]
    pub fn volume(&self) -> (volume: u8)
        ensures
            volume == self.spec_volume(),
    {
        if self.constant_volume {
            self.envelope
        } else {
            self.decay
        }
    }
}

/// A decay level of at most 15 stays at most 15.
pub proof fn lemma_decay_bounded(envelope: Envelope)
    requires
        envelope.decay <= 15,
    ensures
        envelope.stepped().decay <= 15,
{
}

} // verus!
