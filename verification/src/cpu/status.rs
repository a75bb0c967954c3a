use vstd::prelude::*;

verus! {

/// The processor status byte: carry (bit 0), zero (1), interrupt-disable
/// (2), decimal (3), the two-bit break signature (4 and 5), overflow (6) and
/// negative (7).
#[derive(Copy, Clone, Debug, PartialEq, Eq, Structural)]
pub struct StatusRegister(pub u8);

/// Whether the bits of `mask` are all set in `value`.
pub open spec fn has_bits(value: u8, mask: u8) -> bool {
    value & mask == mask
}

/// `value` with the bits of `mask` all set or all cleared.
pub open spec fn with_bits(value: u8, mask: u8, on: bool) -> u8 {
    if on {
        value | mask
    } else {
        value & !mask
    }
}

fn test_bits(value: u8, mask: u8) -> (set: bool)
    ensures
        set == has_bits(value, mask),
{
    value & mask == mask
}

fn assign_bits(value: u8, mask: u8, on: bool) -> (changed: u8)
    ensures
        changed == with_bits(value, mask, on),
{
    if on {
        value | mask
    } else {
        value & !mask
    }
}

/// Setting or clearing one flag makes that flag read as it was set and
/// leaves every bit outside the flag as it was.
pub proof fn lemma_with_bits(value: u8, mask: u8, on: bool)
    requires
        mask != 0,
    ensures
        has_bits(with_bits(value, mask, on), mask) == on,
        with_bits(value, mask, on) & !mask == value & !mask,
        forall|other: u8| other & mask == 0 ==> has_bits(with_bits(value, mask, on), other) == has_bits(value, other),
{
    assert((value | mask) & mask == mask && (value | mask) & !mask == value & !mask && (value
        & !mask) & !mask == value & !mask && (mask != 0 ==> (value & !mask) & mask != mask))
        by (bit_vector);
    assert forall|other: u8| other & mask == 0 implies has_bits(
        with_bits(value, mask, on),
        other,
    ) == has_bits(value, other) by {
        assert(other & mask == 0 ==> ((value | mask) & other == value & other && (value & !mask)
            & other == value & other)) by (bit_vector);
    }
}

impl StatusRegister {
    pub open spec fn spec_c(&self) -> bool {
        has_bits(self.0, 0x01)
    }

    pub open spec fn spec_z(&self) -> bool {
        has_bits(self.0, 0x02)
    }

    pub open spec fn spec_i(&self) -> bool {
        has_bits(self.0, 0x04)
    }

    pub open spec fn spec_d(&self) -> bool {
        has_bits(self.0, 0x08)
    }

    /// The break signature, a number below 4.
    pub open spec fn spec_b(&self) -> u8 {
        (self.0 >> 4) & 3
    }

    pub open spec fn spec_v(&self) -> bool {
        has_bits(self.0, 0x40)
    }

    pub open spec fn spec_n(&self) -> bool {
        has_bits(self.0, 0x80)
    }

    pub open spec fn with_c(self, on: bool) -> Self {
        StatusRegister(with_bits(self.0, 0x01, on))
    }

    pub open spec fn with_z(self, on: bool) -> Self {
        StatusRegister(with_bits(self.0, 0x02, on))
    }

    pub open spec fn with_i(self, on: bool) -> Self {
        StatusRegister(with_bits(self.0, 0x04, on))
    }

    pub open spec fn with_d(self, on: bool) -> Self {
        StatusRegister(with_bits(self.0, 0x08, on))
    }

    /// The status with the break signature replaced by the low two bits of
    /// `value`.
    pub open spec fn with_b(self, value: u8) -> Self {
        StatusRegister((self.0 & 0xCF) | ((value & 3) << 4))
    }

    pub open spec fn with_v(self, on: bool) -> Self {
        StatusRegister(with_bits(self.0, 0x40, on))
    }

    pub open spec fn with_n(self, on: bool) -> Self {
        StatusRegister(with_bits(self.0, 0x80, on))
    }

    /// The status with negative and zero recomputed from `value`: negative
    /// is its top bit, zero says that it is 0.
    pub open spec fn with_nz(self, value: u8) -> Self {
        self.with_n(value >= 0x80).with_z(value == 0)
    }

    #[verifier::when_used_as_spec(spec_c)]
    pub fn c(&self) -> (on: bool)
        ensures
            on == self.spec_c(),
    {
        test_bits(self.0, 0x01)
    }

    #[verifier::when_used_as_spec(spec_z)]
    pub fn z(&self) -> (on: bool)
        ensures
            on == self.spec_z(),
    {
        test_bits(self.0, 0x02)
    }

    #[verifier::when_used_as_spec(spec_i)]
    pub fn i(&self) -> (on: bool)
        ensures
            on == self.spec_i(),
    {
        test_bits(self.0, 0x04)
    }

    #[verifier::when_used_as_spec(spec_d)]
    pub fn d(&self) -> (on: bool)
        ensures
            on == self.spec_d(),
    {
        test_bits(self.0, 0x08)
    }

    #[verifier::when_used_as_spec(spec_b)]
    pub fn b(&self) -> (value: u8)
        ensures
            value == self.spec_b(),
    {
        (self.0 >> 4) & 3
    }

    #[verifier::when_used_as_spec(spec_v)]
    pub fn v(&self) -> (on: bool)
        ensures
            on == self.spec_v(),
    {
        test_bits(self.0, 0x40)
    }

    #[verifier::when_used_as_spec(spec_n)]
    pub fn n(&self) -> (on: bool)
        ensures
            on == self.spec_n(),
    {
        test_bits(self.0, 0x80)
    }

    pub fn set_c(&mut self, on: bool)
        ensures
            *final(self) == old(self).with_c(on),
    {
        self.0 = assign_bits(self.0, 0x01, on);
    }

    pub fn set_z(&mut self, on: bool)
        ensures
            *final(self) == old(self).with_z(on),
    {
        self.0 = assign_bits(self.0, 0x02, on);
    }

    pub fn set_i(&mut self, on: bool)
        ensures
            *final(self) == old(self).with_i(on),
    {
        self.0 = assign_bits(self.0, 0x04, on);
    }

    pub fn set_d(&mut self, on: bool)
        ensures
            *final(self) == old(self).with_d(on),
    {
        self.0 = assign_bits(self.0, 0x08, on);
    }

    pub fn set_b(&mut self, value: u8)
        ensures
            *final(self) == old(self).with_b(value),
    {
        self.0 = (self.0 & 0xCF) | ((value & 3) << 4);
    }

    pub fn set_v(&mut self, on: bool)
        ensures
            *final(self) == old(self).with_v(on),
    {
        self.0 = assign_bits(self.0, 0x40, on);
    }

    pub fn set_n(&mut self, on: bool)
        ensures
            *final(self) == old(self).with_n(on),
    {
        self.0 = assign_bits(self.0, 0x80, on);
    }

    /// The flags as eight letters, most significant first: a flag that is
    /// set shows as a capital, one that is clear as a small letter, and the
    /// unused bit as `u`.
    pub fn letters(&self) -> (text: Vec<char>)
        ensures
            text@ == seq![
                if self.spec_n() { 'N' } else { 'n' },
                if self.spec_v() { 'V' } else { 'v' },
                'u',
                if self.spec_b() != 0 { 'B' } else { 'b' },
                if self.spec_d() { 'D' } else { 'd' },
                if self.spec_i() { 'I' } else { 'i' },
                if self.spec_z() { 'Z' } else { 'z' },
                if self.spec_c() { 'C' } else { 'c' },
            ],
    {
        let mut text: Vec<char> = Vec::new();
        text.push(if self.n() { 'N' } else { 'n' });
        text.push(if self.v() { 'V' } else { 'v' });
        text.push('u');
        text.push(if self.b() != 0 { 'B' } else { 'b' });
        text.push(if self.d() { 'D' } else { 'd' });
        text.push(if self.i() { 'I' } else { 'i' });
        text.push(if self.z() { 'Z' } else { 'z' });
        text.push(if self.c() { 'C' } else { 'c' });
        assert(text@ =~= seq![
            if self.spec_n() { 'N' } else { 'n' },
            if self.spec_v() { 'V' } else { 'v' },
            'u',
            if self.spec_b() != 0 { 'B' } else { 'b' },
            if self.spec_d() { 'D' } else { 'd' },
            if self.spec_i() { 'I' } else { 'i' },
            if self.spec_z() { 'Z' } else { 'z' },
            if self.spec_c() { 'C' } else { 'c' },
        ]);
        text
    }
}

/// The break signature round-trips through the status byte, and replacing
/// it leaves the six flags as they were.
pub proof fn lemma_break_bits(status: StatusRegister, value: u8)
    ensures
        status.with_b(value).spec_b() == value & 3,
        status.with_b(value).0 & 0xCF == status.0 & 0xCF,
        status.with_b(3).0 == status.0 | 0x30,
        status.with_b(0).0 == status.0 & 0xCF,
{
    let p = status.0;
    assert(((((p & 0xCF) | ((value & 3) << 4)) >> 4) & 3 == value & 3) && (((p & 0xCF) | ((value
        & 3) << 4)) & 0xCF == p & 0xCF) && ((p & 0xCF) | ((3u8 & 3) << 4) == p | 0x30) && ((p
        & 0xCF) | ((0u8 & 3) << 4) == p & 0xCF)) by (bit_vector);
}

} // verus!
