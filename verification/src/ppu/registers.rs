use vstd::prelude::*;

verus! {

pub const PPUCTRL: u16 = 0x2000;

pub const PPUMASK: u16 = 0x2001;

pub const PPUSTATUS: u16 = 0x2002;

pub const OAMADDR: u16 = 0x2003;

pub const OAMDATA: u16 = 0x2004;

pub const PPUSCROLL: u16 = 0x2005;

pub const PPUADDR: u16 = 0x2006;

pub const PPUDATA: u16 = 0x2007;

/// A "loopy" address register: coarse x in bits 0 to 4, coarse y in bits 5
/// to 9, the nametable select in bits 10 and 11 and fine y in bits 12 to 14.
#[derive(Copy, Clone, Debug, PartialEq, Eq, Structural)]
pub struct PPUAddress(pub u16);

impl PPUAddress {
    pub open spec fn spec_coarse_x(&self) -> u16 {
        self.0 % 32
    }

    pub open spec fn spec_coarse_y(&self) -> u16 {
        (self.0 / 32) % 32
    }

    pub open spec fn spec_nametable_select(&self) -> u16 {
        (self.0 / 1024) % 4
    }

    pub open spec fn spec_fine_y(&self) -> u16 {
        (self.0 / 4096) % 8
    }

    /// The register with coarse x replaced by `value` modulo 32.
    pub open spec fn with_coarse_x(self, value: u16) -> Self {
        PPUAddress((self.0 - self.spec_coarse_x() + value % 32) as u16)
    }

    /// The register with coarse y replaced by `value` modulo 32.
    pub open spec fn with_coarse_y(self, value: u16) -> Self {
        PPUAddress((self.0 - self.spec_coarse_y() * 32 + (value % 32) * 32) as u16)
    }

    /// The register with the nametable select replaced by `value` modulo 4.
    pub open spec fn with_nametable_select(self, value: u16) -> Self {
        PPUAddress((self.0 - self.spec_nametable_select() * 1024 + (value % 4) * 1024) as u16)
    }

    /// The register with fine y replaced by `value` modulo 8.
    pub open spec fn with_fine_y(self, value: u16) -> Self {
        PPUAddress((self.0 - self.spec_fine_y() * 4096 + (value % 8) * 4096) as u16)
    }

    #[verifier::when_used_as_spec(spec_coarse_x)]
    pub fn coarse_x(&self) -> (value: u16)
        ensures
            value == self.spec_coarse_x(),
            value < 32,
    {
        self.0 % 32
    }

    #[verifier::when_used_as_spec(spec_coarse_y)]
    pub fn coarse_y(&self) -> (value: u16)
        ensures
            value == self.spec_coarse_y(),
            value < 32,
    {
        (self.0 / 32) % 32
    }

    #[verifier::when_used_as_spec(spec_nametable_select)]
    pub fn nametable_select(&self) -> (value: u16)
        ensures
            value == self.spec_nametable_select(),
            value < 4,
    {
        (self.0 / 1024) % 4
    }

    #[verifier::when_used_as_spec(spec_fine_y)]
    pub fn fine_y(&self) -> (value: u16)
        ensures
            value == self.spec_fine_y(),
            value < 8,
    {
        (self.0 / 4096) % 8
    }

    pub fn set_coarse_x(&mut self, value: u16)
        ensures
            *final(self) == old(self).with_coarse_x(value),
    {
        self.0 = self.0 - self.0 % 32 + value % 32;
    }

    pub fn set_coarse_y(&mut self, value: u16)
        ensures
            *final(self) == old(self).with_coarse_y(value),
    {
        self.0 = self.0 - ((self.0 / 32) % 32) * 32 + (value % 32) * 32;
    }

    pub fn set_nametable_select(&mut self, value: u16)
        ensures
            *final(self) == old(self).with_nametable_select(value),
    {
        self.0 = self.0 - ((self.0 / 1024) % 4) * 1024 + (value % 4) * 1024;
    }

    pub fn set_fine_y(&mut self, value: u16)
        ensures
            *final(self) == old(self).with_fine_y(value),
    {
        self.0 = self.0 - ((self.0 / 4096) % 8) * 4096 + (value % 8) * 4096;
    }
}

/// A loopy register is the sum of its four fields at their positions (and
/// of its unused top bit).
pub proof fn lemma_address_fields(address: PPUAddress)
    ensures
        address.0 == address.spec_coarse_x() + 32 * address.spec_coarse_y() + 1024
            * address.spec_nametable_select() + 4096 * address.spec_fine_y() + 32768 * (address.0
            / 32768),
{
    let a = address.0 as int;
    assert(a == 32 * (a / 32) + a % 32);
    assert(a / 32 == 32 * (a / 1024) + (a / 32) % 32);
    assert(a / 1024 == 4 * (a / 4096) + (a / 1024) % 4);
    assert(a / 4096 == 8 * (a / 32768) + (a / 4096) % 8);
}

/// Replacing coarse x gives it the new value and leaves the other three
/// fields as they were.
pub proof fn lemma_set_coarse_x(address: PPUAddress, value: u16)
    ensures
        address.with_coarse_x(value).0 == 32 * (address.0 / 32) + value % 32,
        address.with_coarse_x(value).spec_coarse_x() == value % 32,
        address.with_coarse_x(value).spec_coarse_y() == address.spec_coarse_y(),
        address.with_coarse_x(value).spec_nametable_select() == address.spec_nametable_select(),
        address.with_coarse_x(value).spec_fine_y() == address.spec_fine_y(),
{
    let n = 32 * (address.0 / 32) + value % 32;
    assert(n / 32 == address.0 / 32);
    assert(n / 1024 == address.0 / 1024);
    assert(n / 4096 == address.0 / 4096);
}

/// Replacing coarse y gives it the new value and leaves the other three
/// fields as they were.
pub proof fn lemma_set_coarse_y(address: PPUAddress, value: u16)
    ensures
        address.with_coarse_y(value).0 == 1024 * (address.0 / 1024) + 32 * (value % 32)
            + address.0 % 32,
        address.with_coarse_y(value).spec_coarse_y() == value % 32,
        address.with_coarse_y(value).spec_coarse_x() == address.spec_coarse_x(),
        address.with_coarse_y(value).spec_nametable_select() == address.spec_nametable_select(),
        address.with_coarse_y(value).spec_fine_y() == address.spec_fine_y(),
{
    let n = 1024 * (address.0 / 1024) + 32 * (value % 32) + address.0 % 32;
    assert(address.0 / 32 == 32 * (address.0 / 1024) + (address.0 / 32) % 32);
    assert(n / 32 == 32 * (address.0 / 1024) + value % 32);
    assert(n / 1024 == address.0 / 1024);
    assert(n / 4096 == address.0 / 4096);
}

/// Replacing the nametable select gives it the new value and leaves the
/// other three fields as they were.
pub proof fn lemma_set_nametable_select(address: PPUAddress, value: u16)
    ensures
        address.with_nametable_select(value).0 == 4096 * (address.0 / 4096) + 1024 * (value % 4)
            + address.0 % 1024,
        address.with_nametable_select(value).spec_nametable_select() == value % 4,
        address.with_nametable_select(value).spec_coarse_x() == address.spec_coarse_x(),
        address.with_nametable_select(value).spec_coarse_y() == address.spec_coarse_y(),
        address.with_nametable_select(value).spec_fine_y() == address.spec_fine_y(),
{
    let n = 4096 * (address.0 / 4096) + 1024 * (value % 4) + address.0 % 1024;
    assert(address.0 / 1024 == 4 * (address.0 / 4096) + (address.0 / 1024) % 4);
    assert(n / 1024 == 4 * (address.0 / 4096) + value % 4);
    assert(n / 4096 == address.0 / 4096);
    assert(n / 32 == 32 * (n / 1024) + (address.0 % 1024) / 32);
    assert(address.0 / 32 == 32 * (address.0 / 1024) + (address.0 % 1024) / 32);
}

/// Replacing fine y gives it the new value and leaves the other three
/// fields as they were.
pub proof fn lemma_set_fine_y(address: PPUAddress, value: u16)
    ensures
        address.with_fine_y(value).0 == 32768 * (address.0 / 32768) + 4096 * (value % 8)
            + address.0 % 4096,
        address.with_fine_y(value).spec_fine_y() == value % 8,
        address.with_fine_y(value).spec_coarse_x() == address.spec_coarse_x(),
        address.with_fine_y(value).spec_coarse_y() == address.spec_coarse_y(),
        address.with_fine_y(value).spec_nametable_select() == address.spec_nametable_select(),
{
    let a = address.0 as int;
    let low = a % 4096;
    let n = 32768 * (a / 32768) + 4096 * (value as int % 8) + low;
    assert(a / 4096 == 8 * (a / 32768) + (a / 4096) % 8);
    assert(a == 4096 * (a / 4096) + low);
    assert(address.with_fine_y(value).0 == n);
    assert(n / 4096 == 8 * (a / 32768) + value as int % 8);
    assert(n % 4096 == low);
    lemma_low_fields(a);
    lemma_low_fields(n);
}

/// The three low fields of a register depend on its low twelve bits only.
proof fn lemma_low_fields(a: int)
    requires
        0 <= a,
    ensures
        a % 32 == (a % 4096) % 32,
        (a / 32) % 32 == ((a % 4096) / 32) % 32,
        (a / 1024) % 4 == (a % 4096) / 1024,
{
    let q = a / 4096;
    let low = a % 4096;
    assert(a == 4096 * q + low);
    assert(a / 32 == 128 * q + low / 32);
    assert(a / 1024 == 4 * q + low / 1024);
}

/// The control port byte.
#[derive(Copy, Clone, Debug, PartialEq, Eq, Structural)]
pub struct PPUControl(pub u8);

impl PPUControl {
    pub open spec fn spec_nametable(&self) -> u8 {
        self.0 % 4
    }

    pub open spec fn spec_vram_increment(&self) -> bool {
        (self.0 / 4) % 2 == 1
    }

    pub open spec fn spec_sprite_pattern(&self) -> bool {
        (self.0 / 8) % 2 == 1
    }

    pub open spec fn spec_background_pattern(&self) -> bool {
        (self.0 / 16) % 2 == 1
    }

    pub open spec fn spec_sprite_size(&self) -> bool {
        (self.0 / 32) % 2 == 1
    }

    pub open spec fn spec_master_slave(&self) -> bool {
        (self.0 / 64) % 2 == 1
    }

    pub open spec fn spec_nmi_enable(&self) -> bool {
        self.0 >= 128
    }

    #[verifier::when_used_as_spec(spec_nametable)]
    pub fn nametable(&self) -> (value: u8)
        ensures
            value == self.spec_nametable(),
    {
        self.0 % 4
    }

    #[verifier::when_used_as_spec(spec_vram_increment)]
    pub fn vram_increment(&self) -> (on: bool)
        ensures
            on == self.spec_vram_increment(),
    {
        (self.0 / 4) % 2 == 1
    }

    #[verifier::when_used_as_spec(spec_sprite_pattern)]
    pub fn sprite_pattern(&self) -> (on: bool)
        ensures
            on == self.spec_sprite_pattern(),
    {
        (self.0 / 8) % 2 == 1
    }

    #[verifier::when_used_as_spec(spec_background_pattern)]
    pub fn background_pattern(&self) -> (on: bool)
        ensures
            on == self.spec_background_pattern(),
    {
        (self.0 / 16) % 2 == 1
    }

    #[verifier::when_used_as_spec(spec_sprite_size)]
    pub fn sprite_size(&self) -> (on: bool)
        ensures
            on == self.spec_sprite_size(),
    {
        (self.0 / 32) % 2 == 1
    }

    #[verifier::when_used_as_spec(spec_master_slave)]
    pub fn master_slave(&self) -> (on: bool)
        ensures
            on == self.spec_master_slave(),
    {
        (self.0 / 64) % 2 == 1
    }

    #[verifier::when_used_as_spec(spec_nmi_enable)]
    pub fn nmi_enable(&self) -> (on: bool)
        ensures
            on == self.spec_nmi_enable(),
    {
        self.0 >= 128
    }
}

/// The mask port byte.
#[derive(Copy, Clone, Debug, PartialEq, Eq, Structural)]
pub struct PPUMask(pub u8);

impl PPUMask {
    pub open spec fn spec_greyscale(&self) -> bool {
        self.0 % 2 == 1
    }

    pub open spec fn spec_show_background_left(&self) -> bool {
        (self.0 / 2) % 2 == 1
    }

    pub open spec fn spec_show_sprite_left(&self) -> bool {
        (self.0 / 4) % 2 == 1
    }

    pub open spec fn spec_show_background(&self) -> bool {
        (self.0 / 8) % 2 == 1
    }

    pub open spec fn spec_show_sprite(&self) -> bool {
        (self.0 / 16) % 2 == 1
    }

    pub open spec fn spec_emphasize_red(&self) -> bool {
        (self.0 / 32) % 2 == 1
    }

    pub open spec fn spec_emphasize_green(&self) -> bool {
        (self.0 / 64) % 2 == 1
    }

    pub open spec fn spec_emphasize_blue(&self) -> bool {
        self.0 >= 128
    }

    /// Whether background or sprites are shown.
    pub open spec fn spec_rendering(&self) -> bool {
        self.spec_show_background() || self.spec_show_sprite()
    }

    #[verifier::when_used_as_spec(spec_greyscale)]
    pub fn greyscale(&self) -> (on: bool)
        ensures
            on == self.spec_greyscale(),
    {
        self.0 % 2 == 1
    }

    #[verifier::when_used_as_spec(spec_show_background_left)]
    pub fn show_background_left(&self) -> (on: bool)
        ensures
            on == self.spec_show_background_left(),
    {
        (self.0 / 2) % 2 == 1
    }

    #[verifier::when_used_as_spec(spec_show_sprite_left)]
    pub fn show_sprite_left(&self) -> (on: bool)
        ensures
            on == self.spec_show_sprite_left(),
    {
        (self.0 / 4) % 2 == 1
    }

    #[verifier::when_used_as_spec(spec_show_background)]
    pub fn show_background(&self) -> (on: bool)
        ensures
            on == self.spec_show_background(),
    {
        (self.0 / 8) % 2 == 1
    }

    #[verifier::when_used_as_spec(spec_show_sprite)]
    pub fn show_sprite(&self) -> (on: bool)
        ensures
            on == self.spec_show_sprite(),
    {
        (self.0 / 16) % 2 == 1
    }

    #[verifier::when_used_as_spec(spec_emphasize_red)]
    pub fn emphasize_red(&self) -> (on: bool)
        ensures
            on == self.spec_emphasize_red(),
    {
        (self.0 / 32) % 2 == 1
    }

    #[verifier::when_used_as_spec(spec_emphasize_green)]
    pub fn emphasize_green(&self) -> (on: bool)
        ensures
            on == self.spec_emphasize_green(),
    {
        (self.0 / 64) % 2 == 1
    }

    #[verifier::when_used_as_spec(spec_emphasize_blue)]
    pub fn emphasize_blue(&self) -> (on: bool)
        ensures
            on == self.spec_emphasize_blue(),
    {
        self.0 >= 128
    }

    #[verifier::when_used_as_spec(spec_rendering)]
    pub fn rendering(&self) -> (on: bool)
        ensures
            on == self.spec_rendering(),
    {
        self.show_background() || self.show_sprite()
    }
}

} // verus!
