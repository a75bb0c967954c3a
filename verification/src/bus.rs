use crate::error::CoreError;
use vstd::prelude::*;

verus! {

/// The byte-level capability of everything that can be bound to a bus.
///
/// A component is a deterministic state machine over its view: a read
/// answers with a byte (or with nothing, leaving the bus floating) and may
/// change the component; a write only changes it.
pub trait Addressable: View {
    /// The byte a read at `address` answers with, `None` for open bus.
    spec fn read_value(state: Self::V, address: u16) -> Option<u8>;

    /// The component after a read at `address`.
    spec fn after_read(state: Self::V, address: u16) -> Self::V;

    /// The component after `data` was written at `address`.
    spec fn after_write(state: Self::V, address: u16, data: u8) -> Self::V;

    fn read_byte(&mut self, address: u16) -> (value: Option<u8>)
        ensures
            value == Self::read_value(old(self)@, address),
            final(self)@ == Self::after_read(old(self)@, address),
    ;

    fn write_byte(&mut self, address: u16, data: u8)
        ensures
            final(self)@ == Self::after_write(old(self)@, address, data),
    ;
}

/// What a bus does with an address that no region claims.
#[derive(Debug, Clone, Copy, PartialEq, Eq, Structural)]
pub enum BusMode {
    /// Reads answer with the last byte seen on the bus, writes are dropped.
    OpenBus,
    /// Reads and writes fail with `CoreError::InvalidRegion`.
    Strict,
}

/// One binding of an address range, both ends included, to the component
/// in a slot of the bus.
#[derive(Copy, Clone, Debug, PartialEq, Eq, Structural)]
pub struct MemoryMapping {
    pub start: u16,
    pub end: u16,
    pub slot: usize,
}

impl MemoryMapping {
    /// Whether the bound range contains `address`.
    pub open spec fn covers(&self, address: u16) -> bool {
        self.start <= address <= self.end
    }
}

/// The index of the first mapping at or after `from` that covers `address`.
pub open spec fn first_match(regions: Seq<MemoryMapping>, address: u16, from: int) -> Option<int>
    decreases regions.len() - from,
{
    if from < 0 || from >= regions.len() {
        None
    } else if regions[from].covers(address) {
        Some(from)
    } else {
        first_match(regions, address, from + 1)
    }
}

/// The mathematical content of a bus over components with view `S`.
pub struct BusState<S> {
    pub regions: Seq<MemoryMapping>,
    pub components: Seq<S>,
    pub last_read: u8,
    pub mode: BusMode,
}

impl<S> BusState<S> {
    /// A bus without regions or components.
    pub open spec fn empty(mode: BusMode) -> Self {
        BusState { regions: Seq::empty(), components: Seq::empty(), last_read: 0, mode }
    }

    /// Every mapping points at an existing component.
    pub open spec fn wf(self) -> bool {
        forall|i: int|
            0 <= i < self.regions.len() ==> (#[trigger] self.regions[i]).slot < self.components.len()
    }

    /// The region that answers for `address`: the first registered one that
    /// covers it.
    pub open spec fn resolve(self, address: u16) -> Option<int> {
        first_match(self.regions, address, 0)
    }

    /// Whether some region claims `address`.
    pub open spec fn maps(self, address: u16) -> bool {
        self.resolve(address).is_some()
    }

    /// The slot of the component that answers for a claimed `address`.
    pub open spec fn slot_of(self, address: u16) -> int {
        self.regions[self.resolve(address).unwrap()].slot as int
    }

    /// The bus with `component` added and bound to `start..=end`, behind the
    /// regions that are there.
    pub open spec fn registered(self, start: u16, end: u16, component: S) -> Self {
        BusState {
            regions: self.regions.push(
                MemoryMapping { start, end, slot: self.components.len() as usize },
            ),
            components: self.components.push(component),
            ..self
        }
    }

    /// The bus with `start..=end` bound to the component that is in `slot`,
    /// behind the regions that are there.
    pub open spec fn shared(self, start: u16, end: u16, slot: usize) -> Self {
        BusState { regions: self.regions.push(MemoryMapping { start, end, slot }), ..self }
    }

    /// The bus with the component in `slot` replaced.
    pub open spec fn with_component(self, slot: int, component: S) -> Self {
        BusState { components: self.components.update(slot, component), ..self }
    }
}

/// `first_match` returns the least covering index, and `None` exactly when
/// no mapping from `from` on covers the address.
pub proof fn lemma_first_match(regions: Seq<MemoryMapping>, address: u16, from: int)
    requires
        0 <= from,
    ensures
        match first_match(regions, address, from) {
            Some(i) => from <= i < regions.len() && regions[i].covers(address) && forall|j: int|
                from <= j < i ==> !(#[trigger] regions[j]).covers(address),
            None => forall|j: int|
                from <= j < regions.len() ==> !(#[trigger] regions[j]).covers(address),
        },
    decreases regions.len() - from,
{
    if from < regions.len() && !regions[from].covers(address) {
        lemma_first_match(regions, address, from + 1);
    }
}

/// On overlap the earlier registration shadows the later one: an address is
/// answered by region `i` exactly when `i` covers it and no earlier region
/// does.
pub proof fn lemma_earlier_region_wins<S>(bus: BusState<S>, address: u16, i: int)
    ensures
        bus.resolve(address) == Some(i) <==> (0 <= i < bus.regions.len() && bus.regions[i].covers(
            address,
        ) && forall|j: int| 0 <= j < i ==> !(#[trigger] bus.regions[j]).covers(address)),
{
    lemma_first_match(bus.regions, address, 0);
}

/// An ordered table of address regions with the components bound to them.
pub struct Bus<C: Addressable> {
    regions: Vec<MemoryMapping>,
    components: Vec<C>,
    last_read: u8,
    mode: BusMode,
}

impl<C: Addressable> View for Bus<C> {
    type V = BusState<C::V>;

    closed spec fn view(&self) -> BusState<C::V> {
        BusState {
            regions: self.regions@,
            components: Seq::new(self.components.len() as nat, |i: int| self.components[i]@),
            last_read: self.last_read,
            mode: self.mode,
        }
    }
}

impl<C: Addressable> Bus<C> {
    #[verifier::type_invariant]
    spec fn inv(self) -> bool {
        self@.wf()
    }

    /// The result of reading one byte at `address`.
    pub open spec fn read_result(bus: BusState<C::V>, address: u16) -> Result<u8, CoreError> {
        if bus.maps(address) {
            match C::read_value(bus.components[bus.slot_of(address)], address) {
                Some(value) => Ok(value),
                None => Ok(bus.last_read),
            }
        } else if bus.mode is OpenBus {
            Ok(bus.last_read)
        } else {
            Err(CoreError::InvalidRegion(address))
        }
    }

    /// The bus after reading one byte at `address`.
    pub open spec fn after_read(bus: BusState<C::V>, address: u16) -> BusState<C::V> {
        if bus.maps(address) {
            let slot = bus.slot_of(address);
            let component = bus.components[slot];
            BusState {
                components: bus.components.update(slot, C::after_read(component, address)),
                last_read: match C::read_value(component, address) {
                    Some(value) => value,
                    None => bus.last_read,
                },
                ..bus
            }
        } else {
            bus
        }
    }

    /// The result of writing one byte at `address`.
    pub open spec fn write_result(bus: BusState<C::V>, address: u16) -> Result<(), CoreError> {
        if bus.maps(address) || bus.mode is OpenBus {
            Ok(())
        } else {
            Err(CoreError::InvalidRegion(address))
        }
    }

    /// The bus after writing `data` at `address`.
    pub open spec fn after_write(bus: BusState<C::V>, address: u16, data: u8) -> BusState<C::V> {
        if bus.maps(address) {
            let slot = bus.slot_of(address);
            bus.with_component(slot, C::after_write(bus.components[slot], address, data))
        } else {
            bus
        }
    }

    /// The address that follows `address` within its 256-byte page.
    pub open spec fn next_in_page(address: u16) -> u16 {
        (address & 0xFF00) | (address.wrapping_add(1) & 0x00FF)
    }

    /// The result of reading the low byte at `low` and the high byte at
    /// `high`, in that order.
    pub open spec fn read_pair_result(bus: BusState<C::V>, low: u16, high: u16) -> Result<
        u16,
        CoreError,
    > {
        match Self::read_result(bus, low) {
            Err(e) => Err(e),
            Ok(l) => match Self::read_result(Self::after_read(bus, low), high) {
                Err(e) => Err(e),
                Ok(h) => Ok(word(l, h)),
            },
        }
    }

    /// The bus after reading at `low` and then, if that succeeded, at `high`.
    pub open spec fn after_read_pair(bus: BusState<C::V>, low: u16, high: u16) -> BusState<C::V> {
        match Self::read_result(bus, low) {
            Err(_) => bus,
            Ok(_) => Self::after_read(Self::after_read(bus, low), high),
        }
    }

    /// A bus without regions that treats unmapped addresses as open bus.
    pub fn new() -> (bus: Self)
        ensures
            bus@ == BusState::<C::V>::empty(BusMode::OpenBus),
    {
        Self::with_mode(BusMode::OpenBus)
    }

    /// A bus without regions that handles unmapped addresses as `mode` says.
    pub fn with_mode(mode: BusMode) -> (bus: Self)
        ensures
            bus@ == BusState::<C::V>::empty(mode),
    {
        let bus = Bus { regions: Vec::new(), components: Vec::new(), last_read: 0, mode };
        assert(bus@.components =~= Seq::empty());
        assert(bus@.regions =~= Seq::empty());
        bus
    }

    /// Binds `component` to the addresses `start..=end` for the lifetime of
    /// the bus and returns the slot it was stored in. Earlier registrations
    /// keep priority.
    pub fn register_region(&mut self, start: u16, end: u16, component: C) -> (slot: usize)
        ensures
            slot == old(self)@.components.len(),
            final(self)@ == old(self)@.registered(start, end, component@),
    {
        proof {
            use_type_invariant(&*self);
        }
        let mut taken = Self::with_mode(self.mode);
        core::mem::swap(self, &mut taken);
        let Bus { mut regions, mut components, last_read, mode } = taken;
        let slot = components.len();
        components.push(component);
        regions.push(MemoryMapping { start, end, slot });
        let ghost grown = BusState::<C::V> {
            regions: regions@,
            components: Seq::new(components.len() as nat, |i: int| components[i]@),
            last_read,
            mode,
        };
        proof {
            assert(grown.components =~= old(self)@.components.push(component@));
            assert(grown == old(self)@.registered(start, end, component@));
        }
        *self = Bus { regions, components, last_read, mode };
        slot
    }

    /// Binds the further addresses `start..=end` to the component already
    /// stored in `slot`, so that one component answers for several ranges.
    /// Returns whether the slot exists; nothing is bound when it does not.
    pub fn share_region(&mut self, start: u16, end: u16, slot: usize) -> (bound: bool)
        ensures
            bound == (slot < old(self)@.components.len()),
            final(self)@ == (if bound {
                old(self)@.shared(start, end, slot)
            } else {
                old(self)@
            }),
    {
        proof {
            use_type_invariant(&*self);
        }
        if slot >= self.components.len() {
            return false;
        }
        let mut taken = Self::with_mode(self.mode);
        core::mem::swap(self, &mut taken);
        let Bus { mut regions, components, last_read, mode } = taken;
        regions.push(MemoryMapping { start, end, slot });
        let ghost grown = BusState::<C::V> {
            regions: regions@,
            components: Seq::new(components.len() as nat, |i: int| components[i]@),
            last_read,
            mode,
        };
        proof {
            assert(grown.components =~= old(self)@.components);
            assert(grown == old(self)@.shared(start, end, slot));
        }
        *self = Bus { regions, components, last_read, mode };
        true
    }

    /// The last byte that a component answered with.
    pub fn last_read(&self) -> (value: u8)
        ensures
            value == self@.last_read,
    {
        self.last_read
    }

    /// What the bus does with addresses that no region claims.
    pub fn mode(&self) -> (mode: BusMode)
        ensures
            mode == self@.mode,
    {
        self.mode
    }

    /// The number of registered regions.
    pub fn region_count(&self) -> (count: usize)
        ensures
            count == self@.regions.len(),
    {
        self.regions.len()
    }

    /// The component stored in `slot`, if there is one.
    pub fn component(&self, slot: usize) -> (found: Option<&C>)
        ensures
            match found {
                Some(c) => slot < self@.components.len() && c@ == self@.components[slot as int],
                None => slot >= self@.components.len(),
            },
    {
        if slot < self.components.len() {
            Some(&self.components[slot])
        } else {
            None
        }
    }

    /// Mutable access to the component stored in `slot`, if there is one.
    /// Regions, the other components and the last-seen byte stay as they
    /// are.
    pub fn component_mut(&mut self, slot: usize) -> (found: Option<&mut C>)
        ensures
            match found {
                Some(c) => slot < old(self)@.components.len() && c@ == old(self)@.components[slot as int]
                    && final(self)@ == old(self)@.with_component(slot as int, final(c)@),
                None => slot >= old(self)@.components.len() && final(self)@ == old(self)@,
            },
    {
        proof {
            use_type_invariant(&*self);
        }
        if slot < self.components.len() {
            let c = &mut self.components[slot];
            proof {
                assert(forall|v: Vec<C>|
                    v@ == old(self).components@.update(slot as int, *final(c)) ==> Seq::new(
                        v.len() as nat,
                        |i: int| v[i]@,
                    ) =~= old(self)@.components.update(slot as int, final(c)@));
            }
            Some(c)
        } else {
            None
        }
    }

    /// The index of the region that answers for `address`.
    fn find(&self, address: u16) -> (found: Option<usize>)
        ensures
            match found {
                Some(i) => i < self@.regions.len() && self@.resolve(address) == Some(i as int),
                None => self@.resolve(address).is_none(),
            },
    {
        let mut i: usize = 0;
        while i < self.regions.len()
            invariant
                0 <= i <= self.regions.len(),
                first_match(self@.regions, address, 0) == first_match(
                    self@.regions,
                    address,
                    i as int,
                ),
            decreases self.regions.len() - i,
        {
            if self.regions[i].start <= address && address <= self.regions[i].end {
                return Some(i);
            }
            i += 1;
        }
        None
    }

    /// Reads the byte at `address` from the first region that covers it. A
    /// byte that a component answers with becomes the bus's last-seen byte;
    /// a component that leaves the bus floating, or an unmapped address on
    /// an open bus, yields the last-seen byte.
    pub fn read_byte(&mut self, address: u16) -> (value: Result<u8, CoreError>)
        ensures
            value == Self::read_result(old(self)@, address),
            final(self)@ == Self::after_read(old(self)@, address),
    {
        proof {
            use_type_invariant(&*self);
        }
        match self.find(address) {
            Some(i) => {
                let slot = self.regions[i].slot;
                let answer = self.components[slot].read_byte(address);
                if let Some(value) = answer {
                    self.last_read = value;
                }
                proof {
                    assert(self@.components =~= Self::after_read(
                        old(self)@,
                        address,
                    ).components);
                }
                Ok(self.last_read)
            },
            None => match self.mode {
                BusMode::OpenBus => Ok(self.last_read),
                BusMode::Strict => Err(CoreError::InvalidRegion(address)),
            },
        }
    }

    /// Writes `data` at `address` to the first region that covers it. On an
    /// open bus a write to an unmapped address is dropped.
    pub fn write_byte(&mut self, address: u16, data: u8) -> (done: Result<(), CoreError>)
        ensures
            done == Self::write_result(old(self)@, address),
            final(self)@ == Self::after_write(old(self)@, address, data),
    {
        proof {
            use_type_invariant(&*self);
        }
        match self.find(address) {
            Some(i) => {
                let slot = self.regions[i].slot;
                self.components[slot].write_byte(address, data);
                proof {
                    assert(self@.components =~= Self::after_write(
                        old(self)@,
                        address,
                        data,
                    ).components);
                }
                Ok(())
            },
            None => match self.mode {
                BusMode::OpenBus => Ok(()),
                BusMode::Strict => Err(CoreError::InvalidRegion(address)),
            },
        }
    }

    /// Reads a little-endian word: the low byte at `address`, the high byte
    /// at the following address (which wraps at the top of the address
    /// space).
    pub fn read_word(&mut self, address: u16) -> (value: Result<u16, CoreError>)
        ensures
            value == Self::read_pair_result(old(self)@, address, address.wrapping_add(1)),
            final(self)@ == Self::after_read_pair(old(self)@, address, address.wrapping_add(1)),
    {
        let low = self.read_byte(address)?;
        let high = self.read_byte(address.wrapping_add(1))?;
        Ok(make_word(low, high))
    }

    /// Reads a little-endian word whose high byte comes from the same
    /// 256-byte page as the low byte: the increment of the address never
    /// carries into its high byte.
    pub fn read_word_bug(&mut self, address: u16) -> (value: Result<u16, CoreError>)
        ensures
            value == Self::read_pair_result(old(self)@, address, Self::next_in_page(address)),
            final(self)@ == Self::after_read_pair(
                old(self)@,
                address,
                Self::next_in_page(address),
            ),
    {
        let low = self.read_byte(address)?;
        let high = self.read_byte((address & 0xFF00) | (address.wrapping_add(1) & 0x00FF))?;
        Ok(make_word(low, high))
    }

    /// Writes a little-endian word: the low byte at `address`, the high byte
    /// at the following address. Nothing more is written once a write fails.
    pub fn write_word(&mut self, address: u16, data: u16) -> (done: Result<(), CoreError>)
        ensures
            done == (match Self::write_result(old(self)@, address) {
                Err(e) => Err(e),
                Ok(_) => Self::write_result(
                    Self::after_write(old(self)@, address, low_byte(data)),
                    address.wrapping_add(1),
                ),
            }),
            final(self)@ == (match Self::write_result(old(self)@, address) {
                Err(_) => old(self)@,
                Ok(_) => Self::after_write(
                    Self::after_write(old(self)@, address, low_byte(data)),
                    address.wrapping_add(1),
                    high_byte(data),
                ),
            }),
    {
        self.write_byte(address, split_low(data))?;
        self.write_byte(address.wrapping_add(1), split_high(data))
    }
}

/// The word with low byte `low` and high byte `high`.
pub open spec fn word(low: u8, high: u8) -> u16 {
    (low as u16) | ((high as u16) << 8)
}

/// The low byte of `data`.
pub open spec fn low_byte(data: u16) -> u8 {
    (data & 0xFF) as u8
}

/// The high byte of `data`.
pub open spec fn high_byte(data: u16) -> u8 {
    (data >> 8) as u8
}

/// `word` is the positional value of its two bytes, and the two halves of a
/// word put together give the word back.
pub proof fn lemma_word_bytes(low: u8, high: u8, data: u16)
    ensures
        word(low, high) == low as int + 256 * (high as int),
        low_byte(word(low, high)) == low,
        high_byte(word(low, high)) == high,
        word(low_byte(data), high_byte(data)) == data,
        low_byte(data) == data as int % 256,
        high_byte(data) == data as int / 256,
{
    assert(((low as u16) | ((high as u16) << 8)) == (low as u16) + 256 * (high as u16))
        by (bit_vector);
    assert((((low as u16) | ((high as u16) << 8)) & 0xFF) as u8 == low) by (bit_vector);
    assert((((low as u16) | ((high as u16) << 8)) >> 8) as u8 == high) by (bit_vector);
    assert((((data & 0xFF) as u8) as u16) | ((((data >> 8) as u8) as u16) << 8) == data)
        by (bit_vector);
    assert((data & 0xFF) as u8 == data % 256) by (bit_vector);
    assert((data >> 8) as u8 == data / 256) by (bit_vector);
}

/// Composes a word from its two bytes.
pub fn make_word(low: u8, high: u8) -> (value: u16)
    ensures
        value == word(low, high),
{
    (low as u16) | ((high as u16) << 8)
}

/// The low byte of a word.
pub fn split_low(data: u16) -> (value: u8)
    ensures
        value == low_byte(data),
{
    (data & 0xFF) as u8
}

/// The high byte of a word.
pub fn split_high(data: u16) -> (value: u8)
    ensures
        value == high_byte(data),
{
    (data >> 8) as u8
}

} // verus!
