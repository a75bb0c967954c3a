use crate::bus::{lemma_earlier_region_wins, Addressable};
use crate::component::{Component, ComponentState};
use crate::cpu::dma::OamDmaRequest;
use crate::cpu::processor::{reading, writing, CpuState, Memory};
use crate::cpu::step::{copying, dma_pending, dma_request, ticking, with_dma_served};
use crate::error::CoreError;
use crate::ppu::ports::port_after_write;
use crate::ppu::registers::OAMDATA;
use crate::ppu::unit::PpuState;
use vstd::prelude::*;

verus! {

/// Byte `place` (0 to 255) of the object table.
pub open spec fn oam_byte(p: PpuState, place: int) -> u8 {
    p.primary_oam[place / 4].spec_byte((place % 4) as u8)
}

/// How many bytes behind `start` the byte `place` of the object table lies,
/// going round the table.
pub open spec fn places_behind(place: int, start: int) -> int {
    (place - start + 256) % 256
}

/// The video unit after `data` was written to its object data port.
#[verifier::opaque]
pub open spec fn oam_put(p: PpuState, data: u8) -> PpuState {
    port_after_write(p, OAMDATA, data)
}

/// The video unit after `count` bytes of work memory `ram`, from address
/// `source` on, were written to its object data port one after the other.
pub open spec fn oam_filled(p: PpuState, ram: Seq<u8>, source: u16, count: nat) -> PpuState
    decreases count,
{
    if count == 0 {
        p
    } else {
        oam_filled(
            oam_put(p, ram[source as int % 0x800]),
            ram,
            source.wrapping_add(1),
            (count - 1) as nat,
        )
    }
}

/// A write to the object data port puts the byte at the object address,
/// moves the address on by one and leaves the other bytes of the table as
/// they are.
pub proof fn lemma_oam_write(p: PpuState, data: u8)
    requires
        p.primary_oam.len() == 64,
    ensures
        oam_put(p, data).primary_oam.len() == 64,
        oam_put(p, data).regs.oam_address == p.regs.oam_address.wrapping_add(1),
        forall|place: int|
            0 <= place < 256 ==> #[trigger] oam_byte(oam_put(p, data), place) == (if place
                == p.regs.oam_address {
                data
            } else {
                oam_byte(p, place)
            }),
{
    reveal(oam_put);
}

/// After `count` bytes (at most 256) went to the object data port, the
/// object address has moved on by `count`, each byte lies where the address
/// stood when it was written, and the rest of the table is as it was.
pub proof fn lemma_oam_filled(p: PpuState, ram: Seq<u8>, source: u16, count: nat)
    requires
        p.primary_oam.len() == 64,
        count <= 256,
    ensures
        oam_filled(p, ram, source, count).primary_oam.len() == 64,
        oam_filled(p, ram, source, count).regs.oam_address == (p.regs.oam_address + count) % 256,
        forall|place: int|
            0 <= place < 256 ==> #[trigger] oam_byte(oam_filled(p, ram, source, count), place)
                == (if places_behind(place, p.regs.oam_address as int) < count {
                ram[source.wrapping_add(
                    places_behind(place, p.regs.oam_address as int) as u16,
                ) as int % 0x800]
            } else {
                oam_byte(p, place)
            }),
    decreases count,
{
    if count > 0 {
        let first = oam_put(p, ram[source as int % 0x800]);
        lemma_oam_write(p, ram[source as int % 0x800]);
        lemma_oam_filled(first, ram, source.wrapping_add(1), (count - 1) as nat);
        let last = oam_filled(p, ram, source, count);
        let start = p.regs.oam_address as int;
        assert forall|place: int| 0 <= place < 256 implies #[trigger] oam_byte(last, place) == (
        if places_behind(place, start) < count {
            ram[source.wrapping_add(places_behind(place, start) as u16) as int % 0x800]
        } else {
            oam_byte(p, place)
        }) by {
            let behind = places_behind(place, start);
            let behind_first = places_behind(place, first.regs.oam_address as int);
            if place == start {
                assert(behind == 0);
                assert(behind_first == 255);
                assert(oam_byte(first, place) == ram[source as int % 0x800]);
            } else {
                assert(behind_first == behind - 1);
                assert(source.wrapping_add(1).wrapping_add(behind_first as u16)
                    == source.wrapping_add(behind as u16));
                assert(oam_byte(first, place) == oam_byte(p, place));
            }
        }
    }
}

/// The video unit in a slot of the bus.
pub open spec fn video_in(bus: Memory, slot: int) -> PpuState {
    match bus.components[slot] {
        ComponentState::Video(unit) => unit,
        _ => arbitrary(),
    }
}

/// The bus as a transfer needs it: work memory `ram` sits in `ram_slot`, a
/// video unit in `video_slot`, and the object data port is answered by that
/// video unit.
#[verifier::opaque]
pub open spec fn wired(bus: Memory, ram_slot: int, video_slot: int, ram: Seq<u8>) -> bool {
    &&& 0 <= ram_slot < bus.components.len()
    &&& 0 <= video_slot < bus.components.len()
    &&& bus.components[ram_slot] == ComponentState::Ram(ram)
    &&& ram.len() == 0x800
    &&& bus.components[video_slot] is Video
    &&& video_in(bus, video_slot).primary_oam.len() == 64
    &&& bus.maps(OAMDATA)
    &&& bus.slot_of(OAMDATA) == video_slot
}

/// Whether the `count` addresses from `source` on are answered by the work
/// memory in `ram_slot`.
#[verifier::opaque]
pub open spec fn page_in_ram(bus: Memory, ram_slot: int, source: u16, count: nat) -> bool {
    forall|k: int|
        0 <= k < count ==> bus.maps(#[trigger] source.wrapping_add(k as u16)) && bus.slot_of(
            source.wrapping_add(k as u16),
        ) == ram_slot
}

/// A read that work memory answers gives the byte that the memory holds at
/// the address, and changes nothing but the last-seen byte of the bus.
pub proof fn lemma_read_from_ram(s: CpuState, address: u16, ram_slot: int, ram: Seq<u8>)
    requires
        s.bus.maps(address),
        s.bus.slot_of(address) == ram_slot,
        0 <= ram_slot < s.bus.components.len(),
        s.bus.components[ram_slot] == ComponentState::Ram(ram),
        ram.len() == 0x800,
    ensures
        reading(s, address).result == Ok::<u8, CoreError>(ram[address as int % 0x800]),
        reading(s, address).state == (CpuState {
            bus: Memory { last_read: ram[address as int % 0x800], ..s.bus },
            ..s
        }),
{
    assert(reading(s, address).state.bus.components =~= s.bus.components);
}

/// A write to the object data port that a video unit answers cannot fail
/// and changes nothing but that video unit.
pub proof fn lemma_write_to_oam(s: CpuState, data: u8, video_slot: int)
    requires
        s.bus.maps(OAMDATA),
        s.bus.slot_of(OAMDATA) == video_slot,
        0 <= video_slot < s.bus.components.len(),
        s.bus.components[video_slot] is Video,
    ensures
        writing(s, OAMDATA, data).result.is_ok(),
        writing(s, OAMDATA, data).state == (CpuState {
            bus: s.bus.with_component(
                video_slot,
                ComponentState::Video(oam_put(video_in(s.bus, video_slot), data)),
            ),
            ..s
        }),
{
    reveal(oam_put);
}

/// The state after one byte of a transfer from work memory went to the
/// object data port.
#[verifier::opaque]
pub open spec fn byte_copied(s: CpuState, source: u16, video_slot: int, ram: Seq<u8>) -> CpuState {
    CpuState {
        bus: Memory {
            last_read: ram[source as int % 0x800],
            components: s.bus.components.update(
                video_slot,
                ComponentState::Video(
                    oam_put(video_in(s.bus, video_slot), ram[source as int % 0x800]),
                ),
            ),
            ..s.bus
        },
        ..s
    }
}

/// The state `byte_copied` is wired as the state before it, and the rest
/// of the page is answered by work memory as the page was.
pub proof fn lemma_round_keeps_wiring(
    s: CpuState,
    source: u16,
    count: nat,
    ram_slot: int,
    video_slot: int,
    ram: Seq<u8>,
)
    requires
        0 < count <= 256,
        wired(s.bus, ram_slot, video_slot, ram),
        page_in_ram(s.bus, ram_slot, source, count),
    ensures
        wired(byte_copied(s, source, video_slot, ram).bus, ram_slot, video_slot, ram),
        page_in_ram(
            byte_copied(s, source, video_slot, ram).bus,
            ram_slot,
            source.wrapping_add(1),
            (count - 1) as nat,
        ),
{
    reveal(wired);
    reveal(page_in_ram);
    reveal(byte_copied);
    let value = ram[source as int % 0x800];
    lemma_oam_write(video_in(s.bus, video_slot), value);
    let next = byte_copied(s, source, video_slot, ram);
    assert(next.bus.regions == s.bus.regions);
    assert(next.bus.components[video_slot] == ComponentState::Video(
        oam_put(video_in(s.bus, video_slot), value),
    ));
    assert(next.bus.components[ram_slot] == s.bus.components[ram_slot]);
    assert forall|k: int| 0 <= k < count - 1 implies next.bus.maps(
        #[trigger] source.wrapping_add(1).wrapping_add(k as u16),
    ) && next.bus.slot_of(source.wrapping_add(1).wrapping_add(k as u16)) == ram_slot by {
        assert(source.wrapping_add(1).wrapping_add(k as u16) == source.wrapping_add(
            (k + 1) as u16,
        ));
    }
}

/// One round of the copy of a transfer from work memory: the byte is read
/// and written without fail, and leaves the state `byte_copied`.
pub proof fn lemma_round_state(
    s: CpuState,
    source: u16,
    ram_slot: int,
    video_slot: int,
    ram: Seq<u8>,
)
    requires
        wired(s.bus, ram_slot, video_slot, ram),
        s.bus.maps(source),
        s.bus.slot_of(source) == ram_slot,
    ensures
        reading(s, source).result == Ok::<u8, CoreError>(ram[source as int % 0x800]),
        writing(reading(s, source).state, OAMDATA, ram[source as int % 0x800]).result.is_ok(),
        writing(reading(s, source).state, OAMDATA, ram[source as int % 0x800]).state
            == byte_copied(s, source, video_slot, ram),
{
    reveal(wired);
    reveal(byte_copied);
    let value = ram[source as int % 0x800];
    lemma_read_from_ram(s, source, ram_slot, ram);
    let read = reading(s, source).state;
    assert(read.bus.regions == s.bus.regions);
    assert(read.bus.components == s.bus.components);
    lemma_write_to_oam(read, value, video_slot);
    assert(video_in(read.bus, video_slot) == video_in(s.bus, video_slot));
}

/// A round of a copy that reads and writes its byte without fail goes on
/// from the state that the write leaves.
pub proof fn lemma_copy_unfolds(s: CpuState, source: u16, count: nat, value: u8, next: CpuState)
    requires
        count > 0,
        reading(s, source).result == Ok::<u8, CoreError>(value),
        writing(reading(s, source).state, OAMDATA, value).result.is_ok(),
        writing(reading(s, source).state, OAMDATA, value).state == next,
    ensures
        copying(s, source, count) == copying(next, source.wrapping_add(1), (count - 1) as nat),
{
}

/// What one round of a copy from work memory changes: the last-seen byte
/// of the bus and the video unit, which took the byte.
pub proof fn lemma_round_changes(s: CpuState, source: u16, video_slot: int, ram: Seq<u8>)
    requires
        0 <= video_slot < s.bus.components.len(),
    ensures
        byte_copied(s, source, video_slot, ram) == (CpuState {
            bus: byte_copied(s, source, video_slot, ram).bus,
            ..s
        }),
        byte_copied(s, source, video_slot, ram).bus.regions == s.bus.regions,
        byte_copied(s, source, video_slot, ram).bus.mode == s.bus.mode,
        byte_copied(s, source, video_slot, ram).bus.components.len() == s.bus.components.len(),
        forall|i: int|
            0 <= i < s.bus.components.len() && i != video_slot ==> #[trigger] byte_copied(
                s,
                source,
                video_slot,
                ram,
            ).bus.components[i] == s.bus.components[i],
        video_in(byte_copied(s, source, video_slot, ram).bus, video_slot) == oam_put(
            video_in(s.bus, video_slot),
            ram[source as int % 0x800],
        ),
{
    reveal(byte_copied);
}

/// One round of the copy of a transfer from work memory: the copy goes on
/// from the state `byte_copied`.
pub proof fn lemma_copy_round(
    s: CpuState,
    source: u16,
    count: nat,
    ram_slot: int,
    video_slot: int,
    ram: Seq<u8>,
)
    requires
        count > 0,
        wired(s.bus, ram_slot, video_slot, ram),
        s.bus.maps(source),
        s.bus.slot_of(source) == ram_slot,
    ensures
        copying(s, source, count) == copying(
            byte_copied(s, source, video_slot, ram),
            source.wrapping_add(1),
            (count - 1) as nat,
        ),
{
    lemma_round_state(s, source, ram_slot, video_slot, ram);
    lemma_copy_unfolds(
        s,
        source,
        count,
        ram[source as int % 0x800],
        byte_copied(s, source, video_slot, ram),
    );
}

/// What the wiring says of the slots and of the first address of a page.
pub proof fn lemma_wiring(
    bus: Memory,
    ram_slot: int,
    video_slot: int,
    ram: Seq<u8>,
    source: u16,
    count: nat,
)
    requires
        wired(bus, ram_slot, video_slot, ram),
        page_in_ram(bus, ram_slot, source, count),
    ensures
        0 <= ram_slot < bus.components.len(),
        0 <= video_slot < bus.components.len(),
        ram_slot != video_slot,
        bus.components[ram_slot] == ComponentState::Ram(ram),
        bus.components[video_slot] == ComponentState::Video(video_in(bus, video_slot)),
        video_in(bus, video_slot).primary_oam.len() == 64,
        count > 0 ==> bus.maps(source) && bus.slot_of(source) == ram_slot,
{
    reveal(wired);
    reveal(page_in_ram);
    if count > 0 {
        let first: int = 0;
        assert(bus.maps(source.wrapping_add(first as u16)));
        assert(source.wrapping_add(first as u16) == source);
    }
}

/// The outcome of the copy of a transfer.
#[verifier::opaque]
pub open spec fn copied(s: CpuState, source: u16, count: nat) -> crate::cpu::processor::Step<()> {
    copying(s, source, count)
}

/// A copy of no byte changes nothing; a copy from work memory goes on from
/// the state `byte_copied`.
pub proof fn lemma_copied_unfolds(
    s: CpuState,
    source: u16,
    count: nat,
    ram_slot: int,
    video_slot: int,
    ram: Seq<u8>,
)
    requires
        wired(s.bus, ram_slot, video_slot, ram),
        page_in_ram(s.bus, ram_slot, source, count),
    ensures
        count == 0 ==> copied(s, source, count) == (crate::cpu::processor::Step::<()> {
            state: s,
            result: Ok(()),
        }),
        count > 0 ==> copied(s, source, count) == copied(
            byte_copied(s, source, video_slot, ram),
            source.wrapping_add(1),
            (count - 1) as nat,
        ),
{
    reveal(copied);
    if count > 0 {
        lemma_wiring(s.bus, ram_slot, video_slot, ram, source, count);
        lemma_copy_round(s, source, count, ram_slot, video_slot, ram);
    }
}

/// The copy of a transfer from work memory: it cannot fail, and it changes
/// nothing but the last-seen byte of the bus and the video unit, whose
/// object data port takes the bytes in order.
pub proof fn lemma_copied_from_ram(
    s: CpuState,
    source: u16,
    count: nat,
    ram_slot: int,
    video_slot: int,
    ram: Seq<u8>,
)
    requires
        count <= 256,
        wired(s.bus, ram_slot, video_slot, ram),
        page_in_ram(s.bus, ram_slot, source, count),
    ensures
        copied(s, source, count).result.is_ok(),
        copied(s, source, count).state == (CpuState {
            bus: copied(s, source, count).state.bus,
            ..s
        }),
        copied(s, source, count).state.bus.regions == s.bus.regions,
        copied(s, source, count).state.bus.mode == s.bus.mode,
        copied(s, source, count).state.bus.components.len() == s.bus.components.len(),
        forall|i: int|
            0 <= i < s.bus.components.len() && i != video_slot ==> #[trigger] copied(
                s,
                source,
                count,
            ).state.bus.components[i] == s.bus.components[i],
        copied(s, source, count).state.bus.components[video_slot] == ComponentState::Video(
            oam_filled(video_in(s.bus, video_slot), ram, source, count),
        ),
    decreases count,
{
    lemma_copied_unfolds(s, source, count, ram_slot, video_slot, ram);
    lemma_wiring(s.bus, ram_slot, video_slot, ram, source, count);
    if count > 0 {
        let next = byte_copied(s, source, video_slot, ram);
        lemma_round_keeps_wiring(s, source, count, ram_slot, video_slot, ram);
        lemma_round_changes(s, source, video_slot, ram);
        lemma_copied_from_ram(
            next,
            source.wrapping_add(1),
            (count - 1) as nat,
            ram_slot,
            video_slot,
            ram,
        );
        let last = copied(next, source.wrapping_add(1), (count - 1) as nat).state;
        assert forall|i: int|
            0 <= i < s.bus.components.len() && i != video_slot implies #[trigger] last.bus.components[i]
            == s.bus.components[i] by {
            assert(last.bus.components[i] == next.bus.components[i]);
        }
    }
}

/// The copy of a transfer from work memory, in terms of `copying`.
pub proof fn lemma_copy_from_ram(
    s: CpuState,
    source: u16,
    count: nat,
    ram_slot: int,
    video_slot: int,
    ram: Seq<u8>,
)
    requires
        count <= 256,
        wired(s.bus, ram_slot, video_slot, ram),
        page_in_ram(s.bus, ram_slot, source, count),
    ensures
        copying(s, source, count) == copied(s, source, count),
        copied(s, source, count).result.is_ok(),
        copied(s, source, count).state == (CpuState {
            bus: copied(s, source, count).state.bus,
            ..s
        }),
        copied(s, source, count).state.bus.regions == s.bus.regions,
        copied(s, source, count).state.bus.components.len() == s.bus.components.len(),
        forall|i: int|
            0 <= i < s.bus.components.len() && i != video_slot ==> #[trigger] copied(
                s,
                source,
                count,
            ).state.bus.components[i] == s.bus.components[i],
        copied(s, source, count).state.bus.components[video_slot] == ComponentState::Video(
            oam_filled(video_in(s.bus, video_slot), ram, source, count),
        ),
{
    reveal(copied);
    lemma_copied_from_ram(s, source, count, ram_slot, video_slot, ram);
}

/// Idling the latch leaves the bus wired as it was.
pub proof fn lemma_served_wired(
    s: CpuState,
    request: OamDmaRequest,
    ram_slot: int,
    video_slot: int,
    ram: Seq<u8>,
)
    requires
        dma_request(s) == Some(request),
        wired(s.bus, ram_slot, video_slot, ram),
        page_in_ram(s.bus, ram_slot, request.address, 256),
    ensures
        with_dma_served(s, request) == (CpuState { bus: with_dma_served(s, request).bus, ..s }),
        with_dma_served(s, request).bus.regions == s.bus.regions,
        with_dma_served(s, request).bus.components == s.bus.components.update(
            s.oam_slot as int,
            ComponentState::Dma(
                OamDmaRequest { address: request.address.wrapping_add(256), length: 0 },
            ),
        ),
        s.oam_slot != ram_slot && s.oam_slot != video_slot,
        0 <= s.oam_slot < s.bus.components.len(),
        wired(with_dma_served(s, request).bus, ram_slot, video_slot, ram),
        page_in_ram(with_dma_served(s, request).bus, ram_slot, request.address, 256),
        video_in(with_dma_served(s, request).bus, video_slot) == video_in(s.bus, video_slot),
{
    reveal(wired);
    reveal(page_in_ram);
    let served = with_dma_served(s, request);
    assert(served.bus.regions == s.bus.regions);
    assert(served.bus.components[ram_slot] == s.bus.components[ram_slot]);
    assert(served.bus.components[video_slot] == s.bus.components[video_slot]);
}

/// The places of the object table that a full transfer fills, counted from
/// where the object address stood.
pub proof fn lemma_filled_places(unit: PpuState, ram: Seq<u8>, source: u16)
    requires
        unit.primary_oam.len() == 64,
    ensures
        oam_filled(unit, ram, source, 256).regs.oam_address == unit.regs.oam_address,
        forall|k: int|
            0 <= k < 256 ==> #[trigger] oam_byte(
                oam_filled(unit, ram, source, 256),
                (unit.regs.oam_address + k) % 256,
            ) == ram[source.wrapping_add(k as u16) as int % 0x800],
{
    lemma_oam_filled(unit, ram, source, 256);
    let filled = oam_filled(unit, ram, source, 256);
    assert forall|k: int| 0 <= k < 256 implies #[trigger] oam_byte(
        filled,
        (unit.regs.oam_address + k) % 256,
    ) == ram[source.wrapping_add(k as u16) as int % 0x800] by {
        assert(places_behind((unit.regs.oam_address + k) % 256, unit.regs.oam_address as int)
            == k);
    }
}

/// The copy of a pending transfer from a page of work memory, after the
/// latch was idled: it runs to its end and leaves the page in the object
/// table, behind where the object address stood.
pub proof fn lemma_served_copy(
    s: CpuState,
    request: OamDmaRequest,
    ram_slot: int,
    video_slot: int,
    ram: Seq<u8>,
)
    requires
        dma_request(s) == Some(request),
        wired(s.bus, ram_slot, video_slot, ram),
        page_in_ram(s.bus, ram_slot, request.address, 256),
    ensures
        ({
            let copied = copying(with_dma_served(s, request), request.address, 256);
            let unit = video_in(s.bus, video_slot);
            &&& copied.result.is_ok()
            &&& copied.state == (CpuState { bus: copied.state.bus, ..s })
            &&& copied.state.bus.regions == s.bus.regions
            &&& copied.state.bus.components.len() == s.bus.components.len()
            &&& copied.state.bus.components[s.oam_slot as int] == ComponentState::Dma(
                OamDmaRequest { address: request.address.wrapping_add(256), length: 0 },
            )
            &&& copied.state.bus.components[ram_slot] == ComponentState::Ram(ram)
            &&& forall|i: int|
                0 <= i < s.bus.components.len() && i != video_slot && i != s.oam_slot
                    ==> #[trigger] copied.state.bus.components[i] == s.bus.components[i]
            &&& copied.state.bus.components[video_slot] is Video
            &&& video_in(copied.state.bus, video_slot).regs.oam_address
                == unit.regs.oam_address
            &&& forall|k: int|
                0 <= k < 256 ==> #[trigger] oam_byte(
                    video_in(copied.state.bus, video_slot),
                    (unit.regs.oam_address + k) % 256,
                ) == ram[request.address.wrapping_add(k as u16) as int % 0x800]
        }),
{
    let served = with_dma_served(s, request);
    let unit = video_in(s.bus, video_slot);
    lemma_served_wired(s, request, ram_slot, video_slot, ram);
    lemma_wiring(s.bus, ram_slot, video_slot, ram, request.address, 256);
    lemma_copy_from_ram(served, request.address, 256, ram_slot, video_slot, ram);
    lemma_filled_places(unit, ram, request.address);
    let last = copied(served, request.address, 256).state;
    assert(last.bus.components[s.oam_slot as int] == served.bus.components[s.oam_slot as int]);
    assert(last.bus.components[ram_slot] == served.bus.components[ram_slot]);
    assert(video_in(last.bus, video_slot) == oam_filled(unit, ram, request.address, 256));
    assert forall|i: int|
        0 <= i < s.bus.components.len() && i != video_slot && i != s.oam_slot
            implies #[trigger] last.bus.components[i] == s.bus.components[i] by {
        assert(last.bus.components[i] == served.bus.components[i]);
    }
}

/// A transfer from a page of work memory to a video unit: when the page
/// that the latch names is answered by work memory and the object data port
/// by a video unit, the step reports 513 cycles, or 514 from an odd cycle,
/// and after it
/// - byte k of the page lies k places behind where the object address stood,
///   for every k below 256, so that with the object address at 0 the object
///   table is the page, and the object address stands where it stood;
/// - no transfer is pending;
/// - the registers of the processor, its program counter among them, are
///   as they were, and so is every component but the latch and the video
///   unit.
pub proof fn lemma_transfer_copies_page(s: CpuState, ram_slot: int, video_slot: int, ram: Seq<u8>)
    requires
        dma_pending(s),
        wired(s.bus, ram_slot, video_slot, ram),
        page_in_ram(s.bus, ram_slot, dma_request(s).unwrap().address, 256),
    ensures
        ticking(s).result == Ok::<usize, CoreError>(
            if s.cycles % 2 == 1 {
                514usize
            } else {
                513usize
            },
        ),
        !dma_pending(ticking(s).state),
        ticking(s).state == (CpuState {
            bus: ticking(s).state.bus,
            cycles: ticking(s).state.cycles,
            ..s
        }),
        ticking(s).state.bus.regions == s.bus.regions,
        ticking(s).state.bus.components[ram_slot] == ComponentState::Ram(ram),
        forall|i: int|
            0 <= i < s.bus.components.len() && i != video_slot && i != s.oam_slot
                ==> #[trigger] ticking(s).state.bus.components[i] == s.bus.components[i],
        ticking(s).state.bus.components[video_slot] is Video,
        video_in(ticking(s).state.bus, video_slot).regs.oam_address == video_in(
            s.bus,
            video_slot,
        ).regs.oam_address,
        forall|k: int|
            0 <= k < 256 ==> #[trigger] oam_byte(
                video_in(ticking(s).state.bus, video_slot),
                (video_in(s.bus, video_slot).regs.oam_address + k) % 256,
            ) == ram[dma_request(s).unwrap().address.wrapping_add(k as u16) as int % 0x800],
{
    let request = dma_request(s).unwrap();
    lemma_served_copy(s, request, ram_slot, video_slot, ram);
    lemma_wiring(s.bus, ram_slot, video_slot, ram, request.address, 256);
    let last = copying(with_dma_served(s, request), request.address, 256);
    assert(ticking(s).state.bus == last.state.bus);
}

/// A bus meets the conditions of `lemma_transfer_copies_page` for every page
/// of work memory when its first region binds work memory to
/// 0x0000..=0x1FFF, as `CPU::new` does, and the first region that covers the
/// object data port binds a video unit.
pub proof fn lemma_console_is_wired(
    bus: Memory,
    ram_slot: int,
    video_region: int,
    ram: Seq<u8>,
    page: u8,
)
    requires
        0 < video_region < bus.regions.len(),
        bus.regions[0].start == 0 && bus.regions[0].end == 0x1FFF && bus.regions[0].slot
            == ram_slot,
        bus.regions[video_region].covers(OAMDATA),
        forall|i: int| 0 <= i < video_region ==> !(#[trigger] bus.regions[i]).covers(OAMDATA),
        0 <= ram_slot < bus.components.len(),
        bus.regions[video_region].slot < bus.components.len(),
        bus.components[ram_slot] == ComponentState::Ram(ram),
        ram.len() == 0x800,
        bus.components[bus.regions[video_region].slot as int] is Video,
        video_in(bus, bus.regions[video_region].slot as int).primary_oam.len() == 64,
        page < 0x20,
    ensures
        wired(bus, ram_slot, bus.regions[video_region].slot as int, ram),
        page_in_ram(bus, ram_slot, (page * 256) as u16, 256),
{
    reveal(wired);
    reveal(page_in_ram);
    lemma_earlier_region_wins(bus, OAMDATA, video_region);
    let source = (page * 256) as u16;
    assert forall|k: int| 0 <= k < 256 implies bus.maps(
        #[trigger] source.wrapping_add(k as u16),
    ) && bus.slot_of(source.wrapping_add(k as u16)) == ram_slot by {
        lemma_earlier_region_wins(bus, source.wrapping_add(k as u16), 0);
    }
}

} // verus!
