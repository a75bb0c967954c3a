use crate::bus::Addressable;
use crate::rom::MirrorArrangement;
use vstd::prelude::*;

verus! {

/// The video unit's own memory: two 1 KiB nametables and 32 palette bytes.
pub struct VRam {
    nametable0: [u8; 0x400],
    nametable1: [u8; 0x400],
    palette: [u8; 0x20],
    mirroring: MirrorArrangement,
}

/// The content of a `VRam`.
pub struct VRamState {
    pub nametable0: Seq<u8>,
    pub nametable1: Seq<u8>,
    pub palette: Seq<u8>,
    pub mirroring: MirrorArrangement,
}

impl View for VRam {
    type V = VRamState;

    closed spec fn view(&self) -> VRamState {
        VRamState {
            nametable0: self.nametable0@,
            nametable1: self.nametable1@,
            palette: self.palette@,
            mirroring: self.mirroring,
        }
    }
}

/// The address that stands for `address`: 0x3000..=0x3EFF repeats the
/// nametable range 0x2000..=0x2EFF.
pub open spec fn fold_address(address: u16) -> u16 {
    if 0x3000 <= address <= 0x3EFF {
        (address - 0x1000) as u16
    } else {
        address
    }
}

/// Whether a nametable address (0x2000..=0x2FFF) falls into the second
/// physical table under `mirroring`.
pub open spec fn selects_second_table(mirroring: MirrorArrangement, address: u16) -> bool {
    match mirroring {
        MirrorArrangement::Vertical => (address as int / 0x400) % 2 == 1,
        MirrorArrangement::Horizontal => address >= 0x2800,
        MirrorArrangement::OneScreenLower => false,
        MirrorArrangement::OneScreenUpper => true,
    }
}

/// The palette entry that a palette address (0x3F00..=0x3FFF) stands for.
/// The palette repeats every 32 addresses. The sprite backdrop entries at
/// 0x3F10, 0x3F14, 0x3F18 and 0x3F1C are the background backdrop entries 16
/// below.
pub open spec fn palette_index(address: u16) -> int {
    if address == 0x3F10 || address == 0x3F14 || address == 0x3F18 || address == 0x3F1C {
        address - 0x3F10
    } else {
        (address - 0x3F00) % 0x20
    }
}

impl VRamState {
    /// The sizes that every `VRam` has.
    pub open spec fn wf(self) -> bool {
        self.nametable0.len() == 0x400 && self.nametable1.len() == 0x400 && self.palette.len()
            == 0x20
    }
}

impl Addressable for VRam {
    open spec fn read_value(state: VRamState, address: u16) -> Option<u8> {
        let a = fold_address(address);
        if 0x2000 <= a <= 0x2FFF {
            if selects_second_table(state.mirroring, a) {
                Some(state.nametable1[a as int % 0x400])
            } else {
                Some(state.nametable0[a as int % 0x400])
            }
        } else if 0x3F00 <= a <= 0x3FFF {
            Some(state.palette[palette_index(a)])
        } else {
            Some(0u8)
        }
    }

    open spec fn after_read(state: VRamState, address: u16) -> VRamState {
        state
    }

    open spec fn after_write(state: VRamState, address: u16, data: u8) -> VRamState {
        let a = fold_address(address);
        if 0x2000 <= a <= 0x2FFF {
            if selects_second_table(state.mirroring, a) {
                VRamState { nametable1: state.nametable1.update(a as int % 0x400, data), ..state }
            } else {
                VRamState { nametable0: state.nametable0.update(a as int % 0x400, data), ..state }
            }
        } else if 0x3F00 <= a <= 0x3FFF {
            VRamState { palette: state.palette.update(palette_index(a), data), ..state }
        } else {
            state
        }
    }

    fn read_byte(&mut self, address: u16) -> (value: Option<u8>) {
        let a: u16 = if 0x3000 <= address && address <= 0x3EFF {
            address - 0x1000
        } else {
            address
        };
        if 0x2000 <= a && a <= 0x2FFF {
            let offset: usize = (a % 0x400) as usize;
            if self.second_table(a) {
                Some(self.nametable1[offset])
            } else {
                Some(self.nametable0[offset])
            }
        } else if 0x3F00 <= a {
            if a > 0x3FFF {
                return Some(0);
            }
            let index: usize = if a == 0x3F10 || a == 0x3F14 || a == 0x3F18 || a == 0x3F1C {
                (a - 0x3F10) as usize
            } else {
                ((a - 0x3F00) % 0x20) as usize
            };
            Some(self.palette[index])
        } else {
            Some(0)
        }
    }

    fn write_byte(&mut self, address: u16, data: u8) {
        let a: u16 = if 0x3000 <= address && address <= 0x3EFF {
            address - 0x1000
        } else {
            address
        };
        if 0x2000 <= a && a <= 0x2FFF {
            let offset: usize = (a % 0x400) as usize;
            if self.second_table(a) {
                self.nametable1[offset] = data;
                assert(self@.nametable1 =~= old(self)@.nametable1.update(a as int % 0x400, data));
            } else {
                self.nametable0[offset] = data;
                assert(self@.nametable0 =~= old(self)@.nametable0.update(a as int % 0x400, data));
            }
        } else if 0x3F00 <= a && a <= 0x3FFF {
            let index: usize = if a == 0x3F10 || a == 0x3F14 || a == 0x3F18 || a == 0x3F1C {
                (a - 0x3F10) as usize
            } else {
                ((a - 0x3F00) % 0x20) as usize
            };
            self.palette[index] = data;
            assert(self@.palette =~= old(self)@.palette.update(palette_index(a), data));
        }
    }
}

impl VRam {
    /// Whether nametable address `a` is served by the second physical table.
    fn second_table(&self, a: u16) -> (second: bool)
        requires
            0x2000 <= a <= 0x2FFF,
        ensures
            second == selects_second_table(self@.mirroring, a),
    {
        match self.mirroring {
            MirrorArrangement::Vertical => (a / 0x400) % 2 == 1,
            MirrorArrangement::Horizontal => a >= 0x2800,
            MirrorArrangement::OneScreenLower => false,
            MirrorArrangement::OneScreenUpper => true,
        }
    }

    /// Zeroed memory with horizontal mirroring.
    pub fn new() -> (vram: Self)
        ensures
            vram@.wf(),
            vram@.mirroring is Horizontal,
            forall|i: int| 0 <= i < 0x400 ==> vram@.nametable0[i] == 0 && vram@.nametable1[i] == 0,
            forall|i: int| 0 <= i < 0x20 ==> vram@.palette[i] == 0,
    {
        VRam {
            nametable0: [0; 0x400],
            nametable1: [0; 0x400],
            palette: [0; 0x20],
            mirroring: MirrorArrangement::Horizontal,
        }
    }

    /// Selects how the nametables are mirrored; the memory keeps its bytes.
    pub fn set_mirroring(&mut self, mirroring: MirrorArrangement)
        ensures
            final(self)@ == (VRamState { mirroring, ..old(self)@ }),
    {
        self.mirroring = mirroring;
    }

    /// The current mirroring.
    pub fn mirroring(&self) -> (mirroring: MirrorArrangement)
        ensures
            mirroring == self@.mirroring,
    {
        self.mirroring
    }

    /// Every `VRam` has full-sized tables.
    pub proof fn lemma_sizes(&self)
        ensures
            self@.wf(),
    {
    }
}

impl Default for VRam {
    fn default() -> (vram: Self)
        ensures
            vram@.wf(),
            vram@.mirroring is Horizontal,
            forall|i: int| 0 <= i < 0x400 ==> vram@.nametable0[i] == 0 && vram@.nametable1[i] == 0,
            forall|i: int| 0 <= i < 0x20 ==> vram@.palette[i] == 0,
    {
        VRam::new()
    }
}

/// A byte written to a palette address is the byte read back from it, for
/// every palette address.
pub proof fn lemma_palette_round_trip(state: VRamState, address: u16, data: u8)
    requires
        state.wf(),
        0x3F00 <= address <= 0x3FFF,
    ensures
        VRam::read_value(VRam::after_write(state, address, data), address) == Some(data),
{
}

/// Two palette addresses read the same byte exactly when they stand for the
/// same entry; a write at one of them is read back at the other then, and
/// leaves the byte at the other as it was otherwise.
pub proof fn lemma_palette_cells(state: VRamState, written: u16, data: u8, read: u16)
    requires
        state.wf(),
        0x3F00 <= written <= 0x3FFF,
        0x3F00 <= read <= 0x3FFF,
    ensures
        0 <= palette_index(read) < 0x20,
        VRam::read_value(VRam::after_write(state, written, data), read) == (if palette_index(read)
            == palette_index(written) {
            Some(data)
        } else {
            VRam::read_value(state, read)
        }),
{
}

/// A byte written to a nametable address (0x2000..=0x3EFF) is the byte read
/// back from it, whatever the mirroring.
pub proof fn lemma_nametable_round_trip(state: VRamState, address: u16, data: u8)
    requires
        state.wf(),
        0x2000 <= address <= 0x3EFF,
    ensures
        VRam::read_value(VRam::after_write(state, address, data), address) == Some(data),
{
}

/// A write leaves the table sizes as they are.
pub proof fn lemma_write_keeps_sizes(state: VRamState, address: u16, data: u8)
    requires
        state.wf(),
    ensures
        VRam::after_write(state, address, data).wf(),
{
}

} // verus!
