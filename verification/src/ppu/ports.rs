use crate::bus::Addressable;
use crate::ppu::registers::{
    PPUAddress, PPUControl, PPUMask, OAMADDR, OAMDATA, PPUADDR, PPUCTRL, PPUDATA, PPUMASK,
    PPUSCROLL, PPUSTATUS,
};
use crate::ppu::unit::{video_after_read, video_value, PpuRegisters, PpuState, PPU};
use crate::ppu::video::VideoComponent;
use crate::bus::Bus;
use vstd::prelude::*;

verus! {

/// The port that `address` selects: the eight ports repeat every 8
/// addresses.
pub open spec fn port_of(address: u16) -> u16 {
    (address % 8 + 0x2000) as u16
}

/// The status byte: vertical blank, sprite-zero hit and sprite overflow in
/// the top three bits, the low five bits of the port latch below them.
pub open spec fn status_byte(regs: PpuRegisters) -> u8 {
    ((if regs.vblank { 128int } else { 0int }) + (if regs.sprite0_hit { 64int } else { 0int }) + (
    if regs.sprite_overflow { 32int } else { 0int }) + regs.open_bus % 32) as u8
}

/// The current address register after an access to the data port.
pub open spec fn data_address_advanced(regs: PpuRegisters) -> PPUAddress {
    PPUAddress(((regs.v.0 + regs.increment_size) % 0x4000) as u16)
}

/// The byte that a read of the register ports at `address` answers with.
pub open spec fn port_value(s: PpuState, address: u16) -> u8 {
    let port = port_of(address);
    if port == PPUSTATUS {
        status_byte(s.regs)
    } else if port == PPUDATA {
        if s.regs.v.0 < 0x3F00 {
            s.regs.internal_data_buffer
        } else {
            video_value(s.memory, s.regs.v.0)
        }
    } else if port == OAMDATA {
        s.primary_oam[s.regs.oam_address as int / 4].spec_byte(s.regs.oam_address % 4)
    } else {
        s.regs.open_bus
    }
}

/// The data-read buffer after a read of the data port: below the palette it
/// takes the byte just read, in the palette the nametable byte that lies
/// 0x1000 below the address.
pub open spec fn data_buffer_after_read(s: PpuState) -> u8 {
    if s.regs.v.0 < 0x3F00 {
        video_value(s.memory, s.regs.v.0)
    } else {
        video_value(video_after_read(s.memory, s.regs.v.0), (s.regs.v.0 - 0x1000) as u16)
    }
}

/// The video unit after the data port was read, but for the port latch: the
/// byte at the current address is fetched into the buffer and the address
/// moves on.
pub open spec fn data_read(s: PpuState) -> PpuState {
    PpuState {
        regs: PpuRegisters {
            internal_data_buffer: data_buffer_after_read(s),
            v: data_address_advanced(s.regs),
            ..s.regs
        },
        memory: if s.regs.v.0 < 0x3F00 {
            video_after_read(s.memory, s.regs.v.0)
        } else {
            video_after_read(video_after_read(s.memory, s.regs.v.0), (s.regs.v.0 - 0x1000) as u16)
        },
        ..s
    }
}

/// The video unit with `value` latched on its ports.
pub open spec fn with_latch(s: PpuState, value: u8) -> PpuState {
    PpuState { regs: PpuRegisters { open_bus: value, ..s.regs }, ..s }
}

/// The video unit after a read of the register ports at `address`. A read of
/// the status port clears the write toggle and vertical blank.
pub open spec fn port_after_read(s: PpuState, address: u16) -> PpuState {
    let port = port_of(address);
    let value = port_value(s, address);
    if port == PPUSTATUS {
        PpuState {
            regs: PpuRegisters { w: false, vblank: false, open_bus: value, ..s.regs },
            ..s
        }
    } else if port == PPUDATA {
        with_latch(data_read(s), value)
    } else if port == OAMDATA {
        with_latch(s, value)
    } else {
        s
    }
}

/// The video unit after `data` was written to the object data port: the byte
/// goes into the object table at the object address, which moves on by one.
pub open spec fn oam_written(s: PpuState, data: u8) -> PpuState {
    let index = s.regs.oam_address as int / 4;
    PpuState {
        regs: PpuRegisters { oam_address: s.regs.oam_address.wrapping_add(1), ..s.regs },
        primary_oam: s.primary_oam.update(
            index,
            s.primary_oam[index].with_byte(s.regs.oam_address % 4, data),
        ),
        ..s
    }
}

/// The video unit after `data` was written to the data port.
pub open spec fn data_written(s: PpuState, data: u8) -> PpuState {
    PpuState {
        regs: PpuRegisters { v: data_address_advanced(s.regs), ..s.regs },
        memory: Bus::<VideoComponent>::after_write(s.memory, s.regs.v.0, data),
        ..s
    }
}

/// The registers after a write of `data` to the control port.
pub open spec fn control_written(regs: PpuRegisters, data: u8) -> PpuRegisters {
    let control = PPUControl(data);
    PpuRegisters {
        nmi_enabled: control.spec_nmi_enable(),
        sprite_size: control.spec_sprite_size(),
        background_table: if control.spec_background_pattern() {
            0x1000
        } else {
            0
        },
        sprite_table: if control.spec_sprite_pattern() {
            0x1000
        } else {
            0
        },
        increment_size: if control.spec_vram_increment() {
            32
        } else {
            1
        },
        t: regs.t.with_nametable_select(control.spec_nametable() as u16),
        ..regs
    }
}

/// The registers after a write of `data` to the scroll port: the first write
/// sets coarse x and fine x, the second coarse y and fine y (of which the
/// port takes two bits).
pub open spec fn scroll_written(regs: PpuRegisters, data: u8) -> PpuRegisters {
    if !regs.w {
        PpuRegisters {
            t: regs.t.with_coarse_x((data / 8) as u16),
            fine_x: data % 8,
            w: true,
            ..regs
        }
    } else {
        PpuRegisters {
            t: regs.t.with_fine_y((data % 4) as u16).with_coarse_y((data / 8) as u16),
            w: false,
            ..regs
        }
    }
}

/// The registers after a write of `data` to the address port: the first
/// write sets the high byte of the temporary address, the second its low
/// byte and copies it to the current address.
pub open spec fn address_written(regs: PpuRegisters, data: u8) -> PpuRegisters {
    if !regs.w {
        PpuRegisters { t: PPUAddress((data * 256 + regs.t.0 % 256) as u16), w: true, ..regs }
    } else {
        let t = PPUAddress((regs.t.0 - regs.t.0 % 256 + data) as u16);
        PpuRegisters { t, v: t, w: false, ..regs }
    }
}

/// Whether writes to `port` are ignored while the reset lockout holds.
pub open spec fn locked_port(port: u16) -> bool {
    port == PPUCTRL || port == PPUMASK || port == PPUSCROLL || port == PPUADDR
}

/// The video unit after a write of `data` to the register ports at
/// `address`. Every write latches `data` on the ports; while the reset
/// lockout holds, writes to the control, mask, scroll and address ports do
/// nothing more.
pub open spec fn port_after_write(s: PpuState, address: u16, data: u8) -> PpuState {
    let port = port_of(address);
    let latched = with_latch(s, data);
    let regs = latched.regs;
    if regs.reset && locked_port(port) {
        latched
    } else if port == PPUCTRL {
        PpuState { regs: control_written(regs, data), ..s }
    } else if port == PPUMASK {
        PpuState { regs: PpuRegisters { mask: PPUMask(data), ..regs }, ..s }
    } else if port == OAMADDR {
        PpuState { regs: PpuRegisters { oam_address: data, ..regs }, ..s }
    } else if port == OAMDATA {
        oam_written(latched, data)
    } else if port == PPUSCROLL {
        PpuState { regs: scroll_written(regs, data), ..s }
    } else if port == PPUADDR {
        PpuState { regs: address_written(regs, data), ..s }
    } else if port == PPUDATA {
        data_written(latched, data)
    } else {
        latched
    }
}

impl PPU {
    fn advance_data_address(&mut self)
        ensures
            final(self)@ == (PpuState {
                regs: PpuRegisters { v: data_address_advanced(old(self)@.regs), ..old(self)@.regs },
                ..old(self)@
            }),
    {
        self.regs.v.0 = ((self.regs.v.0 as u32 + self.regs.increment_size as u32)
            % 0x4000) as u16;
    }

    fn read_status(&mut self) -> (value: u8)
        ensures
            value == status_byte(old(self)@.regs),
            final(self)@ == (PpuState {
                regs: PpuRegisters { w: false, vblank: false, ..old(self)@.regs },
                ..old(self)@
            }),
    {
        let vblank: u8 = if self.regs.vblank {
            128
        } else {
            0
        };
        let hit: u8 = if self.regs.sprite0_hit {
            64
        } else {
            0
        };
        let overflow: u8 = if self.regs.sprite_overflow {
            32
        } else {
            0
        };
        self.regs.w = false;
        self.regs.vblank = false;
        vblank + hit + overflow + self.regs.open_bus % 32
    }

    fn read_data(&mut self) -> (value: u8)
        ensures
            value == port_value(old(self)@, PPUDATA),
            final(self)@ == data_read(old(self)@),
    {
        let address = self.regs.v.0;
        let fetched = self.fetch(address);
        let value = if address < 0x3F00 {
            let buffered = self.regs.internal_data_buffer;
            self.regs.internal_data_buffer = fetched;
            buffered
        } else {
            let below = self.fetch(address - 0x1000);
            self.regs.internal_data_buffer = below;
            fetched
        };
        self.advance_data_address();
        value
    }

    fn write_data(&mut self, data: u8)
        ensures
            final(self)@ == data_written(old(self)@, data),
    {
        let address = self.regs.v.0;
        let _ = self.vram_bus.write_byte(address, data);
        self.advance_data_address();
    }

    fn write_control(&mut self, data: u8)
        ensures
            final(self)@ == (PpuState { regs: control_written(old(self)@.regs, data), ..old(self)@ }),
    {
        let control = PPUControl(data);
        self.regs.nmi_enabled = control.nmi_enable();
        self.regs.sprite_size = control.sprite_size();
        self.regs.background_table = if control.background_pattern() {
            0x1000
        } else {
            0
        };
        self.regs.sprite_table = if control.sprite_pattern() {
            0x1000
        } else {
            0
        };
        self.regs.increment_size = if control.vram_increment() {
            32
        } else {
            1
        };
        self.regs.t.set_nametable_select(control.nametable() as u16);
    }

    fn write_scroll(&mut self, data: u8)
        ensures
            final(self)@ == (PpuState { regs: scroll_written(old(self)@.regs, data), ..old(self)@ }),
    {
        if !self.regs.w {
            self.regs.t.set_coarse_x((data / 8) as u16);
            self.regs.fine_x = data % 8;
            self.regs.w = true;
        } else {
            self.regs.t.set_fine_y((data % 4) as u16);
            self.regs.t.set_coarse_y((data / 8) as u16);
            self.regs.w = false;
        }
    }

    fn write_address(&mut self, data: u8)
        ensures
            final(self)@ == (PpuState { regs: address_written(old(self)@.regs, data), ..old(self)@ }),
    {
        if !self.regs.w {
            self.regs.t.0 = data as u16 * 256 + self.regs.t.0 % 256;
            self.regs.w = true;
        } else {
            self.regs.t.0 = self.regs.t.0 - self.regs.t.0 % 256 + data as u16;
            self.regs.v = self.regs.t;
            self.regs.w = false;
        }
    }

    fn write_oam(&mut self, data: u8)
        ensures
            final(self)@ == oam_written(old(self)@, data),
    {
        let index: usize = (self.regs.oam_address / 4) as usize;
        let field = self.regs.oam_address % 4;
        let mut entry = self.primary_oam[index];
        entry.set_byte(field, data);
        self.primary_oam[index] = entry;
        self.regs.oam_address = self.regs.oam_address.wrapping_add(1);
        assert(self@.primary_oam =~= oam_written(old(self)@, data).primary_oam);
    }

    fn read_oam(&self) -> (value: u8)
        ensures
            value == port_value(self@, OAMDATA),
    {
        let index: usize = (self.regs.oam_address / 4) as usize;
        self.primary_oam[index].byte(self.regs.oam_address % 4)
    }
}

impl Addressable for PPU {
    open spec fn read_value(state: PpuState, address: u16) -> Option<u8> {
        Some(port_value(state, address))
    }

    open spec fn after_read(state: PpuState, address: u16) -> PpuState {
        port_after_read(state, address)
    }

    open spec fn after_write(state: PpuState, address: u16, data: u8) -> PpuState {
        port_after_write(state, address, data)
    }

    fn read_byte(&mut self, address: u16) -> (value: Option<u8>) {
        let port = address % 8 + 0x2000;
        if port == PPUSTATUS {
            let value = self.read_status();
            self.regs.open_bus = value;
        } else if port == PPUDATA {
            let value = self.read_data();
            self.regs.open_bus = value;
        } else if port == OAMDATA {
            let value = self.read_oam();
            self.regs.open_bus = value;
        }
        Some(self.regs.open_bus)
    }

    fn write_byte(&mut self, address: u16, data: u8) {
        let port = address % 8 + 0x2000;
        self.regs.open_bus = data;
        if self.regs.reset && (port == PPUCTRL || port == PPUMASK || port == PPUSCROLL || port
            == PPUADDR) {
            return;
        }
        if port == PPUCTRL {
            self.write_control(data);
        } else if port == PPUMASK {
            self.regs.mask = PPUMask(data);
        } else if port == OAMADDR {
            self.regs.oam_address = data;
        } else if port == OAMDATA {
            self.write_oam(data);
        } else if port == PPUSCROLL {
            self.write_scroll(data);
        } else if port == PPUADDR {
            self.write_address(data);
        } else if port == PPUDATA {
            self.write_data(data);
        }
    }
}

} // verus!
