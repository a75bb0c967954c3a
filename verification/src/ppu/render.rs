use crate::ppu::palette::{colour, PALETTE};
use crate::ppu::sprite::{evaluate_from, load_from, sprite_pixel};
use crate::ppu::unit::{
    video_address, video_after_read, video_value, PpuRegisters, PpuState, SpriteSlot, MAX_SCANLINE,
    PPU,
};
use crate::ppu::oam::OamEntry;
use vstd::prelude::*;

verus! {

/// The registers after the idle dot at the start of an odd frame was
/// skipped: with the background shown, dot 0 of scanline 0 is left out.
pub open spec fn with_dot_skipped(regs: PpuRegisters) -> PpuRegisters {
    if regs.odd_frame && regs.mask.spec_show_background() && regs.cycle == 0 && regs.scanline
        == 0 {
        PpuRegisters { cycle: 1, ..regs }
    } else {
        regs
    }
}

/// Whether the dot raises the frame interrupt: dot 1 of scanline 241, with
/// the interrupt enabled.
pub open spec fn nmi_edge(regs: PpuRegisters) -> bool {
    regs.cycle == 1 && regs.scanline == 241 && regs.nmi_enabled
}

/// The registers after the flag changes of the dot: vertical blank is set at
/// dot 1 of scanline 241; at dot 1 of the pre-render line it is cleared
/// together with sprite-zero hit and sprite overflow, and the reset lockout
/// ends.
pub open spec fn with_flags_latched(regs: PpuRegisters) -> PpuRegisters {
    if regs.cycle == 1 && regs.scanline == 241 {
        PpuRegisters { vblank: true, ..regs }
    } else if regs.cycle == 1 && regs.scanline == MAX_SCANLINE {
        PpuRegisters {
            vblank: false,
            sprite_overflow: false,
            sprite0_hit: false,
            reset: false,
            ..regs
        }
    } else {
        regs
    }
}

/// The sprite work of the dot on a visible scanline: the secondary table is
/// cleared at dot 1 and filled at dot 65; at dot 261 it becomes the current
/// table and the sprite shifters are loaded.
#[verifier::opaque]
pub open spec fn sprite_phase(s: PpuState) -> PpuState {
    if !s.regs.visible_scanline() {
        s
    } else if s.regs.cycle == 1 {
        PpuState { secondary_oam: Seq::new(8, |i: int| None::<(OamEntry, usize)>), ..s }
    } else if s.regs.cycle == 65 {
        evaluate_from(s, 0)
    } else if s.regs.cycle == 261 {
        load_from(PpuState { current_oam: s.secondary_oam, ..s }, 0)
    } else {
        s
    }
}

/// The video address of the nametable byte of the current tile.
pub open spec fn nametable_address(regs: PpuRegisters) -> u16 {
    (0x2000 + regs.v.0 % 0x1000) as u16
}

/// The video address of the attribute byte of the current tile.
pub open spec fn attribute_address(regs: PpuRegisters) -> u16 {
    (0x23C0 + regs.v.spec_nametable_select() * 0x400 + (regs.v.spec_coarse_y() / 4) * 8
        + regs.v.spec_coarse_x() / 4) as u16
}

/// The two attribute bits of the current tile within the attribute `byte`
/// of its group of sixteen tiles.
pub open spec fn attribute_bits(regs: PpuRegisters, byte: u8) -> u8 {
    let right = regs.v.spec_coarse_x() % 4 >= 2;
    let bottom = regs.v.spec_coarse_y() % 4 >= 2;
    if bottom {
        if right {
            byte / 64
        } else {
            (byte / 16) % 4
        }
    } else {
        if right {
            (byte / 4) % 4
        } else {
            byte % 4
        }
    }
}

/// The video address of the low pattern byte of the current tile row.
pub open spec fn pattern_address(regs: PpuRegisters) -> u16 {
    video_address(regs.background_table, regs.name_table_selector * 16 + regs.v.spec_fine_y())
}

/// The background fetch of the dot, by its place in the 8-dot cadence: at 1
/// the shifters take the bytes fetched before and the nametable byte is
/// read, at 3 the attribute byte, at 5 the low and at 7 the high pattern
/// byte.
#[verifier::opaque]
pub open spec fn fetch_phase(s: PpuState) -> PpuState {
    let regs = s.regs;
    if !(regs.fetching_cycle() && (regs.visible_scanline() || regs.prerender_scanline())) {
        s
    } else if regs.cycle % 8 == 1 {
        let address = nametable_address(regs);
        PpuState {
            regs: PpuRegisters {
                shifter: regs.shifter.with_pattern_low(regs.pattern_low).with_pattern_high(
                    regs.pattern_high,
                ).with_attribute(regs.attribute),
                name_table_selector: video_value(s.memory, address),
                ..regs
            },
            memory: video_after_read(s.memory, address),
            ..s
        }
    } else if regs.cycle % 8 == 3 {
        let address = attribute_address(regs);
        PpuState {
            regs: PpuRegisters {
                attribute: attribute_bits(regs, video_value(s.memory, address)),
                ..regs
            },
            memory: video_after_read(s.memory, address),
            ..s
        }
    } else if regs.cycle % 8 == 5 {
        let address = pattern_address(regs);
        PpuState {
            regs: PpuRegisters { pattern_low: video_value(s.memory, address), ..regs },
            memory: video_after_read(s.memory, address),
            ..s
        }
    } else if regs.cycle % 8 == 7 {
        let address = video_address(pattern_address(regs), 8);
        PpuState {
            regs: PpuRegisters { pattern_high: video_value(s.memory, address), ..regs },
            memory: video_after_read(s.memory, address),
            ..s
        }
    } else {
        s
    }
}

/// The colour index of the background pixel of the dot: 0 while the
/// background is hidden, also in the eight leftmost columns when it is
/// hidden there.
pub open spec fn background_pixel(regs: PpuRegisters) -> u8 {
    if regs.mask.spec_show_background() && (regs.mask.spec_show_background_left() || regs.cycle
        > 8) {
        regs.shifter.pixel(regs.fine_x % 8)
    } else {
        0
    }
}

/// The sprite pixel that takes part in the dot: none while sprites are
/// hidden.
pub open spec fn shown_sprite_pixel(s: PpuState) -> (u8, usize, bool) {
    if s.regs.mask.spec_show_sprite() {
        sprite_pixel(s)
    } else {
        (0u8, 0usize, false)
    }
}

/// Whether a dot sets sprite-zero hit: a sprite pixel of primary entry 0
/// over an opaque background pixel, with the background shown.
pub open spec fn zero_hit(background: u8, sprite: u8, index: usize, shown: bool) -> bool {
    sprite > 0 && background % 4 > 0 && index == 0 && shown
}

/// Whether the sprite pixel wins a dot: it is opaque, and either in front of
/// the background or over a transparent background pixel.
pub open spec fn sprite_in_front(background: u8, sprite: u8, behind: bool) -> bool {
    sprite > 0 && (!behind || background % 4 == 0) && sprite % 4 > 0
}

/// Whether the dot sets sprite-zero hit.
pub open spec fn sprite_zero_hits(s: PpuState) -> bool {
    let (sprite, index, _) = shown_sprite_pixel(s);
    zero_hit(background_pixel(s.regs), sprite, index, s.regs.mask.spec_show_background())
}

/// Whether the sprite pixel wins the dot.
pub open spec fn sprite_wins(s: PpuState) -> bool {
    let (sprite, _, behind) = shown_sprite_pixel(s);
    sprite_in_front(background_pixel(s.regs), sprite, behind)
}

/// The palette address of a background pixel: a transparent pixel, whose
/// low two bits are 0, shows the universal backdrop in entry 0, whatever its
/// attribute bits.
pub open spec fn background_address(background: u8) -> u16 {
    if background % 4 == 0 {
        0x3F00
    } else {
        (0x3F00 + background) as u16
    }
}

/// The palette byte of a pixel. The background entry is always read; the
/// sprite entry after it when the sprite wins.
pub open spec fn composed_colour(
    s: PpuState,
    background: u8,
    sprite: u8,
    behind: bool,
) -> u8 {
    if sprite_in_front(background, sprite, behind) {
        video_value(
            video_after_read(s.memory, background_address(background)),
            (0x3F10 + sprite) as u16,
        )
    } else {
        video_value(s.memory, background_address(background))
    }
}

/// The video unit after a pixel was composed from a background and a sprite
/// pixel.
pub open spec fn composed(
    s: PpuState,
    background: u8,
    sprite: u8,
    index: usize,
    behind: bool,
) -> PpuState {
    let after_background = video_after_read(s.memory, background_address(background));
    PpuState {
        regs: PpuRegisters {
            sprite0_hit: s.regs.sprite0_hit || zero_hit(
                background,
                sprite,
                index,
                s.regs.mask.spec_show_background(),
            ),
            ..s.regs
        },
        memory: if sprite_in_front(background, sprite, behind) {
            video_after_read(after_background, (0x3F10 + sprite) as u16)
        } else {
            after_background
        },
        ..s
    }
}

/// The palette byte of the pixel of the dot.
pub open spec fn pixel_colour(s: PpuState) -> u8 {
    let (sprite, _, behind) = shown_sprite_pixel(s);
    composed_colour(s, background_pixel(s.regs), sprite, behind)
}

/// The place of the pixel of the dot in the frame buffer.
pub open spec fn pixel_index(regs: PpuRegisters) -> int {
    regs.cycle - 1 + regs.scanline * 256
}

/// Whether the pixel of the dot is written to the frame buffer: the top and
/// bottom eight scanlines are left out, as is a pixel that lies past the
/// end of the buffer.
pub open spec fn pixel_written(regs: PpuRegisters, screen: Seq<u32>) -> bool {
    8 <= regs.scanline < 232 && pixel_index(regs) < screen.len()
}

/// Whether the dot draws a pixel: dots 1 to 256 of a visible scanline.
pub open spec fn draws_pixel(regs: PpuRegisters) -> bool {
    1 <= regs.cycle <= 256 && regs.visible_scanline()
}

/// The video unit after the pixel of the dot was composed.
#[verifier::opaque]
pub open spec fn pixel_phase(s: PpuState) -> PpuState {
    if !draws_pixel(s.regs) {
        s
    } else {
        let (sprite, index, behind) = shown_sprite_pixel(s);
        composed(s, background_pixel(s.regs), sprite, index, behind)
    }
}

/// The frame buffer after the pixel of the dot was composed.
#[verifier::opaque]
pub open spec fn pixel_screen(s: PpuState, screen: Seq<u32>) -> Seq<u32> {
    if draws_pixel(s.regs) && pixel_written(s.regs, screen) {
        screen.update(pixel_index(s.regs), PALETTE@[pixel_colour(s) as int % 64])
    } else {
        screen
    }
}

/// The registers after the background shifters moved on, which they do in
/// the fetching windows.
pub open spec fn shift_phase(regs: PpuRegisters) -> PpuRegisters {
    if regs.fetching_cycle() {
        PpuRegisters { shifter: regs.shifter.shifted(), ..regs }
    } else {
        regs
    }
}

/// The registers after the scroll bookkeeping of the dot, which happens on
/// the visible scanlines and the pre-render line.
pub open spec fn address_phase(regs: PpuRegisters) -> PpuRegisters {
    if regs.visible_scanline() || regs.prerender_scanline() {
        regs.with_address_updated()
    } else {
        regs
    }
}

/// The video unit after the rendering work of the dot, which is done while
/// background or sprites are shown: fetch, pixel, shift, scroll.
pub open spec fn render_phase(s: PpuState) -> PpuState {
    if !s.regs.mask.spec_rendering() {
        s
    } else {
        let drawn = pixel_phase(fetch_phase(s));
        PpuState { regs: address_phase(shift_phase(drawn.regs)), ..drawn }
    }
}

/// The frame buffer after the rendering work of the dot.
pub open spec fn render_screen(s: PpuState, screen: Seq<u32>) -> Seq<u32> {
    if !s.regs.mask.spec_rendering() {
        screen
    } else {
        pixel_screen(fetch_phase(s), screen)
    }
}

/// The video unit as it enters the rendering work of the dot.
pub open spec fn prepared(s: PpuState) -> PpuState {
    sprite_phase(PpuState { regs: with_flags_latched(with_dot_skipped(s.regs)), ..s })
}

/// The video unit one dot on.
pub open spec fn tick_state(s: PpuState) -> PpuState {
    let rendered = render_phase(prepared(s));
    PpuState { regs: rendered.regs.advanced(), ..rendered }
}

/// The frame buffer one dot on.
pub open spec fn tick_screen(s: PpuState, screen: Seq<u32>) -> Seq<u32> {
    render_screen(prepared(s), screen)
}

/// The video unit `count` dots on.
pub open spec fn dots_state(s: PpuState, count: nat) -> PpuState
    decreases count,
{
    if count == 0 {
        s
    } else {
        dots_state(tick_state(s), (count - 1) as nat)
    }
}

/// The frame buffer `count` dots on.
pub open spec fn dots_screen(s: PpuState, screen: Seq<u32>, count: nat) -> Seq<u32>
    decreases count,
{
    if count == 0 {
        screen
    } else {
        dots_screen(tick_state(s), tick_screen(s, screen), (count - 1) as nat)
    }
}

/// Whether one of the next `count` dots raises the frame interrupt.
pub open spec fn dots_edge(s: PpuState, count: nat) -> bool
    decreases count,
{
    if count == 0 {
        false
    } else {
        nmi_edge(s.regs) || dots_edge(tick_state(s), (count - 1) as nat)
    }
}

/// The interrupt edge depends on the dot as it stands: the skipped idle dot
/// lies on scanline 0 and cannot move it.
pub proof fn lemma_nmi_edge_before_skip(regs: PpuRegisters)
    ensures
        nmi_edge(with_dot_skipped(regs)) == nmi_edge(regs),
{
}

/// The place of a dot in the frame: dots are counted scanline by scanline.
pub open spec fn dot_position(regs: PpuRegisters) -> int {
    regs.scanline * 341 + regs.cycle
}

/// On the grid, a dot is followed by the next one of the frame, and the last
/// dot of a frame by the first: so between two visits of dot 1 of scanline
/// 241 the counters pass through every other dot of the grid.
pub proof fn lemma_advance_is_successor(regs: PpuRegisters)
    requires
        regs.on_grid(),
    ensures
        regs.advanced().on_grid(),
        dot_position(regs.advanced()) == (dot_position(regs) + 1) % 89342,
        0 <= dot_position(regs) < 89342,
{
}

/// Sprite evaluation changes no register but sprite overflow.
pub proof fn lemma_evaluation_keeps_registers(s: PpuState, i: int)
    requires
        0 <= i <= 64,
    ensures
        evaluate_from(s, i).regs == (PpuRegisters {
            sprite_overflow: evaluate_from(s, i).regs.sprite_overflow,
            ..s.regs
        }),
    decreases 64 - i,
{
    if i < 64 {
        lemma_evaluation_keeps_registers(crate::ppu::sprite::evaluate_entry(s, i), i + 1);
    }
}

/// Loading the sprite shifters changes no register.
pub proof fn lemma_loading_keeps_registers(s: PpuState, i: int)
    requires
        0 <= i <= 8,
    ensures
        load_from(s, i).regs == s.regs,
    decreases 8 - i,
{
    if i < 8 {
        lemma_loading_keeps_registers(crate::ppu::sprite::load_slot(s, i), i + 1);
    }
}

/// A tick moves the unit to the next dot of the grid, after the idle dot of
/// an odd frame was skipped, and leaves the interrupt enable as it is. With
/// `nmi_edge` this says that the frame interrupt is raised at one dot of
/// the frame, dot 1 of scanline 241, which the counters reach once in every
/// pass through the grid, and at no other dot.
pub proof fn lemma_tick_moves_one_dot(s: PpuState)
    requires
        s.regs.on_grid(),
    ensures
        tick_state(s).regs.on_grid(),
        dot_position(tick_state(s).regs) == (dot_position(with_dot_skipped(s.regs)) + 1) % 89342,
        tick_state(s).regs.nmi_enabled == s.regs.nmi_enabled,
        nmi_edge(s.regs) <==> s.regs.nmi_enabled && dot_position(s.regs) == 241 * 341 + 1,
{
    reveal(sprite_phase);
    reveal(fetch_phase);
    reveal(pixel_phase);
    reveal(PpuRegisters::with_address_updated);
    reveal(PpuRegisters::with_x_incremented);
    reveal(PpuRegisters::with_y_incremented);
    reveal(PpuRegisters::with_horizontal_copied);
    reveal(PpuRegisters::with_vertical_copied);
    let latched = PpuState { regs: with_flags_latched(with_dot_skipped(s.regs)), ..s };
    lemma_evaluation_keeps_registers(latched, 0);
    lemma_loading_keeps_registers(PpuState { current_oam: latched.secondary_oam, ..latched }, 0);
    let entered = prepared(s);
    assert(entered.regs.cycle == with_dot_skipped(s.regs).cycle);
    assert(entered.regs.scanline == with_dot_skipped(s.regs).scanline);
    assert(entered.regs.nmi_enabled == s.regs.nmi_enabled);
    let rendered = render_phase(entered);
    assert(rendered.regs.cycle == entered.regs.cycle);
    assert(rendered.regs.scanline == entered.regs.scanline);
    assert(rendered.regs.nmi_enabled == entered.regs.nmi_enabled);
    lemma_advance_is_successor(rendered.regs);
}

impl PPU {
    fn skip_dot(&mut self)
        ensures
            final(self)@ == (PpuState { regs: with_dot_skipped(old(self)@.regs), ..old(self)@ }),
    {
        if self.regs.odd_frame && self.regs.mask.show_background() && self.regs.cycle == 0
            && self.regs.scanline == 0 {
            self.regs.cycle = 1;
        }
    }

    fn latch_flags(&mut self) -> (nmi: bool)
        ensures
            nmi == nmi_edge(old(self)@.regs),
            final(self)@ == (PpuState { regs: with_flags_latched(old(self)@.regs), ..old(self)@ }),
    {
        if self.regs.cycle == 1 && self.regs.scanline == 241 {
            self.regs.vblank = true;
            self.regs.nmi_enabled
        } else if self.regs.cycle == 1 && self.regs.scanline == MAX_SCANLINE {
            self.regs.vblank = false;
            self.regs.sprite_overflow = false;
            self.regs.sprite0_hit = false;
            self.regs.reset = false;
            false
        } else {
            false
        }
    }

    fn run_sprite_phase(&mut self)
        ensures
            final(self)@ == sprite_phase(old(self)@),
    {
        proof {
            reveal(sprite_phase);
        }
        if self.regs.scanline <= 239 {
            if self.regs.cycle == 1 {
                let empty: SpriteSlot = None;
                self.secondary_oam = [empty;8];
                assert(self@.secondary_oam =~= Seq::new(8, |i: int| None::<(OamEntry, usize)>));
            } else if self.regs.cycle == 65 {
                self.evaluate_sprites();
            } else if self.regs.cycle == 261 {
                self.current_oam = self.secondary_oam;
                self.load_sprite_shifts();
            }
        }
    }

    fn fetch_attribute(&mut self)
        ensures
            final(self)@ == (PpuState {
                regs: PpuRegisters {
                    attribute: attribute_bits(
                        old(self)@.regs,
                        video_value(old(self)@.memory, attribute_address(old(self)@.regs)),
                    ),
                    ..old(self)@.regs
                },
                memory: video_after_read(old(self)@.memory, attribute_address(old(self)@.regs)),
                ..old(self)@
            }),
    {
        let coarse_x = self.regs.v.coarse_x();
        let coarse_y = self.regs.v.coarse_y();
        let select = self.regs.v.nametable_select();
        let address: u16 = 0x23C0 + select * 0x400 + (coarse_y / 4) * 8 + coarse_x / 4;
        let byte = self.fetch(address);
        let right = coarse_x % 4 >= 2;
        let bottom = coarse_y % 4 >= 2;
        self.regs.attribute = if bottom {
            if right {
                byte / 64
            } else {
                (byte / 16) % 4
            }
        } else {
            if right {
                (byte / 4) % 4
            } else {
                byte % 4
            }
        };
    }

    fn pattern_fetch_address(&self) -> (address: u16)
        ensures
            address == pattern_address(self@.regs),
    {
        ((self.regs.background_table as u32 + self.regs.name_table_selector as u32 * 16
            + self.regs.v.fine_y() as u32) % 0x4000) as u16
    }

    fn run_fetch_phase(&mut self)
        ensures
            final(self)@ == fetch_phase(old(self)@),
    {
        proof {
            reveal(fetch_phase);
        }
        let cycle = self.regs.cycle;
        let scanline = self.regs.scanline;
        let fetching = (1 <= cycle && cycle <= 257) || (321 <= cycle && cycle <= 336);
        if !(fetching && (scanline <= 239 || scanline == MAX_SCANLINE)) {
            return;
        }
        let phase = cycle % 8;
        if phase == 1 {
            let low = self.regs.pattern_low;
            let high = self.regs.pattern_high;
            let attribute = self.regs.attribute;
            self.regs.shifter.load_pattern_low(low);
            self.regs.shifter.load_pattern_high(high);
            self.regs.shifter.load_attribute(attribute);
            let address: u16 = 0x2000 + self.regs.v.0 % 0x1000;
            let value = self.fetch(address);
            self.regs.name_table_selector = value;
        } else if phase == 3 {
            self.fetch_attribute();
        } else if phase == 5 {
            let address = self.pattern_fetch_address();
            let value = self.fetch(address);
            self.regs.pattern_low = value;
        } else if phase == 7 {
            let address = ((self.pattern_fetch_address() as u32 + 8) % 0x4000) as u16;
            let value = self.fetch(address);
            self.regs.pattern_high = value;
        }
    }

    fn background_index(&self) -> (index: u8)
        ensures
            index == background_pixel(self@.regs),
    {
        let mask = self.regs.mask;
        if mask.show_background() && (mask.show_background_left() || self.regs.cycle > 8) {
            self.regs.shifter.get_pixel_color_index(self.regs.fine_x % 8)
        } else {
            0
        }
    }

    fn shown_sprite(&self) -> (pixel: (u8, usize, bool))
        requires
            1 <= self@.regs.cycle <= 256,
        ensures
            pixel == shown_sprite_pixel(self@),
    {
        if self.regs.mask.show_sprite() {
            self.get_sprite_pixel()
        } else {
            (0, 0, false)
        }
    }

    fn compose(&mut self, background: u8, sprite: u8, index: usize, behind: bool) -> (shade: u8)
        ensures
            shade == composed_colour(old(self)@, background, sprite, behind),
            final(self)@ == composed(old(self)@, background, sprite, index, behind),
    {
        let shown = self.regs.mask.show_background();
        let entry: u16 = if background % 4 == 0 {
            0x3F00
        } else {
            0x3F00 + background as u16
        };
        let mut shade = self.fetch(entry);
        if sprite > 0 {
            if background % 4 > 0 && index == 0 && shown {
                self.regs.sprite0_hit = true;
            }
            if (!behind || background % 4 == 0) && sprite % 4 > 0 {
                shade = self.fetch(0x3F10 + sprite as u16);
            }
        }
        shade
    }

    fn run_pixel_phase(&mut self, screen: &mut [u32])
        ensures
            final(self)@ == pixel_phase(old(self)@),
            final(screen)@ == pixel_screen(old(self)@, old(screen)@),
    {
        proof {
            reveal(pixel_phase);
            reveal(pixel_screen);
        }
        let cycle = self.regs.cycle;
        let scanline = self.regs.scanline;
        if !(1 <= cycle && cycle <= 256 && scanline <= 239) {
            return;
        }
        let background = self.background_index();
        let (sprite, index, behind) = self.shown_sprite();
        let shade = self.compose(background, sprite, index, behind);
        if 8 <= scanline && scanline < 232 {
            let place: usize = cycle as usize - 1 + scanline as usize * 256;
            if place < screen.len() {
                screen[place] = colour(shade);
            }
        }
    }

    fn run_shift_phase(&mut self)
        ensures
            final(self)@ == (PpuState { regs: shift_phase(old(self)@.regs), ..old(self)@ }),
    {
        let cycle = self.regs.cycle;
        if (1 <= cycle && cycle <= 257) || (321 <= cycle && cycle <= 336) {
            self.regs.shifter.shift();
        }
    }

    fn run_address_phase(&mut self)
        ensures
            final(self)@ == (PpuState { regs: address_phase(old(self)@.regs), ..old(self)@ }),
    {
        let scanline = self.regs.scanline;
        if scanline <= 239 || scanline == MAX_SCANLINE {
            self.update_address();
        }
    }

    fn run_render_phase(&mut self, screen: &mut [u32])
        ensures
            final(self)@ == render_phase(old(self)@),
            final(screen)@ == render_screen(old(self)@, old(screen)@),
    {
        if !self.regs.mask.rendering() {
            return;
        }
        self.run_fetch_phase();
        self.run_pixel_phase(screen);
        self.run_shift_phase();
        self.run_address_phase();
    }

    /// Advances the video unit by `count` dots and says whether one of them
    /// raised the frame interrupt.
    pub fn advance(&mut self, screen: &mut [u32], count: usize) -> (nmi: bool)
        ensures
            nmi == dots_edge(old(self)@, count as nat),
            final(self)@ == dots_state(old(self)@, count as nat),
            final(screen)@ == dots_screen(old(self)@, old(screen)@, count as nat),
    {
        let mut nmi = false;
        let mut left: usize = count;
        while left > 0
            invariant
                dots_state(self@, left as nat) == dots_state(old(self)@, count as nat),
                dots_screen(self@, screen@, left as nat) == dots_screen(
                    old(self)@,
                    old(screen)@,
                    count as nat,
                ),
                (nmi || dots_edge(self@, left as nat)) == dots_edge(old(self)@, count as nat),
            decreases left,
        {
            if self.tick(screen) {
                nmi = true;
            }
            left = left - 1;
        }
        nmi
    }

    /// Advances the video unit by one dot and draws the pixel of the dot, if
    /// it has one, into `screen`. Returns whether the dot raises the frame
    /// interrupt, which it does at dot 1 of scanline 241 while the interrupt
    /// is enabled, and at no other dot.
    pub fn tick(&mut self, screen: &mut [u32]) -> (nmi: bool)
        ensures
            nmi == nmi_edge(old(self)@.regs),
            final(self)@ == tick_state(old(self)@),
            final(screen)@ == tick_screen(old(self)@, old(screen)@),
    {
        self.skip_dot();
        let nmi = self.latch_flags();
        self.run_sprite_phase();
        self.run_render_phase(screen);
        self.increment_cycle();
        nmi
    }
}

} // verus!
