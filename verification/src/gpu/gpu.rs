//! An LCD controller that counts the window's pixels itself and looks up the sprites
//! drawn under the background pixel by pixel.

use vstd::prelude::*;

use crate::gpu::color::{palette_shade, shade_color, Color};
use crate::gpu::lcd::{
    background_location, bit_set, collect_sprites, draw_sprites_in_row, empty_row, in_window, lcdc_flag,
    ly_incremented, new_empty_row, picked_sprites, read_background_location, read_in_window,
    read_pixel_from_tile, read_stat_mode, read_tile_data_location, read_tile_row, set_stat_mode,
    sprite_bytes, sprite_height, sprite_row, stat_mode, tile_bytes_at, tile_data_location, tile_pixel,
    with_stat_mode, lemma_mode_code_bits, line_agrees_with_mode, GpuEvent, OamEntry, StatMode, TileCache, BGP, CANVAS_SIZE, LCDC, LY, OAM_ENTRIES,
    OBP0, OBP1, PIXEL_HEIGHT, PIXEL_WIDTH,
};
use crate::memory::Memory;

verus! {

/// The colour of the first sprite in `sprites` from index `i` on that has a visible
/// pixel at screen column `x`.
pub open spec fn first_sprite_pixel(memory: Seq<u8>, sprites: Seq<OamEntry>, i: int, x: int) -> Option<Color>
    decreases sprites.len() - i,
{
    if i >= sprites.len() || i < 0 {
        None
    } else {
        let sprite = sprites[i];
        let cpx = x + 8 - sprite.x;
        if !(0 <= cpx < 8) {
            first_sprite_pixel(memory, sprites, i + 1, x)
        } else {
            let bytes = sprite_bytes(memory, sprite, memory[LY as int], sprite_height(memory));
            let bit = (if bit_set(sprite.flags, 5) { 7 - cpx } else { cpx }) as u8;
            let pixel = tile_pixel(bit, bytes.0, bytes.1);
            if pixel == 0 {
                first_sprite_pixel(memory, sprites, i + 1, x)
            } else {
                let palette = if bit_set(sprite.flags, 4) { memory[OBP1 as int] } else { memory[OBP0 as int] };
                Some(shade_color(palette_shade(pixel, palette)))
            }
        }
    }
}

/// What a column of a line leaves for the next: the tile cache, the window column
/// reached and whether the window showed.
pub type LineState = (TileCache, u16, bool);

/// Screen column `x` of line `ly`: a sprite pixel drawn over the background wins; else,
/// with the background on, the window (counted from its own column and line counters)
/// or the scrolled background is drawn unless its pixel is 0 and a sprite drawn under the
/// background shows there.
pub open spec fn counted_pixel_step(
    memory: Seq<u8>,
    over: Seq<Option<Color>>,
    under_sprites: Seq<OamEntry>,
    window_y: u16,
    x: int,
    state: LineState,
) -> (Option<Color>, LineState) {
    let (cache, window_x, window_used) = state;
    let lcdc = memory[LCDC as int];
    let ly = memory[LY as int];
    if over[x] is Some {
        (over[x], state)
    } else {
        let under = if bit_set(lcdc, 1) { first_sprite_pixel(memory, under_sprites, 0, x) } else { None };
        if !bit_set(lcdc, 0) {
            (under, state)
        } else {
            let (location, tile_x, tile_row, next_x, used) = if in_window(memory, ly, x) {
                let base: int = if bit_set(lcdc, 6) { 0x9C00 } else { 0x9800 };
                (
                    (base + ((window_y / 8) * 32) % 1024 + window_x / 8) as u16,
                    (window_x % 8) as u8,
                    (window_y % 8) as u8,
                    (window_x + 1) as u16,
                    true,
                )
            } else {
                let (l, tx, tr) = background_location(memory, ly, x);
                (l, tx, tr, window_x, window_used)
            };
            let bytes = if cache.0 != location {
                tile_bytes_at(memory, (tile_data_location(memory, memory[location as int]) + tile_row * 2) as u16)
            } else {
                cache.1
            };
            let pixel = tile_pixel(tile_x, bytes.0, bytes.1);
            let out = if pixel != 0 || under is None {
                Some(shade_color(palette_shade(pixel, memory[BGP as int])))
            } else {
                under
            };
            (out, ((location, bytes), next_x, used))
        }
    }
}

/// The canvas and the line state after drawing columns `x` to 159 of line LY.
pub open spec fn counted_render_from(
    memory: Seq<u8>,
    over: Seq<Option<Color>>,
    under_sprites: Seq<OamEntry>,
    window_y: u16,
    x: int,
    state: LineState,
    canvas: Seq<Option<Color>>,
) -> (Seq<Option<Color>>, LineState)
    decreases PIXEL_WIDTH - x,
{
    if x >= PIXEL_WIDTH || x < 0 {
        (canvas, state)
    } else {
        let (out, next) = counted_pixel_step(memory, over, under_sprites, window_y, x, state);
        let drawn = if out is Some { canvas.update(memory[LY as int] * PIXEL_WIDTH + x, out) } else { canvas };
        counted_render_from(memory, over, under_sprites, window_y, x + 1, next, drawn)
    }
}

/// The state of the controller, in mathematical terms.
#[verifier::ext_equal]
pub struct GPUView {
    pub cycles_accumulated: u16,
    pub sprites_with_priority: Seq<OamEntry>,
    pub sprites_without_priority: Seq<OamEntry>,
    pub canvas: Seq<Option<Color>>,
    pub last_window_rendered_position_x: u16,
    pub last_window_rendered_position_y: u16,
}

/// The LCD controller: the cycles spent in the current mode, the sprites picked for the
/// current line, the picture drawn so far (160 by 144 pixels, `None` where nothing was
/// drawn) and the window's column and line counters.
pub struct GPU {
    pub cycles_accumulated: u16,
    pub sprites_to_be_drawn_with_priority: Vec<OamEntry>,
    pub sprites_to_be_drawn_without_priority: Vec<OamEntry>,
    pub canvas: Vec<Option<Color>>,
    pub last_window_rendered_position_x: u16,
    pub last_window_rendered_position_y: u16,
}

impl View for GPU {
    type V = GPUView;

    open spec fn view(&self) -> GPUView {
        GPUView {
            cycles_accumulated: self.cycles_accumulated,
            sprites_with_priority: self.sprites_to_be_drawn_with_priority@,
            sprites_without_priority: self.sprites_to_be_drawn_without_priority@,
            canvas: self.canvas@,
            last_window_rendered_position_x: self.last_window_rendered_position_x,
            last_window_rendered_position_y: self.last_window_rendered_position_y,
        }
    }
}

impl GPUView {
    /// The canvas covers the screen, no mode has run past its length, no more sprites are
    /// picked than the object attribute memory holds, and between lines the window's
    /// column counter is 0.
    pub open spec fn wf(self) -> bool {
        &&& self.canvas.len() == CANVAS_SIZE
        &&& self.cycles_accumulated < 456
        &&& self.sprites_with_priority.len() <= OAM_ENTRIES
        &&& self.sprites_without_priority.len() <= OAM_ENTRIES
        &&& self.last_window_rendered_position_x == 0
    }

    /// The canvas and the line state after drawing line LY.
    pub open spec fn rendered(self, memory: Seq<u8>) -> (Seq<Option<Color>>, LineState) {
        let over = if bit_set(memory[LCDC as int], 1) {
            sprite_row(memory, self.sprites_without_priority)
        } else {
            empty_row()
        };
        counted_render_from(
            memory,
            over,
            self.sprites_with_priority,
            self.last_window_rendered_position_y,
            0,
            ((0u16, (0u8, 0u8)), 0u16, false),
            self.canvas,
        )
    }

    /// Whether a step draws a line: the controller is in pixel transfer, its 172 cycles
    /// are complete and the display is on.
    pub open spec fn draws_line(self, memory: Seq<u8>, cycles: u8) -> bool {
        stat_mode(memory) == StatMode::LcdTransfer && self.cycles_accumulated + cycles >= 172
            && bit_set(memory[LCDC as int], 7)
    }

    /// Whether a step can run: a line it draws is on the screen and the window's line
    /// counter is below 16384, so that its tile-map row (the counter divided by 8, times
    /// 32) stays within 16 bits.
    pub open spec fn step_allowed(self, memory: Seq<u8>, cycles: u8) -> bool {
        self.draws_line(memory, cycles) ==> memory[LY as int] < PIXEL_HEIGHT
            && self.last_window_rendered_position_y < 16384
    }

    /// The controller, the memory and the event after a step of `cycles` cycles. The
    /// cycles are counted and the mode in STAT decides:
    /// - horizontal blank, after 204 cycles: the next line; past the last screen line
    ///   (144) vertical blank begins, else an OAM search;
    /// - vertical blank, every 456 cycles: the window's counters restart and the next
    ///   line comes; past line 153 the counter returns to 0 and an OAM search begins;
    /// - OAM search, after 80 cycles: the sprites on the line are picked and pixel
    ///   transfer begins;
    /// - pixel transfer, after 172 cycles: horizontal blank begins and, with the display
    ///   on, the line is drawn; the window's line counter moves on when the window showed.
    pub open spec fn step_spec(self, memory: Seq<u8>, cycles: u8) -> (GPUView, Seq<u8>, GpuEvent) {
        let total = (self.cycles_accumulated + cycles) as u16;
        let counted = GPUView { cycles_accumulated: total, ..self };
        let reset = GPUView { cycles_accumulated: 0, ..self };
        match stat_mode(memory) {
            StatMode::HBlank => if total >= 204 {
                let next = ly_incremented(memory);
                let mode = if next[LY as int] >= PIXEL_HEIGHT { StatMode::VBlank } else { StatMode::SearchOamRam };
                (reset, with_stat_mode(next, mode), GpuEvent::ModeChanged(mode))
            } else {
                (counted, memory, GpuEvent::Nothing)
            },
            StatMode::VBlank => if total >= 456 {
                let next = ly_incremented(memory);
                let restarted = GPUView {
                    cycles_accumulated: 0,
                    last_window_rendered_position_x: 0,
                    last_window_rendered_position_y: 0,
                    ..self
                };
                if next[LY as int] > 153 {
                    (
                        restarted,
                        with_stat_mode(next, StatMode::SearchOamRam).update(LY as int, 0u8),
                        GpuEvent::ModeChanged(StatMode::SearchOamRam),
                    )
                } else {
                    (restarted, next, GpuEvent::Nothing)
                }
            } else {
                (counted, memory, GpuEvent::Nothing)
            },
            StatMode::SearchOamRam => if total >= 80 {
                let next = with_stat_mode(memory, StatMode::LcdTransfer);
                (
                    GPUView {
                        cycles_accumulated: 0,
                        sprites_with_priority: picked_sprites(next, true),
                        sprites_without_priority: picked_sprites(next, false),
                        ..self
                    },
                    next,
                    GpuEvent::ModeChanged(StatMode::LcdTransfer),
                )
            } else {
                (counted, memory, GpuEvent::Nothing)
            },
            StatMode::LcdTransfer => if total >= 172 {
                let next = with_stat_mode(memory, StatMode::HBlank);
                if !bit_set(next[LCDC as int], 7) {
                    (reset, next, GpuEvent::ModeChanged(StatMode::HBlank))
                } else {
                    let (canvas, state) = reset.rendered(next);
                    (
                        GPUView {
                            canvas,
                            last_window_rendered_position_x: 0,
                            last_window_rendered_position_y: if state.2 {
                                (self.last_window_rendered_position_y + 1) as u16
                            } else {
                                self.last_window_rendered_position_y
                            },
                            ..reset
                        },
                        next,
                        GpuEvent::ModeChanged(StatMode::HBlank),
                    )
                }
            } else {
                (counted, memory, GpuEvent::Nothing)
            },
        }
    }
}

/// The colour of the first sprite with a visible pixel at column `x`.
fn draw_sprites(memory: &Memory, sprites: &Vec<OamEntry>, x: u16) -> (pixel: Option<Color>)
    requires
        memory.wf(),
        x < PIXEL_WIDTH,
    ensures
        pixel == first_sprite_pixel(memory@, sprites@, 0, x as int),
{
    let ly: i32 = memory.read_8(LY) as i32;
    let height: i32 = if lcdc_flag(memory, 2) { 16 } else { 8 };
    let mut i: usize = 0;
    while i < sprites.len()
        invariant
            memory.wf(),
            i <= sprites@.len(),
            x < PIXEL_WIDTH,
            ly == memory@[LY as int],
            height == sprite_height(memory@),
            first_sprite_pixel(memory@, sprites@, i as int, x as int) == first_sprite_pixel(memory@, sprites@, 0, x as int),
        decreases sprites@.len() - i,
    {
        let sprite: OamEntry = sprites[i];
        let current_pixel_x: i32 = x as i32 + 8 - sprite.x as i32;
        if 0 <= current_pixel_x && current_pixel_x < 8 {
            let current_pixel_y: i32 = ly + 16 - sprite.y as i32;
            let row_in_tile: i32 = if sprite.flip_y() { height - 1 - current_pixel_y } else { current_pixel_y };
            let sprite_addr: u16 = 0x8000 + sprite.tile_number as u16 * 16;
            let address: u16 = sprite_addr.wrapping_add((row_in_tile as u16).wrapping_mul(2));
            let bytes: (u8, u8) = read_tile_row(memory, address);
            let bit: u8 = if sprite.flip_x() { (7 - current_pixel_x) as u8 } else { current_pixel_x as u8 };
            let pixel: u8 = read_pixel_from_tile(bit, bytes);
            if pixel != 0 {
                let palette: u8 = if !sprite.palette() { memory.read_8(OBP0) } else { memory.read_8(OBP1) };
                return Some(Color::from_pixel(pixel, palette));
            }
        }
        i = i + 1;
    }
    None
}

impl GPU {
    /// A controller at the start of a mode, with no sprites picked, nothing drawn and the
    /// window's counters at 0.
    pub fn new() -> (gpu: Self)
        ensures
            gpu@.wf(),
            gpu@.cycles_accumulated == 0,
            gpu@.last_window_rendered_position_y == 0,
            gpu@.sprites_with_priority.len() == 0,
            gpu@.sprites_without_priority.len() == 0,
            gpu@.canvas == Seq::new(CANVAS_SIZE as nat, |i: int| None::<Color>),
    {
        let mut canvas: Vec<Option<Color>> = Vec::new();
        let mut i: usize = 0;
        while i < CANVAS_SIZE
            invariant
                i <= CANVAS_SIZE,
                canvas@ == Seq::new(i as nat, |j: int| None::<Color>),
            decreases CANVAS_SIZE - i,
        {
            canvas.push(None);
            i = i + 1;
        }
        GPU {
            cycles_accumulated: 0,
            sprites_to_be_drawn_with_priority: Vec::new(),
            sprites_to_be_drawn_without_priority: Vec::new(),
            canvas,
            last_window_rendered_position_x: 0,
            last_window_rendered_position_y: 0,
        }
    }

    /// Whether a step of `cycles` cycles can run.
    pub fn can_step(&self, memory: &Memory, cycles: u8) -> (r: bool)
        requires
            memory.wf(),
        ensures
            r == self@.step_allowed(memory@, cycles),
    {
        let draws: bool = read_stat_mode(memory) == StatMode::LcdTransfer
            && self.cycles_accumulated as u32 + cycles as u32 >= 172 && lcdc_flag(memory, 7);
        !draws || (memory.read_8(LY) < 144 && self.last_window_rendered_position_y < 16384)
    }

    /// Runs the controller for the cycles the last instruction took.
    pub fn step(&mut self, memory: &mut Memory, cycles: u8) -> (event: GpuEvent)
        requires
            old(self)@.wf(),
            old(memory).wf(),
            old(self)@.step_allowed(old(memory)@, cycles),
        ensures
            (final(self)@, final(memory)@, event) == old(self)@.step_spec(old(memory)@, cycles),
            final(self)@.wf(),
            final(memory).wf(),
    {
        let mode: StatMode = read_stat_mode(memory);
        self.cycles_accumulated = self.cycles_accumulated + cycles as u16;

        match mode {
            StatMode::HBlank => {
                if self.cycles_accumulated >= 204 {
                    self.cycles_accumulated = 0;
                    let ly: u8 = memory.read_8(LY).wrapping_add(1);
                    memory.write_8(LY, ly);
                    let next: StatMode = if ly >= 144 { StatMode::VBlank } else { StatMode::SearchOamRam };
                    set_stat_mode(memory, next);
                    GpuEvent::ModeChanged(next)
                } else {
                    GpuEvent::Nothing
                }
            },
            StatMode::VBlank => self.vblank(memory),
            StatMode::SearchOamRam => self.search_oam_ram(memory),
            StatMode::LcdTransfer => self.lcd_transfer(memory),
        }
    }

    /// Vertical blank: every 456 cycles, the window's counters restart and the next line
    /// comes; past line 153, back to line 0 and an OAM search.
    fn vblank(&mut self, memory: &mut Memory) -> (event: GpuEvent)
        requires
            old(memory).wf(),
        ensures
            final(memory).wf(),
            (final(self)@, final(memory)@, event) == (if old(self).cycles_accumulated >= 456 {
                let next = ly_incremented(old(memory)@);
                let restarted = GPUView {
                    cycles_accumulated: 0,
                    last_window_rendered_position_x: 0,
                    last_window_rendered_position_y: 0,
                    ..old(self)@
                };
                if next[LY as int] > 153 {
                    (
                        restarted,
                        with_stat_mode(next, StatMode::SearchOamRam).update(LY as int, 0u8),
                        GpuEvent::ModeChanged(StatMode::SearchOamRam),
                    )
                } else {
                    (restarted, next, GpuEvent::Nothing)
                }
            } else {
                (old(self)@, old(memory)@, GpuEvent::Nothing)
            }),
    {
        if self.cycles_accumulated >= 456 {
            self.cycles_accumulated = 0;

            self.last_window_rendered_position_x = 0;
            self.last_window_rendered_position_y = 0;

            let ly: u8 = memory.read_8(LY).wrapping_add(1);
            memory.write_8(LY, ly);

            if ly > 153 {
                set_stat_mode(memory, StatMode::SearchOamRam);
                memory.write_8(LY, 0);
                return GpuEvent::ModeChanged(StatMode::SearchOamRam);
            }
        }
        GpuEvent::Nothing
    }

    /// OAM search: after 80 cycles, pixel transfer begins with the sprites on the line.
    fn search_oam_ram(&mut self, memory: &mut Memory) -> (event: GpuEvent)
        requires
            old(memory).wf(),
            old(self)@.sprites_with_priority.len() <= OAM_ENTRIES,
            old(self)@.sprites_without_priority.len() <= OAM_ENTRIES,
        ensures
            final(memory).wf(),
            final(self)@.sprites_with_priority.len() <= OAM_ENTRIES,
            final(self)@.sprites_without_priority.len() <= OAM_ENTRIES,
            (final(self)@, final(memory)@, event) == (if old(self).cycles_accumulated >= 80 {
                let next = with_stat_mode(old(memory)@, StatMode::LcdTransfer);
                (
                    GPUView {
                        cycles_accumulated: 0,
                        sprites_with_priority: picked_sprites(next, true),
                        sprites_without_priority: picked_sprites(next, false),
                        ..old(self)@
                    },
                    next,
                    GpuEvent::ModeChanged(StatMode::LcdTransfer),
                )
            } else {
                (old(self)@, old(memory)@, GpuEvent::Nothing)
            }),
    {
        if self.cycles_accumulated < 80 {
            return GpuEvent::Nothing;
        }

        self.cycles_accumulated = 0;
        set_stat_mode(memory, StatMode::LcdTransfer);

        if !lcdc_flag(memory, 1) {
            self.sprites_to_be_drawn_with_priority = Vec::new();
            self.sprites_to_be_drawn_without_priority = Vec::new();
            return GpuEvent::ModeChanged(StatMode::LcdTransfer);
        }

        self.sprites_to_be_drawn_with_priority = collect_sprites(memory, true);
        self.sprites_to_be_drawn_without_priority = collect_sprites(memory, false);
        GpuEvent::ModeChanged(StatMode::LcdTransfer)
    }

    /// Pixel transfer: after 172 cycles, horizontal blank begins and, with the display on,
    /// line LY is drawn.
    fn lcd_transfer(&mut self, memory: &mut Memory) -> (event: GpuEvent)
        requires
            old(memory).wf(),
            old(self)@.canvas.len() == CANVAS_SIZE,
            old(self)@.sprites_with_priority.len() <= OAM_ENTRIES,
            old(self)@.sprites_without_priority.len() <= OAM_ENTRIES,
            old(self).cycles_accumulated >= 172 && bit_set(old(memory)@[LCDC as int], 7)
                ==> old(memory)@[LY as int] < PIXEL_HEIGHT && old(self).last_window_rendered_position_y < 16384,
        ensures
            final(memory).wf(),
            final(self)@.canvas.len() == CANVAS_SIZE,
            (final(self)@, final(memory)@, event) == (if old(self).cycles_accumulated >= 172 {
                let next = with_stat_mode(old(memory)@, StatMode::HBlank);
                let reset = GPUView { cycles_accumulated: 0, ..old(self)@ };
                if !bit_set(next[LCDC as int], 7) {
                    (reset, next, GpuEvent::ModeChanged(StatMode::HBlank))
                } else {
                    let (canvas, state) = reset.rendered(next);
                    (
                        GPUView {
                            canvas,
                            last_window_rendered_position_x: 0,
                            last_window_rendered_position_y: if state.2 {
                                (old(self).last_window_rendered_position_y + 1) as u16
                            } else {
                                old(self).last_window_rendered_position_y
                            },
                            ..reset
                        },
                        next,
                        GpuEvent::ModeChanged(StatMode::HBlank),
                    )
                }
            } else {
                (old(self)@, old(memory)@, GpuEvent::Nothing)
            }),
    {
        if self.cycles_accumulated < 172 {
            return GpuEvent::Nothing;
        }

        self.cycles_accumulated = 0;
        set_stat_mode(memory, StatMode::HBlank);

        if !lcdc_flag(memory, 7) {
            return GpuEvent::ModeChanged(StatMode::HBlank);
        }

        let any_window_rendered: bool = self.draw_line(memory);

        self.last_window_rendered_position_x = 0;

        if any_window_rendered {
            self.last_window_rendered_position_y = self.last_window_rendered_position_y + 1;
        }
        GpuEvent::ModeChanged(StatMode::HBlank)
    }

    /// Draws line LY into the canvas; tells whether the window showed.
    fn draw_line(&mut self, memory: &Memory) -> (window_used: bool)
        requires
            memory.wf(),
            old(self)@.canvas.len() == CANVAS_SIZE,
            old(self)@.sprites_with_priority.len() <= OAM_ENTRIES,
            old(self)@.sprites_without_priority.len() <= OAM_ENTRIES,
            memory@[LY as int] < PIXEL_HEIGHT,
            old(self).last_window_rendered_position_y < 16384,
        ensures
            ({
                let (canvas, state) = old(self)@.rendered(memory@);
                &&& final(self)@.canvas == canvas
                &&& window_used == state.2
            }),
            final(self).cycles_accumulated == old(self).cycles_accumulated,
            final(self).last_window_rendered_position_y == old(self).last_window_rendered_position_y,
            final(self)@.sprites_with_priority == old(self)@.sprites_with_priority,
            final(self)@.sprites_without_priority == old(self)@.sprites_without_priority,
            final(self)@.canvas.len() == CANVAS_SIZE,
    {
        let ly: u8 = memory.read_8(LY);
        let bgp: u8 = memory.read_8(BGP);
        let bg_display: bool = lcdc_flag(memory, 0);
        let sprites_on: bool = lcdc_flag(memory, 1);
        let window_y: u16 = self.last_window_rendered_position_y;

        let over: Vec<Option<Color>> = if sprites_on {
            draw_sprites_in_row(memory, &self.sprites_to_be_drawn_without_priority)
        } else {
            new_empty_row()
        };

        let ghost target = old(self)@.rendered(memory@);
        let mut previous_location: u16 = 0;
        let mut tile_bytes: (u8, u8) = (0, 0);
        let mut window_x: u16 = 0;
        let mut window_used: bool = false;
        let mut x: u16 = 0;
        while x < PIXEL_WIDTH
            invariant
                memory.wf(),
                x <= PIXEL_WIDTH,
                window_x <= x,
                ly == memory@[LY as int],
                ly < PIXEL_HEIGHT,
                bgp == memory@[BGP as int],
                bg_display == bit_set(memory@[LCDC as int], 0),
                sprites_on == bit_set(memory@[LCDC as int], 1),
                window_y == old(self).last_window_rendered_position_y,
                window_y < 16384,
                over@.len() == PIXEL_WIDTH,
                self.canvas@.len() == CANVAS_SIZE,
                self.cycles_accumulated == old(self).cycles_accumulated,
                self.last_window_rendered_position_y == old(self).last_window_rendered_position_y,
                self.sprites_to_be_drawn_with_priority@ == old(self)@.sprites_with_priority,
                self.sprites_to_be_drawn_without_priority@ == old(self)@.sprites_without_priority,
                counted_render_from(
                    memory@,
                    over@,
                    self.sprites_to_be_drawn_with_priority@,
                    window_y,
                    x as int,
                    ((previous_location, tile_bytes), window_x, window_used),
                    self.canvas@,
                ) == target,
            decreases PIXEL_WIDTH - x,
        {
            let position: usize = ly as usize * 160 + x as usize;
            match over[x as usize] {
                Some(color) => {
                    self.canvas.set(position, Some(color));
                },
                None => {
                    let mut pixel_to_write: Option<Color> = None;
                    if sprites_on {
                        pixel_to_write = draw_sprites(memory, &self.sprites_to_be_drawn_with_priority, x);
                    }
                    if bg_display {
                        let location: u16;
                        let tile_x: u8;
                        let tile_row: u8;
                        if read_in_window(memory, ly, x) {
                            let base: u16 = if lcdc_flag(memory, 6) { 0x9C00 } else { 0x9800 };
                            location = base + ((window_y / 8) * 32) % 1024 + window_x / 8;
                            tile_x = (window_x % 8) as u8;
                            tile_row = (window_y % 8) as u8;
                            window_x = window_x + 1;
                            window_used = true;
                        } else {
                            let (l, tx, tr) = read_background_location(memory, ly, x);
                            location = l;
                            tile_x = tx;
                            tile_row = tr;
                        }
                        if previous_location != location {
                            let tile: u8 = memory.read_8(location);
                            let data: u16 = read_tile_data_location(memory, tile);
                            tile_bytes = read_tile_row(memory, data + tile_row as u16 * 2);
                            previous_location = location;
                        }
                        let pixel: u8 = read_pixel_from_tile(tile_x, tile_bytes);
                        if pixel != 0 || pixel_to_write.is_none() {
                            pixel_to_write = Some(Color::from_pixel(pixel, bgp));
                        }
                    }
                    match pixel_to_write {
                        Some(color) => {
                            self.canvas.set(position, Some(color));
                        },
                        None => {},
                    }
                },
            }
            x = x + 1;
        }
        window_used
    }
}

/// The controller keeps the line counter in agreement with its mode: lines 0 to 143 are
/// scanned, lines 144 to 153 pass in vertical blank, and the counter returns to 0. So a
/// line it draws is always on the screen.
pub proof fn law_counted_line_counter_follows_mode(gpu: GPUView, memory: Seq<u8>, cycles: u8)
    requires
        memory.len() == crate::memory::MEMORY_SIZE,
        line_agrees_with_mode(memory),
    ensures
        gpu.draws_line(memory, cycles) ==> memory[LY as int] < PIXEL_HEIGHT,
        line_agrees_with_mode(gpu.step_spec(memory, cycles).1),
{
    lemma_mode_code_bits();
    let stat = memory[crate::gpu::lcd::STAT as int];
    assert(((stat & 0xFCu8) | 0u8) % 4 == 0);
    assert(((stat & 0xFCu8) | 1u8) % 4 == 1);
    assert(((stat & 0xFCu8) | 2u8) % 4 == 2);
    assert(((stat & 0xFCu8) | 3u8) % 4 == 3);
}

} // verus!
