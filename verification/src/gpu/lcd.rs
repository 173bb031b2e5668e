//! The LCD controller: its mode state machine (OAM search, pixel transfer, horizontal
//! and vertical blank), the sprites it picks for each line and the pixels it draws.

use vstd::prelude::*;

use crate::gpu::color::{palette_shade, shade_color, Color};
use crate::memory::Memory;

verus! {

/// The width of the screen in pixels.
pub const PIXEL_WIDTH: u16 = 160;
/// The height of the screen in pixels.
pub const PIXEL_HEIGHT: u16 = 144;
/// The number of pixels on the screen.
pub const CANVAS_SIZE: usize = 23040;
/// The number of entries in the object attribute memory.
pub const OAM_ENTRIES: u16 = 40;

/// LCD control register.
pub const LCDC: u16 = 0xFF40;
/// LCD status register; its two low bits hold the mode.
pub const STAT: u16 = 0xFF41;
/// Background scroll, vertical.
pub const SCY: u16 = 0xFF42;
/// Background scroll, horizontal.
pub const SCX: u16 = 0xFF43;
/// The line being drawn.
pub const LY: u16 = 0xFF44;
/// Background palette.
pub const BGP: u16 = 0xFF47;
/// First sprite palette.
pub const OBP0: u16 = 0xFF48;
/// Second sprite palette.
pub const OBP1: u16 = 0xFF49;
/// Window position, vertical.
pub const WY: u16 = 0xFF4A;
/// Window position, horizontal (plus 7).
pub const WX: u16 = 0xFF4B;
/// Start of the object attribute memory.
pub const OAM_START: u16 = 0xFE00;

/// The four modes of the LCD controller, as the two low bits of STAT give them.
#[derive(PartialEq, Eq, Structural, Clone, Copy, Debug)]
pub enum StatMode {
    HBlank,
    VBlank,
    SearchOamRam,
    LcdTransfer,
}

/// What a step of the controller did.
#[derive(PartialEq, Eq, Structural, Clone, Copy, Debug)]
pub enum GpuEvent {
    /// Cycles were counted; nothing else happened.
    Nothing,
    /// The display is switched off: the line counter was reset.
    LcdOff,
    /// The controller entered the mode.
    ModeChanged(StatMode),
}

/// Whether bit `bit` of `byte` is set.
pub open spec fn bit_set(byte: u8, bit: u8) -> bool {
    (byte >> bit) & 1u8 == 1u8
}

/// The mode STAT holds.
pub open spec fn stat_mode(memory: Seq<u8>) -> StatMode {
    let code = memory[STAT as int] % 4;
    if code == 0 {
        StatMode::HBlank
    } else if code == 1 {
        StatMode::VBlank
    } else if code == 2 {
        StatMode::SearchOamRam
    } else {
        StatMode::LcdTransfer
    }
}

/// The two-bit code of a mode.
pub open spec fn mode_code(mode: StatMode) -> u8 {
    match mode {
        StatMode::HBlank => 0,
        StatMode::VBlank => 1,
        StatMode::SearchOamRam => 2,
        StatMode::LcdTransfer => 3,
    }
}

/// Memory with the mode in STAT's two low bits replaced.
pub open spec fn with_stat_mode(memory: Seq<u8>, mode: StatMode) -> Seq<u8> {
    memory.update(STAT as int, (memory[STAT as int] & 0xFCu8) | mode_code(mode))
}

/// Memory with the line counter moved on by one (wrapping at 256).
pub open spec fn ly_incremented(memory: Seq<u8>) -> Seq<u8> {
    memory.update(LY as int, vstd::wrapping::u8_specs::wrapping_add(memory[LY as int], 1))
}

/// An entry of the object attribute memory: a sprite's position (plus 16 vertically and 8
/// horizontally), its tile and its flags.
#[derive(PartialEq, Eq, Structural, Clone, Copy, Debug)]
pub struct OamEntry {
    pub y: u8,
    pub x: u8,
    pub tile_number: u8,
    pub flags: u8,
}

impl OamEntry {
    /// Whether the background is drawn over the sprite (flag bit 7).
    pub fn priority(&self) -> (r: bool)
        ensures
            r == bit_set(self.flags, 7),
    {
        (self.flags >> 7u8) & 1u8 == 1u8
    }

    /// Whether the sprite is mirrored vertically (flag bit 6).
    pub fn flip_y(&self) -> (r: bool)
        ensures
            r == bit_set(self.flags, 6),
    {
        (self.flags >> 6u8) & 1u8 == 1u8
    }

    /// Whether the sprite is mirrored horizontally (flag bit 5).
    pub fn flip_x(&self) -> (r: bool)
        ensures
            r == bit_set(self.flags, 5),
    {
        (self.flags >> 5u8) & 1u8 == 1u8
    }

    /// Whether the sprite uses the second palette (flag bit 4).
    pub fn palette(&self) -> (r: bool)
        ensures
            r == bit_set(self.flags, 4),
    {
        (self.flags >> 4u8) & 1u8 == 1u8
    }
}

/// The entry at index `i` of the object attribute memory.
pub open spec fn oam_entry_at(memory: Seq<u8>, i: int) -> OamEntry {
    OamEntry {
        y: memory[OAM_START + 4 * i],
        x: memory[OAM_START + 4 * i + 1],
        tile_number: memory[OAM_START + 4 * i + 2],
        flags: memory[OAM_START + 4 * i + 3],
    }
}

/// The height of sprites: 16 pixels with LCDC bit 2 set, else 8.
pub open spec fn sprite_height(memory: Seq<u8>) -> int {
    if bit_set(memory[LCDC as int], 2) { 16 } else { 8 }
}

/// Whether a sprite shows on line `ly`: it is not hidden at x 0 and the line crosses it.
pub open spec fn on_line(entry: OamEntry, ly: u8, height: int) -> bool {
    entry.x != 0 && ly + 16 >= entry.y && ly + 16 < entry.y + height
}

/// The index of the first entry from `i` on whose x is above `x`, or the length.
pub open spec fn first_greater(sprites: Seq<OamEntry>, x: u8, i: int) -> int
    decreases sprites.len() - i,
{
    if i >= sprites.len() {
        sprites.len() as int
    } else if sprites[i].x > x {
        i
    } else {
        first_greater(sprites, x, i + 1)
    }
}

/// A list ordered by x with `entry` put after every entry whose x is not above its own.
pub open spec fn inserted_by_x(sprites: Seq<OamEntry>, entry: OamEntry) -> Seq<OamEntry> {
    sprites.insert(first_greater(sprites, entry.x, 0), entry)
}

/// The sprites among the first `n` entries of the object attribute memory that show on
/// the current line and whose priority flag is `priority`, ordered by x; entries with the
/// same x keep their order.
pub open spec fn selected_sprites(memory: Seq<u8>, priority: bool, n: int) -> Seq<OamEntry>
    decreases n,
{
    if n <= 0 {
        Seq::empty()
    } else {
        let before = selected_sprites(memory, priority, n - 1);
        let entry = oam_entry_at(memory, n - 1);
        if on_line(entry, memory[LY as int], sprite_height(memory)) && bit_set(entry.flags, 7) == priority {
            inserted_by_x(before, entry)
        } else {
            before
        }
    }
}

/// The sprites the OAM search picks: none when sprites are off (LCDC bit 1), else those
/// of all 40 entries that show on the line.
pub open spec fn picked_sprites(memory: Seq<u8>, priority: bool) -> Seq<OamEntry> {
    if bit_set(memory[LCDC as int], 1) {
        selected_sprites(memory, priority, OAM_ENTRIES as int)
    } else {
        Seq::empty()
    }
}

/// Reads the entry at index `i` of the object attribute memory.
fn read_oam_entry(memory: &Memory, i: u16) -> (entry: OamEntry)
    requires
        memory.wf(),
        i < OAM_ENTRIES,
    ensures
        entry == oam_entry_at(memory@, i as int),
{
    let base: u16 = OAM_START + 4 * i;
    OamEntry {
        y: memory.read_8(base),
        x: memory.read_8(base + 1),
        tile_number: memory.read_8(base + 2),
        flags: memory.read_8(base + 3),
    }
}

/// Puts `entry` into a list ordered by x, after every entry whose x is not above its own.
fn insert_by_x(sprites: &mut Vec<OamEntry>, entry: OamEntry)
    ensures
        final(sprites)@ == inserted_by_x(old(sprites)@, entry),
        final(sprites)@.len() == old(sprites)@.len() + 1,
{
    let mut i: usize = 0;
    while i < sprites.len() && sprites[i].x <= entry.x
        invariant
            i <= sprites@.len(),
            sprites@ == old(sprites)@,
            first_greater(sprites@, entry.x, i as int) == first_greater(sprites@, entry.x, 0),
        decreases sprites@.len() - i,
    {
        i = i + 1;
    }
    sprites.insert(i, entry);
}

/// Whether bit `bit` of LCDC is set.
pub(crate) fn lcdc_flag(memory: &Memory, bit: u8) -> (r: bool)
    requires
        memory.wf(),
        bit < 8,
    ensures
        r == bit_set(memory@[LCDC as int], bit),
{
    (memory.read_8(LCDC) >> bit) & 1u8 == 1u8
}

/// Sets the mode in STAT.
pub(crate) fn set_stat_mode(memory: &mut Memory, mode: StatMode)
    requires
        old(memory).wf(),
    ensures
        final(memory)@ == with_stat_mode(old(memory)@, mode),
        final(memory).wf(),
{
    let code: u8 = match mode {
        StatMode::HBlank => 0,
        StatMode::VBlank => 1,
        StatMode::SearchOamRam => 2,
        StatMode::LcdTransfer => 3,
    };
    let stat: u8 = memory.read_8(STAT);
    memory.write_8(STAT, (stat & 0xFCu8) | code);
}

/// The mode STAT holds.
pub(crate) fn read_stat_mode(memory: &Memory) -> (mode: StatMode)
    requires
        memory.wf(),
    ensures
        mode == stat_mode(memory@),
{
    let code: u8 = memory.read_8(STAT) % 4;
    if code == 0 {
        StatMode::HBlank
    } else if code == 1 {
        StatMode::VBlank
    } else if code == 2 {
        StatMode::SearchOamRam
    } else {
        StatMode::LcdTransfer
    }
}

/// Picks the sprites among the first 40 entries of the object attribute memory with the
/// given priority that show on the current line, ordered by x.
pub(crate) fn collect_sprites(memory: &Memory, priority: bool) -> (sprites: Vec<OamEntry>)
    requires
        memory.wf(),
    ensures
        sprites@ == selected_sprites(memory@, priority, OAM_ENTRIES as int),
        sprites@.len() <= OAM_ENTRIES,
{
    let ly: u16 = memory.read_8(LY) as u16;
    let height: u16 = if lcdc_flag(memory, 2) { 16 } else { 8 };
    let mut sprites: Vec<OamEntry> = Vec::new();
    let mut i: u16 = 0;
    while i < OAM_ENTRIES
        invariant
            memory.wf(),
            i <= OAM_ENTRIES,
            ly == memory@[LY as int],
            height == sprite_height(memory@),
            sprites@ == selected_sprites(memory@, priority, i as int),
            sprites@.len() <= i,
        decreases OAM_ENTRIES - i,
    {
        let entry: OamEntry = read_oam_entry(memory, i);
        if entry.x != 0 && ly + 16 >= entry.y as u16 && ly + 16 < entry.y as u16 + height
            && entry.priority() == priority {
            insert_by_x(&mut sprites, entry);
        }
        i = i + 1;
    }
    sprites
}

/// The pixel (0 to 3) at column `bit` (0 is leftmost) of a tile row: its high bit from
/// `high`, its low bit from `low`.
pub open spec fn tile_pixel(bit: u8, high: u8, low: u8) -> u8 {
    ((((high >> ((7 - bit) as u8)) & 1u8) << 1u8) | ((low >> ((7 - bit) as u8)) & 1u8)) & 3u8
}

/// The two bytes of the tile row at `address`: the byte after it (high bits), then the
/// byte at it (low bits).
pub open spec fn tile_bytes_at(memory: Seq<u8>, address: u16) -> (u8, u8) {
    (memory[vstd::wrapping::u16_specs::wrapping_add(address, 1) as int], memory[address as int])
}

/// A line of pixels none of which is drawn.
pub open spec fn empty_row() -> Seq<Option<Color>> {
    Seq::new(PIXEL_WIDTH as nat, |i: int| None::<Color>)
}

/// The tile row bytes of a sprite on line `ly`: the row within the sprite (mirrored with
/// flag bit 6) in the sprite's tile at 0x8000 plus 16 per tile number.
pub open spec fn sprite_bytes(memory: Seq<u8>, sprite: OamEntry, ly: u8, height: int) -> (u8, u8) {
    let cpy = ly + 16 - sprite.y;
    let row = if bit_set(sprite.flags, 6) { height - 1 - cpy } else { cpy };
    let address = vstd::wrapping::u16_specs::wrapping_add(
        (0x8000 + sprite.tile_number * 16) as u16,
        vstd::wrapping::u16_specs::wrapping_mul(row as u16, 2),
    );
    tile_bytes_at(memory, address)
}

/// Screen column `x` of a sprite: the sprite's pixel there (mirrored with flag bit 5),
/// drawn in its palette unless it is 0 (transparent); the last column drawn is noted.
pub open spec fn sprite_pixel_step(
    sprite: OamEntry,
    bytes: (u8, u8),
    palette: u8,
    x: int,
    row: Seq<Option<Color>>,
    end: int,
) -> (Seq<Option<Color>>, int) {
    let cpx = x + 8 - sprite.x;
    if !(0 <= cpx < 8) {
        (row, end)
    } else {
        let bit = (if bit_set(sprite.flags, 5) { 7 - cpx } else { cpx }) as u8;
        let pixel = tile_pixel(bit, bytes.0, bytes.1);
        if pixel == 0 {
            (row, end)
        } else {
            (row.update(x, Some(shade_color(palette_shade(pixel, palette)))), x)
        }
    }
}

/// Screen columns `x` up to `limit` of a sprite.
pub open spec fn sprite_pixels(
    sprite: OamEntry,
    bytes: (u8, u8),
    palette: u8,
    x: int,
    limit: int,
    row: Seq<Option<Color>>,
    end: int,
) -> (Seq<Option<Color>>, int)
    decreases limit - x,
{
    if x >= limit {
        (row, end)
    } else {
        let (r, e) = sprite_pixel_step(sprite, bytes, palette, x, row, end);
        sprite_pixels(sprite, bytes, palette, x + 1, limit, r, e)
    }
}

/// The sprites from index `i` on drawn into `row`, `screen_x` being the last column the
/// sprite before drew: each starts after it (or at its own left edge, if that is further
/// right) and stops at its right edge or the screen's.
pub open spec fn sprites_from(memory: Seq<u8>, sprites: Seq<OamEntry>, i: int, screen_x: int, row: Seq<Option<Color>>) -> Seq<Option<Color>>
    decreases sprites.len() - i,
{
    if i >= sprites.len() || i < 0 {
        row
    } else {
        let sprite = sprites[i];
        let start = if screen_x + 1 > sprite.x - 8 { screen_x + 1 } else { sprite.x - 8 };
        let limit = if sprite.x < PIXEL_WIDTH { sprite.x as int } else { PIXEL_WIDTH as int };
        let palette = if bit_set(sprite.flags, 4) { memory[OBP1 as int] } else { memory[OBP0 as int] };
        let bytes = sprite_bytes(memory, sprite, memory[LY as int], sprite_height(memory));
        let (r, end) = sprite_pixels(sprite, bytes, palette, start, limit, row, start);
        sprites_from(memory, sprites, i + 1, end, r)
    }
}

/// The line of pixels the sprites draw.
pub open spec fn sprite_row(memory: Seq<u8>, sprites: Seq<OamEntry>) -> Seq<Option<Color>> {
    sprites_from(memory, sprites, 0, -1, empty_row())
}

/// Reads the pixel at column `bit` of a tile row.
pub(crate) fn read_pixel_from_tile(bit: u8, bytes: (u8, u8)) -> (pixel: u8)
    requires
        bit < 8,
    ensures
        pixel == tile_pixel(bit, bytes.0, bytes.1),
        pixel < 4,
{
    let bit_pos: u8 = 7 - bit;
    let pixel_bit1: u8 = (bytes.0 >> bit_pos) & 1u8;
    let pixel_bit0: u8 = (bytes.1 >> bit_pos) & 1u8;
    let pixel: u8 = ((pixel_bit1 << 1u8) | pixel_bit0) & 3u8;
    assert(pixel < 4) by (bit_vector)
        requires
            pixel == ((pixel_bit1 << 1u8) | pixel_bit0) & 3u8,
    ;
    pixel
}

/// Reads the tile row at `address`.
pub(crate) fn read_tile_row(memory: &Memory, address: u16) -> (bytes: (u8, u8))
    requires
        memory.wf(),
    ensures
        bytes == tile_bytes_at(memory@, address),
{
    (memory.read_8(address.wrapping_add(1)), memory.read_8(address))
}

/// A line of pixels none of which is drawn.
pub(crate) fn new_empty_row() -> (row: Vec<Option<Color>>)
    ensures
        row@ == empty_row(),
        row@.len() == PIXEL_WIDTH,
{
    let mut row: Vec<Option<Color>> = Vec::new();
    let mut i: u16 = 0;
    while i < PIXEL_WIDTH
        invariant
            i <= PIXEL_WIDTH,
            row@ == Seq::new(i as nat, |j: int| None::<Color>),
        decreases PIXEL_WIDTH - i,
    {
        row.push(None);
        i = i + 1;
    }
    row
}

/// Draws the given sprites into a line of pixels.
pub(crate) fn draw_sprites_in_row(memory: &Memory, sprites: &Vec<OamEntry>) -> (row: Vec<Option<Color>>)
    requires
        memory.wf(),
        sprites@.len() <= OAM_ENTRIES,
    ensures
        row@ == sprite_row(memory@, sprites@),
        row@.len() == PIXEL_WIDTH,
{
    let ly: i32 = memory.read_8(LY) as i32;
    let palette0: u8 = memory.read_8(OBP0);
    let palette1: u8 = memory.read_8(OBP1);
    let height: i32 = if lcdc_flag(memory, 2) { 16 } else { 8 };
    let mut row: Vec<Option<Color>> = new_empty_row();
    let mut screen_x: i32 = -1;
    let mut i: usize = 0;
    while i < sprites.len()
        invariant
            memory.wf(),
            sprites@.len() <= OAM_ENTRIES,
            i <= sprites@.len(),
            -1 <= screen_x <= 256 + i,
            row@.len() == PIXEL_WIDTH,
            ly == memory@[LY as int],
            palette0 == memory@[OBP0 as int],
            palette1 == memory@[OBP1 as int],
            height == sprite_height(memory@),
            sprites_from(memory@, sprites@, i as int, screen_x as int, row@) == sprite_row(memory@, sprites@),
        decreases sprites@.len() - i,
    {
        let sprite: OamEntry = sprites[i];
        let start: i32 = if screen_x + 1 > sprite.x as i32 - 8 { screen_x + 1 } else { sprite.x as i32 - 8 };
        let limit: i32 = if (sprite.x as i32) < 160 { sprite.x as i32 } else { 160 };
        let palette: u8 = if !sprite.palette() { palette0 } else { palette1 };

        let current_pixel_y: i32 = ly + 16 - sprite.y as i32;
        let row_in_tile: i32 = if sprite.flip_y() { height - 1 - current_pixel_y } else { current_pixel_y };
        let sprite_addr: u16 = 0x8000 + sprite.tile_number as u16 * 16;
        let address: u16 = sprite_addr.wrapping_add((row_in_tile as u16).wrapping_mul(2));
        let bytes: (u8, u8) = read_tile_row(memory, address);

        let ghost row0 = row@;
        let mut sprite_end: i32 = start;
        let mut x: i32 = start;
        while x < limit
            invariant
                0 <= start <= x,
                x <= limit || x == start,
                limit <= 160,
                start <= sprite_end <= x,
                row@.len() == PIXEL_WIDTH,
                sprite_pixels(sprite, bytes, palette, x as int, limit as int, row@, sprite_end as int)
                    == sprite_pixels(sprite, bytes, palette, start as int, limit as int, row0, start as int),
            decreases limit - x,
        {
            let current_pixel_x: i32 = x + 8 - sprite.x as i32;
            if 0 <= current_pixel_x && current_pixel_x < 8 {
                let bit: u8 = if sprite.flip_x() { (7 - current_pixel_x) as u8 } else { current_pixel_x as u8 };
                let pixel: u8 = read_pixel_from_tile(bit, bytes);
                if pixel != 0 {
                    row.set(x as usize, Some(Color::from_pixel(pixel, palette)));
                    sprite_end = x;
                }
            }
            x = x + 1;
        }
        screen_x = sprite_end;
        i = i + 1;
    }
    row
}

/// The tile-map entry of the scrolled background (map at 0x9C00 with LCDC bit 3, else
/// 0x9800) behind screen column `x` of line `ly`, with the column and row within its tile.
pub open spec fn background_location(memory: Seq<u8>, ly: u8, x: int) -> (u16, u8, u8) {
    let base: int = if bit_set(memory[LCDC as int], 3) { 0x9C00 } else { 0x9800 };
    let sy = memory[SCY as int] + ly;
    let sx = if x + memory[SCX as int] > 255 { x + memory[SCX as int] - 256 } else { x + memory[SCX as int] };
    ((base + ((sy / 8) * 32) % 1024 + sx / 8) as u16, (sx % 8) as u8, (sy % 8) as u8)
}

/// Whether screen column `x` of line `ly` shows the window: it is on (LCDC bit 5) and
/// has begun (WY, WX minus 7).
pub open spec fn in_window(memory: Seq<u8>, ly: u8, x: int) -> bool {
    bit_set(memory[LCDC as int], 5) && memory[WY as int] <= ly && memory[WX as int] <= x + 7
}

/// The tile-map entry behind screen column `x` of line `ly`, with the column and row
/// within its tile: the window's (map at 0x9C00 with LCDC bit 6, else 0x9800), counted
/// from WY and WX minus 7, where it shows, else the background's.
pub open spec fn bg_location(memory: Seq<u8>, ly: u8, x: int) -> (u16, u8, u8) {
    if in_window(memory, ly, x) {
        let base: int = if bit_set(memory[LCDC as int], 6) { 0x9C00 } else { 0x9800 };
        let wxr = x + 7 - memory[WX as int];
        let wyr = ly - memory[WY as int];
        ((base + ((wyr / 8) * 32) % 1024 + wxr / 8) as u16, (wxr % 8) as u8, (wyr % 8) as u8)
    } else {
        background_location(memory, ly, x)
    }
}

/// Where the data of background tile `tile` starts: at 0x8000 plus 16 per tile with
/// LCDC bit 4, else at 0x9000 for tiles below 128 and 0x8800 for the others.
pub open spec fn tile_data_location(memory: Seq<u8>, tile: u8) -> u16 {
    if bit_set(memory[LCDC as int], 4) {
        (0x8000 + tile * 16) as u16
    } else {
        ((if tile >= 128 { 0x8800int } else { 0x9000int }) + (tile % 128) * 16) as u16
    }
}

/// The tile-map entry last read on a line and the tile row read for it.
pub type TileCache = (u16, (u8, u8));

/// Screen column `x` of line `ly`: a sprite pixel drawn over the background wins; else,
/// with the background on (LCDC bit 0), its pixel is drawn unless it is 0 and a sprite
/// drawn under the background shows there. A tile row is read again only when the
/// tile-map entry changes.
pub open spec fn pixel_step(
    memory: Seq<u8>,
    over: Seq<Option<Color>>,
    under: Seq<Option<Color>>,
    ly: u8,
    x: int,
    cache: TileCache,
) -> (Option<Color>, TileCache) {
    if over[x] is Some {
        (over[x], cache)
    } else if !bit_set(memory[LCDC as int], 0) {
        (under[x], cache)
    } else {
        let (location, tile_x, tile_row) = bg_location(memory, ly, x);
        let bytes = if cache.0 != location {
            tile_bytes_at(
                memory,
                (tile_data_location(memory, memory[location as int]) + tile_row * 2) as u16,
            )
        } else {
            cache.1
        };
        let pixel = tile_pixel(tile_x, bytes.0, bytes.1);
        let out = if pixel != 0 || under[x] is None {
            Some(shade_color(palette_shade(pixel, memory[BGP as int])))
        } else {
            under[x]
        };
        (out, (location, bytes))
    }
}

/// The canvas after drawing columns `x` to 159 of line `ly`; a column with nothing to
/// draw keeps its pixel.
pub open spec fn render_from(
    memory: Seq<u8>,
    over: Seq<Option<Color>>,
    under: Seq<Option<Color>>,
    ly: u8,
    x: int,
    cache: TileCache,
    canvas: Seq<Option<Color>>,
) -> Seq<Option<Color>>
    decreases PIXEL_WIDTH - x,
{
    if x >= PIXEL_WIDTH || x < 0 {
        canvas
    } else {
        let (out, next) = pixel_step(memory, over, under, ly, x, cache);
        let drawn = if out is Some { canvas.update(ly * PIXEL_WIDTH + x, out) } else { canvas };
        render_from(memory, over, under, ly, x + 1, next, drawn)
    }
}

/// The background's tile-map entry behind column `x` of line `ly`, and the column and
/// row in its tile.
pub(crate) fn read_background_location(memory: &Memory, ly: u8, x: u16) -> (r: (u16, u8, u8))
    requires
        memory.wf(),
        ly < PIXEL_HEIGHT,
        x < PIXEL_WIDTH,
    ensures
        r == background_location(memory@, ly, x as int),
{
    let base: u16 = if lcdc_flag(memory, 3) { 0x9C00 } else { 0x9800 };
    let sy: u16 = memory.read_8(SCY) as u16 + ly as u16;
    let sx: u16 = (x as u8).wrapping_add(memory.read_8(SCX)) as u16;
    (base + ((sy / 8) * 32) % 1024 + sx / 8, (sx % 8) as u8, (sy % 8) as u8)
}

/// Whether column `x` of line `ly` shows the window.
pub(crate) fn read_in_window(memory: &Memory, ly: u8, x: u16) -> (r: bool)
    requires
        memory.wf(),
        x < PIXEL_WIDTH,
    ensures
        r == in_window(memory@, ly, x as int),
{
    lcdc_flag(memory, 5) && memory.read_8(WY) <= ly && memory.read_8(WX) as u16 <= x + 7
}

/// The tile-map entry behind column `x` of line `ly`, and the column and row in its tile.
fn read_bg_location(memory: &Memory, ly: u8, x: u16) -> (r: (u16, u8, u8))
    requires
        memory.wf(),
        ly < PIXEL_HEIGHT,
        x < PIXEL_WIDTH,
    ensures
        r == bg_location(memory@, ly, x as int),
{
    if read_in_window(memory, ly, x) {
        let base: u16 = if lcdc_flag(memory, 6) { 0x9C00 } else { 0x9800 };
        let wxr: u16 = x + 7 - memory.read_8(WX) as u16;
        let wyr: u16 = ly as u16 - memory.read_8(WY) as u16;
        (base + ((wyr / 8) * 32) % 1024 + wxr / 8, (wxr % 8) as u8, (wyr % 8) as u8)
    } else {
        read_background_location(memory, ly, x)
    }
}

/// Where the data of background tile `tile` starts.
pub(crate) fn read_tile_data_location(memory: &Memory, tile: u8) -> (r: u16)
    requires
        memory.wf(),
    ensures
        r == tile_data_location(memory@, tile),
{
    if lcdc_flag(memory, 4) {
        0x8000 + tile as u16 * 16
    } else {
        (if tile >= 0b10000000u8 { 0x8800u16 } else { 0x9000u16 }) + (tile % 128) as u16 * 16
    }
}

/// The state of the LCD controller, in mathematical terms.
#[verifier::ext_equal]
pub struct GpuView {
    pub cycles_accumulated: u16,
    pub sprites_with_priority: Seq<OamEntry>,
    pub sprites_without_priority: Seq<OamEntry>,
    pub canvas: Seq<Option<Color>>,
}

/// The LCD controller: the cycles spent in the current mode, the sprites picked for the
/// current line (those the background is drawn over, and the others) and the picture
/// drawn so far, 160 by 144 pixels row by row (`None` where nothing was ever drawn).
pub struct Gpu {
    pub cycles_accumulated: u16,
    pub sprites_to_be_drawn_with_priority: Vec<OamEntry>,
    pub sprites_to_be_drawn_without_priority: Vec<OamEntry>,
    pub canvas: Vec<Option<Color>>,
}

impl View for Gpu {
    type V = GpuView;

    open spec fn view(&self) -> GpuView {
        GpuView {
            cycles_accumulated: self.cycles_accumulated,
            sprites_with_priority: self.sprites_to_be_drawn_with_priority@,
            sprites_without_priority: self.sprites_to_be_drawn_without_priority@,
            canvas: self.canvas@,
        }
    }
}

impl GpuView {
    /// The canvas covers the screen, no mode has run past its length, and no more sprites
    /// are picked than the object attribute memory holds.
    pub open spec fn wf(self) -> bool {
        &&& self.canvas.len() == CANVAS_SIZE
        &&& self.cycles_accumulated < 456
        &&& self.sprites_with_priority.len() <= OAM_ENTRIES
        &&& self.sprites_without_priority.len() <= OAM_ENTRIES
    }

    /// The canvas after the pixel transfer of line LY: the sprites are drawn (when LCDC
    /// bit 1 shows them) and then the background and window, column by column.
    pub open spec fn rendered(self, memory: Seq<u8>) -> Seq<Option<Color>> {
        let (over, under) = if bit_set(memory[LCDC as int], 1) {
            (sprite_row(memory, self.sprites_without_priority), sprite_row(memory, self.sprites_with_priority))
        } else {
            (empty_row(), empty_row())
        };
        render_from(memory, over, under, memory[LY as int], 0, (0u16, (0u8, 0u8)), self.canvas)
    }

    /// Whether a step draws a line: the display is on, the controller is in pixel
    /// transfer and its 172 cycles are complete.
    pub open spec fn draws_line(self, memory: Seq<u8>, cycles: u8) -> bool {
        bit_set(memory[LCDC as int], 7) && stat_mode(memory) == StatMode::LcdTransfer
            && self.cycles_accumulated + cycles >= 172
    }

    /// Whether a step can run: a line it draws is on the screen.
    pub open spec fn step_allowed(self, memory: Seq<u8>, cycles: u8) -> bool {
        self.draws_line(memory, cycles) ==> memory[LY as int] < PIXEL_HEIGHT
    }

    /// The controller, the memory and the event after a step of `cycles` cycles.
    ///
    /// With the display off (LCDC bit 7) the line counter and the cycle count are reset.
    /// Otherwise the cycles are counted and the mode in STAT decides:
    /// - horizontal blank, after 204 cycles: the next line; past the last screen line
    ///   (144) vertical blank begins, else an OAM search;
    /// - vertical blank, every 456 cycles: the next line; past line 153 the counter
    ///   returns to 0 and an OAM search begins;
    /// - OAM search, after 80 cycles: the sprites on the line are picked and pixel
    ///   transfer begins;
    /// - pixel transfer, after 172 cycles: horizontal blank begins and the line is drawn.
    ///
    /// Leaving a mode resets the cycle count.
    pub open spec fn step_spec(self, memory: Seq<u8>, cycles: u8) -> (GpuView, Seq<u8>, GpuEvent) {
        if !bit_set(memory[LCDC as int], 7) {
            (GpuView { cycles_accumulated: 0, ..self }, memory.update(LY as int, 0u8), GpuEvent::LcdOff)
        } else {
            let total = (self.cycles_accumulated + cycles) as u16;
            let counted = GpuView { cycles_accumulated: total, ..self };
            let reset = GpuView { cycles_accumulated: 0, ..self };
            match stat_mode(memory) {
                StatMode::HBlank => if total >= 204 {
                    let next = ly_incremented(memory);
                    let mode = if next[LY as int] >= PIXEL_HEIGHT { StatMode::VBlank } else { StatMode::SearchOamRam };
                    (reset, with_stat_mode(next, mode), GpuEvent::ModeChanged(mode))
                } else {
                    (counted, memory, GpuEvent::Nothing)
                },
                StatMode::VBlank => if total >= 456 {
                    let next = ly_incremented(memory);
                    if next[LY as int] > 153 {
                        (
                            reset,
                            with_stat_mode(next, StatMode::SearchOamRam).update(LY as int, 0u8),
                            GpuEvent::ModeChanged(StatMode::SearchOamRam),
                        )
                    } else {
                        (reset, next, GpuEvent::Nothing)
                    }
                } else {
                    (counted, memory, GpuEvent::Nothing)
                },
                StatMode::SearchOamRam => if total >= 80 {
                    let next = with_stat_mode(memory, StatMode::LcdTransfer);
                    (
                        GpuView {
                            cycles_accumulated: 0,
                            sprites_with_priority: picked_sprites(next, true),
                            sprites_without_priority: picked_sprites(next, false),
                            ..self
                        },
                        next,
                        GpuEvent::ModeChanged(StatMode::LcdTransfer),
                    )
                } else {
                    (counted, memory, GpuEvent::Nothing)
                },
                StatMode::LcdTransfer => if total >= 172 {
                    let next = with_stat_mode(memory, StatMode::HBlank);
                    (
                        GpuView { cycles_accumulated: 0, canvas: reset.rendered(next), ..self },
                        next,
                        GpuEvent::ModeChanged(StatMode::HBlank),
                    )
                } else {
                    (counted, memory, GpuEvent::Nothing)
                },
            }
        }
    }
}

impl Gpu {
    /// A controller at the start of a mode, with no sprites picked and nothing drawn.
    pub fn new() -> (gpu: Self)
        ensures
            gpu@.wf(),
            gpu@.cycles_accumulated == 0,
            gpu@.sprites_with_priority.len() == 0,
            gpu@.sprites_without_priority.len() == 0,
            gpu@.canvas == Seq::new(CANVAS_SIZE as nat, |i: int| None::<Color>),
    {
        let mut canvas: Vec<Option<Color>> = Vec::new();
        let mut i: usize = 0;
        while i < CANVAS_SIZE
            invariant
                i <= CANVAS_SIZE,
                canvas@ == Seq::new(i as nat, |j: int| None::<Color>),
            decreases CANVAS_SIZE - i,
        {
            canvas.push(None);
            i = i + 1;
        }
        Gpu {
            cycles_accumulated: 0,
            sprites_to_be_drawn_with_priority: Vec::new(),
            sprites_to_be_drawn_without_priority: Vec::new(),
            canvas,
        }
    }

    /// Whether a step of `cycles` cycles can run: a line it draws is on the screen.
    pub fn can_step(&self, memory: &Memory, cycles: u8) -> (r: bool)
        requires
            memory.wf(),
        ensures
            r == self@.step_allowed(memory@, cycles),
    {
        let draws: bool = lcdc_flag(memory, 7) && read_stat_mode(memory) == StatMode::LcdTransfer
            && self.cycles_accumulated as u32 + cycles as u32 >= 172;
        !draws || memory.read_8(LY) < 144
    }

    /// Runs the controller for the cycles the last instruction took.
    pub fn step(&mut self, memory: &mut Memory, cycles: u8) -> (event: GpuEvent)
        requires
            old(self)@.wf(),
            old(memory).wf(),
            old(self)@.step_allowed(old(memory)@, cycles),
        ensures
            (final(self)@, final(memory)@, event) == old(self)@.step_spec(old(memory)@, cycles),
            final(self)@.wf(),
            final(memory).wf(),
    {
        if !lcdc_flag(memory, 7) {
            memory.write_8(LY, 0);
            self.cycles_accumulated = 0;

            return GpuEvent::LcdOff;
        }

        let mode: StatMode = read_stat_mode(memory);
        self.cycles_accumulated = self.cycles_accumulated + cycles as u16;

        match mode {
            StatMode::HBlank => self.hblank(memory),
            StatMode::VBlank => self.vblank(memory),
            StatMode::SearchOamRam => self.search_oam_ram(memory),
            StatMode::LcdTransfer => self.lcd_transfer(memory),
        }
    }

    /// Horizontal blank: after 204 cycles, the next line.
    fn hblank(&mut self, memory: &mut Memory) -> (event: GpuEvent)
        requires
            old(memory).wf(),
            old(self)@.canvas.len() == CANVAS_SIZE,
            old(self)@.sprites_with_priority.len() <= OAM_ENTRIES,
            old(self)@.sprites_without_priority.len() <= OAM_ENTRIES,
            old(self).cycles_accumulated < 456 + 256,
        ensures
            final(memory).wf(),
            final(self)@.wf(),
            (final(self)@, final(memory)@, event) == (if old(self).cycles_accumulated >= 204 {
                let next = ly_incremented(old(memory)@);
                let mode = if next[LY as int] >= PIXEL_HEIGHT { StatMode::VBlank } else { StatMode::SearchOamRam };
                (GpuView { cycles_accumulated: 0, ..old(self)@ }, with_stat_mode(next, mode), GpuEvent::ModeChanged(mode))
            } else {
                (old(self)@, old(memory)@, GpuEvent::Nothing)
            }),
    {
        if self.cycles_accumulated >= 204 {
            self.cycles_accumulated = 0;

            let ly: u8 = memory.read_8(LY).wrapping_add(1);
            memory.write_8(LY, ly);

            let mode: StatMode = if ly >= 144 { StatMode::VBlank } else { StatMode::SearchOamRam };
            set_stat_mode(memory, mode);
            GpuEvent::ModeChanged(mode)
        } else {
            GpuEvent::Nothing
        }
    }

    /// Vertical blank: every 456 cycles, the next line; past line 153, back to line 0 and
    /// an OAM search.
    fn vblank(&mut self, memory: &mut Memory) -> (event: GpuEvent)
        requires
            old(memory).wf(),
            old(self)@.canvas.len() == CANVAS_SIZE,
            old(self)@.sprites_with_priority.len() <= OAM_ENTRIES,
            old(self)@.sprites_without_priority.len() <= OAM_ENTRIES,
            old(self).cycles_accumulated < 456 + 256,
        ensures
            final(memory).wf(),
            final(self)@.wf(),
            (final(self)@, final(memory)@, event) == (if old(self).cycles_accumulated >= 456 {
                let next = ly_incremented(old(memory)@);
                if next[LY as int] > 153 {
                    (
                        GpuView { cycles_accumulated: 0, ..old(self)@ },
                        with_stat_mode(next, StatMode::SearchOamRam).update(LY as int, 0u8),
                        GpuEvent::ModeChanged(StatMode::SearchOamRam),
                    )
                } else {
                    (GpuView { cycles_accumulated: 0, ..old(self)@ }, next, GpuEvent::Nothing)
                }
            } else {
                (old(self)@, old(memory)@, GpuEvent::Nothing)
            }),
    {
        if self.cycles_accumulated >= 456 {
            self.cycles_accumulated = 0;

            let ly: u8 = memory.read_8(LY).wrapping_add(1);
            memory.write_8(LY, ly);

            if ly > 153 {
                set_stat_mode(memory, StatMode::SearchOamRam);
                memory.write_8(LY, 0);
                return GpuEvent::ModeChanged(StatMode::SearchOamRam);
            }
        }
        GpuEvent::Nothing
    }

    /// OAM search: after 80 cycles, pixel transfer begins with the sprites on the line.
    fn search_oam_ram(&mut self, memory: &mut Memory) -> (event: GpuEvent)
        requires
            old(memory).wf(),
            old(self)@.canvas.len() == CANVAS_SIZE,
            old(self)@.sprites_with_priority.len() <= OAM_ENTRIES,
            old(self)@.sprites_without_priority.len() <= OAM_ENTRIES,
            old(self).cycles_accumulated < 456 + 256,
        ensures
            final(memory).wf(),
            (final(self)@, final(memory)@, event) == (if old(self).cycles_accumulated >= 80 {
                let next = with_stat_mode(old(memory)@, StatMode::LcdTransfer);
                (
                    GpuView {
                        cycles_accumulated: 0,
                        sprites_with_priority: picked_sprites(next, true),
                        sprites_without_priority: picked_sprites(next, false),
                        ..old(self)@
                    },
                    next,
                    GpuEvent::ModeChanged(StatMode::LcdTransfer),
                )
            } else {
                (old(self)@, old(memory)@, GpuEvent::Nothing)
            }),
            final(self)@.wf(),
    {
        if self.cycles_accumulated < 80 {
            return GpuEvent::Nothing;
        }

        self.cycles_accumulated = 0;
        set_stat_mode(memory, StatMode::LcdTransfer);

        if !lcdc_flag(memory, 1) {
            self.sprites_to_be_drawn_with_priority = Vec::new();
            self.sprites_to_be_drawn_without_priority = Vec::new();
            return GpuEvent::ModeChanged(StatMode::LcdTransfer);
        }

        self.sprites_to_be_drawn_with_priority = collect_sprites(memory, true);
        self.sprites_to_be_drawn_without_priority = collect_sprites(memory, false);
        GpuEvent::ModeChanged(StatMode::LcdTransfer)
    }

    /// Pixel transfer: after 172 cycles, horizontal blank begins and line LY is drawn.
    fn lcd_transfer(&mut self, memory: &mut Memory) -> (event: GpuEvent)
        requires
            old(memory).wf(),
            old(self)@.canvas.len() == CANVAS_SIZE,
            old(self)@.sprites_with_priority.len() <= OAM_ENTRIES,
            old(self)@.sprites_without_priority.len() <= OAM_ENTRIES,
            old(self).cycles_accumulated < 456 + 256,
            old(self).cycles_accumulated >= 172 ==> old(memory)@[LY as int] < PIXEL_HEIGHT,
        ensures
            final(memory).wf(),
            final(self)@.wf(),
            (final(self)@, final(memory)@, event) == (if old(self).cycles_accumulated >= 172 {
                let next = with_stat_mode(old(memory)@, StatMode::HBlank);
                (
                    GpuView { cycles_accumulated: 0, canvas: old(self)@.rendered(next), ..old(self)@ },
                    next,
                    GpuEvent::ModeChanged(StatMode::HBlank),
                )
            } else {
                (old(self)@, old(memory)@, GpuEvent::Nothing)
            }),
    {
        if self.cycles_accumulated < 172 {
            return GpuEvent::Nothing;
        }

        self.cycles_accumulated = 0;
        set_stat_mode(memory, StatMode::HBlank);
        self.draw_line(memory);
        GpuEvent::ModeChanged(StatMode::HBlank)
    }

    /// Draws line LY into the canvas.
    fn draw_line(&mut self, memory: &Memory)
        requires
            memory.wf(),
            old(self)@.canvas.len() == CANVAS_SIZE,
            old(self)@.sprites_with_priority.len() <= OAM_ENTRIES,
            old(self)@.sprites_without_priority.len() <= OAM_ENTRIES,
            memory@[LY as int] < PIXEL_HEIGHT,
        ensures
            final(self)@ == (GpuView { canvas: old(self)@.rendered(memory@), ..old(self)@ }),
            final(self)@.canvas.len() == CANVAS_SIZE,
    {
        let ly: u8 = memory.read_8(LY);
        let bgp: u8 = memory.read_8(BGP);
        let bg_display: bool = lcdc_flag(memory, 0);

        let over: Vec<Option<Color>>;
        let under: Vec<Option<Color>>;
        if lcdc_flag(memory, 1) {
            over = draw_sprites_in_row(memory, &self.sprites_to_be_drawn_without_priority);
            under = draw_sprites_in_row(memory, &self.sprites_to_be_drawn_with_priority);
        } else {
            over = new_empty_row();
            under = new_empty_row();
        }

        let ghost target = old(self)@.rendered(memory@);
        let mut previous_location: u16 = 0;
        let mut tile_bytes: (u8, u8) = (0, 0);
        let mut x: u16 = 0;
        while x < PIXEL_WIDTH
            invariant
                memory.wf(),
                x <= PIXEL_WIDTH,
                ly == memory@[LY as int],
                ly < PIXEL_HEIGHT,
                bgp == memory@[BGP as int],
                bg_display == bit_set(memory@[LCDC as int], 0),
                over@.len() == PIXEL_WIDTH,
                under@.len() == PIXEL_WIDTH,
                self.canvas@.len() == CANVAS_SIZE,
                self.cycles_accumulated == old(self).cycles_accumulated,
                self.sprites_to_be_drawn_with_priority@ == old(self)@.sprites_with_priority,
                self.sprites_to_be_drawn_without_priority@ == old(self)@.sprites_without_priority,
                render_from(memory@, over@, under@, ly, x as int, (previous_location, tile_bytes), self.canvas@) == target,
            decreases PIXEL_WIDTH - x,
        {
            let position: usize = ly as usize * 160 + x as usize;
            match over[x as usize] {
                Some(color) => {
                    self.canvas.set(position, Some(color));
                },
                None => {
                    let mut pixel_to_write: Option<Color> = under[x as usize];
                    if bg_display {
                        let (location, tile_x, tile_row) = read_bg_location(memory, ly, x);
                        if previous_location != location {
                            let tile: u8 = memory.read_8(location);
                            let data: u16 = read_tile_data_location(memory, tile);
                            tile_bytes = read_tile_row(memory, data + tile_row as u16 * 2);
                            previous_location = location;
                        }
                        let pixel: u8 = read_pixel_from_tile(tile_x, tile_bytes);
                        if pixel != 0 || pixel_to_write.is_none() {
                            pixel_to_write = Some(Color::from_pixel(pixel, bgp));
                        }
                    }
                    match pixel_to_write {
                        Some(color) => {
                            self.canvas.set(position, Some(color));
                        },
                        None => {},
                    }
                },
            }
            x = x + 1;
        }
    }
}

/// The mode code written into STAT reads back as that mode.
pub(crate) proof fn lemma_mode_code_bits()
    by (bit_vector)
    ensures
        forall|stat: u8, code: u8| #![trigger ((stat & 0xFCu8) | code)] code < 4 ==> ((stat & 0xFCu8) | code) % 4 == code,
{
}

/// The line counter agrees with the mode: below 144 outside vertical blank, from 144 to
/// 153 inside it.
pub open spec fn line_agrees_with_mode(memory: Seq<u8>) -> bool {
    let ly = memory[LY as int];
    if stat_mode(memory) == StatMode::VBlank { PIXEL_HEIGHT <= ly <= 153 } else { ly < PIXEL_HEIGHT }
}

/// While the display is on, the controller keeps the line counter in agreement with its
/// mode: lines 0 to 143 are scanned (OAM search, pixel transfer, horizontal blank), then
/// lines 144 to 153 pass in vertical blank, and the counter returns to 0. So a line the
/// controller draws is always on the screen.
pub proof fn law_line_counter_follows_mode(gpu: GpuView, memory: Seq<u8>, cycles: u8)
    requires
        memory.len() == crate::memory::MEMORY_SIZE,
        bit_set(memory[LCDC as int], 7),
        line_agrees_with_mode(memory),
    ensures
        gpu.step_allowed(memory, cycles),
        line_agrees_with_mode(gpu.step_spec(memory, cycles).1),
{
    lemma_mode_code_bits();
    let stat = memory[STAT as int];
    assert(((stat & 0xFCu8) | 0u8) % 4 == 0);
    assert(((stat & 0xFCu8) | 1u8) % 4 == 1);
    assert(((stat & 0xFCu8) | 2u8) % 4 == 2);
    assert(((stat & 0xFCu8) | 3u8) % 4 == 3);
}

} // verus!

verus! {

/// Background and window tile data: with LCDC bit 4 set, tile `t` starts at 0x8000 plus
/// 16 times `t`; with it clear, the tile number is signed and tile `t` starts at 0x9000
/// plus 16 times its signed value (tile 0 at 0x9000, tile 128 at 0x8800).
pub proof fn law_tile_data_addressing(memory: Seq<u8>, tile: u8)
    ensures
        bit_set(memory[LCDC as int], 4) ==> tile_data_location(memory, tile) as int == 0x8000 + 16 * tile,
        !bit_set(memory[LCDC as int], 4) ==> tile_data_location(memory, tile) as int
            == 0x9000 + 16 * (if tile < 128 { tile as int } else { tile as int - 256 }),
{
}

} // verus!

verus! {

/// A palette gives pixel 0 the shade in its two lowest bits, and pixel p + 1 the shade
/// the palette shifted right by two bits gives pixel p; shades go from white (0) to black
/// (3), each darker than the one before.
pub proof fn law_palette_order(pixel: u8, palette: u8)
    requires
        pixel < 3,
    ensures
        palette_shade(0, palette) == palette % 4,
        palette_shade((pixel + 1) as u8, palette) == palette_shade(pixel, (palette / 4) as u8),
        shade_color(0) == (Color { r: 255, g: 255, b: 255 }),
        shade_color(3) == (Color { r: 0, g: 0, b: 0 }),
        shade_color((pixel + 1) as u8).r < shade_color(pixel).r,
{
    let q = (palette / 4) as u8;
    assert((palette as int / 16) == (q as int / 4));
    assert((palette as int / 64) == (q as int / 16));
}

/// Scrolling the background one pixel to the right (SCX plus 1) shows at each column what
/// the next column showed; scrolling it one pixel down (SCY plus 1) shows on each line
/// what the next line showed.
pub proof fn law_background_scrolls(memory: Seq<u8>, ly: u8, x: int)
    requires
        memory.len() == crate::memory::MEMORY_SIZE,
        0 <= x < 159,
        ly < 143,
        memory[SCY as int] < 255,
    ensures
        background_location(memory.update(SCX as int, ((memory[SCX as int] + 1) % 256) as u8), ly, x)
            == background_location(memory, ly, x + 1),
        background_location(memory.update(SCY as int, (memory[SCY as int] + 1) as u8), ly, x)
            == background_location(memory, (ly + 1) as u8, x),
{
}

/// A sprite mirrored horizontally (flag bit 5) draws at its column c what the same sprite
/// unmirrored draws at its column 7 - c (on a line where nothing was drawn yet).
pub proof fn law_sprite_flip_x(
    sprite: OamEntry,
    bytes: (u8, u8),
    palette: u8,
    x: int,
    row: Seq<Option<Color>>,
    end: int,
)
    requires
        bit_set(sprite.flags, 5),
        row == empty_row(),
        0 <= x + 8 - sprite.x < 8,
        0 <= x < PIXEL_WIDTH,
        0 <= 2 * sprite.x - 9 - x < PIXEL_WIDTH,
    ensures
        ({
            let unflipped = OamEntry { flags: (sprite.flags - 32) as u8, ..sprite };
            let mirrored = 2 * sprite.x - 9 - x;
            sprite_pixel_step(sprite, bytes, palette, x, row, end).0[x]
                == sprite_pixel_step(unflipped, bytes, palette, mirrored, row, end).0[mirrored]
        }),
{
    let f = sprite.flags;
    assert(!bit_set((f - 32) as u8, 5)) by (bit_vector)
        requires
            (f >> 5u8) & 1u8 == 1u8,
    ;
}

} // verus!

verus! {

/// Moving the window one pixel right (WX plus 1) shows at each column what the column
/// before showed; moving it one line down (WY plus 1) shows on each line what the line
/// before showed; and the window's top-left pixel is the first of its map's first tile.
pub proof fn law_window_moves_with_its_position(memory: Seq<u8>, ly: u8, x: int)
    requires
        memory.len() == crate::memory::MEMORY_SIZE,
        0 <= x < 159,
        0 < ly < 144,
        memory[WX as int] < 255,
        memory[WY as int] < 255,
        in_window(memory, ly, x),
    ensures
        bg_location(memory.update(WX as int, (memory[WX as int] + 1) as u8), ly, x + 1) == bg_location(memory, ly, x),
        bg_location(memory.update(WY as int, (memory[WY as int] + 1) as u8), (ly + 1) as u8, x) == bg_location(memory, ly, x),
        x + 7 == memory[WX as int] && ly == memory[WY as int] ==> bg_location(memory, ly, x) == (
            (if bit_set(memory[LCDC as int], 6) { 0x9C00u16 } else { 0x9800u16 }),
            0u8,
            0u8,
        ),
{
}

} // verus!

verus! {

/// Whether a list of sprites is ordered by x.
pub open spec fn sorted_by_x(sprites: Seq<OamEntry>) -> bool {
    forall|i: int, j: int| 0 <= i < j < sprites.len() ==> sprites[i].x <= sprites[j].x
}

/// The position an entry is put at: every entry before it has an x not above the
/// entry's, and the one at it (if any) has a greater x.
proof fn lemma_first_greater(sprites: Seq<OamEntry>, x: u8, i: int)
    requires
        0 <= i <= sprites.len(),
    ensures
        i <= first_greater(sprites, x, i) <= sprites.len(),
        forall|k: int| i <= k < first_greater(sprites, x, i) ==> sprites[k].x <= x,
        first_greater(sprites, x, i) < sprites.len() ==> sprites[first_greater(sprites, x, i)].x > x,
    decreases sprites.len() - i,
{
    if i < sprites.len() && sprites[i].x <= x {
        lemma_first_greater(sprites, x, i + 1);
    }
}

/// Putting an entry into a list ordered by x keeps it ordered, and adds only that entry.
proof fn lemma_inserted_by_x(sprites: Seq<OamEntry>, entry: OamEntry)
    requires
        sorted_by_x(sprites),
    ensures
        sorted_by_x(inserted_by_x(sprites, entry)),
        inserted_by_x(sprites, entry).len() == sprites.len() + 1,
        forall|k: int| 0 <= k < inserted_by_x(sprites, entry).len() ==> (#[trigger] inserted_by_x(sprites, entry)[k] == entry
            || sprites.contains(inserted_by_x(sprites, entry)[k])),
{
    lemma_first_greater(sprites, entry.x, 0);
    let p = first_greater(sprites, entry.x, 0);
    let r = inserted_by_x(sprites, entry);
    assert forall|k: int| 0 <= k < r.len() implies (#[trigger] r[k] == entry || sprites.contains(r[k])) by {
        if k < p {
            assert(r[k] == sprites[k]);
        } else if k > p {
            assert(r[k] == sprites[k - 1]);
        }
    }
    assert forall|i: int, j: int| 0 <= i < j < r.len() implies r[i].x <= r[j].x by {
        if j < p {
        } else if j == p {
            assert(r[i] == sprites[i]);
        } else if i < p {
            assert(r[i] == sprites[i]);
            assert(r[j] == sprites[j - 1]);
            assert(sprites[p].x > entry.x);
            assert(sprites[i].x <= entry.x);
        } else if i == p {
            assert(r[j] == sprites[j - 1]);
            assert(sprites[p].x > entry.x);
        } else {
            assert(r[i] == sprites[i - 1]);
            assert(r[j] == sprites[j - 1]);
        }
    }
}

/// Whether an entry is one the OAM search picks for the current line with `priority`.
pub open spec fn shows_on_line(memory: Seq<u8>, priority: bool, entry: OamEntry) -> bool {
    on_line(entry, memory[LY as int], sprite_height(memory)) && bit_set(entry.flags, 7) == priority
}

/// The sprites picked among the first `n` entries are ordered by x, each shows on the
/// current line with the priority asked, and there are at most `n`.
proof fn lemma_selected_sprites(memory: Seq<u8>, priority: bool, n: int)
    requires
        n >= 0,
    ensures
        sorted_by_x(selected_sprites(memory, priority, n)),
        selected_sprites(memory, priority, n).len() <= n,
        forall|k: int| 0 <= k < selected_sprites(memory, priority, n).len()
            ==> shows_on_line(memory, priority, #[trigger] selected_sprites(memory, priority, n)[k]),
    decreases n,
{
    if n > 0 {
        lemma_selected_sprites(memory, priority, n - 1);
        let before = selected_sprites(memory, priority, n - 1);
        let entry = oam_entry_at(memory, n - 1);
        if shows_on_line(memory, priority, entry) {
            lemma_inserted_by_x(before, entry);
            let after = inserted_by_x(before, entry);
            assert forall|k: int| 0 <= k < after.len() implies shows_on_line(memory, priority, #[trigger] after[k]) by {
                if after[k] != entry {
                    let j = choose|j: int| 0 <= j < before.len() && before[j] == after[k];
                    assert(shows_on_line(memory, priority, before[j]));
                }
            }
        }
    }
}

/// The OAM search picks, for each priority, only sprites that show on the current line
/// (not hidden at x 0, crossing the line) with that priority, at most 40 of them, ordered
/// by x so that sprites further left are drawn first.
pub proof fn law_picked_sprites_show_on_line_in_order(memory: Seq<u8>, priority: bool)
    ensures
        sorted_by_x(picked_sprites(memory, priority)),
        picked_sprites(memory, priority).len() <= OAM_ENTRIES,
        forall|k: int| 0 <= k < picked_sprites(memory, priority).len() ==> {
            let e = #[trigger] picked_sprites(memory, priority)[k];
            &&& e.x != 0
            &&& memory[LY as int] + 16 >= e.y
            &&& memory[LY as int] + 16 < e.y + sprite_height(memory)
            &&& bit_set(e.flags, 7) == priority
        },
{
    lemma_selected_sprites(memory, priority, OAM_ENTRIES as int);
    let p = picked_sprites(memory, priority);
    assert forall|k: int| 0 <= k < p.len() implies {
        let e = #[trigger] p[k];
        &&& e.x != 0
        &&& memory[LY as int] + 16 >= e.y
        &&& memory[LY as int] + 16 < e.y + sprite_height(memory)
        &&& bit_set(e.flags, 7) == priority
    } by {
        if bit_set(memory[LCDC as int], 1) {
            assert(shows_on_line(memory, priority, p[k]));
        }
    }
}

} // verus!
