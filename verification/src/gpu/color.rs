//! The four shades of grey the display shows, as RGB colours.

use vstd::prelude::*;

verus! {

/// An RGB colour.
#[derive(PartialEq, Eq, Structural, Copy, Clone, Debug)]
pub struct Color {
    pub r: u8,
    pub g: u8,
    pub b: u8,
}

/// The colour a shade (0 to 3) shows as: white, light grey, dark grey or black.
pub open spec fn shade_color(shade: u8) -> Color {
    if shade == 0 {
        Color { r: 255, g: 255, b: 255 }
    } else if shade == 1 {
        Color { r: 170, g: 170, b: 170 }
    } else if shade == 2 {
        Color { r: 85, g: 85, b: 85 }
    } else {
        Color { r: 0, g: 0, b: 0 }
    }
}

/// The shade a palette gives a pixel value (0 to 3): bits 2p and 2p + 1 of the palette.
pub open spec fn palette_shade(pixel: u8, palette: u8) -> u8 {
    ((palette as int / (if pixel == 0 { 1int } else if pixel == 1 { 4int } else if pixel == 2 { 16int } else { 64int })) % 4) as u8
}

impl Color {
    /// The colour with the given components.
    pub fn new(r: u8, g: u8, b: u8) -> (c: Self)
        ensures
            c == (Color { r, g, b }),
    {
        Self { r, g, b }
    }

    /// The colour a pixel value (0 to 3) shows as under a palette register.
    pub fn from_pixel(pixel: u8, palette: u8) -> (c: Self)
        requires
            pixel < 4,
        ensures
            c == shade_color(palette_shade(pixel, palette)),
    {
        let shifted: u8 = match pixel {
            0b11 => palette >> 6u8,
            0b10 => palette >> 4u8,
            0b01 => palette >> 2u8,
            _ => palette,
        };
        let pixel_color: u8 = shifted & 0b11u8;
        assert(pixel_color == shifted % 4) by (bit_vector)
            requires
                pixel_color == shifted & 0b11u8,
        ;
        assert((palette >> 6u8) == palette / 64 && (palette >> 4u8) == palette / 16
            && (palette >> 2u8) == palette / 4) by (bit_vector);

        Self::from(pixel_color)
    }

    /// Black.
    pub fn black() -> (c: Self)
        ensures
            c == (Color { r: 0, g: 0, b: 0 }),
    {
        Self::new(0, 0, 0)
    }

    /// Dark grey.
    pub fn dark_grey() -> (c: Self)
        ensures
            c == (Color { r: 85, g: 85, b: 85 }),
    {
        Self::new(85, 85, 85)
    }

    /// Light grey.
    pub fn light_grey() -> (c: Self)
        ensures
            c == (Color { r: 170, g: 170, b: 170 }),
    {
        Self::new(170, 170, 170)
    }

    /// White.
    pub fn white() -> (c: Self)
        ensures
            c == (Color { r: 255, g: 255, b: 255 }),
    {
        Self::new(255, 255, 255)
    }

    /// The colour as red, green, blue and an opaque alpha.
    pub fn to_rgba(&self) -> (rgba: [u8; 4])
        ensures
            rgba@ == seq![self.r, self.g, self.b, 255u8],
    {
        [self.r, self.g, self.b, 255]
    }

    /// The colour a shade (0 to 3) shows as.
    pub fn from(value: u8) -> (c: Self)
        requires
            value < 4,
        ensures
            c == shade_color(value),
    {
        match value {
            0b00 => Self::white(),
            0b01 => Self::light_grey(),
            0b10 => Self::dark_grey(),
            _ => Self::black(),
        }
    }
}

} // verus!
