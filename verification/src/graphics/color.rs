//! Colors as R's graphics engine stores them: red, green, blue and alpha
//! bytes packed into an `i32`, red in the lowest byte.
use vstd::prelude::*;

pub mod predefined;

verus! {

/// A color in R's packed form.
pub struct Color(i32);

/// The packed value of a color with the given components (each 0-255), as
/// the `i32` that holds those four bytes.
pub open spec fn color_value(red: int, green: int, blue: int, alpha: int) -> int {
    let bits = red + 256 * green + 65536 * blue + 16777216 * alpha;
    if bits < 0x8000_0000 { bits } else { bits - 0x1_0000_0000 }
}

/// The packed value of the opaque color with CSS-like hex number `hex`
/// (`0xRRGGBB`).
pub open spec fn hex_value(hex: int) -> int {
    color_value((hex / 65536) % 256, (hex / 256) % 256, hex % 256, 255)
}

/// The packed value of the opaque color with 3 digit CSS-like hex number
/// `hex` (`0xRGB`): each digit `d` stands for the byte `d * 0xff / 0xf`,
/// that is `0xdd`.
pub open spec fn hex3_value(hex: int) -> int {
    color_value(((hex / 256) % 16) * 17, ((hex / 16) % 16) * 17, (hex % 16) * 17, 255)
}

/// The four bytes of a packed value, as an unsigned number.
pub open spec fn color_bits(value: int) -> int {
    if value < 0 { value + 0x1_0000_0000 } else { value }
}

/// The red component of a packed value.
pub open spec fn red_of(value: int) -> int {
    color_bits(value) % 256
}

/// The green component of a packed value.
pub open spec fn green_of(value: int) -> int {
    (color_bits(value) / 256) % 256
}

/// The blue component of a packed value.
pub open spec fn blue_of(value: int) -> int {
    (color_bits(value) / 65536) % 256
}

/// The alpha component of a packed value.
pub open spec fn alpha_of(value: int) -> int {
    color_bits(value) / 16777216
}

/// The color with the given components (each below 256).
fn pack(red: u32, green: u32, blue: u32, alpha: u32) -> (c: Color)
    requires
        red < 256,
        green < 256,
        blue < 256,
        alpha < 256,
    ensures
        c.value() == color_value(red as int, green as int, blue as int, alpha as int),
{
    let v: u32 = red | green << 8 | blue << 16 | alpha << 24;
    assert(v == red + 256 * green + 65536 * blue + 16777216 * alpha) by (bit_vector)
        requires
            red < 256,
            green < 256,
            blue < 256,
            alpha < 256,
            v == red | green << 8 | blue << 16 | alpha << 24,
    ;
    let signed: i32 = v as i32;
    assert(signed == if v < 0x8000_0000 { v as int } else { v - 0x1_0000_0000 }) by (bit_vector)
        requires
            signed == v as i32,
    ;
    Color(signed)
}

impl Color {
    /// The packed value.
    pub closed spec fn value(&self) -> int {
        self.0 as int
    }

    /// Convert to an R color.
    pub fn to_i32(&self) -> (v: i32)
        ensures
            v == self.value(),
    {
        self.0
    }

    /// Generate a color from a CSS-like hex number.
    /// eg. `Color::hex(0xF0F8FF)`
    pub fn hex(hex: u32) -> (c: Color)
        ensures
            c.value() == hex_value(hex as int),
    {
        let red: u32 = (hex >> 16) & 0xff;
        let green: u32 = (hex >> 8) & 0xff;
        let blue: u32 = hex & 0xff;
        assert(red == (hex / 65536) % 256 && green == (hex / 256) % 256 && blue == hex % 256)
            by (bit_vector)
            requires
                red == (hex >> 16) & 0xff,
                green == (hex >> 8) & 0xff,
                blue == hex & 0xff,
        ;
        pack(red, green, blue, 0xff)
    }

    /// Generate a color from a 3 digit CSS-like hex number.
    /// eg. `Color::hex3(0xF0F)`
    pub fn hex3(hex: u32) -> (c: Color)
        ensures
            c.value() == hex3_value(hex as int),
    {
        let r4: u32 = (hex >> 8) & 0xf;
        let g4: u32 = (hex >> 4) & 0xf;
        let b4: u32 = hex & 0xf;
        assert(r4 == (hex / 256) % 16 && g4 == (hex / 16) % 16 && b4 == hex % 16) by (bit_vector)
            requires
                r4 == (hex >> 8) & 0xf,
                g4 == (hex >> 4) & 0xf,
                b4 == hex & 0xf,
        ;
        let red: u32 = r4 * 0xff / 0x0f;
        let green: u32 = g4 * 0xff / 0x0f;
        let blue: u32 = b4 * 0xff / 0x0f;
        assert(red == r4 * 17 && green == g4 * 17 && blue == b4 * 17) by (nonlinear_arith)
            requires
                r4 < 16,
                g4 < 16,
                b4 < 16,
                red == r4 * 0xff / 0x0f,
                green == g4 * 0xff / 0x0f,
                blue == b4 * 0xff / 0x0f,
        ;
        pack(red, green, blue, 0xff)
    }

    /// Generate a color from rgb components (0-255).
    pub fn rgb(red: u8, green: u8, blue: u8) -> (c: Color)
        ensures
            c.value() == color_value(red as int, green as int, blue as int, 255),
    {
        pack(red as u32, green as u32, blue as u32, 0xff)
    }

    /// Generate a color from rgba components (0-255).
    pub fn rgba(red: u8, green: u8, blue: u8, alpha: u8) -> (c: Color)
        ensures
            c.value() == color_value(red as int, green as int, blue as int, alpha as int),
    {
        pack(red as u32, green as u32, blue as u32, alpha as u32)
    }
}

/// The components of a color are recovered from its packed value.
pub proof fn lemma_components_roundtrip(red: int, green: int, blue: int, alpha: int)
    requires
        0 <= red < 256,
        0 <= green < 256,
        0 <= blue < 256,
        0 <= alpha < 256,
    ensures
        red_of(color_value(red, green, blue, alpha)) == red,
        green_of(color_value(red, green, blue, alpha)) == green,
        blue_of(color_value(red, green, blue, alpha)) == blue,
        alpha_of(color_value(red, green, blue, alpha)) == alpha,
{
    let bits = red + 256 * green + 65536 * blue + 16777216 * alpha;
    assert(color_bits(color_value(red, green, blue, alpha)) == bits);
    assert(bits % 256 == red && (bits / 256) % 256 == green && (bits / 65536) % 256 == blue
        && bits / 16777216 == alpha) by (nonlinear_arith)
        requires
            0 <= red < 256,
            0 <= green < 256,
            0 <= blue < 256,
            0 <= alpha < 256,
            bits == red + 256 * green + 65536 * blue + 16777216 * alpha,
    ;
}

/// A 3 digit hex number stands for the 6 digit one with each digit doubled:
/// `hex3(0xRGB)` is `hex(0xRRGGBB)`.
pub proof fn lemma_hex3_doubles_digits(hex: int)
    requires
        0 <= hex < 0x1000,
    ensures
        hex3_value(hex) == hex_value(
            ((hex / 256) % 16) * 0x110000 + ((hex / 16) % 16) * 0x1100 + (hex % 16) * 0x11,
        ),
{
    let r = (hex / 256) % 16;
    let g = (hex / 16) % 16;
    let b = hex % 16;
    let six = r * 0x110000 + g * 0x1100 + b * 0x11;
    assert((six / 65536) % 256 == r * 17 && (six / 256) % 256 == g * 17 && six % 256 == b * 17)
        by (nonlinear_arith)
        requires
            0 <= r < 16,
            0 <= g < 16,
            0 <= b < 16,
            six == r * 0x110000 + g * 0x1100 + b * 0x11,
    ;
}

} // verus!
