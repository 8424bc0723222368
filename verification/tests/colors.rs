use extendr_api::graphics::color::predefined;
use extendr_api::graphics::color::Color;

#[test]
fn hex_packs_red_first() {
    assert_eq!(Color::hex(0xF0F8FF).to_i32(), 0xFFFFF8F0u32 as i32);
    assert_eq!(Color::hex(0x000000).to_i32(), 0xFF000000u32 as i32);
    assert_eq!(Color::hex(0x123456).to_i32(), 0xFF563412u32 as i32);
}

#[test]
fn hex3_doubles_digits() {
    assert_eq!(Color::hex3(0xF0F).to_i32(), Color::hex(0xFF00FF).to_i32());
    assert_eq!(Color::hex3(0x1A3).to_i32(), Color::hex(0x11AA33).to_i32());
}

#[test]
fn rgb_and_rgba() {
    assert_eq!(Color::rgb(1, 2, 3).to_i32(), 0xFF030201u32 as i32);
    assert_eq!(Color::rgba(1, 2, 3, 4).to_i32(), 0x04030201);
    assert_eq!(Color::rgba(10, 20, 30, 255).to_i32(), Color::rgb(10, 20, 30).to_i32());
}

#[test]
fn named_colors() {
    assert_eq!(predefined::aliceblue().to_i32(), Color::hex(0xF0F8FF).to_i32());
    assert_eq!(predefined::red().to_i32(), 0xFF0000FFu32 as i32);
    assert_eq!(predefined::yellowgreen().to_i32(), Color::hex(0x9ACD32).to_i32());
    assert_eq!(predefined::white().to_i32(), -1);
}
