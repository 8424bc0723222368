//! The named colors of CSS 3 (<https://www.w3.org/TR/2018/REC-css-color-3-20180619/>).
use vstd::prelude::*;
use super::{hex_value, Color};

verus! {

pub fn aliceblue() -> (c: Color)
    ensures
        c.value() == hex_value(0xF0F8FF),
{
    Color::hex(0xF0F8FF)
}

pub fn antiquewhite() -> (c: Color)
    ensures
        c.value() == hex_value(0xFAEBD7),
{
    Color::hex(0xFAEBD7)
}

pub fn aqua() -> (c: Color)
    ensures
        c.value() == hex_value(0x00FFFF),
{
    Color::hex(0x00FFFF)
}

pub fn aquamarine() -> (c: Color)
    ensures
        c.value() == hex_value(0x7FFFD4),
{
    Color::hex(0x7FFFD4)
}

pub fn azure() -> (c: Color)
    ensures
        c.value() == hex_value(0xF0FFFF),
{
    Color::hex(0xF0FFFF)
}

pub fn beige() -> (c: Color)
    ensures
        c.value() == hex_value(0xF5F5DC),
{
    Color::hex(0xF5F5DC)
}

pub fn bisque() -> (c: Color)
    ensures
        c.value() == hex_value(0xFFE4C4),
{
    Color::hex(0xFFE4C4)
}

pub fn black() -> (c: Color)
    ensures
        c.value() == hex_value(0x000000),
{
    Color::hex(0x000000)
}

pub fn blanchedalmond() -> (c: Color)
    ensures
        c.value() == hex_value(0xFFEBCD),
{
    Color::hex(0xFFEBCD)
}

pub fn blue() -> (c: Color)
    ensures
        c.value() == hex_value(0x0000FF),
{
    Color::hex(0x0000FF)
}

pub fn blueviolet() -> (c: Color)
    ensures
        c.value() == hex_value(0x8A2BE2),
{
    Color::hex(0x8A2BE2)
}

pub fn brown() -> (c: Color)
    ensures
        c.value() == hex_value(0xA52A2A),
{
    Color::hex(0xA52A2A)
}

pub fn burlywood() -> (c: Color)
    ensures
        c.value() == hex_value(0xDEB887),
{
    Color::hex(0xDEB887)
}

pub fn cadetblue() -> (c: Color)
    ensures
        c.value() == hex_value(0x5F9EA0),
{
    Color::hex(0x5F9EA0)
}

pub fn chartreuse() -> (c: Color)
    ensures
        c.value() == hex_value(0x7FFF00),
{
    Color::hex(0x7FFF00)
}

pub fn chocolate() -> (c: Color)
    ensures
        c.value() == hex_value(0xD2691E),
{
    Color::hex(0xD2691E)
}

pub fn coral() -> (c: Color)
    ensures
        c.value() == hex_value(0xFF7F50),
{
    Color::hex(0xFF7F50)
}

pub fn cornflowerblue() -> (c: Color)
    ensures
        c.value() == hex_value(0x6495ED),
{
    Color::hex(0x6495ED)
}

pub fn cornsilk() -> (c: Color)
    ensures
        c.value() == hex_value(0xFFF8DC),
{
    Color::hex(0xFFF8DC)
}

pub fn crimson() -> (c: Color)
    ensures
        c.value() == hex_value(0xDC143C),
{
    Color::hex(0xDC143C)
}

pub fn cyan() -> (c: Color)
    ensures
        c.value() == hex_value(0x00FFFF),
{
    Color::hex(0x00FFFF)
}

pub fn darkblue() -> (c: Color)
    ensures
        c.value() == hex_value(0x00008B),
{
    Color::hex(0x00008B)
}

pub fn darkcyan() -> (c: Color)
    ensures
        c.value() == hex_value(0x008B8B),
{
    Color::hex(0x008B8B)
}

pub fn darkgoldenrod() -> (c: Color)
    ensures
        c.value() == hex_value(0xB8860B),
{
    Color::hex(0xB8860B)
}

pub fn darkgray() -> (c: Color)
    ensures
        c.value() == hex_value(0xA9A9A9),
{
    Color::hex(0xA9A9A9)
}

pub fn darkgreen() -> (c: Color)
    ensures
        c.value() == hex_value(0x006400),
{
    Color::hex(0x006400)
}

pub fn darkgrey() -> (c: Color)
    ensures
        c.value() == hex_value(0xA9A9A9),
{
    Color::hex(0xA9A9A9)
}

pub fn darkkhaki() -> (c: Color)
    ensures
        c.value() == hex_value(0xBDB76B),
{
    Color::hex(0xBDB76B)
}

pub fn darkmagenta() -> (c: Color)
    ensures
        c.value() == hex_value(0x8B008B),
{
    Color::hex(0x8B008B)
}

pub fn darkolivegreen() -> (c: Color)
    ensures
        c.value() == hex_value(0x556B2F),
{
    Color::hex(0x556B2F)
}

pub fn darkorange() -> (c: Color)
    ensures
        c.value() == hex_value(0xFF8C00),
{
    Color::hex(0xFF8C00)
}

pub fn darkorchid() -> (c: Color)
    ensures
        c.value() == hex_value(0x9932CC),
{
    Color::hex(0x9932CC)
}

pub fn darkred() -> (c: Color)
    ensures
        c.value() == hex_value(0x8B0000),
{
    Color::hex(0x8B0000)
}

pub fn darksalmon() -> (c: Color)
    ensures
        c.value() == hex_value(0xE9967A),
{
    Color::hex(0xE9967A)
}

pub fn darkseagreen() -> (c: Color)
    ensures
        c.value() == hex_value(0x8FBC8F),
{
    Color::hex(0x8FBC8F)
}

pub fn darkslateblue() -> (c: Color)
    ensures
        c.value() == hex_value(0x483D8B),
{
    Color::hex(0x483D8B)
}

pub fn darkslategray() -> (c: Color)
    ensures
        c.value() == hex_value(0x2F4F4F),
{
    Color::hex(0x2F4F4F)
}

pub fn darkslategrey() -> (c: Color)
    ensures
        c.value() == hex_value(0x2F4F4F),
{
    Color::hex(0x2F4F4F)
}

pub fn darkturquoise() -> (c: Color)
    ensures
        c.value() == hex_value(0x00CED1),
{
    Color::hex(0x00CED1)
}

pub fn darkviolet() -> (c: Color)
    ensures
        c.value() == hex_value(0x9400D3),
{
    Color::hex(0x9400D3)
}

pub fn deeppink() -> (c: Color)
    ensures
        c.value() == hex_value(0xFF1493),
{
    Color::hex(0xFF1493)
}

pub fn deepskyblue() -> (c: Color)
    ensures
        c.value() == hex_value(0x00BFFF),
{
    Color::hex(0x00BFFF)
}

pub fn dimgray() -> (c: Color)
    ensures
        c.value() == hex_value(0x696969),
{
    Color::hex(0x696969)
}

pub fn dimgrey() -> (c: Color)
    ensures
        c.value() == hex_value(0x696969),
{
    Color::hex(0x696969)
}

pub fn dodgerblue() -> (c: Color)
    ensures
        c.value() == hex_value(0x1E90FF),
{
    Color::hex(0x1E90FF)
}

pub fn firebrick() -> (c: Color)
    ensures
        c.value() == hex_value(0xB22222),
{
    Color::hex(0xB22222)
}

pub fn floralwhite() -> (c: Color)
    ensures
        c.value() == hex_value(0xFFFAF0),
{
    Color::hex(0xFFFAF0)
}

pub fn forestgreen() -> (c: Color)
    ensures
        c.value() == hex_value(0x228B22),
{
    Color::hex(0x228B22)
}

pub fn fuchsia() -> (c: Color)
    ensures
        c.value() == hex_value(0xFF00FF),
{
    Color::hex(0xFF00FF)
}

pub fn gainsboro() -> (c: Color)
    ensures
        c.value() == hex_value(0xDCDCDC),
{
    Color::hex(0xDCDCDC)
}

pub fn ghostwhite() -> (c: Color)
    ensures
        c.value() == hex_value(0xF8F8FF),
{
    Color::hex(0xF8F8FF)
}

pub fn gold() -> (c: Color)
    ensures
        c.value() == hex_value(0xFFD700),
{
    Color::hex(0xFFD700)
}

pub fn goldenrod() -> (c: Color)
    ensures
        c.value() == hex_value(0xDAA520),
{
    Color::hex(0xDAA520)
}

pub fn gray() -> (c: Color)
    ensures
        c.value() == hex_value(0x808080),
{
    Color::hex(0x808080)
}

pub fn green() -> (c: Color)
    ensures
        c.value() == hex_value(0x008000),
{
    Color::hex(0x008000)
}

pub fn greenyellow() -> (c: Color)
    ensures
        c.value() == hex_value(0xADFF2F),
{
    Color::hex(0xADFF2F)
}

pub fn grey() -> (c: Color)
    ensures
        c.value() == hex_value(0x808080),
{
    Color::hex(0x808080)
}

pub fn honeydew() -> (c: Color)
    ensures
        c.value() == hex_value(0xF0FFF0),
{
    Color::hex(0xF0FFF0)
}

pub fn hotpink() -> (c: Color)
    ensures
        c.value() == hex_value(0xFF69B4),
{
    Color::hex(0xFF69B4)
}

pub fn indianred() -> (c: Color)
    ensures
        c.value() == hex_value(0xCD5C5C),
{
    Color::hex(0xCD5C5C)
}

pub fn indigo() -> (c: Color)
    ensures
        c.value() == hex_value(0x4B0082),
{
    Color::hex(0x4B0082)
}

pub fn ivory() -> (c: Color)
    ensures
        c.value() == hex_value(0xFFFFF0),
{
    Color::hex(0xFFFFF0)
}

pub fn khaki() -> (c: Color)
    ensures
        c.value() == hex_value(0xF0E68C),
{
    Color::hex(0xF0E68C)
}

pub fn lavender() -> (c: Color)
    ensures
        c.value() == hex_value(0xE6E6FA),
{
    Color::hex(0xE6E6FA)
}

pub fn lavenderblush() -> (c: Color)
    ensures
        c.value() == hex_value(0xFFF0F5),
{
    Color::hex(0xFFF0F5)
}

pub fn lawngreen() -> (c: Color)
    ensures
        c.value() == hex_value(0x7CFC00),
{
    Color::hex(0x7CFC00)
}

pub fn lemonchiffon() -> (c: Color)
    ensures
        c.value() == hex_value(0xFFFACD),
{
    Color::hex(0xFFFACD)
}

pub fn lightblue() -> (c: Color)
    ensures
        c.value() == hex_value(0xADD8E6),
{
    Color::hex(0xADD8E6)
}

pub fn lightcoral() -> (c: Color)
    ensures
        c.value() == hex_value(0xF08080),
{
    Color::hex(0xF08080)
}

pub fn lightcyan() -> (c: Color)
    ensures
        c.value() == hex_value(0xE0FFFF),
{
    Color::hex(0xE0FFFF)
}

pub fn lightgoldenrodyellow() -> (c: Color)
    ensures
        c.value() == hex_value(0xFAFAD2),
{
    Color::hex(0xFAFAD2)
}

pub fn lightgray() -> (c: Color)
    ensures
        c.value() == hex_value(0xD3D3D3),
{
    Color::hex(0xD3D3D3)
}

pub fn lightgreen() -> (c: Color)
    ensures
        c.value() == hex_value(0x90EE90),
{
    Color::hex(0x90EE90)
}

pub fn lightgrey() -> (c: Color)
    ensures
        c.value() == hex_value(0xD3D3D3),
{
    Color::hex(0xD3D3D3)
}

pub fn lightpink() -> (c: Color)
    ensures
        c.value() == hex_value(0xFFB6C1),
{
    Color::hex(0xFFB6C1)
}

pub fn lightsalmon() -> (c: Color)
    ensures
        c.value() == hex_value(0xFFA07A),
{
    Color::hex(0xFFA07A)
}

pub fn lightseagreen() -> (c: Color)
    ensures
        c.value() == hex_value(0x20B2AA),
{
    Color::hex(0x20B2AA)
}

pub fn lightskyblue() -> (c: Color)
    ensures
        c.value() == hex_value(0x87CEFA),
{
    Color::hex(0x87CEFA)
}

pub fn lightslategray() -> (c: Color)
    ensures
        c.value() == hex_value(0x778899),
{
    Color::hex(0x778899)
}

pub fn lightslategrey() -> (c: Color)
    ensures
        c.value() == hex_value(0x778899),
{
    Color::hex(0x778899)
}

pub fn lightsteelblue() -> (c: Color)
    ensures
        c.value() == hex_value(0xB0C4DE),
{
    Color::hex(0xB0C4DE)
}

pub fn lightyellow() -> (c: Color)
    ensures
        c.value() == hex_value(0xFFFFE0),
{
    Color::hex(0xFFFFE0)
}

pub fn lime() -> (c: Color)
    ensures
        c.value() == hex_value(0x00FF00),
{
    Color::hex(0x00FF00)
}

pub fn limegreen() -> (c: Color)
    ensures
        c.value() == hex_value(0x32CD32),
{
    Color::hex(0x32CD32)
}

pub fn linen() -> (c: Color)
    ensures
        c.value() == hex_value(0xFAF0E6),
{
    Color::hex(0xFAF0E6)
}

pub fn magenta() -> (c: Color)
    ensures
        c.value() == hex_value(0xFF00FF),
{
    Color::hex(0xFF00FF)
}

pub fn maroon() -> (c: Color)
    ensures
        c.value() == hex_value(0x800000),
{
    Color::hex(0x800000)
}

pub fn mediumaquamarine() -> (c: Color)
    ensures
        c.value() == hex_value(0x66CDAA),
{
    Color::hex(0x66CDAA)
}

pub fn mediumblue() -> (c: Color)
    ensures
        c.value() == hex_value(0x0000CD),
{
    Color::hex(0x0000CD)
}

pub fn mediumorchid() -> (c: Color)
    ensures
        c.value() == hex_value(0xBA55D3),
{
    Color::hex(0xBA55D3)
}

pub fn mediumpurple() -> (c: Color)
    ensures
        c.value() == hex_value(0x9370DB),
{
    Color::hex(0x9370DB)
}

pub fn mediumseagreen() -> (c: Color)
    ensures
        c.value() == hex_value(0x3CB371),
{
    Color::hex(0x3CB371)
}

pub fn mediumslateblue() -> (c: Color)
    ensures
        c.value() == hex_value(0x7B68EE),
{
    Color::hex(0x7B68EE)
}

pub fn mediumspringgreen() -> (c: Color)
    ensures
        c.value() == hex_value(0x00FA9A),
{
    Color::hex(0x00FA9A)
}

pub fn mediumturquoise() -> (c: Color)
    ensures
        c.value() == hex_value(0x48D1CC),
{
    Color::hex(0x48D1CC)
}

pub fn mediumvioletred() -> (c: Color)
    ensures
        c.value() == hex_value(0xC71585),
{
    Color::hex(0xC71585)
}

pub fn midnightblue() -> (c: Color)
    ensures
        c.value() == hex_value(0x191970),
{
    Color::hex(0x191970)
}

pub fn mintcream() -> (c: Color)
    ensures
        c.value() == hex_value(0xF5FFFA),
{
    Color::hex(0xF5FFFA)
}

pub fn mistyrose() -> (c: Color)
    ensures
        c.value() == hex_value(0xFFE4E1),
{
    Color::hex(0xFFE4E1)
}

pub fn moccasin() -> (c: Color)
    ensures
        c.value() == hex_value(0xFFE4B5),
{
    Color::hex(0xFFE4B5)
}

pub fn navajowhite() -> (c: Color)
    ensures
        c.value() == hex_value(0xFFDEAD),
{
    Color::hex(0xFFDEAD)
}

pub fn navy() -> (c: Color)
    ensures
        c.value() == hex_value(0x000080),
{
    Color::hex(0x000080)
}

pub fn oldlace() -> (c: Color)
    ensures
        c.value() == hex_value(0xFDF5E6),
{
    Color::hex(0xFDF5E6)
}

pub fn olive() -> (c: Color)
    ensures
        c.value() == hex_value(0x808000),
{
    Color::hex(0x808000)
}

pub fn olivedrab() -> (c: Color)
    ensures
        c.value() == hex_value(0x6B8E23),
{
    Color::hex(0x6B8E23)
}

pub fn orange() -> (c: Color)
    ensures
        c.value() == hex_value(0xFFA500),
{
    Color::hex(0xFFA500)
}

pub fn orangered() -> (c: Color)
    ensures
        c.value() == hex_value(0xFF4500),
{
    Color::hex(0xFF4500)
}

pub fn orchid() -> (c: Color)
    ensures
        c.value() == hex_value(0xDA70D6),
{
    Color::hex(0xDA70D6)
}

pub fn palegoldenrod() -> (c: Color)
    ensures
        c.value() == hex_value(0xEEE8AA),
{
    Color::hex(0xEEE8AA)
}

pub fn palegreen() -> (c: Color)
    ensures
        c.value() == hex_value(0x98FB98),
{
    Color::hex(0x98FB98)
}

pub fn paleturquoise() -> (c: Color)
    ensures
        c.value() == hex_value(0xAFEEEE),
{
    Color::hex(0xAFEEEE)
}

pub fn palevioletred() -> (c: Color)
    ensures
        c.value() == hex_value(0xDB7093),
{
    Color::hex(0xDB7093)
}

pub fn papayawhip() -> (c: Color)
    ensures
        c.value() == hex_value(0xFFEFD5),
{
    Color::hex(0xFFEFD5)
}

pub fn peachpuff() -> (c: Color)
    ensures
        c.value() == hex_value(0xFFDAB9),
{
    Color::hex(0xFFDAB9)
}

pub fn peru() -> (c: Color)
    ensures
        c.value() == hex_value(0xCD853F),
{
    Color::hex(0xCD853F)
}

pub fn pink() -> (c: Color)
    ensures
        c.value() == hex_value(0xFFC0CB),
{
    Color::hex(0xFFC0CB)
}

pub fn plum() -> (c: Color)
    ensures
        c.value() == hex_value(0xDDA0DD),
{
    Color::hex(0xDDA0DD)
}

pub fn powderblue() -> (c: Color)
    ensures
        c.value() == hex_value(0xB0E0E6),
{
    Color::hex(0xB0E0E6)
}

pub fn purple() -> (c: Color)
    ensures
        c.value() == hex_value(0x800080),
{
    Color::hex(0x800080)
}

pub fn red() -> (c: Color)
    ensures
        c.value() == hex_value(0xFF0000),
{
    Color::hex(0xFF0000)
}

pub fn rosybrown() -> (c: Color)
    ensures
        c.value() == hex_value(0xBC8F8F),
{
    Color::hex(0xBC8F8F)
}

pub fn royalblue() -> (c: Color)
    ensures
        c.value() == hex_value(0x4169E1),
{
    Color::hex(0x4169E1)
}

pub fn saddlebrown() -> (c: Color)
    ensures
        c.value() == hex_value(0x8B4513),
{
    Color::hex(0x8B4513)
}

pub fn salmon() -> (c: Color)
    ensures
        c.value() == hex_value(0xFA8072),
{
    Color::hex(0xFA8072)
}

pub fn sandybrown() -> (c: Color)
    ensures
        c.value() == hex_value(0xF4A460),
{
    Color::hex(0xF4A460)
}

pub fn seagreen() -> (c: Color)
    ensures
        c.value() == hex_value(0x2E8B57),
{
    Color::hex(0x2E8B57)
}

pub fn seashell() -> (c: Color)
    ensures
        c.value() == hex_value(0xFFF5EE),
{
    Color::hex(0xFFF5EE)
}

pub fn sienna() -> (c: Color)
    ensures
        c.value() == hex_value(0xA0522D),
{
    Color::hex(0xA0522D)
}

pub fn silver() -> (c: Color)
    ensures
        c.value() == hex_value(0xC0C0C0),
{
    Color::hex(0xC0C0C0)
}

pub fn skyblue() -> (c: Color)
    ensures
        c.value() == hex_value(0x87CEEB),
{
    Color::hex(0x87CEEB)
}

pub fn slateblue() -> (c: Color)
    ensures
        c.value() == hex_value(0x6A5ACD),
{
    Color::hex(0x6A5ACD)
}

pub fn slategray() -> (c: Color)
    ensures
        c.value() == hex_value(0x708090),
{
    Color::hex(0x708090)
}

pub fn slategrey() -> (c: Color)
    ensures
        c.value() == hex_value(0x708090),
{
    Color::hex(0x708090)
}

pub fn snow() -> (c: Color)
    ensures
        c.value() == hex_value(0xFFFAFA),
{
    Color::hex(0xFFFAFA)
}

pub fn springgreen() -> (c: Color)
    ensures
        c.value() == hex_value(0x00FF7F),
{
    Color::hex(0x00FF7F)
}

pub fn steelblue() -> (c: Color)
    ensures
        c.value() == hex_value(0x4682B4),
{
    Color::hex(0x4682B4)
}

pub fn tan() -> (c: Color)
    ensures
        c.value() == hex_value(0xD2B48C),
{
    Color::hex(0xD2B48C)
}

pub fn teal() -> (c: Color)
    ensures
        c.value() == hex_value(0x008080),
{
    Color::hex(0x008080)
}

pub fn thistle() -> (c: Color)
    ensures
        c.value() == hex_value(0xD8BFD8),
{
    Color::hex(0xD8BFD8)
}

pub fn tomato() -> (c: Color)
    ensures
        c.value() == hex_value(0xFF6347),
{
    Color::hex(0xFF6347)
}

pub fn turquoise() -> (c: Color)
    ensures
        c.value() == hex_value(0x40E0D0),
{
    Color::hex(0x40E0D0)
}

pub fn violet() -> (c: Color)
    ensures
        c.value() == hex_value(0xEE82EE),
{
    Color::hex(0xEE82EE)
}

pub fn wheat() -> (c: Color)
    ensures
        c.value() == hex_value(0xF5DEB3),
{
    Color::hex(0xF5DEB3)
}

pub fn white() -> (c: Color)
    ensures
        c.value() == hex_value(0xFFFFFF),
{
    Color::hex(0xFFFFFF)
}

pub fn whitesmoke() -> (c: Color)
    ensures
        c.value() == hex_value(0xF5F5F5),
{
    Color::hex(0xF5F5F5)
}

pub fn yellow() -> (c: Color)
    ensures
        c.value() == hex_value(0xFFFF00),
{
    Color::hex(0xFFFF00)
}

pub fn yellowgreen() -> (c: Color)
    ensures
        c.value() == hex_value(0x9ACD32),
{
    Color::hex(0x9ACD32)
}

} // verus!
