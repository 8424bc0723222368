//! Graphics: colors, and the encodings of line and font settings that R's
//! graphics engine reads from a graphics context.
use vstd::prelude::*;

pub mod color;
pub mod device_driver;

verus! {

#[derive(PartialEq, Eq, Structural, Debug, Clone)]
pub enum LineEnd {
    RoundCap,
    ButtCap,
    SquareCap,
}

#[derive(PartialEq, Eq, Structural, Debug, Clone)]
pub enum LineJoin {
    RoundJoin,
    MitreJoin,
    BevelJoin,
}

#[derive(PartialEq, Eq, Structural, Debug, Clone)]
pub enum LineType {
    Blank,
    Solid,
    Dashed,
    Dotted,
    Dotdash,
    Longdash,
    Twodash,
}

#[derive(PartialEq, Eq, Structural, Debug, Clone)]
pub enum Unit {
    Device,
    Normalized,
    Inches,
    CM,
}

#[derive(PartialEq, Eq, Structural, Debug, Clone)]
pub enum FontFace {
    PlainFont,
    BoldFont,
    ItalicFont,
    BoldItalicFont,
    SymbolFont,
}

/// The length of the font family field of a graphics context, terminating
/// zero included.
pub const FONT_FAMILY_LEN: usize = 201;

/// R's line type code: blank is -1, solid 0, and a dash pattern gives the
/// lengths of its dashes and gaps in 4-bit digits, the first in the lowest.
pub open spec fn line_type_value(lty: LineType) -> int {
    match lty {
        LineType::Blank => -1int,
        LineType::Solid => 0int,
        LineType::Dashed => 4int + 4 * 16,
        LineType::Dotted => 1int + 3 * 16,
        LineType::Dotdash => 1int + 3 * 16 + 4 * 256 + 3 * 4096,
        LineType::Longdash => 7int + 3 * 16,
        LineType::Twodash => 2int + 2 * 16 + 6 * 256 + 2 * 4096,
    }
}

/// The line type code of `lty` (the `lty` of a graphics context).
pub fn line_type_code(lty: LineType) -> (code: i32)
    ensures
        code == line_type_value(lty),
{
    match lty {
        LineType::Blank => -1,
        LineType::Solid => 0,
        LineType::Dashed => 4 + 4 * 16,
        LineType::Dotted => 1 + 3 * 16,
        LineType::Dotdash => 1 + 3 * 16 + 4 * 256 + 3 * 4096,
        LineType::Longdash => 7 + 3 * 16,
        LineType::Twodash => 2 + 2 * 16 + 6 * 256 + 2 * 4096,
    }
}

/// Distinct line types have distinct codes; blank is -1 and solid 0, and
/// each dash pattern is written in 4-bit digits, the first length in the
/// lowest digit: dashed 0x44, dotted 0x31, dot-dash 0x3431, long-dash 0x37,
/// two-dash 0x2622.
pub proof fn lemma_line_type_codes(a: LineType, b: LineType)
    ensures
        a != b ==> line_type_value(a) != line_type_value(b),
        line_type_value(LineType::Blank) == -1,
        line_type_value(LineType::Solid) == 0,
        line_type_value(LineType::Dashed) == 0x44,
        line_type_value(LineType::Dotted) == 0x31,
        line_type_value(LineType::Dotdash) == 0x3431,
        line_type_value(LineType::Longdash) == 0x37,
        line_type_value(LineType::Twodash) == 0x2622,
{
}

/// The line end code of `lend` (R's `R_GE_lineend`).
pub fn line_end_code(lend: LineEnd) -> (code: u32)
    ensures
        code == match lend {
            LineEnd::RoundCap => 1u32,
            LineEnd::ButtCap => 2u32,
            LineEnd::SquareCap => 3u32,
        },
{
    match lend {
        LineEnd::RoundCap => 1,
        LineEnd::ButtCap => 2,
        LineEnd::SquareCap => 3,
    }
}

/// The line join code of `ljoin` (R's `R_GE_linejoin`).
pub fn line_join_code(ljoin: LineJoin) -> (code: u32)
    ensures
        code == match ljoin {
            LineJoin::RoundJoin => 1u32,
            LineJoin::MitreJoin => 2u32,
            LineJoin::BevelJoin => 3u32,
        },
{
    match ljoin {
        LineJoin::RoundJoin => 1,
        LineJoin::MitreJoin => 2,
        LineJoin::BevelJoin => 3,
    }
}

/// The font face code of `fontface`: plain 1, bold 2, italic 3, bold italic
/// 4, symbol 5.
pub fn font_face_code(fontface: FontFace) -> (code: i32)
    ensures
        code == match fontface {
            FontFace::PlainFont => 1i32,
            FontFace::BoldFont => 2i32,
            FontFace::ItalicFont => 3i32,
            FontFace::BoldItalicFont => 4i32,
            FontFace::SymbolFont => 5i32,
        },
{
    match fontface {
        FontFace::PlainFont => 1,
        FontFace::BoldFont => 2,
        FontFace::ItalicFont => 3,
        FontFace::BoldItalicFont => 4,
        FontFace::SymbolFont => 5,
    }
}

/// R's code of a coordinate unit (`GEUnit`): device 0, normalized device
/// coordinates 1, inches 2, centimetres 3.
pub fn unit_to_ge(unit: Unit) -> (code: u32)
    ensures
        code == match unit {
            Unit::Device => 0u32,
            Unit::Normalized => 1u32,
            Unit::Inches => 2u32,
            Unit::CM => 3u32,
        },
{
    match unit {
        Unit::Device => 0,
        Unit::Normalized => 1,
        Unit::Inches => 2,
        Unit::CM => 3,
    }
}

/// The font family field of a graphics context holding `fontfamily`: its
/// UTF-8 bytes, cut to the first 200, then zeros.
pub open spec fn font_family_field(bytes: Seq<u8>) -> Seq<u8> {
    Seq::new(
        FONT_FAMILY_LEN as nat,
        |i: int| if i < FONT_FAMILY_LEN - 1 && i < bytes.len() { bytes[i] } else { 0u8 },
    )
}

/// The font family field of a graphics context for `fontfamily`.
pub fn font_family_bytes(fontfamily: &str) -> (field: [u8; 201])
    ensures
        field@ == font_family_field(vstd::utf8::encode_utf8(fontfamily@)),
{
    let mut field: [u8; 201] = [0u8; 201];
    let bytes: &[u8] = fontfamily.as_bytes();
    let maxlen: usize = FONT_FAMILY_LEN - 1;
    let mut i: usize = 0;
    while i < bytes.len() && i < maxlen
        invariant
            bytes@ == vstd::utf8::encode_utf8(fontfamily@),
            maxlen == FONT_FAMILY_LEN - 1,
            i <= maxlen,
            i <= bytes@.len(),
            field@.len() == FONT_FAMILY_LEN,
            forall|j: int| 0 <= j < i ==> field@[j] == bytes@[j],
            forall|j: int| i <= j < FONT_FAMILY_LEN ==> field@[j] == 0u8,
        decreases maxlen - i,
    {
        field[i] = bytes[i];
        i = i + 1;
    }
    let ghost expected: Seq<u8> = font_family_field(bytes@);
    assert forall|j: int| 0 <= j < FONT_FAMILY_LEN implies field@[j] == expected[j] by {
        if j < i {
        } else {
            assert(i == bytes@.len() || i == maxlen);
        }
    }
    assert(field@ =~= expected);
    field
}

} // verus!
