//! Formats of R's serialization streams.
use vstd::prelude::*;

verus! {

/// The format of an R serialization stream.
#[derive(PartialEq, Eq, Structural, Debug, Clone, Copy)]
pub enum PstreamFormat {
    AnyFormat,
    AsciiFormat,
    BinaryFormat,
    XdrFormat,
    AsciihexFormat,
}

impl PstreamFormat {
    /// The format's code in R's stream description (`R_pstream_format_t`).
    pub fn code(&self) -> (c: u32)
        ensures
            c == match *self {
                PstreamFormat::AnyFormat => 0u32,
                PstreamFormat::AsciiFormat => 1,
                PstreamFormat::BinaryFormat => 2,
                PstreamFormat::XdrFormat => 3,
                PstreamFormat::AsciihexFormat => 4,
            },
    {
        match self {
            PstreamFormat::AnyFormat => 0,
            PstreamFormat::AsciiFormat => 1,
            PstreamFormat::BinaryFormat => 2,
            PstreamFormat::XdrFormat => 3,
            PstreamFormat::AsciihexFormat => 4,
        }
    }
}

} // verus!
