//! CRC peripheral configuration values.
//!
//! The calculator itself is a hardware block; this module holds the
//! polynomial defaults and the control-field codes the hardware layer
//! writes.

use vstd::prelude::*;

verus! {

/// Initial value of the polynomial: the CRC-32 (Ethernet) polynomial.
pub const DEFAULT_POLY: u32 = 0x04C11DB7;

/// Initial value for the CRC unit's INIT register.
pub const DEFAULT_INIT: u32 = 0xFFFF_FFFF;

/// Describes possible polynomial sizes.
#[derive(Copy, Clone)]
pub enum PolySize {
    /// Uses 32 bits.
    Word,
    /// Uses 16 bits.
    Half,
    /// Uses 8 bits.
    Byte,
    /// Uses 7 bits.
    SevenBit,
}

impl PolySize {
    /// The POLYSIZE control-field code for this size.
    pub open spec fn spec_bits(&self) -> u8 {
        match *self {
            PolySize::Word => 0x00,
            PolySize::Half => 0x01,
            PolySize::Byte => 0x10,
            PolySize::SevenBit => 0x11,
        }
    }

    /// The POLYSIZE control-field code for this size.
    pub fn bits(&self) -> (r: u8)
        ensures
            r == self.spec_bits(),
    {
        match *self {
            PolySize::Word => 0x00,
            PolySize::Half => 0x01,
            PolySize::Byte => 0x10,
            PolySize::SevenBit => 0x11,
        }
    }
}

/// Describes possible ways to reverse input.
///
/// For example, input data 0x1A2B3C4D is used for CRC calculation as:
///
/// - 0x58D43CB2 with bit-reversal done by byte
/// - 0xD458B23C with bit-reversal done by half-word
/// - 0xB23CD458 with bit-reversal done on the full word
#[derive(Copy, Clone)]
pub enum ReverseInput {
    /// Bit order remains the same.
    Keep,
    /// Reversal byte by byte.
    Byte,
    /// Reversal by 2 bytes.
    Half,
    /// Reversal by 4 bytes.
    Word,
}

impl ReverseInput {
    /// The REV_IN control-field code for this reversal.
    pub open spec fn spec_bits(&self) -> u8 {
        match *self {
            ReverseInput::Keep => 0x00,
            ReverseInput::Byte => 0x01,
            ReverseInput::Half => 0x10,
            ReverseInput::Word => 0x11,
        }
    }

    /// The REV_IN control-field code for this reversal.
    pub fn bits(&self) -> (r: u8)
        ensures
            r == self.spec_bits(),
    {
        match *self {
            ReverseInput::Keep => 0x00,
            ReverseInput::Byte => 0x01,
            ReverseInput::Half => 0x10,
            ReverseInput::Word => 0x11,
        }
    }
}

} // verus!
