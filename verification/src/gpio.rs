//! General-purpose I/O type states.
//!
//! Pin modes are encoded as zero-sized marker types. Each marker knows the
//! register-field bits that select it and how to splice those bits into a
//! port-wide register value without disturbing the other pins' fields; the
//! hardware layer applies the returned value to the memory-mapped register.

use core::marker::PhantomData;

use vstd::prelude::*;

verus! {

/// Input mode trait, implemented only for the corresponding marker structs.
///
/// Note: MUST not be implemented by user.
pub trait InputMode {
    /// The two PUPDR bits that select this mode.
    spec fn pupdr_field() -> u32;

    /// Writes this mode's two bits into the PUPDR field at `offset`,
    /// leaving every other bit of the register value unchanged.
    fn modify_pupdr_bits(original: u32, offset: u32) -> (r: u32)
        requires
            offset <= 30,
        ensures
            r == (original & !(0b11u32 << offset)) | (Self::pupdr_field() << offset),
    ;
}

/// Floating input (type state).
pub struct Floating;

impl InputMode for Floating {
    open spec fn pupdr_field() -> u32 {
        0b00
    }

    fn modify_pupdr_bits(original: u32, offset: u32) -> u32 {
        proof {
            assert(original & !(0b11u32 << offset) == (original & !(0b11u32 << offset)) | (0b00u32
                << offset)) by (bit_vector);
        }
        original & !(0b11u32 << offset)
    }
}

/// Pulled-down input (type state).
pub struct PullDown;

impl InputMode for PullDown {
    open spec fn pupdr_field() -> u32 {
        0b10
    }

    fn modify_pupdr_bits(original: u32, offset: u32) -> u32 {
        (original & !(0b11u32 << offset)) | (0b10u32 << offset)
    }
}

/// Pulled-up input (type state).
pub struct PullUp;

impl InputMode for PullUp {
    open spec fn pupdr_field() -> u32 {
        0b01
    }

    fn modify_pupdr_bits(original: u32, offset: u32) -> u32 {
        (original & !(0b11u32 << offset)) | (0b01u32 << offset)
    }
}

/// Input mode (type state).
pub struct Input<MODE> {
    _mode: PhantomData<MODE>,
}

/// Output mode trait, implemented only for the corresponding marker structs.
///
/// Note: MUST not be implemented by user.
pub trait OutputMode {
    /// The OTYPER bit that selects this mode.
    spec fn otyper_bit() -> u32;

    /// Writes this mode's bit into the OTYPER register value at pin `idx`,
    /// leaving every other bit unchanged.
    fn modify_otyper_bits(original: u32, idx: u8) -> (r: u32)
        requires
            idx <= 15,
        ensures
            r == (original & !(0b1u32 << idx)) | (Self::otyper_bit() << idx),
    ;
}

/// Push-pull output (type state).
pub struct PushPull;

impl OutputMode for PushPull {
    open spec fn otyper_bit() -> u32 {
        0b0
    }

    fn modify_otyper_bits(original: u32, idx: u8) -> u32 {
        proof {
            assert(original & !(0b1u32 << idx) == (original & !(0b1u32 << idx)) | (0b0u32 << idx))
                by (bit_vector);
        }
        original & !(0b1u32 << idx)
    }
}

/// Open-drain output (type state).
pub struct OpenDrain;

impl OutputMode for OpenDrain {
    open spec fn otyper_bit() -> u32 {
        0b1
    }

    fn modify_otyper_bits(original: u32, idx: u8) -> u32 {
        proof {
            assert(original | (0b1u32 << idx) == (original & !(0b1u32 << idx)) | (0b1u32 << idx))
                by (bit_vector);
        }
        original | (0b1u32 << idx)
    }
}

/// Output mode (type state).
pub struct Output<MODE> {
    _mode: PhantomData<MODE>,
}

/// Alternate-function trait, implemented only for the corresponding marker
/// structs.
///
/// Note: MUST not be implemented by user.
pub trait AltFun {
    /// The alternate-function number as a specification value.
    spec fn num_spec() -> u32;

    /// The number written into the AFR field to select this function.
    fn num() -> (r: u32)
        ensures
            r == Self::num_spec(),
    ;
}

/// Alternate function 0 (type state).
pub struct AF0;

impl AltFun for AF0 {
    open spec fn num_spec() -> u32 {
        0
    }

    fn num() -> u32 {
        0
    }
}

/// Alternate function 1 (type state).
pub struct AF1;

impl AltFun for AF1 {
    open spec fn num_spec() -> u32 {
        1
    }

    fn num() -> u32 {
        1
    }
}

/// Alternate function 2 (type state).
pub struct AF2;

impl AltFun for AF2 {
    open spec fn num_spec() -> u32 {
        2
    }

    fn num() -> u32 {
        2
    }
}

/// Alternate function 3 (type state).
pub struct AF3;

impl AltFun for AF3 {
    open spec fn num_spec() -> u32 {
        3
    }

    fn num() -> u32 {
        3
    }
}

/// Alternate function 4 (type state).
pub struct AF4;

impl AltFun for AF4 {
    open spec fn num_spec() -> u32 {
        4
    }

    fn num() -> u32 {
        4
    }
}

/// Alternate function 5 (type state).
pub struct AF5;

impl AltFun for AF5 {
    open spec fn num_spec() -> u32 {
        5
    }

    fn num() -> u32 {
        5
    }
}

/// Alternate function 6 (type state).
pub struct AF6;

impl AltFun for AF6 {
    open spec fn num_spec() -> u32 {
        6
    }

    fn num() -> u32 {
        6
    }
}

/// Alternate function 7 (type state).
pub struct AF7;

impl AltFun for AF7 {
    open spec fn num_spec() -> u32 {
        7
    }

    fn num() -> u32 {
        7
    }
}

/// Alternate function 8 (type state).
pub struct AF8;

impl AltFun for AF8 {
    open spec fn num_spec() -> u32 {
        8
    }

    fn num() -> u32 {
        8
    }
}

/// Alternate function 9 (type state).
pub struct AF9;

impl AltFun for AF9 {
    open spec fn num_spec() -> u32 {
        9
    }

    fn num() -> u32 {
        9
    }
}

/// Alternate function 10 (type state).
pub struct AF10;

impl AltFun for AF10 {
    open spec fn num_spec() -> u32 {
        10
    }

    fn num() -> u32 {
        10
    }
}

/// Alternate function 11 (type state).
pub struct AF11;

impl AltFun for AF11 {
    open spec fn num_spec() -> u32 {
        11
    }

    fn num() -> u32 {
        11
    }
}

/// Alternate function 12 (type state).
pub struct AF12;

impl AltFun for AF12 {
    open spec fn num_spec() -> u32 {
        12
    }

    fn num() -> u32 {
        12
    }
}

/// Alternate function 13 (type state).
pub struct AF13;

impl AltFun for AF13 {
    open spec fn num_spec() -> u32 {
        13
    }

    fn num() -> u32 {
        13
    }
}

/// Alternate function 14 (type state).
pub struct AF14;

impl AltFun for AF14 {
    open spec fn num_spec() -> u32 {
        14
    }

    fn num() -> u32 {
        14
    }
}

/// Alternate function 15 (type state).
pub struct AF15;

impl AltFun for AF15 {
    open spec fn num_spec() -> u32 {
        15
    }

    fn num() -> u32 {
        15
    }
}

/// The MODER register value that puts the pin whose two-bit field starts at
/// `offset` into input mode (bits 00), leaving every other field unchanged.
pub fn moder_input_bits(original: u32, offset: u32) -> (r: u32)
    requires
        offset <= 30,
    ensures
        r == original & !(0b11u32 << offset),
{
    original & !(0b11u32 << offset)
}

/// The MODER register value that puts the pin whose two-bit field starts at
/// `offset` into general-purpose output mode (bits 01).
pub fn moder_output_bits(original: u32, offset: u32) -> (r: u32)
    requires
        offset <= 30,
    ensures
        r == (original & !(0b11u32 << offset)) | (0b01u32 << offset),
{
    (original & !(0b11u32 << offset)) | (0b01u32 << offset)
}

/// The MODER register value that puts the pin whose two-bit field starts at
/// `offset` into alternate-function mode (bits 10).
pub fn moder_alt_fun_bits(original: u32, offset: u32) -> (r: u32)
    requires
        offset <= 30,
    ensures
        r == (original & !(0b11u32 << offset)) | (0b10u32 << offset),
{
    (original & !(0b11u32 << offset)) | (0b10u32 << offset)
}

/// The AFR register value that selects alternate function `num` for the pin
/// whose four-bit field starts at `offset`, leaving every other field
/// unchanged.
pub fn afr_bits(original: u32, offset: u32, num: u32) -> (r: u32)
    requires
        offset <= 28,
        num <= 15,
    ensures
        r == (original & !(0b1111u32 << offset)) | (num << offset),
{
    (original & !(0b1111u32 << offset)) | (num << offset)
}

} // verus!
