//! Describes serial configuration.

use vstd::prelude::*;

verus! {

/// A serial configuration: a fixed baud rate.
pub trait Config {
    /// The configured baud rate, as a specification value.
    spec fn spec_baud() -> u32;

    /// The configured baud rate.
    fn baud() -> (r: u32)
        ensures
            r == Self::spec_baud(),
    ;
}

/// Default configuration with baud 9,200.
pub struct DefaultCfg;

impl Config for DefaultCfg {
    open spec fn spec_baud() -> u32 {
        9_200
    }

    fn baud() -> u32 {
        9_200
    }
}

} // verus!
