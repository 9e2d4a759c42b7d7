//! Volume levels.
//!
//! A level is carried as the bit pattern of an IEEE 754 single-precision
//! number, so that no precision is lost between the audio subsystem and
//! the user interface. For non-negative finite numbers the order of the bit
//! patterns is the order of the numbers, which lets the unit interval be
//! described with integer comparisons alone.

use vstd::prelude::*;

verus! {

/// Bit pattern of `0.0`.
pub const ZERO_BITS: u32 = 0;

/// Bit pattern of `1.0`.
pub const ONE_BITS: u32 = 0x3F80_0000;

/// Bit pattern of positive infinity; every larger pattern with a clear sign
/// bit is a NaN.
pub const INFINITY_BITS: u32 = 0x7F80_0000;

/// Bit pattern of `-0.0`, which compares equal to `0.0`.
pub const NEGATIVE_ZERO_BITS: u32 = 0x8000_0000;

/// Whether the number with this bit pattern lies in `[0.0, 1.0]`.
pub open spec fn in_unit_interval(bits: u32) -> bool {
    bits <= ONE_BITS || bits == NEGATIVE_ZERO_BITS
}

/// The canonical pattern of a number of the unit interval: `-0.0` becomes
/// `0.0`, every other pattern stands for itself.
pub open spec fn canonical_bits(bits: u32) -> u32 {
    if bits == NEGATIVE_ZERO_BITS {
        ZERO_BITS
    } else {
        bits
    }
}

/// The nearest pattern of the unit interval: numbers above `1.0`, positive
/// infinity included, become `1.0`; negative numbers and NaNs become `0.0`.
pub open spec fn clamped_bits(bits: u32) -> u32 {
    if bits <= ONE_BITS {
        bits
    } else if bits <= INFINITY_BITS {
        ONE_BITS
    } else {
        ZERO_BITS
    }
}

/// A volume level of the unit interval.
#[derive(Clone, Copy, Debug, PartialEq, Eq, Structural)]
pub struct Volume {
    bits: u32,
}

impl Volume {
    #[verifier::type_invariant]
    spec fn within_unit_interval(self) -> bool {
        self.bits <= ONE_BITS
    }

    /// The bit pattern of the level.
    pub closed spec fn spec_bits(self) -> u32 {
        self.bits
    }

    /// The level with the given bit pattern.
    pub closed spec fn with_bits(bits: u32) -> Volume {
        Volume { bits }
    }

    /// The level that stands for a reading of the audio subsystem.
    pub open spec fn spec_from_reading(bits: u32) -> Volume {
        Volume::with_bits(clamped_bits(bits))
    }

    /// The level that stands for a request from the unit interval.
    pub open spec fn spec_from_request(bits: u32) -> Volume {
        Volume::with_bits(canonical_bits(bits))
    }

    /// A level is determined by its bit pattern.
    pub broadcast proof fn lemma_with_bits(bits: u32)
        ensures
            #[trigger] Volume::with_bits(bits).spec_bits() == bits,
    {
    }

    /// A level is the level with its own bit pattern.
    pub broadcast proof fn lemma_bits_determine(v: Volume)
        ensures
            Volume::with_bits(#[trigger] v.spec_bits()) == v,
    {
    }

    /// Silence.
    pub fn silent() -> (v: Volume)
        ensures
            v == Volume::with_bits(ZERO_BITS),
    {
        Volume { bits: ZERO_BITS }
    }

    /// Full level.
    pub fn full() -> (v: Volume)
        ensures
            v == Volume::with_bits(ONE_BITS),
    {
        Volume { bits: ONE_BITS }
    }

    /// The level that a caller asks for. A number outside `[0.0, 1.0]` is
    /// refused.
    pub fn from_request(bits: u32) -> (r: Result<Volume, crate::error::AudioError>)
        ensures
            in_unit_interval(bits) ==> r == Ok::<Volume, crate::error::AudioError>(
                Volume::spec_from_request(bits),
            ),
            !in_unit_interval(bits) ==> r == Err::<Volume, crate::error::AudioError>(
                crate::error::AudioError::InvalidArgument,
            ),
    {
        if bits <= ONE_BITS {
            Ok(Volume { bits })
        } else if bits == NEGATIVE_ZERO_BITS {
            Ok(Volume { bits: ZERO_BITS })
        } else {
            Err(crate::error::AudioError::InvalidArgument)
        }
    }

    /// The level that the audio subsystem reports, brought into the unit
    /// interval.
    pub fn from_reading(bits: u32) -> (v: Volume)
        ensures
            v == Volume::spec_from_reading(bits),
    {
        if bits <= ONE_BITS {
            Volume { bits }
        } else if bits <= INFINITY_BITS {
            Volume { bits: ONE_BITS }
        } else {
            Volume { bits: ZERO_BITS }
        }
    }

    /// The bit pattern of the level, never above that of `1.0`.
    #[verifier::when_used_as_spec(spec_bits)]
    pub fn bits(self) -> (b: u32)
        ensures
            b == self.spec_bits(),
            b <= ONE_BITS,
    {
        proof {
            use_type_invariant(&self);
        }
        self.bits
    }
}

} // verus!
