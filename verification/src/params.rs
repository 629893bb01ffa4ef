//! Shared parameter store: one host-automatable parameter (volume), held as
//! the raw bit pattern of its 32-bit value in an atomic word, so that the
//! real-time thread and the UI thread can each read and write it without
//! ever blocking the other. Every operation is total over all indices:
//! an index other than a declared parameter's yields a benign default
//! (zero, or the empty string) and never an error, since hosts probe
//! indices speculatively.
//!
//! The store keeps the value as bits rather than as a number so that a read
//! returns exactly the 32-bit value of the most recent completed write,
//! never a torn or rounded one; the host adapter converts to and from its
//! numeric sample type losslessly.
use vstd::prelude::*;

verus! {

broadcast use vstd::string::group_string_axioms;

/// Bit pattern of the initial volume: full scale (the 32-bit value 1.0).
pub const DEFAULT_VOLUME_BITS: u32 = 0x3F80_0000;

/// Index of the volume parameter, the only one declared.
pub const VOLUME_INDEX: i32 = 0;

/// The display label of each parameter index; every undeclared index gets
/// the empty default.
pub open spec fn spec_parameter_label(index: int) -> Seq<char> {
    if index == VOLUME_INDEX as int {
        "x"@
    } else {
        ""@
    }
}

/// The name of each parameter index; every undeclared index gets the empty
/// default.
pub open spec fn spec_parameter_name(index: int) -> Seq<char> {
    if index == VOLUME_INDEX as int {
        "volume"@
    } else {
        ""@
    }
}

/// What a parameter read yields, given the volume word just loaded from the
/// store: the declared index yields that word, every other index the zero
/// default.
pub open spec fn spec_select_parameter(index: int, volume_bits: u32) -> u32 {
    if index == VOLUME_INDEX as int {
        volume_bits
    } else {
        0
    }
}

/// The bounds-checked dispatch of a parameter read over the fixed parameter
/// list, taking the freshly loaded volume word as an argument.
pub fn select_parameter(index: i32, volume_bits: u32) -> (r: u32)
    ensures
        r == spec_select_parameter(index as int, volume_bits),
{
    if index == VOLUME_INDEX {
        volume_bits
    } else {
        0
    }
}

/// The parameter block shared between the real-time thread and the UI
/// thread. Reads and writes go through one atomic word per parameter, so
/// neither thread ever blocks the other.
pub struct WhisperParameters {
    volume: core::sync::atomic::AtomicU32,
}

impl WhisperParameters {
    /// A fresh parameter block with the volume at full scale.
    pub fn new() -> (r: WhisperParameters) {
        WhisperParameters { volume: core::sync::atomic::AtomicU32::new(DEFAULT_VOLUME_BITS) }
    }

    /// The current value of the indexed parameter, as its 32-bit pattern.
    /// A declared index reads the most recent completed write from either
    /// thread; every other index returns the zero default.
    pub fn get_parameter(&self, index: i32) -> (r: u32)
        ensures
            index != VOLUME_INDEX ==> r == 0,
    {
        let volume_bits = self.volume.load(core::sync::atomic::Ordering::Relaxed);
        select_parameter(index, volume_bits)
    }

    /// Write the indexed parameter's 32-bit pattern. A write to an
    /// undeclared index is ignored; a write to a declared one becomes
    /// visible to the next read on any thread.
    pub fn set_parameter(&self, index: i32, bits: u32) {
        if index == VOLUME_INDEX {
            self.volume.store(bits, core::sync::atomic::Ordering::Relaxed);
        }
    }

    /// The display label of the indexed parameter, the empty default for
    /// every undeclared index.
    pub fn get_parameter_label(&self, index: i32) -> (r: String)
        ensures
            r@ == spec_parameter_label(index as int),
    {
        if index == VOLUME_INDEX {
            "x".to_string()
        } else {
            "".to_string()
        }
    }

    /// The name of the indexed parameter, the empty default for every
    /// undeclared index.
    pub fn get_parameter_name(&self, index: i32) -> (r: String)
        ensures
            r@ == spec_parameter_name(index as int),
    {
        if index == VOLUME_INDEX {
            "volume".to_string()
        } else {
            "".to_string()
        }
    }

    /// The value to show as the indexed parameter's human-readable text:
    /// the volume's current bit pattern for the declared index, and nothing
    /// for every other index, for which the text is the empty default. The
    /// host adapter renders the bits as a decimal number, a rendering that
    /// cannot stand here.
    pub fn text_value(&self, index: i32) -> (r: Option<u32>)
        ensures
            (r is Some) <==> index == VOLUME_INDEX,
    {
        if index == VOLUME_INDEX {
            Some(self.volume.load(core::sync::atomic::Ordering::Relaxed))
        } else {
            None
        }
    }
}

} // verus!
