use vstd::prelude::*;

verus! {

/// Mode for the reverb effect.
#[derive(Debug, Clone, Copy, PartialEq, Eq, Structural)]
pub enum FreeverbMode {
    /// Normal mode for a live reverb effect.
    Active,
    /// "Freezes" the reverb, allowing for an infinite tail. Will not incorporate newer
    /// signals until unfrozen.
    Frozen,
}

/// The mode that an integer selects: even values are `Active`, odd values `Frozen`.
pub open spec fn mode_of(value: int) -> FreeverbMode {
    if value % 2 == 0 {
        FreeverbMode::Active
    } else {
        FreeverbMode::Frozen
    }
}

impl From<u16> for FreeverbMode {
    /// Selects a mode by the parity of `value`.
    fn from(value: u16) -> (r: FreeverbMode) {
        if value & 1 == 0 {
            proof {
                assert(value & 1 == value % 2) by (bit_vector);
            }
            FreeverbMode::Active
        } else {
            proof {
                assert(value & 1 == value % 2) by (bit_vector);
            }
            FreeverbMode::Frozen
        }
    }
}

impl vstd::std_specs::convert::FromSpecImpl<u16> for FreeverbMode {
    open spec fn obeys_from_spec() -> bool {
        true
    }

    open spec fn from_spec(value: u16) -> FreeverbMode {
        mode_of(value as int)
    }
}

} // verus!
