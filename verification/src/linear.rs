//! The registry entry of the linear interpolator.
//!
//! The converter registry looks names and descriptions up by converter
//! number; the linear interpolator answers only for its own number and
//! declines every other.

use vstd::prelude::*;

verus! {

/// The converter number of the linear interpolator in the registry.
pub const SRC_LINEAR: i32 = 4;

/// The registry name of the linear interpolator: its own converter number
/// yields the name, every other number yields nothing.
pub fn linear_get_name(src_enum: i32) -> (r: Option<&'static str>)
    ensures
        src_enum == SRC_LINEAR ==> (r matches Some(s) && s@ == "Linear Interpolator"@),
        src_enum != SRC_LINEAR ==> r is None,
{
    if src_enum == SRC_LINEAR {
        Some("Linear Interpolator")
    } else {
        None
    }
}

/// The registry description of the linear interpolator: its own converter
/// number yields the description, every other number yields nothing.
pub fn linear_get_description(src_enum: i32) -> (r: Option<&'static str>)
    ensures
        src_enum == SRC_LINEAR ==> (r matches Some(s) && s@ == "Linear interpolator, very fast, poor quality."@),
        src_enum != SRC_LINEAR ==> r is None,
{
    if src_enum == SRC_LINEAR {
        Some("Linear interpolator, very fast, poor quality.")
    } else {
        None
    }
}

} // verus!
