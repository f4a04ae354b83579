//! Quantization of a continuous output onto the ternary states {-1, 0, +1}.
use vstd::prelude::*;

verus! {

/// The ternary state of an output, given whether it lies above the upper
/// threshold and whether it lies below the lower one. Above wins over below.
pub open spec fn ternary_state(exceeds_upper: bool, below_lower: bool) -> i8 {
    if exceeds_upper {
        1i8
    } else if below_lower {
        -1i8
    } else {
        0i8
    }
}

/// Quantizes an output to ternary: `+1` when it exceeds the upper threshold,
/// `-1` when it falls below the lower threshold, `0` in the dead band between.
pub fn quantize_ternary(exceeds_upper: bool, below_lower: bool) -> (t: i8)
    ensures
        t == ternary_state(exceeds_upper, below_lower),
        t == -1 || t == 0 || t == 1,
        t == 1 <==> exceeds_upper,
        t == -1 <==> (!exceeds_upper && below_lower),
{
    if exceeds_upper {
        1i8
    } else if below_lower {
        -1i8
    } else {
        0i8
    }
}

} // verus!
