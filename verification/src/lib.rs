//! Verified decision logic of the resonance model: ternary quantization of an
//! output, harmonic indexing and nearest-harmonic selection, and the choice of
//! which agents of a cascade propagate energy.
use vstd::prelude::*;

pub mod cascade;
pub mod harmonic;
pub mod ternary;

verus! {

} // verus!
