//! Shaping raw backend coefficients into fixed-width coefficient vectors.
//!
//! The spectral backend hands back one raw coefficient sequence per frame,
//! as bit patterns of 64-bit IEEE 754 values. A coefficient vector is that
//! sequence cut or zero-padded to the configured width, so that every vector
//! of a batch has the same fixed length whatever the backend returned.

use vstd::prelude::*;

verus! {

/// The bit pattern of IEEE 754 positive zero, used to pad coefficient slots
/// for which the backend produced no value.
pub const ZERO_COEFF_BITS: u64 = 0;

/// `raw` cut or zero-padded to exactly `width` slots: slot `i` holds
/// `raw[i]` where the backend produced it, and the zero coefficient beyond.
pub open spec fn shaped(raw: Seq<u64>, width: nat) -> Seq<u64> {
    Seq::new(width, |i: int| if i < raw.len() { raw[i] } else { ZERO_COEFF_BITS })
}

/// Builds the coefficient vector of width `width` from the backend's raw
/// coefficients: the first `width` raw values, zero-padded if the backend
/// produced fewer.
pub fn coefficient_vector(raw: &Vec<u64>, width: usize) -> (v: Vec<u64>)
    ensures
        v@ == shaped(raw@, width as nat),
        v@.len() == width,
{
    let mut v: Vec<u64> = Vec::new();
    let mut i: usize = 0;
    while i < width
        invariant
            i <= width,
            v@.len() == i,
            forall|k: int| 0 <= k < i ==> #[trigger] v@[k] == shaped(raw@, width as nat)[k],
        decreases width - i,
    {
        if i < raw.len() {
            let b = raw[i];
            v.push(b);
        } else {
            v.push(ZERO_COEFF_BITS);
        }
        i += 1;
    }
    proof {
        assert(v@ =~= shaped(raw@, width as nat));
    }
    v
}

/// Law: the declared width only decides where the vector is cut or padded —
/// of two widths, the narrower vector is exactly the front of the wider one,
/// so widening never alters the coefficients already present.
pub proof fn lemma_shaped_prefix(raw: Seq<u64>, narrow: nat, wide: nat)
    requires
        narrow <= wide,
    ensures
        shaped(raw, narrow) == shaped(raw, wide).take(narrow as int),
{
    assert(shaped(raw, narrow) =~= shaped(raw, wide).take(narrow as int));
}

} // verus!
