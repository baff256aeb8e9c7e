//! Choosing the target dimensions of a merge: the pair with the smaller area.
use vstd::prelude::*;

verus! {

/// Number of pixels of an image of dimensions `d` (width, height).
pub open spec fn area(d: (u32, u32)) -> nat {
    (d.0 as nat) * (d.1 as nat)
}

/// The pair of strictly smaller area; on equal areas, the second pair.
pub open spec fn smallest_dim(dim1: (u32, u32), dim2: (u32, u32)) -> (u32, u32) {
    if area(dim1) < area(dim2) {
        dim1
    } else {
        dim2
    }
}

proof fn lemma_area_fits_u64(w: u32, h: u32)
    ensures
        (w as nat) * (h as nat) <= u64::MAX,
{
    assert((w as nat) * (h as nat) <= (u32::MAX as nat) * (u32::MAX as nat)) by (nonlinear_arith)
        requires
            w <= u32::MAX,
            h <= u32::MAX,
    ;
}

/// Picks the dimensions with the smaller pixel count. Areas are computed in
/// 64 bits, so no pair of `u32` dimensions overflows.
pub fn get_smallest_dim(dim1: (u32, u32), dim2: (u32, u32)) -> (r: (u32, u32))
    ensures
        r == smallest_dim(dim1, dim2),
{
    proof {
        lemma_area_fits_u64(dim1.0, dim1.1);
        lemma_area_fits_u64(dim2.0, dim2.1);
    }
    let pix1: u64 = dim1.0 as u64 * dim1.1 as u64;
    let pix2: u64 = dim2.0 as u64 * dim2.1 as u64;
    if pix1 < pix2 {
        dim1
    } else {
        dim2
    }
}

/// The selected pair is one of the two, its area is at most that of either,
/// and when both areas are equal it is the second pair.
pub proof fn lemma_smallest_dim_is_minimal(dim1: (u32, u32), dim2: (u32, u32))
    ensures
        smallest_dim(dim1, dim2) == dim1 || smallest_dim(dim1, dim2) == dim2,
        area(smallest_dim(dim1, dim2)) <= area(dim1),
        area(smallest_dim(dim1, dim2)) <= area(dim2),
        area(dim1) == area(dim2) ==> smallest_dim(dim1, dim2) == dim2,
{
}

} // verus!
