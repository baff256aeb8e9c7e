//! Pixel interleaving over flat RGBA buffers (4 bytes per pixel, row-major).
use vstd::prelude::*;

verus! {

/// Bytes per pixel of an RGBA8 buffer.
pub const CHANNELS: usize = 4;

/// Pixel `k` of the flat buffer `s`: its 4 bytes.
pub open spec fn pixel(s: Seq<u8>, k: int) -> Seq<u8> {
    s.subrange(4 * k, 4 * k + 4)
}

/// The bytes of `a` and `b` merged pixel by pixel: byte `j` belongs to pixel
/// `j / 4`, taken from `a` when that pixel's index is even and from `b` when odd.
pub open spec fn interleaved(a: Seq<u8>, b: Seq<u8>) -> Seq<u8> {
    Seq::new(a.len(), |j: int| if (j / 4) % 2 == 0 { a[j] } else { b[j] })
}

/// Copies the bytes `vec[start..=end]` into a new vector (empty when `start > end`).
pub fn set_rgba(vec: &Vec<u8>, start: usize, end: usize) -> (r: Vec<u8>)
    requires
        start <= end ==> end < vec@.len(),
    ensures
        start <= end ==> r@ == vec@.subrange(start as int, end + 1),
        start > end ==> r@.len() == 0,
{
    let mut rgba: Vec<u8> = Vec::new();
    if start > end {
        return rgba;
    }
    let len = vec.len();
    let mut i: usize = start;
    while i <= end
        invariant
            len == vec@.len(),
            start <= end < len,
            start <= i <= end + 1,
            rgba@ == vec@.subrange(start as int, i as int),
        decreases end + 1 - i,
    {
        rgba.push(vec[i]);
        i = i + 1;
    }
    rgba
}

proof fn lemma_byte_in_pixel(k: int, j: int)
    requires
        0 <= k,
        4 * k <= j < 4 * k + 4,
    ensures
        j / 4 == k,
{
    vstd::arithmetic::div_mod::lemma_fundamental_div_mod_converse(j, 4, k, j - 4 * k);
}

/// Builds a buffer of the inputs' length whose pixels come alternately from
/// `vec1` (even pixel indices) and `vec2` (odd pixel indices).
pub fn alternate_pixels(vec1: Vec<u8>, vec2: Vec<u8>) -> (r: Vec<u8>)
    requires
        vec1@.len() == vec2@.len(),
        vec1@.len() % 4 == 0,
    ensures
        r@ == interleaved(vec1@, vec2@),
        r@.len() == vec1@.len(),
{
    let len = vec1.len();
    let n = len / CHANNELS;
    let mut combined: Vec<u8> = Vec::with_capacity(len);
    let mut k: usize = 0;
    while k < n
        invariant
            len == vec1@.len(),
            vec1@.len() == vec2@.len(),
            n * 4 == len,
            k <= n,
            combined@.len() == 4 * k,
            forall|j: int|
                0 <= j < 4 * k ==> #[trigger] combined@[j] == interleaved(vec1@, vec2@)[j],
        decreases n - k,
    {
        let i = k * CHANNELS;
        let mut block = if k % 2 == 0 {
            set_rgba(&vec1, i, i + 3)
        } else {
            set_rgba(&vec2, i, i + 3)
        };
        let ghost prev = combined@;
        combined.append(&mut block);
        proof {
            assert forall|j: int| 0 <= j < 4 * (k + 1) implies #[trigger] combined@[j]
                == interleaved(vec1@, vec2@)[j] by {
                if j >= 4 * k {
                    lemma_byte_in_pixel(k as int, j);
                } else {
                    assert(combined@[j] == prev[j]);
                }
            }
        }
        k = k + 1;
    }
    assert(combined@ =~= interleaved(vec1@, vec2@));
    combined
}

/// Interleaving keeps the length, and each pixel of the result is the pixel of
/// the same index of the first buffer when that index is even, of the second
/// when it is odd.
pub proof fn lemma_interleave_by_pixel(a: Seq<u8>, b: Seq<u8>, k: int)
    requires
        a.len() == b.len(),
        a.len() % 4 == 0,
        0 <= k < a.len() / 4,
    ensures
        interleaved(a, b).len() == a.len(),
        k % 2 == 0 ==> pixel(interleaved(a, b), k) == pixel(a, k),
        k % 2 == 1 ==> pixel(interleaved(a, b), k) == pixel(b, k),
{
    let r = interleaved(a, b);
    assert(4 * k + 4 <= a.len()) by {
        vstd::arithmetic::div_mod::lemma_fundamental_div_mod(a.len() as int, 4);
    }
    assert forall|j: int| 4 * k <= j < 4 * k + 4 implies #[trigger] r[j] == (if k % 2 == 0 {
        a[j]
    } else {
        b[j]
    }) by {
        lemma_byte_in_pixel(k, j);
    }
    if k % 2 == 0 {
        assert(pixel(r, k) =~= pixel(a, k));
    } else {
        assert(pixel(r, k) =~= pixel(b, k));
    }
}

} // verus!
