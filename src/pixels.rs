//! Conversions between the packed pixel layouts used at the native boundary.
//!
//! Three-channel buffers are expanded to four channels with a fully opaque alpha
//! channel; four-channel buffers keep their alpha channel. Every conversion swaps
//! the first and third channel of each pixel. A trailing partial pixel is ignored.
use vstd::prelude::*;

verus! {

/// The alpha value of a fully opaque pixel.
pub const FULL_OPACITY: u8 = 255;

/// A three-channel buffer expanded to four channels: the first and third channel of
/// each pixel change places and a fully opaque fourth channel is added.
pub open spec fn expand_swapped(p: Seq<u8>) -> Seq<u8> {
    Seq::new(
        ((p.len() / 3) * 4) as nat,
        |i: int|
            if i % 4 == 3 {
                FULL_OPACITY
            } else {
                p[(i / 4) * 3 + 2 - i % 4]
            },
    )
}

/// A four-channel buffer with the first and third channel of each pixel swapped.
pub open spec fn swap_red_blue(p: Seq<u8>) -> Seq<u8> {
    Seq::new(
        ((p.len() / 4) * 4) as nat,
        |i: int|
            if i % 4 == 3 {
                p[i]
            } else {
                p[(i / 4) * 4 + 2 - i % 4]
            },
    )
}

fn expand_three_channels(src: &[u8]) -> (r: Vec<u8>)
    ensures
        r@ == expand_swapped(src@),
{
    let len: usize = src.len();
    let n: usize = len / 3;
    let mut out: Vec<u8> = Vec::new();
    let mut k: usize = 0;
    while k < n
        invariant
            len == src@.len(),
            n == src@.len() / 3,
            k <= n,
            out@ =~= expand_swapped(src@).take(4 * k as int),
        decreases n - k,
    {
        assert(3 * k + 3 <= src@.len()) by (nonlinear_arith)
            requires
                k < n,
                n == src@.len() / 3,
        ;
        let base: usize = 3 * k;
        out.push(src[base + 2]);
        out.push(src[base + 1]);
        out.push(src[base]);
        out.push(FULL_OPACITY);
        k = k + 1;
        assert(out@ =~= expand_swapped(src@).take(4 * k as int));
    }
    out
}

fn swap_four_channels(src: &[u8]) -> (r: Vec<u8>)
    ensures
        r@ == swap_red_blue(src@),
{
    let len: usize = src.len();
    let n: usize = len / 4;
    let mut out: Vec<u8> = Vec::new();
    let mut k: usize = 0;
    while k < n
        invariant
            len == src@.len(),
            n == src@.len() / 4,
            k <= n,
            out@ =~= swap_red_blue(src@).take(4 * k as int),
        decreases n - k,
    {
        assert(4 * k + 4 <= src@.len()) by (nonlinear_arith)
            requires
                k < n,
                n == src@.len() / 4,
        ;
        let base: usize = 4 * k;
        out.push(src[base + 2]);
        out.push(src[base + 1]);
        out.push(src[base]);
        out.push(src[base + 3]);
        k = k + 1;
        assert(out@ =~= swap_red_blue(src@).take(4 * k as int));
    }
    out
}

/// Expanding a whole number of three-channel pixels yields four bytes for every
/// three, and every fourth byte of the result is fully opaque.
pub proof fn lemma_expansion_is_opaque(p: Seq<u8>)
    ensures
        p.len() % 3 == 0 ==> 3 * expand_swapped(p).len() == 4 * p.len(),
        forall|i: int|
            0 <= i < expand_swapped(p).len() && i % 4 == 3 ==> expand_swapped(p)[i]
                == FULL_OPACITY,
{
}

/// Swapping the first and third channel of a whole number of four-channel pixels
/// twice gives back the original buffer: `rgba_to_bgra` undoes `bgra_to_rgba`, and
/// the other way round.
pub proof fn lemma_swap_red_blue_involution(p: Seq<u8>)
    requires
        p.len() % 4 == 0,
    ensures
        swap_red_blue(swap_red_blue(p)) == p,
{
    assert(swap_red_blue(swap_red_blue(p)) =~= p);
}

/// Converts three-channel BGR pixel data into four-channel RGBA pixel data with a
/// fully opaque alpha channel.
pub fn unaligned_bgr_to_rgba(bgr: &[u8]) -> (r: Vec<u8>)
    ensures
        r@ == expand_swapped(bgr@),
        bgr@.len() % 3 == 0 ==> 3 * r@.len() == 4 * bgr@.len(),
        forall|i: int| 0 <= i < r@.len() && i % 4 == 3 ==> r@[i] == FULL_OPACITY,
{
    proof {
        lemma_expansion_is_opaque(bgr@);
    }
    expand_three_channels(bgr)
}

/// Converts three-channel RGB pixel data into four-channel BGRA pixel data with a
/// fully opaque alpha channel.
pub fn unaligned_rgb_to_bgra(rgb: &[u8]) -> (r: Vec<u8>)
    ensures
        r@ == expand_swapped(rgb@),
        rgb@.len() % 3 == 0 ==> 3 * r@.len() == 4 * rgb@.len(),
        forall|i: int| 0 <= i < r@.len() && i % 4 == 3 ==> r@[i] == FULL_OPACITY,
{
    expand_three_channels(rgb)
}

/// Converts four-channel BGRA pixel data into four-channel RGBA pixel data.
pub fn bgra_to_rgba(bgra: &[u8]) -> (r: Vec<u8>)
    ensures
        r@ == swap_red_blue(bgra@),
{
    swap_four_channels(bgra)
}

/// Converts four-channel RGBA pixel data into four-channel BGRA pixel data.
pub fn rgba_to_bgra(rgba: &[u8]) -> (r: Vec<u8>)
    ensures
        r@ == swap_red_blue(rgba@),
{
    swap_four_channels(rgba)
}

} // verus!
