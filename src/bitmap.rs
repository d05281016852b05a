//! Portable replacement of a bitmap's pixel buffer.
use vstd::prelude::*;

use crate::types::c_int;

verus! {

/// The number of bytes in a bitmap's buffer: its stride times its height.
pub open spec fn bitmap_buffer_size(stride: c_int, height: c_int) -> int {
    stride as int * height as int
}

/// The length in bytes of the buffer of a bitmap with the given stride and height,
/// or `None` when that product is negative or does not fit in `usize`.
pub fn bitmap_buffer_length(stride: c_int, height: c_int) -> (r: Option<usize>)
    ensures
        r is Some <==> 0 <= bitmap_buffer_size(stride, height) <= usize::MAX,
        r is Some ==> r->0 as int == bitmap_buffer_size(stride, height),
{
    assert(i32::MIN * i32::MAX <= stride as int * height as int <= i32::MIN * i32::MIN)
        by (nonlinear_arith)
        requires
            i32::MIN <= stride <= i32::MAX,
            i32::MIN <= height <= i32::MAX,
    ;
    let product: i64 = stride as i64 * height as i64;
    if product < 0 || product as u64 > usize::MAX as u64 {
        None
    } else {
        Some(product as usize)
    }
}

/// Replaces every byte of a bitmap's buffer, `destination`, with the bytes of
/// `buffer`, returning `true`, when `buffer` holds exactly stride × height bytes and
/// `destination` has the same length. Otherwise returns `false` and writes nothing.
pub fn replace_pixel_buffer(
    destination: &mut [u8],
    stride: c_int,
    height: c_int,
    buffer: &[u8],
) -> (r: bool)
    ensures
        r <==> {
            &&& buffer@.len() == bitmap_buffer_size(stride, height)
            &&& old(destination)@.len() == buffer@.len()
        },
        old(destination)@.len() == bitmap_buffer_size(stride, height) ==> {
            r <==> buffer@.len() == bitmap_buffer_size(stride, height)
        },
        r ==> final(destination)@ == buffer@,
        !r ==> final(destination)@ == old(destination)@,
{
    let source_length: usize = buffer.len();
    let destination_length: usize = destination.len();
    let expected = bitmap_buffer_length(stride, height);
    match expected {
        None => {
            return false;
        },
        Some(length) => {
            if source_length != length || destination_length != length {
                return false;
            }
        },
    }
    let n: usize = buffer.len();
    let mut i: usize = 0;
    while i < n
        invariant
            n == buffer@.len(),
            destination@.len() == n,
            i <= n,
            forall|j: int| 0 <= j < i ==> destination@[j] == buffer@[j],
        decreases n - i,
    {
        destination[i] = buffer[i];
        i = i + 1;
    }
    assert(destination@ =~= buffer@);
    true
}

} // verus!
