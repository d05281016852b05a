//! Colors packed into a 32-bit word as alpha, red, green and blue, from the most
//! significant byte down.
use vstd::prelude::*;

use crate::types::FPDF_DWORD;

verus! {

/// The packed word for the given channels.
pub open spec fn argb_word(a: u8, r: u8, g: u8, b: u8) -> int {
    a as int * 0x1000000 + r as int * 0x10000 + g as int * 0x100 + b as int
}

/// Packs alpha, red, green and blue channels into one word.
pub fn pack_argb(a: u8, r: u8, g: u8, b: u8) -> (w: FPDF_DWORD)
    ensures
        w as int == argb_word(a, r, g, b),
{
    (a as u32) * 0x1000000 + (r as u32) * 0x10000 + (g as u32) * 0x100 + (b as u32)
}

/// The blue channel: the least significant byte.
pub fn blue_of(argb: FPDF_DWORD) -> (c: u8)
    ensures
        c as int == argb % 0x100,
{
    (argb % 0x100) as u8
}

/// The green channel: the second byte from the least significant end.
pub fn green_of(argb: FPDF_DWORD) -> (c: u8)
    ensures
        c as int == (argb / 0x100) % 0x100,
{
    ((argb / 0x100) % 0x100) as u8
}

/// The red channel: the third byte from the least significant end.
pub fn red_of(argb: FPDF_DWORD) -> (c: u8)
    ensures
        c as int == (argb / 0x10000) % 0x100,
{
    ((argb / 0x10000) % 0x100) as u8
}

/// The alpha channel: the most significant byte.
pub fn alpha_of(argb: FPDF_DWORD) -> (c: u8)
    ensures
        c as int == argb / 0x1000000,
{
    (argb / 0x1000000) as u8
}

/// Unpacking a packed color gives back each of its channels.
pub proof fn lemma_unpack_packed(a: u8, r: u8, g: u8, b: u8)
    ensures
        argb_word(a, r, g, b) % 0x100 == b as int,
        (argb_word(a, r, g, b) / 0x100) % 0x100 == g as int,
        (argb_word(a, r, g, b) / 0x10000) % 0x100 == r as int,
        argb_word(a, r, g, b) / 0x1000000 == a as int,
{
}

} // verus!
