//! Wide-text buffers: text encoded as UTF-16 code units in little-endian byte order,
//! followed by a terminating zero unit.
use vstd::prelude::*;
use vstd::utf8::{char_is_scalar, char_u32_cast, is_scalar};

verus! {

/// Whether a code unit opens a surrogate pair.
pub open spec fn is_high_surrogate(u: u16) -> bool {
    0xD800 <= u <= 0xDBFF
}

/// Whether a code unit closes a surrogate pair.
pub open spec fn is_low_surrogate(u: u16) -> bool {
    0xDC00 <= u <= 0xDFFF
}

/// The UTF-16 code units of one scalar value.
pub open spec fn scalar_units(v: u32) -> Seq<u16> {
    if v < 0x10000 {
        seq![v as u16]
    } else {
        seq![(0xD800 + (v - 0x10000) / 1024) as u16, (0xDC00 + (v - 0x10000) % 1024) as u16]
    }
}

/// The UTF-16 code units of a text.
pub open spec fn utf16_encode(s: Seq<char>) -> Seq<u16>
    decreases s.len(),
{
    if s.len() == 0 {
        Seq::empty()
    } else {
        scalar_units(s[0] as u32) + utf16_encode(s.drop_first())
    }
}

/// Code units laid out as bytes, low byte first.
pub open spec fn le_bytes(u: Seq<u16>) -> Seq<u8> {
    Seq::new(
        2 * u.len(),
        |i: int|
            if i % 2 == 0 {
                (u[i / 2] % 256) as u8
            } else {
                (u[i / 2] / 256) as u8
            },
    )
}

/// Bytes read as little-endian code units; an odd trailing byte is left out.
pub open spec fn le_units(b: Seq<u8>) -> Seq<u16> {
    Seq::new(b.len() / 2, |i: int| (b[2 * i] + 256 * b[2 * i + 1]) as u16)
}

/// The wide-text buffer for a text: its code units as little-endian bytes, then a
/// two-byte zero terminator.
pub open spec fn wide_text(s: Seq<char>) -> Seq<u8> {
    le_bytes(utf16_encode(s)) + seq![0u8, 0u8]
}

/// Whether bytes form a wide-text buffer that the engine can read: whole code units,
/// the last of them the zero terminator.
pub open spec fn is_wide_text(b: Seq<u8>) -> bool {
    &&& b.len() >= 2
    &&& b.len() % 2 == 0
    &&& b[b.len() - 2] == 0
    &&& b[b.len() - 1] == 0
}

/// The scalar value that a surrogate pair stands for.
pub open spec fn pair_scalar(hi: u16, lo: u16) -> u32 {
    (0x10000 + (hi - 0xD800) * 1024 + (lo - 0xDC00)) as u32
}

/// Prepends decoded characters to the outcome of decoding the rest.
pub open spec fn prepend(p: Seq<char>, rest: Option<Seq<char>>) -> Option<Seq<char>> {
    match rest {
        Some(r) => Some(p + r),
        None => None,
    }
}

/// Decodes code units up to the first zero unit or the end; `None` on an unpaired
/// surrogate before that point.
pub open spec fn decode_units(u: Seq<u16>) -> Option<Seq<char>>
    decreases u.len(),
{
    if u.len() == 0 || u[0] == 0 {
        Some(Seq::empty())
    } else if is_high_surrogate(u[0]) {
        if u.len() >= 2 && is_low_surrogate(u[1]) {
            prepend(seq![pair_scalar(u[0], u[1]) as char], decode_units(u.skip(2)))
        } else {
            None
        }
    } else if is_low_surrogate(u[0]) {
        None
    } else {
        prepend(seq![(u[0] as u32) as char], decode_units(u.skip(1)))
    }
}

/// The text held in a wide-text buffer: `None` when the buffer has an odd length or
/// holds an unpaired surrogate before its terminator.
pub open spec fn wide_text_decode(b: Seq<u8>) -> Option<Seq<char>> {
    if b.len() % 2 == 1 {
        None
    } else {
        decode_units(le_units(b))
    }
}

/// Relies on `char::from_u32`: `Some` exactly for Unicode scalar values.
#[verifier::external_body]
fn char_from_scalar(v: u32) -> (r: Option<char>)
    ensures
        r is Some <==> is_scalar(v),
        r is Some ==> r->0 == v as char,
{
    char::from_u32(v)
}

/// Relies on `String::push`: the character is appended at the end.
#[verifier::external_body]
fn push_char(s: &mut String, c: char)
    ensures
        final(s)@ == old(s)@.push(c),
{
    s.push(c)
}

proof fn lemma_encode_push(s: Seq<char>, c: char)
    ensures
        utf16_encode(s.push(c)) == utf16_encode(s) + scalar_units(c as u32),
    decreases s.len(),
{
    if s.len() == 0 {
        assert(s.push(c).drop_first() =~= Seq::<char>::empty());
        assert(utf16_encode(Seq::<char>::empty()) =~= Seq::<u16>::empty());
        assert(utf16_encode(s.push(c)) =~= scalar_units(c as u32));
    } else {
        assert(s.push(c).drop_first() =~= s.drop_first().push(c));
        lemma_encode_push(s.drop_first(), c);
        assert(utf16_encode(s.push(c)) =~= utf16_encode(s) + scalar_units(c as u32));
    }
}

/// Encodes text as a wide-text buffer: UTF-16 code units, low byte first, followed
/// by a two-byte zero terminator.
pub fn get_pdfium_utf16le_bytes_from_str(s: &str) -> (r: Vec<u8>)
    ensures
        r@ == wide_text(s@),
        is_wide_text(r@),
{
    let mut out: Vec<u8> = Vec::new();
    let ghost mut done: Seq<char> = Seq::empty();
    for c in it: s.chars()
        invariant
            it.seq() == s@,
            done == s@.take(it.index() as int),
            out@ == le_bytes(utf16_encode(done)),
    {
        proof {
            char_is_scalar(c);
        }
        let v: u32 = c as u32;
        if v < 0x10000 {
            let u: u16 = v as u16;
            out.push((u % 256) as u8);
            out.push((u / 256) as u8);
        } else {
            let w: u32 = v - 0x10000;
            let hi: u16 = (0xD800 + w / 1024) as u16;
            let lo: u16 = (0xDC00 + w % 1024) as u16;
            out.push((hi % 256) as u8);
            out.push((hi / 256) as u8);
            out.push((lo % 256) as u8);
            out.push((lo / 256) as u8);
        }
        proof {
            lemma_encode_push(done, c);
            done = done.push(c);
            assert(done =~= s@.take(it.index() + 1));
            assert(out@ =~= le_bytes(utf16_encode(done)));
        }
    }
    proof {
        assert(done =~= s@);
    }
    out.push(0);
    out.push(0);
    assert(out@ =~= wide_text(s@));
    out
}

/// Whether a text is free of the NUL character, which a wide-text buffer reads as
/// its terminator.
pub open spec fn free_of_nul(s: Seq<char>) -> bool {
    forall|i: int| 0 <= i < s.len() ==> (#[trigger] s[i]) as u32 != 0
}

proof fn lemma_units_of_bytes(u: Seq<u16>)
    ensures
        le_units(le_bytes(u) + seq![0u8, 0u8]) == u.push(0),
{
    let b = le_bytes(u) + seq![0u8, 0u8];
    assert forall|i: int| 0 <= i < u.len() implies #[trigger] le_units(b)[i] == u[i] by {
        assert(b[2 * i] == (u[i] % 256) as u8);
        assert(b[2 * i + 1] == (u[i] / 256) as u8);
    }
    assert(le_units(b)[u.len() as int] == 0);
    assert(le_units(b) =~= u.push(0));
}

proof fn lemma_decode_encoded(s: Seq<char>, tail: Seq<u16>)
    requires
        free_of_nul(s),
    ensures
        decode_units(utf16_encode(s) + tail) == prepend(s, decode_units(tail)),
    decreases s.len(),
{
    let all = utf16_encode(s) + tail;
    if s.len() == 0 {
        assert(all =~= tail);
        match decode_units(tail) {
            Some(t) => {
                assert(s + t =~= t);
            },
            None => {},
        }
    } else {
        let c = s[0];
        let v = c as u32;
        let rest = s.drop_first();
        char_is_scalar(c);
        char_u32_cast(c, v);
        assert(free_of_nul(rest)) by {
            assert forall|i: int| 0 <= i < rest.len() implies (#[trigger] rest[i]) as u32 != 0 by {
                assert(rest[i] == s[i + 1]);
            }
        }
        lemma_decode_encoded(rest, tail);
        assert(v != 0) by {
            assert(s[0] as u32 != 0);
        }
        let k = scalar_units(v).len() as int;
        assert(all =~= scalar_units(v) + (utf16_encode(rest) + tail));
        assert(all.skip(k) =~= utf16_encode(rest) + tail);
        if v < 0x10000 {
            assert(all[0] == v as u16);
            assert(((v as u16) as u32) == v);
        } else {
            let hi = all[0];
            let lo = all[1];
            assert(hi == (0xD800 + (v - 0x10000) / 1024) as u16);
            assert(lo == (0xDC00 + (v - 0x10000) % 1024) as u16);
            assert(pair_scalar(hi, lo) == v);
        }
        match decode_units(tail) {
            Some(t) => {
                assert(seq![c] + (rest + t) =~= s + t);
            },
            None => {},
        }
    }
}

/// Decoding the wide-text buffer of a text gives the text back, for every text
/// without a NUL character.
pub proof fn lemma_wide_text_round_trip(s: Seq<char>)
    requires
        free_of_nul(s),
    ensures
        wide_text_decode(wide_text(s)) == Some(s),
{
    let u = utf16_encode(s);
    lemma_units_of_bytes(u);
    assert(wide_text(s).len() == 2 * u.len() + 2);
    lemma_decode_encoded(s, seq![0u16]);
    assert(u.push(0) =~= u + seq![0u16]);
    assert(s + Seq::<char>::empty() =~= s);
}

/// Decodes a wide-text buffer up to its terminator or its end. Gives `None` when the
/// buffer has an odd length or holds an unpaired surrogate before the terminator.
pub fn get_string_from_pdfium_utf16le_bytes(buffer: Vec<u8>) -> (r: Option<String>)
    ensures
        wide_text_decode(buffer@) is Some <==> r is Some,
        r is Some ==> r->0@ == wide_text_decode(buffer@)->0,
{
    let len: usize = buffer.len();
    if len % 2 == 1 {
        return None;
    }
    let n: usize = len / 2;
    let ghost units = le_units(buffer@);
    let mut out = String::new();
    let mut i: usize = 0;
    proof {
        assert(units.skip(0) =~= units);
        match decode_units(units) {
            Some(t) => {
                assert(out@ + t =~= t);
            },
            None => {},
        }
    }
    while i < n
        invariant
            len == buffer@.len(),
            len % 2 == 0,
            n == units.len(),
            units == le_units(buffer@),
            i <= n,
            decode_units(units) == prepend(out@, decode_units(units.skip(i as int))),
        decreases n - i,
    {
        let u: u16 = buffer[2 * i] as u16 + 256 * (buffer[2 * i + 1] as u16);
        assert(u == units[i as int]);
        let ghost rest = units.skip(i as int);
        if u == 0 {
            assert(out@ + Seq::<char>::empty() =~= out@);
            return Some(out);
        }
        if 0xD800 <= u && u <= 0xDBFF {
            if i + 1 >= n {
                return None;
            }
            let lo: u16 = buffer[2 * i + 2] as u16 + 256 * (buffer[2 * i + 3] as u16);
            assert(lo == units[i + 1]);
            if !(0xDC00 <= lo && lo <= 0xDFFF) {
                return None;
            }
            let v: u32 = 0x10000 + (u as u32 - 0xD800) * 1024 + (lo as u32 - 0xDC00);
            assert(v == pair_scalar(u, lo));
            match char_from_scalar(v) {
                Some(c) => {
                    push_char(&mut out, c);
                    proof {
                        assert(rest.skip(2) =~= units.skip(i + 2));
                        assert(seq![c] + Seq::<char>::empty() =~= seq![c]);
                        match decode_units(rest.skip(2)) {
                            Some(t) => {
                                assert(out@ + t =~= (out@.drop_last()) + (seq![c] + t));
                            },
                            None => {},
                        }
                    }
                    i = i + 2;
                },
                None => {
                    return None;
                },
            }
        } else if 0xDC00 <= u && u <= 0xDFFF {
            return None;
        } else {
            match char_from_scalar(u as u32) {
                Some(c) => {
                    push_char(&mut out, c);
                    proof {
                        assert(rest.skip(1) =~= units.skip(i + 1));
                        match decode_units(rest.skip(1)) {
                            Some(t) => {
                                assert(out@ + t =~= (out@.drop_last()) + (seq![c] + t));
                            },
                            None => {},
                        }
                    }
                    i = i + 1;
                },
                None => {
                    return None;
                },
            }
        }
    }
    proof {
        assert(units.skip(i as int).len() == 0);
        assert(out@ + Seq::<char>::empty() =~= out@);
    }
    Some(out)
}

} // verus!
