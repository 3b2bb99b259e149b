//! Percent-encoding of URL path segments.
//!
//! A caller-supplied identifier is encoded byte by byte over its UTF-8 form:
//! every control byte, `DEL`, every non-ASCII byte, the space, and `#`, `%`,
//! `/`, `?` become `%XX` with uppercase hex; every other byte stands as its
//! own character.
use vstd::prelude::*;

use crate::text::push_char;
use vstd::string::*;

verus! {

/// The bytes that must not stand bare in a path segment.
pub open spec fn path_byte_reserved(b: u8) -> bool {
    b <= 0x20 || b >= 0x7f || b == 0x23 || b == 0x25 || b == 0x2f || b == 0x3f
}

fn is_reserved(b: u8) -> (r: bool)
    ensures
        r == path_byte_reserved(b),
{
    b <= 0x20 || b >= 0x7f || b == 0x23 || b == 0x25 || b == 0x2f || b == 0x3f
}

/// The uppercase hex digit for a value below sixteen.
pub open spec fn hex_digit(d: int) -> char {
    if d == 0 { '0' }
    else if d == 1 { '1' }
    else if d == 2 { '2' }
    else if d == 3 { '3' }
    else if d == 4 { '4' }
    else if d == 5 { '5' }
    else if d == 6 { '6' }
    else if d == 7 { '7' }
    else if d == 8 { '8' }
    else if d == 9 { '9' }
    else if d == 10 { 'A' }
    else if d == 11 { 'B' }
    else if d == 12 { 'C' }
    else if d == 13 { 'D' }
    else if d == 14 { 'E' }
    else { 'F' }
}

fn hex_char(d: u8) -> (r: char)
    requires
        d < 16,
    ensures
        r == hex_digit(d as int),
{
    match d {
        0 => '0',
        1 => '1',
        2 => '2',
        3 => '3',
        4 => '4',
        5 => '5',
        6 => '6',
        7 => '7',
        8 => '8',
        9 => '9',
        10 => 'A',
        11 => 'B',
        12 => 'C',
        13 => 'D',
        14 => 'E',
        _ => 'F',
    }
}

/// What one byte contributes to the encoded segment.
pub open spec fn encode_byte_spec(b: u8) -> Seq<char> {
    if path_byte_reserved(b) {
        seq!['%', hex_digit(b as int / 16), hex_digit(b as int % 16)]
    } else {
        seq![b as char]
    }
}

/// The encoded segment for a byte sequence.
pub open spec fn encode_bytes(bs: Seq<u8>) -> Seq<char>
    decreases bs.len(),
{
    if bs.len() == 0 {
        Seq::empty()
    } else {
        encode_byte_spec(bs[0]) + encode_bytes(bs.drop_first())
    }
}

/// Encoding distributes over concatenation.
pub proof fn lemma_encode_bytes_app(a: Seq<u8>, b: Seq<u8>)
    ensures
        encode_bytes(a + b) == encode_bytes(a) + encode_bytes(b),
    decreases a.len(),
{
    if a.len() == 0 {
        assert(a + b =~= b);
        assert(encode_bytes(a) + encode_bytes(b) =~= encode_bytes(b));
    } else {
        assert((a + b)[0] == a[0]);
        assert((a + b).drop_first() =~= a.drop_first() + b);
        lemma_encode_bytes_app(a.drop_first(), b);
        assert(encode_byte_spec(a[0]) + (encode_bytes(a.drop_first()) + encode_bytes(b))
            =~= (encode_byte_spec(a[0]) + encode_bytes(a.drop_first())) + encode_bytes(b));
    }
}

/// Percent-encode a path segment over its UTF-8 bytes.
pub fn encode_path(s: &str) -> (r: String)
    ensures
        r@ == encode_bytes(s.spec_bytes()),
{
    let bytes = s.as_bytes();
    let n = bytes.len();
    let mut out = String::new();
    proof {
        assert(bytes@.take(0) =~= Seq::<u8>::empty());
    }
    let mut i: usize = 0;
    while i < n
        invariant
            0 <= i <= n,
            n == bytes@.len(),
            bytes@ == s.spec_bytes(),
            out@ == encode_bytes(bytes@.take(i as int)),
        decreases n - i,
    {
        let b = bytes[i];
        proof {
            assert(bytes@.take(i as int + 1) =~= bytes@.take(i as int) + seq![b]);
            lemma_encode_bytes_app(bytes@.take(i as int), seq![b]);
            assert(seq![b].drop_first() =~= Seq::<u8>::empty());
            assert(encode_bytes(seq![b].drop_first()) == Seq::<char>::empty());
            assert(encode_bytes(seq![b]) == encode_byte_spec(b) + Seq::<char>::empty());
            assert(encode_byte_spec(b) + Seq::<char>::empty() =~= encode_byte_spec(b));
        }
        if is_reserved(b) {
            let ghost before = out@;
            push_char(&mut out, '%');
            push_char(&mut out, hex_char(b / 16));
            push_char(&mut out, hex_char(b % 16));
            proof {
                assert(out@ =~= before + encode_byte_spec(b));
            }
        } else {
            let ghost before = out@;
            push_char(&mut out, b as char);
            proof {
                assert(out@ =~= before + encode_byte_spec(b));
            }
        }
        i += 1;
    }
    proof {
        assert(bytes@.take(n as int) =~= bytes@);
    }
    out
}

/// A character that passes through path-segment encoding unchanged: printable
/// ASCII outside the reserved set.
pub open spec fn path_char_safe(c: char) -> bool {
    '\u{21}' <= c && c <= '\u{7e}' && c != '#' && c != '%' && c != '/' && c != '?'
}

/// Encoding a byte sequence with nothing reserved in it is the identity,
/// read character for byte.
pub proof fn lemma_encode_safe_bytes(bs: Seq<u8>)
    requires
        forall|k: int| 0 <= k < bs.len() ==> !path_byte_reserved(bs[k]),
    ensures
        encode_bytes(bs) =~= Seq::new(bs.len(), |i: int| bs[i] as char),
    decreases bs.len(),
{
    if bs.len() > 0 {
        lemma_encode_safe_bytes(bs.drop_first());
    }
}

/// Encoding a segment made only of safe characters returns it unchanged.
pub proof fn lemma_encode_identity_on_safe(s: &str)
    requires
        forall|k: int| 0 <= k < s@.len() ==> path_char_safe(#[trigger] s@[k]),
    ensures
        encode_bytes(s.spec_bytes()) == s@,
{
    assert forall|k: int| 0 <= k < s@.len() implies (s@[k] as u32) < 128 by {
        assert(path_char_safe(s@[k]));
    }
    assert(vstd::string::is_ascii(s));
    vstd::string::is_ascii_spec_bytes(s);
    let bs = s.spec_bytes();
    assert forall|k: int| 0 <= k < bs.len() implies !path_byte_reserved(#[trigger] bs[k]) by {
        assert(bs[k] == s@[k] as u8);
        assert(path_char_safe(s@[k]));
    }
    lemma_encode_safe_bytes(bs);
    assert(encode_bytes(bs) =~= s@);
}

/// Whether the character is an uppercase hex digit.
pub open spec fn is_hex_upper(c: char) -> bool {
    ('0' <= c && c <= '9') || ('A' <= c && c <= 'F')
}

/// The value of an uppercase hex digit.
pub open spec fn hex_val(c: char) -> int {
    if '0' <= c && c <= '9' {
        c as int - '0' as int
    } else {
        10 + (c as int - 'A' as int)
    }
}

/// The inverse reading of an encoded segment: `%XX` triples become their
/// byte, safe characters become theirs, anything else is rejected.
pub open spec fn decode_bytes(cs: Seq<char>) -> Option<Seq<u8>>
    decreases cs.len(),
{
    if cs.len() == 0 {
        Some(Seq::empty())
    } else if cs[0] == '%' {
        if cs.len() >= 3 && is_hex_upper(cs[1]) && is_hex_upper(cs[2]) {
            match decode_bytes(cs.skip(3)) {
                Some(rest) => Some(seq![(hex_val(cs[1]) * 16 + hex_val(cs[2])) as u8] + rest),
                None => None,
            }
        } else {
            None
        }
    } else if path_char_safe(cs[0]) {
        match decode_bytes(cs.drop_first()) {
            Some(rest) => Some(seq![(cs[0] as u32) as u8] + rest),
            None => None,
        }
    } else {
        None
    }
}

/// Path-segment encoding is reversible: decoding an encoded byte sequence
/// gives the bytes back, for every input.
pub proof fn lemma_decode_encode(bs: Seq<u8>)
    ensures
        decode_bytes(encode_bytes(bs)) == Some(bs),
    decreases bs.len(),
{
    if bs.len() == 0 {
        assert(decode_bytes(encode_bytes(bs)) == Some(Seq::<u8>::empty()));
        assert(bs =~= Seq::<u8>::empty());
    } else {
        let b = bs[0];
        let rest = bs.drop_first();
        lemma_decode_encode(rest);
        let cs = encode_bytes(bs);
        if path_byte_reserved(b) {
            let h1 = hex_digit(b as int / 16);
            let h2 = hex_digit(b as int % 16);
            assert(cs[0] == '%' && cs[1] == h1 && cs[2] == h2);
            assert(is_hex_upper(h1) && hex_val(h1) == b as int / 16);
            assert(is_hex_upper(h2) && hex_val(h2) == b as int % 16);
            assert(cs.skip(3) =~= encode_bytes(rest));
            assert(hex_val(h1) * 16 + hex_val(h2) == b as int);
            assert(seq![(hex_val(cs[1]) * 16 + hex_val(cs[2])) as u8] + rest =~= bs);
        } else {
            let c = b as char;
            assert(cs[0] == c);
            assert(c as u32 == b as u32);
            assert(c != '%');
            assert(path_char_safe(c));
            assert(cs.drop_first() =~= encode_bytes(rest));
            assert(seq![(c as u32) as u8] + rest =~= bs);
        }
    }
}

} // verus!
