//! Base64 encoding and data URLs.
use vstd::prelude::*;
use crate::text::{append_str, string_from_chars};

verus! {

/// The base64 digit for a value below 64: A-Z, a-z, 0-9, '+', '/'.
pub open spec fn b64_digit(v: int) -> char {
    if v < 26 {
        ((v + 65) as u8) as char
    } else if v < 52 {
        ((v + 71) as u8) as char
    } else if v < 62 {
        ((v - 4) as u8) as char
    } else if v == 62 {
        '+'
    } else {
        '/'
    }
}

/// The `k`-th group of six bits (from the top) of a 24-bit value.
pub open spec fn sextet(t: int, k: int) -> int {
    if k == 0 {
        (t / 262144) % 64
    } else if k == 1 {
        (t / 4096) % 64
    } else if k == 2 {
        (t / 64) % 64
    } else {
        t % 64
    }
}

/// The 24-bit value of up to three bytes, missing bytes counting as zero.
pub open spec fn triple(d: Seq<u8>) -> int {
    (d[0] as int) * 65536 + (if d.len() > 1 {
        d[1] as int
    } else {
        0
    }) * 256 + (if d.len() > 2 {
        d[2] as int
    } else {
        0
    })
}

/// The four characters that encode one group of one to three bytes, padded with '='.
pub open spec fn b64_group(d: Seq<u8>) -> Seq<char> {
    let t = triple(d);
    seq![
        b64_digit(sextet(t, 0)),
        b64_digit(sextet(t, 1)),
        if d.len() > 1 {
            b64_digit(sextet(t, 2))
        } else {
            '='
        },
        if d.len() > 2 {
            b64_digit(sextet(t, 3))
        } else {
            '='
        },
    ]
}

/// Standard base64 (RFC 4648 alphabet, '=' padding) of a byte sequence.
pub open spec fn base64(data: Seq<u8>) -> Seq<char>
    decreases data.len(),
{
    if data.len() == 0 {
        Seq::empty()
    } else if data.len() <= 3 {
        b64_group(data)
    } else {
        b64_group(data.take(3)) + base64(data.skip(3))
    }
}

/// The base64 digit for a value below 64.
pub fn b64_digit_exec(v: u32) -> (r: char)
    requires
        v < 64,
    ensures
        r == b64_digit(v as int),
{
    if v < 26 {
        ((v + 65) as u8) as char
    } else if v < 52 {
        ((v + 71) as u8) as char
    } else if v < 62 {
        ((v - 4) as u8) as char
    } else if v == 62 {
        '+'
    } else {
        '/'
    }
}

/// Encodes bytes in base64.
pub fn base64_encode(data: &[u8]) -> (r: String)
    ensures
        r@ == base64(data@),
{
    let mut out: Vec<char> = Vec::new();
    let n = data.len();
    let mut i: usize = 0;
    assert(data@.skip(0) =~= data@);
    while i < n
        invariant
            i <= n,
            n == data@.len(),
            base64(data@) == out@ + base64(data@.skip(i as int)),
        decreases n - i,
    {
        let rest = n - i;
        let b0 = data[i] as u32;
        let b1: u32 = if rest > 1 {
            data[i + 1] as u32
        } else {
            0
        };
        let b2: u32 = if rest > 2 {
            data[i + 2] as u32
        } else {
            0
        };
        let t = (b0 << 16) | (b1 << 8) | b2;
        let ghost g = data@.skip(i as int).take(if rest < 3 { rest as int } else { 3 });
        proof {
            assert(b0 < 256 && b1 < 256 && b2 < 256);
            assert((b0 << 16) | (b1 << 8) | b2 == b0 * 65536 + b1 * 256 + b2) by (bit_vector)
                requires
                    b0 < 256,
                    b1 < 256,
                    b2 < 256,
            ;
            assert(g[0] == data@[i as int]);
            if rest > 1 {
                assert(g[1] == data@[i + 1]);
            }
            if rest > 2 {
                assert(g[2] == data@[i + 2]);
            }
            assert(t == triple(g));
            assert(t < 16777216);
            assert((t >> 18) & 0x3f == (t / 262144) % 64) by (bit_vector)
                requires
                    t < 16777216,
            ;
            assert((t >> 12) & 0x3f == (t / 4096) % 64) by (bit_vector)
                requires
                    t < 16777216,
            ;
            assert((t >> 6) & 0x3f == (t / 64) % 64) by (bit_vector)
                requires
                    t < 16777216,
            ;
            assert(t & 0x3f == t % 64) by (bit_vector)
                requires
                    t < 16777216,
            ;
        }
        let ghost before = out@;
        out.push(b64_digit_exec((t >> 18) & 0x3f));
        out.push(b64_digit_exec((t >> 12) & 0x3f));
        if rest > 1 {
            out.push(b64_digit_exec((t >> 6) & 0x3f));
        } else {
            out.push('=');
        }
        if rest > 2 {
            out.push(b64_digit_exec(t & 0x3f));
        } else {
            out.push('=');
        }
        assert(out@ =~= before + b64_group(g));
        proof {
            let s = data@.skip(i as int);
            if rest <= 3 {
                assert(g =~= s);
                assert(data@.skip(n as int) =~= Seq::<u8>::empty());
            } else {
                assert(s.skip(3) =~= data@.skip(i + 3));
            }
        }
        if rest > 3 {
            i = i + 3;
        } else {
            i = n;
        }
    }
    string_from_chars(&out)
}

/// Base64 turns every started group of three bytes into four characters.
pub proof fn law_base64_length(data: Seq<u8>)
    ensures
        base64(data).len() == 4 * ((data.len() + 2) / 3),
    decreases data.len(),
{
    if data.len() > 3 {
        law_base64_length(data.skip(3));
    }
}

/// Whether `c` is one of the 64 base64 digits: A-Z, a-z, 0-9, '+' or '/'.
pub open spec fn is_b64_digit(c: char) -> bool {
    ('A' <= c && c <= 'Z') || ('a' <= c && c <= 'z') || ('0' <= c && c <= '9') || c == '+' || c == '/'
}

/// The value of a base64 digit; the padding '=' counts as zero.
pub open spec fn b64_value(c: char) -> int {
    if 'A' <= c && c <= 'Z' {
        c as int - 65
    } else if 'a' <= c && c <= 'z' {
        c as int - 71
    } else if '0' <= c && c <= '9' {
        c as int + 4
    } else if c == '+' {
        62
    } else if c == '/' {
        63
    } else {
        0
    }
}

/// The one to three bytes that a group of four base64 characters stands for: one when the
/// third character is padding, two when only the fourth is, else three.
pub open spec fn decode_group(g: Seq<char>) -> Seq<u8> {
    let t = b64_value(g[0]) * 262144 + b64_value(g[1]) * 4096 + b64_value(g[2]) * 64 + b64_value(g[3]);
    let bytes = seq![(t / 65536) as u8, ((t / 256) % 256) as u8, (t % 256) as u8];
    if g[2] == '=' {
        bytes.take(1)
    } else if g[3] == '=' {
        bytes.take(2)
    } else {
        bytes
    }
}

/// Standard base64 decoding of a text made of whole groups of four characters.
pub open spec fn base64_decode(s: Seq<char>) -> Seq<u8>
    decreases s.len(),
{
    if s.len() < 4 {
        Seq::empty()
    } else {
        decode_group(s.take(4)) + base64_decode(s.skip(4))
    }
}

/// Each digit is a base64 digit, not padding, and decodes to its value.
proof fn lemma_digit(v: int)
    requires
        0 <= v < 64,
    ensures
        is_b64_digit(b64_digit(v)),
        b64_digit(v) != '=',
        b64_value(b64_digit(v)) == v,
{
}

/// The four sextets of a 24-bit value put back together give the value.
proof fn lemma_sextets(t: u32)
    by (bit_vector)
    requires
        t < 0x1000000,
    ensures
        ((t / 262144) % 64) * 262144 + ((t / 4096) % 64) * 4096 + ((t / 64) % 64) * 64 + t % 64 == t,
{
}

/// The bytes of a 24-bit value, and the sextets that are zero when the last bytes are.
proof fn lemma_bytes(b0: u32, b1: u32, b2: u32)
    by (bit_vector)
    requires
        b0 < 256,
        b1 < 256,
        b2 < 256,
    ensures
        (b0 * 65536 + b1 * 256 + b2) / 65536 == b0,
        ((b0 * 65536 + b1 * 256 + b2) / 256) % 256 == b1,
        (b0 * 65536 + b1 * 256 + b2) % 256 == b2,
        b1 == 0 && b2 == 0 ==> ((b0 * 65536 + b1 * 256 + b2) / 64) % 64 == 0,
        b2 == 0 ==> (b0 * 65536 + b1 * 256 + b2) % 64 == 0,
{
}

/// A group of one to three bytes decodes back to itself.
proof fn lemma_group_round_trip(d: Seq<u8>)
    requires
        1 <= d.len() <= 3,
    ensures
        decode_group(b64_group(d)) == d,
        forall|i: int| 0 <= i < 4 ==> is_b64_digit(#[trigger] b64_group(d)[i]) || (b64_group(d)[i] == '=' && i >= 2),
{
    let b0: u32 = d[0] as u32;
    let b1: u32 = if d.len() > 1 { d[1] as u32 } else { 0 };
    let b2: u32 = if d.len() > 2 { d[2] as u32 } else { 0 };
    let t = triple(d);
    assert(t == b0 * 65536 + b1 * 256 + b2);
    lemma_bytes(b0, b1, b2);
    let tu: u32 = (b0 * 65536 + b1 * 256 + b2) as u32;
    lemma_sextets(tu);
    let g = b64_group(d);
    lemma_digit(sextet(t, 0));
    lemma_digit(sextet(t, 1));
    lemma_digit(sextet(t, 2));
    lemma_digit(sextet(t, 3));
    let t2 = b64_value(g[0]) * 262144 + b64_value(g[1]) * 4096 + b64_value(g[2]) * 64 + b64_value(g[3]);
    assert(t2 == t);
    assert(decode_group(g) =~= d);
}

/// Every character of a base64 text is a base64 digit, except '=' padding in the last two
/// places.
pub proof fn law_base64_alphabet(data: Seq<u8>)
    ensures
        forall|i: int|
            0 <= i < base64(data).len() ==> is_b64_digit(#[trigger] base64(data)[i])
                || (base64(data)[i] == '=' && i >= base64(data).len() - 2),
    decreases data.len(),
{
    if data.len() == 0 {
    } else if data.len() <= 3 {
        lemma_group_round_trip(data);
    } else {
        lemma_group_round_trip(data.take(3));
        law_base64_alphabet(data.skip(3));
        law_base64_length(data.skip(3));
        let g = b64_group(data.take(3));
        let rest = base64(data.skip(3));
        assert forall|i: int| 0 <= i < base64(data).len() implies is_b64_digit(#[trigger] base64(data)[i])
            || (base64(data)[i] == '=' && i >= base64(data).len() - 2) by {
            if i < 4 {
                assert(base64(data)[i] == g[i]);
                assert(is_b64_digit(g[i]));
            } else {
                assert(base64(data)[i] == rest[i - 4]);
            }
        }
    }
}

/// Decoding a base64 text gives back the bytes it was made from.
pub proof fn law_base64_round_trip(data: Seq<u8>)
    ensures
        base64_decode(base64(data)) == data,
    decreases data.len(),
{
    if data.len() == 0 {
    } else if data.len() <= 3 {
        lemma_group_round_trip(data);
        let g = base64(data);
        assert(g == b64_group(data));
        assert(g.len() == 4);
        assert(g.take(4) =~= g);
        assert(g.skip(4) =~= Seq::<char>::empty());
        assert(base64_decode(g.skip(4)) == Seq::<u8>::empty());
        assert(base64_decode(g) == decode_group(g) + Seq::<u8>::empty());
        assert(decode_group(g) + Seq::<u8>::empty() =~= data);
    } else {
        let head = data.take(3);
        let tail = data.skip(3);
        lemma_group_round_trip(head);
        law_base64_round_trip(tail);
        let g = b64_group(head);
        let r = base64(tail);
        let s = base64(data);
        assert(s == g + r);
        assert(s.len() >= 4);
        assert(s.take(4) =~= g);
        assert(s.skip(4) =~= r);
        assert(base64_decode(s) == decode_group(g) + base64_decode(r));
        assert(data =~= head + tail);
    }
}

/// A data URL: "data:", the MIME type, ";base64," and the base64 of the bytes.
pub open spec fn data_url(mime: Seq<char>, data: Seq<u8>) -> Seq<char> {
    "data:"@ + mime + ";base64,"@ + base64(data)
}

/// The data URL of some bytes with a MIME type.
pub fn data_url_of(mime: &str, data: &[u8]) -> (r: String)
    ensures
        r@ == data_url(mime@, data@),
{
    let encoded = base64_encode(data);
    let mut out: Vec<char> = Vec::new();
    append_str(&mut out, "data:");
    append_str(&mut out, mime);
    append_str(&mut out, ";base64,");
    append_str(&mut out, encoded.as_str());
    assert(out@ =~= data_url(mime@, data@));
    string_from_chars(&out)
}

} // verus!
