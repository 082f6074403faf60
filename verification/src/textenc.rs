//! Byte-level text building blocks for the wire payloads: decimal rendering
//! of integers, zero padding, and JSON string escaping.

use vstd::prelude::*;

verus! {

/// The ASCII digit character for a value below ten.
pub open spec fn spec_digit(n: nat) -> u8
    recommends
        n < 10,
{
    (('0' as u8) + n) as u8
}

/// The ASCII hexadecimal digit (lower case) for a value below sixteen.
pub open spec fn spec_hex_digit(n: nat) -> u8
    recommends
        n < 16,
{
    if n < 10 {
        (('0' as u8) + n) as u8
    } else {
        ((('a' as u8) - 10) + n) as u8
    }
}

/// The decimal digits of `n`, most significant first, no leading zeros
/// (a single `'0'` for zero).
pub open spec fn spec_dec(n: nat) -> Seq<u8>
    decreases n,
{
    if n < 10 {
        seq![spec_digit(n)]
    } else {
        spec_dec(n / 10).push(spec_digit(n % 10))
    }
}

/// The decimal digits of `n`, zero-padded on the left to at least two places.
pub open spec fn spec_pad2(n: nat) -> Seq<u8> {
    if n < 10 {
        seq![('0' as u8)] + spec_dec(n)
    } else {
        spec_dec(n)
    }
}

/// The decimal digits of `n`, zero-padded on the left to at least four places.
pub open spec fn spec_pad4(n: nat) -> Seq<u8> {
    if n < 10 {
        seq![('0' as u8), ('0' as u8), ('0' as u8)] + spec_dec(n)
    } else if n < 100 {
        seq![('0' as u8), ('0' as u8)] + spec_dec(n)
    } else if n < 1000 {
        seq![('0' as u8)] + spec_dec(n)
    } else {
        spec_dec(n)
    }
}

/// A possibly negative year, zero-padded to at least four places, with a
/// leading minus sign when negative.
pub open spec fn spec_year(y: int) -> Seq<u8> {
    if y < 0 {
        seq![('-' as u8)] + spec_pad4((-y) as nat)
    } else {
        spec_pad4(y as nat)
    }
}

/// The JSON escaping of one byte of string content: quote and backslash get
/// a backslash escape, control bytes a `\u00XX` escape, everything else
/// passes through unchanged.
pub open spec fn spec_escape_byte(b: u8) -> Seq<u8> {
    if b == ('"' as u8) {
        seq![('\\' as u8), ('"' as u8)]
    } else if b == ('\\' as u8) {
        seq![('\\' as u8), ('\\' as u8)]
    } else if b < 0x20 {
        seq![
            ('\\' as u8),
            ('u' as u8),
            ('0' as u8),
            ('0' as u8),
            spec_hex_digit((b / 16) as nat),
            spec_hex_digit((b % 16) as nat),
        ]
    } else {
        seq![b]
    }
}

/// The JSON escaping of a whole byte sequence, byte by byte.
pub open spec fn spec_escape(s: Seq<u8>) -> Seq<u8>
    decreases s.len(),
{
    if s.len() == 0 {
        Seq::empty()
    } else {
        spec_escape(s.drop_last()) + spec_escape_byte(s.last())
    }
}

/// A JSON string literal holding `s`: opening quote, escaped content,
/// closing quote.
pub open spec fn spec_json_string(s: Seq<u8>) -> Seq<u8> {
    seq![('"' as u8)] + spec_escape(s) + seq![('"' as u8)]
}

/// Appends every byte of `s` to `out`.
pub fn push_slice(out: &mut Vec<u8>, s: &[u8])
    ensures
        final(out)@ == old(out)@ + s@,
{
    let n = s.len();
    let mut i: usize = 0;
    while i < n
        invariant
            n == s@.len(),
            i <= n,
            out@ == old(out)@ + s@.take(i as int),
        decreases n - i,
    {
        out.push(s[i]);
        proof {
            assert(s@.take(i + 1) =~= s@.take(i as int).push(s@[i as int]));
            assert(out@ =~= old(out)@ + s@.take(i + 1));
        }
        i = i + 1;
    }
    proof {
        assert(s@.take(n as int) =~= s@);
    }
}

/// Appends the decimal digits of `n` to `out`.
pub fn push_dec(out: &mut Vec<u8>, n: usize)
    ensures
        final(out)@ == old(out)@ + spec_dec(n as nat),
    decreases n,
{
    if n < 10 {
        out.push(('0' as u8) + (n as u8));
        proof {
            assert(out@ =~= old(out)@ + spec_dec(n as nat));
        }
    } else {
        push_dec(out, n / 10);
        out.push(('0' as u8) + ((n % 10) as u8));
        proof {
            assert(out@ =~= old(out)@ + spec_dec(n as nat));
        }
    }
}

/// Appends the decimal digits of `n`, zero-padded to at least two places.
pub fn push_pad2(out: &mut Vec<u8>, n: usize)
    ensures
        final(out)@ == old(out)@ + spec_pad2(n as nat),
{
    if n < 10 {
        out.push('0' as u8);
    }
    push_dec(out, n);
    proof {
        assert(out@ =~= old(out)@ + spec_pad2(n as nat));
    }
}

/// Appends the decimal digits of `n`, zero-padded to at least four places.
pub fn push_pad4(out: &mut Vec<u8>, n: usize)
    ensures
        final(out)@ == old(out)@ + spec_pad4(n as nat),
{
    if n < 10 {
        out.push('0' as u8);
        out.push('0' as u8);
        out.push('0' as u8);
    } else if n < 100 {
        out.push('0' as u8);
        out.push('0' as u8);
    } else if n < 1000 {
        out.push('0' as u8);
    }
    push_dec(out, n);
    proof {
        assert(out@ =~= old(out)@ + spec_pad4(n as nat));
    }
}

/// Appends a year: a minus sign when negative, then at least four digits.
pub fn push_year(out: &mut Vec<u8>, y: i32)
    requires
        -1000000 < y < 1000000,
    ensures
        final(out)@ == old(out)@ + spec_year(y as int),
{
    if y < 0 {
        out.push('-' as u8);
        push_pad4(out, (-y) as usize);
    } else {
        push_pad4(out, y as usize);
    }
    proof {
        assert(out@ =~= old(out)@ + spec_year(y as int));
    }
}

/// The exec counterpart of `spec_hex_digit`.
fn hex_digit(n: u8) -> (r: u8)
    requires
        n < 16,
    ensures
        r == spec_hex_digit(n as nat),
{
    if n < 10 {
        ('0' as u8) + n
    } else {
        (('a' as u8) - 10) + n
    }
}

/// Appends the JSON escaping of every byte of `s` to `out`.
pub fn push_escaped(out: &mut Vec<u8>, s: &[u8])
    ensures
        final(out)@ == old(out)@ + spec_escape(s@),
{
    let n = s.len();
    let mut i: usize = 0;
    while i < n
        invariant
            n == s@.len(),
            i <= n,
            out@ == old(out)@ + spec_escape(s@.take(i as int)),
        decreases n - i,
    {
        let b = s[i];
        if b == ('"' as u8) {
            out.push('\\' as u8);
            out.push('"' as u8);
        } else if b == ('\\' as u8) {
            out.push('\\' as u8);
            out.push('\\' as u8);
        } else if b < 0x20 {
            out.push('\\' as u8);
            out.push('u' as u8);
            out.push('0' as u8);
            out.push('0' as u8);
            out.push(hex_digit(b / 16));
            out.push(hex_digit(b % 16));
        } else {
            out.push(b);
        }
        proof {
            assert(s@.take(i + 1).drop_last() =~= s@.take(i as int));
            assert(s@.take(i + 1).last() == s@[i as int]);
            assert(out@ =~= old(out)@ + spec_escape(s@.take(i + 1)));
        }
        i = i + 1;
    }
    proof {
        assert(s@.take(n as int) =~= s@);
    }
}

/// Appends a complete JSON string literal holding `s` to `out`.
pub fn push_json_string(out: &mut Vec<u8>, s: &[u8])
    ensures
        final(out)@ == old(out)@ + spec_json_string(s@),
{
    out.push('"' as u8);
    push_escaped(out, s);
    out.push('"' as u8);
    proof {
        assert(out@ =~= old(out)@ + spec_json_string(s@));
    }
}

} // verus!
