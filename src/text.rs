//! Byte-level text building: literals, UTF-8 names and decimal numbers.
use vstd::prelude::*;
use vstd::utf8::encode_utf8;

verus! {

/// The UTF-8 bytes of a string literal.
pub open spec fn lit(s: &str) -> Seq<u8> {
    encode_utf8(s@)
}

/// The UTF-8 bytes of an owned string.
pub open spec fn utf8(s: &String) -> Seq<u8> {
    encode_utf8(s@)
}

/// Decimal digits of a natural number, most significant first, no leading zeros.
pub open spec fn digits(n: nat) -> Seq<u8>
    decreases n,
{
    if n < 10 {
        seq![(48 + n) as u8]
    } else {
        digits(n / 10) + seq![(48 + n % 10) as u8]
    }
}

/// Decimal text of an integer: a minus sign before the digits of a negative value.
pub open spec fn decimal(i: int) -> Seq<u8> {
    if i < 0 {
        seq![45u8] + digits((-i) as nat)
    } else {
        digits(i as nat)
    }
}

/// Appends the bytes of `b` to `out`.
pub fn append_bytes(out: &mut Vec<u8>, b: &[u8])
    ensures
        final(out)@ == old(out)@ + b@,
{
    let n = b.len();
    let mut i: usize = 0;
    while i < n
        invariant
            n == b@.len(),
            i <= n,
            out@ == old(out)@ + b@.subrange(0, i as int),
        decreases n - i,
    {
        out.push(b[i]);
        i = i + 1;
        assert(out@ =~= old(out)@ + b@.subrange(0, i as int));
    }
    assert(b@.subrange(0, n as int) =~= b@);
}

/// Appends the UTF-8 bytes of a string literal to `out`.
pub fn append_str(out: &mut Vec<u8>, s: &str)
    ensures
        final(out)@ == old(out)@ + lit(s),
{
    append_bytes(out, s.as_bytes());
}

/// Appends the UTF-8 bytes of `s` to `out`.
pub fn append_string(out: &mut Vec<u8>, s: &String)
    ensures
        final(out)@ == old(out)@ + utf8(s),
{
    append_bytes(out, s.as_str().as_bytes());
}

/// Appends the decimal digits of `n` to `out`.
pub fn append_digits(out: &mut Vec<u8>, n: u64)
    ensures
        final(out)@ == old(out)@ + digits(n as nat),
    decreases n,
{
    if n >= 10 {
        append_digits(out, n / 10);
    }
    out.push((48 + n % 10) as u8);
    assert(out@ =~= old(out)@ + digits(n as nat));
}

/// Appends the decimal text of `i` to `out`.
pub fn append_decimal(out: &mut Vec<u8>, i: i64)
    ensures
        final(out)@ == old(out)@ + decimal(i as int),
{
    if i < 0 {
        out.push(45u8);
        let m: u64 = (0i128 - i as i128) as u64;
        append_digits(out, m);
        assert(out@ =~= old(out)@ + decimal(i as int));
    } else {
        append_digits(out, i as u64);
    }
}

} // verus!
