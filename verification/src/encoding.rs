//! Building blocks for an `application/x-www-form-urlencoded` request body.
//!
//! A body is a sequence of bytes. Text is encoded byte by byte: bytes in
//! `0-9 A-Z a-z * - . _` stand for themselves, a space becomes `+`, and any
//! other byte becomes `%` followed by two uppercase hexadecimal digits.
//! Numbers are written in decimal without sign or padding.

use vstd::prelude::*;
use vstd::string::StringSliceAdditionalSpecFns;

verus! {

/// True for the bytes that form-urlencoding passes through unchanged:
/// ASCII digits, letters, `*`, `-`, `.` and `_`.
pub open spec fn passes_unchanged(b: u8) -> bool {
    b == 42 || b == 45 || b == 46 || b == 95 || (48 <= b && b <= 57) || (65 <= b && b <= 90)
        || (97 <= b && b <= 122)
}

/// The uppercase hexadecimal digit for a value below sixteen.
pub open spec fn hex_digit(n: u8) -> u8
    recommends
        n < 16,
{
    if n < 10 {
        (48 + n) as u8
    } else {
        (55 + n) as u8
    }
}

/// What one byte of input contributes to the encoded body.
pub open spec fn encoded_byte(b: u8) -> Seq<u8> {
    if passes_unchanged(b) {
        seq![b]
    } else if b == 32 {
        seq![43u8]
    } else {
        seq![37u8, hex_digit(b / 16), hex_digit(b % 16)]
    }
}

/// The form-urlencoding of a byte sequence: each byte's contribution, in
/// order.
pub open spec fn form_encoded(s: Seq<u8>) -> Seq<u8>
    decreases s.len(),
{
    if s.len() == 0 {
        Seq::empty()
    } else {
        encoded_byte(s[0]) + form_encoded(s.drop_first())
    }
}

/// The decimal digits of `n`, most significant first, no sign, no padding.
pub open spec fn decimal(n: nat) -> Seq<u8>
    decreases n,
{
    if n < 10 {
        seq![(48 + n) as u8]
    } else {
        decimal(n / 10).push((48 + n % 10) as u8)
    }
}

/// Encoding distributes over extending the input by one byte at the end.
proof fn lemma_form_encoded_push(s: Seq<u8>, b: u8)
    ensures
        form_encoded(s.push(b)) == form_encoded(s) + encoded_byte(b),
    decreases s.len(),
{
    if s.len() == 0 {
        assert(s.push(b)[0] == b);
        assert(s.push(b).drop_first() =~= Seq::<u8>::empty());
        assert(form_encoded(s.push(b)) == encoded_byte(b) + form_encoded(Seq::<u8>::empty()));
        assert(encoded_byte(b) + Seq::<u8>::empty() =~= Seq::<u8>::empty() + encoded_byte(b));
        assert(form_encoded(s.push(b)) =~= form_encoded(s) + encoded_byte(b));
    } else {
        assert(s.push(b).drop_first() =~= s.drop_first().push(b));
        lemma_form_encoded_push(s.drop_first(), b);
        assert(form_encoded(s.push(b)) =~= form_encoded(s) + encoded_byte(b));
    }
}

/// Appends the form-urlencoding of `s` to `out`.
pub fn append_form_encoded(out: &mut Vec<u8>, s: &[u8])
    ensures
        final(out)@ == old(out)@ + form_encoded(s@),
{
    let ghost base = out@;
    let mut i: usize = 0;
    while i < s.len()
        invariant
            i <= s@.len(),
            out@ == base + form_encoded(s@.take(i as int)),
        decreases s@.len() - i,
    {
        let b = s[i];
        proof {
            assert(s@.take(i as int).push(b) =~= s@.take(i + 1));
            lemma_form_encoded_push(s@.take(i as int), b);
        }
        if b == 42 || b == 45 || b == 46 || b == 95 || (48 <= b && b <= 57)
            || (65 <= b && b <= 90) || (97 <= b && b <= 122) {
            out.push(b);
        } else if b == 32 {
            out.push(43);
        } else {
            let hi = b / 16;
            let lo = b % 16;
            out.push(37);
            out.push(if hi < 10 { 48 + hi } else { 55 + hi });
            out.push(if lo < 10 { 48 + lo } else { 55 + lo });
        }
        assert(out@ =~= base + form_encoded(s@.take(i + 1)));
        i = i + 1;
    }
    assert(s@.take(s@.len() as int) =~= s@);
}

/// Appends the decimal digits of `n` to `out`.
pub fn append_decimal(out: &mut Vec<u8>, n: u64)
    ensures
        final(out)@ == old(out)@ + decimal(n as nat),
    decreases n,
{
    if n < 10 {
        out.push(48 + n as u8);
        assert(final(out)@ =~= old(out)@ + decimal(n as nat));
    } else {
        assert(n / 10 < n) by (nonlinear_arith)
            requires
                n >= 10,
        ;
        append_decimal(out, n / 10);
        out.push(48 + (n % 10) as u8);
        assert((n as nat) / 10 == (n / 10) as nat);
        assert(final(out)@ =~= old(out)@ + decimal(n as nat));
    }
}

/// Appends the raw bytes of `s` to `out`, unencoded.
pub fn append_str_bytes(out: &mut Vec<u8>, s: &str)
    ensures
        final(out)@ == old(out)@ + s.spec_bytes(),
{
    let b = s.as_bytes();
    let ghost base = out@;
    let mut i: usize = 0;
    while i < b.len()
        invariant
            i <= b@.len(),
            b@ == s.spec_bytes(),
            out@ == base + b@.take(i as int),
        decreases b@.len() - i,
    {
        out.push(b[i]);
        assert(out@ =~= base + b@.take(i + 1));
        i = i + 1;
    }
    assert(b@.take(b@.len() as int) =~= b@);
}

} // verus!
