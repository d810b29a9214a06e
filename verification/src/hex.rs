//! Lowercase hexadecimal rendering of chunk sizes, with the facts a
//! chunked-transfer decoder needs: every rendered byte is a hex digit and
//! parsing the rendering gives the size back.

use vstd::prelude::*;
use vstd::arithmetic::div_mod::lemma_fundamental_div_mod;

verus! {

/// The lowercase hex digit for a value below 16.
pub open spec fn hex_digit(d: nat) -> u8
    recommends
        d < 16,
{
    if d < 10 {
        (48 + d) as u8
    } else {
        (87 + d) as u8
    }
}

/// The shortest lowercase hex rendering of `n` (a single `0` for zero).
pub open spec fn spec_hex(n: nat) -> Seq<u8>
    decreases n,
{
    if n < 16 {
        seq![hex_digit(n)]
    } else {
        spec_hex(n / 16) + seq![hex_digit(n % 16)]
    }
}

/// Whether `b` is an ASCII hex digit (digits, lowercase and uppercase letters).
pub open spec fn is_hex_digit(b: u8) -> bool {
    (48 <= b <= 57) || (97 <= b <= 102) || (65 <= b <= 70)
}

/// The value of an ASCII hex digit.
pub open spec fn hex_val(b: u8) -> nat
    recommends
        is_hex_digit(b),
{
    if 48 <= b <= 57 {
        (b - 48) as nat
    } else if 97 <= b <= 102 {
        (b - 87) as nat
    } else {
        (b - 55) as nat
    }
}

/// The value of a big-endian sequence of hex digits.
pub open spec fn parse_hex(s: Seq<u8>) -> nat
    decreases s.len(),
{
    if s.len() == 0 {
        0
    } else {
        parse_hex(s.drop_last()) * 16 + hex_val(s.last())
    }
}

/// Every byte of `spec_hex(n)` is a hex digit.
pub proof fn lemma_spec_hex_digits(n: nat)
    ensures
        forall|i: int| 0 <= i < spec_hex(n).len() ==> is_hex_digit(#[trigger] spec_hex(n)[i]),
    decreases n,
{
    if n < 16 {
        assert(spec_hex(n) =~= seq![hex_digit(n)]);
        assert(is_hex_digit(hex_digit(n)));
    } else {
        lemma_spec_hex_digits(n / 16);
        let pre = spec_hex(n / 16);
        let s = spec_hex(n);
        assert(s =~= pre + seq![hex_digit(n % 16)]);
        assert forall|i: int| 0 <= i < s.len() implies is_hex_digit(#[trigger] s[i]) by {
            if i < pre.len() {
                assert(s[i] == pre[i]);
            } else {
                assert(s[i] == hex_digit(n % 16));
                assert(is_hex_digit(hex_digit(n % 16)));
            }
        }
    }
}

/// Parsing the hex rendering of `n` yields `n` again.
pub proof fn lemma_parse_spec_hex(n: nat)
    ensures
        parse_hex(spec_hex(n)) == n,
    decreases n,
{
    if n < 16 {
        let s = spec_hex(n);
        assert(s.drop_last() =~= Seq::<u8>::empty());
        assert(parse_hex(Seq::<u8>::empty()) == 0);
        assert(s.last() == hex_digit(n));
        assert(parse_hex(s) == hex_val(hex_digit(n)));
    } else {
        lemma_parse_spec_hex(n / 16);
        let s = spec_hex(n);
        assert(s.drop_last() =~= spec_hex(n / 16));
        assert(s.last() == hex_digit(n % 16));
        assert(hex_val(hex_digit(n % 16)) == n % 16);
        lemma_fundamental_div_mod(n as int, 16);
    }
}

/// The number of leading hex-digit bytes of `s`: what a chunked-transfer
/// decoder reads as the size field.
pub open spec fn hex_prefix_len(s: Seq<u8>) -> nat
    decreases s.len(),
{
    if s.len() == 0 || !is_hex_digit(s[0]) {
        0
    } else {
        1 + hex_prefix_len(s.drop_first())
    }
}

/// When every byte of `a` is a hex digit and `b` starts with a non-digit,
/// the hex-digit prefix of `a + b` is exactly `a`.
pub proof fn lemma_hex_prefix_len_of_concat(a: Seq<u8>, b: Seq<u8>)
    requires
        forall|i: int| 0 <= i < a.len() ==> is_hex_digit(#[trigger] a[i]),
        b.len() > 0,
        !is_hex_digit(b[0]),
    ensures
        hex_prefix_len(a + b) == a.len(),
    decreases a.len(),
{
    if a.len() == 0 {
        assert(a + b =~= b);
    } else {
        assert((a + b)[0] == a[0]);
        lemma_hex_prefix_len_of_concat(a.drop_first(), b);
        assert((a + b).drop_first() =~= a.drop_first() + b);
    }
}

/// The exec counterpart of `hex_digit`.
pub fn hex_digit_exec(d: usize) -> (r: u8)
    requires
        d < 16,
    ensures
        r == hex_digit(d as nat),
{
    if d < 10 {
        (48 + d) as u8
    } else {
        (87 + d) as u8
    }
}

/// Renders `n` in shortest lowercase hex.
pub fn to_hex(n: usize) -> (r: Vec<u8>)
    ensures
        r@ == spec_hex(n as nat),
    decreases n,
{
    if n < 16 {
        let mut v: Vec<u8> = Vec::new();
        v.push(hex_digit_exec(n));
        assert(v@ =~= spec_hex(n as nat));
        v
    } else {
        let mut v = to_hex(n / 16);
        v.push(hex_digit_exec(n % 16));
        assert(v@ =~= spec_hex(n as nat));
        v
    }
}

} // verus!
