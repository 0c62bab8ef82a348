//! Rendering integers as ASCII digit strings in decimal, octal and
//! hexadecimal, and small helpers for building ASCII text.

use vstd::assert_seqs_equal;
use vstd::prelude::*;

verus! {

/// The ASCII byte of a single digit: `0`-`9`, then `a`-`f` or `A`-`F`.
pub open spec fn spec_digit_byte(d: nat, upper: bool) -> u8
    recommends
        d < 16,
{
    if d < 10 {
        (0x30 + d) as u8
    } else if upper {
        (0x37 + d) as u8
    } else {
        (0x57 + d) as u8
    }
}

/// The ASCII digits of `n` in the given base, most significant first,
/// without any sign or prefix; zero is the single digit `0`.
pub open spec fn spec_radix_digits(n: nat, base: nat, upper: bool) -> Seq<u8>
    recommends
        2 <= base <= 16,
    decreases n,
    when base >= 2
    via spec_radix_digits_decreases
{
    if n < base {
        seq![spec_digit_byte(n, upper)]
    } else {
        spec_radix_digits(n / base, base, upper).push(spec_digit_byte(n % base, upper))
    }
}

#[via_fn]
proof fn spec_radix_digits_decreases(n: nat, base: nat, upper: bool) {
    if n >= base {
        assert(n / base < n) by (nonlinear_arith)
            requires
                n >= base >= 2,
        ;
    }
}

/// The decimal digits of `n`.
pub open spec fn spec_dec_digits(n: nat) -> Seq<u8> {
    spec_radix_digits(n, 10, false)
}

/// The decimal text of a signed value: a `-` before the digits of its
/// magnitude when it is negative.
pub open spec fn spec_signed_dec_digits(v: int) -> Seq<u8> {
    if v < 0 {
        seq![0x2du8] + spec_dec_digits((-v) as nat)
    } else {
        spec_dec_digits(v as nat)
    }
}

/// Every digit byte is printable ASCII: at least `0` and below 0x7f.
pub proof fn lemma_radix_digits_ascii(n: nat, base: nat, upper: bool)
    requires
        2 <= base <= 16,
    ensures
        forall|i: int|
            0 <= i < spec_radix_digits(n, base, upper).len() ==> 0x30
                <= #[trigger] spec_radix_digits(n, base, upper)[i] < 0x7f,
    decreases n,
{
    if n >= base {
        assert(n / base < n) by (nonlinear_arith)
            requires
                n >= base >= 2,
        ;
        lemma_radix_digits_ascii(n / base, base, upper);
        assert(spec_radix_digits(n, base, upper) == spec_radix_digits(n / base, base, upper).push(
            spec_digit_byte(n % base, upper),
        ));
    }
}

/// The exec counterpart of [`spec_digit_byte`].
pub fn digit_byte(d: u64, upper: bool) -> (r: u8)
    requires
        d < 16,
    ensures
        r == spec_digit_byte(d as nat, upper),
{
    if d < 10 {
        (0x30 + d) as u8
    } else if upper {
        (0x37 + d) as u8
    } else {
        (0x57 + d) as u8
    }
}

/// Render `n` in the given base, most significant digit first.
pub fn format_radix_u64(n: u64, base: u64, upper: bool) -> (r: Vec<u8>)
    requires
        2 <= base <= 16,
    ensures
        r@ == spec_radix_digits(n as nat, base as nat, upper),
    decreases n,
{
    let d = n % base;
    if n < base {
        let mut v: Vec<u8> = Vec::new();
        v.push(digit_byte(n, upper));
        proof {
            assert_seqs_equal!(v@, spec_radix_digits(n as nat, base as nat, upper));
        }
        v
    } else {
        let q = n / base;
        proof {
            assert(q < n) by (nonlinear_arith)
                requires
                    n >= base >= 2,
                    q == n / base,
            ;
            assert(d < base) by (nonlinear_arith)
                requires
                    base >= 2,
                    d == n % base,
            ;
        }
        let mut v = format_radix_u64(q, base, upper);
        v.push(digit_byte(d, upper));
        v
    }
}

/// Render `n` in decimal.
pub fn format_dec_u64(n: u64) -> (r: Vec<u8>)
    ensures
        r@ == spec_dec_digits(n as nat),
{
    format_radix_u64(n, 10, false)
}

/// Render a signed value in decimal, `-` first when it is negative.
pub fn format_dec_i64(v: i64) -> (r: Vec<u8>)
    ensures
        r@ == spec_signed_dec_digits(v as int),
{
    if v < 0 {
        let mag: u64 = (-(v as i128)) as u64;
        let mut out: Vec<u8> = Vec::new();
        out.push(0x2d);
        let mut digits = format_dec_u64(mag);
        out.append(&mut digits);
        proof {
            assert_seqs_equal!(out@, spec_signed_dec_digits(v as int));
        }
        out
    } else {
        format_dec_u64(v as u64)
    }
}

/// The characters that a sequence of ASCII bytes reads as.
pub open spec fn ascii_chars(b: Seq<u8>) -> Seq<char> {
    b.map_values(|x: u8| x as char)
}

/// Relies on `String::from_utf8_lossy`: bytes that are valid UTF-8 decode
/// unchanged, and ASCII bytes each decode to their own character.
#[verifier::external_body]
pub fn ascii_to_string(bytes: &[u8]) -> (r: String)
    requires
        forall|i: int| 0 <= i < bytes@.len() ==> bytes@[i] < 128,
    ensures
        r@ == ascii_chars(bytes@),
{
    String::from_utf8_lossy(bytes).into_owned()
}

/// Relies on `String::from_utf8`: it succeeds exactly on valid UTF-8 and
/// decodes the bytes to their characters.
#[verifier::external_body]
pub fn utf8_to_string(bytes: &[u8]) -> (r: Option<String>)
    ensures
        (r is Some) == vstd::utf8::valid_utf8(bytes@),
        r matches Some(s) ==> s@ == vstd::utf8::decode_utf8(bytes@),
{
    String::from_utf8(bytes.to_vec()).ok()
}

/// The two zero-padded decimal digits of a value below one hundred.
pub open spec fn spec_two_dec_digits(s: nat) -> Seq<u8>
    recommends
        s < 100,
{
    seq![spec_digit_byte(s / 10, false), spec_digit_byte(s % 10, false)]
}

/// The `m:ss` text of the header timer: whole minutes, a colon, then the
/// seconds zero-padded to two digits.
pub open spec fn spec_timer_chars(elapsed_secs: u64) -> Seq<char> {
    ascii_chars(
        spec_dec_digits(elapsed_secs as nat / 60) + seq![0x3au8] + spec_two_dec_digits(
            elapsed_secs as nat % 60,
        ),
    )
}

/// Render the header timer text for an elapsed time in seconds.
pub fn timer_string(elapsed_secs: u64) -> (r: String)
    ensures
        r@ == spec_timer_chars(elapsed_secs),
{
    let mins = elapsed_secs / 60;
    let secs = elapsed_secs % 60;
    let mut bytes = format_dec_u64(mins);
    bytes.push(0x3a);
    bytes.push(digit_byte(secs / 10, false));
    bytes.push(digit_byte(secs % 10, false));
    proof {
        lemma_radix_digits_ascii(mins as nat, 10, false);
        assert_seqs_equal!(
            bytes@,
            spec_dec_digits(elapsed_secs as nat / 60) + seq![0x3au8]
                + spec_two_dec_digits(elapsed_secs as nat % 60)
        );
    }
    ascii_to_string(bytes.as_slice())
}

} // verus!
