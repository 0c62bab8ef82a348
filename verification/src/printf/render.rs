//! Byte-exact rendering of one parsed directive. The engine's documented
//! departures from ISO C: integer precision is ignored, `%X` with the
//! alternate flag keeps its `0x` prefix lower case, alternate octal uses
//! the `0o` prefix, and only valid UTF-8 may be printed.

use vstd::assert_seqs_equal;
use vstd::prelude::*;

use crate::numfmt::{spec_radix_digits, format_radix_u64};
use crate::printf::types::{Argument, Flags, SignedInt, Specifier, UnsignedInt};

verus! {

/// `n` copies of one byte (none when `n` is negative).
pub open spec fn spec_repeat(b: u8, n: int) -> Seq<u8> {
    if n <= 0 {
        Seq::<u8>::empty()
    } else {
        Seq::new(n as nat, |i: int| b)
    }
}

/// Append `n` copies of one byte.
pub fn push_repeat(out: &mut Vec<u8>, b: u8, n: usize)
    ensures
        final(out)@ == old(out)@ + spec_repeat(b, n as int),
    {
    let mut i: usize = 0;
    while i < n
        invariant
            0 <= i <= n,
            out@ == old(out)@ + spec_repeat(b, i as int),
        decreases n - i,
    {
        out.push(b);
        proof {
            assert_seqs_equal!(out@, old(out)@ + spec_repeat(b, i + 1));
        }
        i = i + 1;
    }
}

/// A body padded with spaces on the left up to width `w` (in bytes here;
/// the string case counts characters separately).
pub open spec fn spec_pad_left(body: Seq<u8>, w: int) -> Seq<u8> {
    spec_repeat(0x20, w - body.len()) + body
}

/// A body padded with spaces on the right up to width `w`.
pub open spec fn spec_pad_right(body: Seq<u8>, w: int) -> Seq<u8> {
    body + spec_repeat(0x20, w - body.len())
}

/// A sign-or-prefix part followed by the digits, zero-padded between them
/// up to total width `w`.
pub open spec fn spec_zero_pad(prefix: Seq<u8>, digits: Seq<u8>, w: int) -> Seq<u8> {
    prefix + spec_repeat(0x30, w - prefix.len() - digits.len()) + digits
}

/// The sign part of a signed number under the given flags.
pub open spec fn spec_sign_part(negative: bool, flags: Flags) -> Seq<u8> {
    if negative {
        seq![0x2du8]
    } else if flags.prepend_plus {
        seq![0x2bu8]
    } else {
        Seq::<u8>::empty()
    }
}

/// A rendered signed decimal: sign, digits, and the flag-driven padding.
/// A space for positives widens the field by one when the body would
/// otherwise fill it.
pub open spec fn spec_render_signed(v: int, flags: Flags, width: int) -> Seq<u8> {
    let digits = spec_radix_digits((if v < 0 { -v } else { v }) as nat, 10, false);
    let sign = spec_sign_part(v < 0, flags);
    let body = sign + digits;
    let spaced = flags.prepend_space && !flags.prepend_plus && v >= 0;
    if flags.left_align {
        if spaced {
            seq![0x20u8] + spec_pad_right(body, width - 1)
        } else {
            spec_pad_right(body, width)
        }
    } else if flags.prepend_zero {
        if spaced {
            let field: int = if body.len() + 1 > width {
                width
            } else {
                width - 1
            };
            seq![0x20u8] + spec_zero_pad(sign, digits, field)
        } else {
            spec_zero_pad(sign, digits, width)
        }
    } else {
        if spaced {
            let w2 = if body.len() + 1 > width {
                body.len() + 1 as int
            } else {
                width
            };
            spec_pad_left(body, w2)
        } else {
            spec_pad_left(body, width)
        }
    }
}

/// The alternate-form prefix of a base: `0x` for hexadecimal in either
/// case, `0o` for octal, nothing for decimal.
pub open spec fn spec_alt_prefix(base: nat) -> Seq<u8> {
    if base == 16 {
        seq![0x30u8, 0x78u8]
    } else if base == 8 {
        seq![0x30u8, 0x6fu8]
    } else {
        Seq::<u8>::empty()
    }
}

/// A rendered unsigned number in a base: alternate prefix when asked,
/// zero or space padding per the flags.
pub open spec fn spec_render_unsigned(v: nat, base: nat, upper: bool, flags: Flags, width: int) -> Seq<
    u8,
> {
    let digits = spec_radix_digits(v, base, upper);
    let prefix = if flags.alternate_form {
        spec_alt_prefix(base)
    } else {
        Seq::<u8>::empty()
    };
    let body = prefix + digits;
    if flags.left_align {
        spec_pad_right(body, width)
    } else if flags.prepend_zero {
        spec_zero_pad(prefix, digits, width)
    } else {
        spec_pad_left(body, width)
    }
}

/// The UTF-8 bytes of a byte value read as a character: Latin-1 bytes
/// above 0x7f take two bytes.
pub open spec fn spec_char_utf8(b: u8) -> Seq<u8> {
    if b < 0x80 {
        seq![b]
    } else {
        seq![(0xc0u8 | (b >> 6)) as u8, (0x80u8 | (b & 0x3f)) as u8]
    }
}

/// A rendered `%c`: the character, space-padded to the width.
pub open spec fn spec_render_char(b: u8, flags: Flags, width: int) -> Seq<u8> {
    let body = spec_char_utf8(b);
    if flags.left_align {
        body + spec_repeat(0x20, width - 1)
    } else {
        spec_repeat(0x20, width - 1) + body
    }
}

/// Whether a byte is a UTF-8 continuation byte.
pub open spec fn spec_is_continuation(b: u8) -> bool {
    b & 0xc0 == 0x80
}

/// The number of characters a valid UTF-8 byte string holds: its bytes
/// that start a character.
pub open spec fn spec_char_count(b: Seq<u8>, i: int) -> int
    decreases b.len() - i,
    when 0 <= i
{
    if i >= b.len() {
        0
    } else {
        (if spec_is_continuation(b[i]) {
            0int
        } else {
            1int
        }) + spec_char_count(b, i + 1)
    }
}

/// The byte position after `p` characters: the first character start once
/// `p` of them have passed, or the end.
pub open spec fn spec_cut_at(b: Seq<u8>, i: int, seen: int, p: int) -> int
    decreases b.len() - i,
    when 0 <= i
{
    if i >= b.len() {
        b.len() as int
    } else if !spec_is_continuation(b[i]) && seen == p {
        i
    } else {
        spec_cut_at(
            b,
            i + 1,
            seen + (if spec_is_continuation(b[i]) {
                0int
            } else {
                1int
            }),
            p,
        )
    }
}

/// A rendered string body: the bytes, cut after `precision` characters
/// when a precision is given.
pub open spec fn spec_str_body(b: Seq<u8>, precision: Option<i32>) -> Seq<u8> {
    match precision {
        Some(p) => b.subrange(0, spec_cut_at(b, 0, 0, p as int)),
        None => b,
    }
}

/// A rendered `%s` or literal run: the (possibly cut) bytes, space-padded
/// to the width counted in characters.
pub open spec fn spec_render_str(b: Seq<u8>, flags: Flags, width: int, precision: Option<i32>) -> Seq<
    u8,
> {
    let body = spec_str_body(b, precision);
    let chars = spec_char_count(body, 0);
    if flags.left_align {
        body + spec_repeat(0x20, width - chars)
    } else {
        spec_repeat(0x20, width - chars) + body
    }
}

/// A rendered `%p`: `0x` and the hexadecimal value, space-padded, or
/// zero-padded after the prefix.
pub open spec fn spec_render_pointer(v: u32, flags: Flags, width: int) -> Seq<u8> {
    let digits = spec_radix_digits(v as nat, 16, false);
    let body = seq![0x30u8, 0x78u8] + digits;
    if flags.left_align {
        spec_pad_right(body, width)
    } else if flags.prepend_zero {
        spec_zero_pad(seq![0x30u8, 0x78u8], digits, width)
    } else {
        spec_pad_left(body, width)
    }
}

/// What one directive renders to, or nothing on a rendering error: bytes
/// that are not valid UTF-8, or a directive the engine refuses.
pub open spec fn spec_render_arg(arg: Argument) -> Option<Seq<u8>> {
    match arg.specifier {
        Specifier::Percent => Some(seq![0x25u8]),
        Specifier::Int(v) => Some(spec_render_signed(v.spec_value(), arg.flags, arg.width as int)),
        Specifier::Uint(v) => Some(
            spec_render_unsigned(v.spec_value(), 10, false, arg.flags, arg.width as int),
        ),
        Specifier::Octal(v) => Some(
            spec_render_unsigned(v.spec_value(), 8, false, arg.flags, arg.width as int),
        ),
        Specifier::Hex(v) => Some(
            spec_render_unsigned(v.spec_value(), 16, false, arg.flags, arg.width as int),
        ),
        Specifier::UpperHex(v) => Some(
            spec_render_unsigned(v.spec_value(), 16, true, arg.flags, arg.width as int),
        ),
        Specifier::Char(b) => Some(spec_render_char(b, arg.flags, arg.width as int)),
        Specifier::Bytes(b) => if vstd::utf8::valid_utf8(b@) {
            Some(spec_render_str(b@, arg.flags, arg.width as int, arg.precision))
        } else {
            None
        },
        Specifier::String(b) => if vstd::utf8::valid_utf8(b@) {
            Some(spec_render_str(b@, arg.flags, arg.width as int, arg.precision))
        } else {
            None
        },
        Specifier::Pointer(v) => Some(spec_render_pointer(v, arg.flags, arg.width as int)),
        Specifier::Double { .. } => None,
        Specifier::WriteBytesWritten(_) => None,
    }
}

/// Count the characters of a byte string: the bytes that start one.
fn char_count(b: &[u8]) -> (r: usize)
    requires
        b@.len() <= usize::MAX,
    ensures
        r == spec_char_count(b@, 0),
        r <= b@.len(),
    {
    let mut i: usize = 0;
    let mut n: usize = 0;
    proof {
        lemma_char_count_split(b@, 0);
    }
    while i < b.len()
        invariant
            0 <= i <= b@.len(),
            n <= i,
            n + spec_char_count(b@, i as int) == spec_char_count(b@, 0),
            spec_char_count(b@, i as int) >= 0,
        decreases b@.len() - i,
    {
        let byte = *crate::memory::slice_index_get(b, i);
        proof {
            lemma_char_count_nonneg(b@, i + 1);
        }
        if byte & 0xc0 != 0x80 {
            n = n + 1;
        }
        i = i + 1;
    }
    n
}

/// Character counts are never negative.
pub proof fn lemma_char_count_nonneg(b: Seq<u8>, i: int)
    requires
        0 <= i,
    ensures
        spec_char_count(b, i) >= 0,
    decreases b.len() - i,
{
    if i < b.len() {
        lemma_char_count_nonneg(b, i + 1);
    }
}

/// A character count is at most the byte count, and never negative.
pub proof fn lemma_char_count_split(b: Seq<u8>, i: int)
    requires
        0 <= i <= b.len(),
    ensures
        0 <= spec_char_count(b, i) <= b.len() - i,
    decreases b.len() - i,
{
    if i < b.len() {
        lemma_char_count_split(b, i + 1);
    }
}

/// The cut point lies inside the string.
pub proof fn lemma_cut_at_bounds(b: Seq<u8>, i: int, seen: int, p: int)
    requires
        0 <= i <= b.len(),
    ensures
        i <= spec_cut_at(b, i, seen, p) <= b.len(),
    decreases b.len() - i,
{
    if i < b.len() && !(!spec_is_continuation(b[i]) && seen == p) {
        lemma_cut_at_bounds(
            b,
            i + 1,
            seen + (if spec_is_continuation(b[i]) {
                0int
            } else {
                1int
            }),
            p,
        );
    }
}

/// The byte position after `p` characters.
fn cut_at(b: &[u8], p: i32) -> (r: usize)
    requires
        p >= 0,
    ensures
        r == spec_cut_at(b@, 0, 0, p as int),
        r <= b@.len(),
    {
    let mut i: usize = 0;
    let mut seen: i64 = 0;
    proof {
        lemma_cut_at_bounds(b@, 0, 0, p as int);
    }
    while i < b.len()
        invariant
            p >= 0,
            0 <= i <= b@.len(),
            0 <= seen <= i,
            seen <= p as i64,
            spec_cut_at(b@, i as int, seen as int, p as int) == spec_cut_at(b@, 0, 0, p as int),
            spec_cut_at(b@, 0, 0, p as int) <= b@.len(),
        decreases b@.len() - i,
    {
        let byte = *crate::memory::slice_index_get(b, i);
        if byte & 0xc0 != 0x80 && seen == p as i64 {
            return i;
        }
        if byte & 0xc0 != 0x80 {
            seen = seen + 1;
        }
        i = i + 1;
    }
    b.len()
}

/// Render a signed decimal with its sign, padding and flags.
#[verifier::rlimit(60)]
pub fn render_signed_pub(out: &mut Vec<u8>, v: i64, flags: Flags, width: u32)
    requires
        width <= i32::MAX,
    ensures
        final(out)@ == old(out)@ + spec_render_signed(v as int, flags, width as int),
    {
    let neg = v < 0;
    let mag: u64 = if v < 0 {
        (-(v as i128)) as u64
    } else {
        v as u64
    };
    let digits = format_radix_u64(mag, 10, false);
    let mut body: Vec<u8> = Vec::new();
    if neg {
        body.push(0x2d);
    } else if flags.prepend_plus {
        body.push(0x2b);
    }
    let sign_len = body.len();
    let mut dcopy = digits;
    body.append(&mut dcopy);
    proof {
        assert_seqs_equal!(
            body@,
            spec_sign_part(v < 0, flags)
                + spec_radix_digits((if v < 0 { -(v as int) } else { v as int }) as nat, 10, false)
        );
    }
    let spaced = flags.prepend_space && !flags.prepend_plus && !neg;
    let w = width as usize;
    if flags.left_align {
        if spaced {
            out.push(0x20);
            let target = if w > 0 {
                w - 1
            } else {
                0
            };
            let mut b2 = body;
            let blen = b2.len();
            out.append(&mut b2);
            if target > blen {
                push_repeat(out, 0x20, target - blen);
            }
        } else {
            let mut b2 = body;
            let blen = b2.len();
            out.append(&mut b2);
            if w > blen {
                push_repeat(out, 0x20, w - blen);
            }
        }
    } else if flags.prepend_zero {
        if spaced {
            let field = if body.len() >= w {
                w
            } else {
                w - 1
            };
            out.push(0x20);
            let digits_len = body.len() - sign_len;
            let mut sign_part: Vec<u8> = Vec::new();
            let mut digits_part: Vec<u8> = Vec::new();
            split_at_copy(&body, sign_len, &mut sign_part, &mut digits_part);
            out.append(&mut sign_part);
            if field > sign_len + digits_len {
                push_repeat(out, 0x30, field - sign_len - digits_len);
            }
            out.append(&mut digits_part);
        } else {
            let digits_len = body.len() - sign_len;
            let mut sign_part: Vec<u8> = Vec::new();
            let mut digits_part: Vec<u8> = Vec::new();
            split_at_copy(&body, sign_len, &mut sign_part, &mut digits_part);
            out.append(&mut sign_part);
            if w > sign_len + digits_len {
                push_repeat(out, 0x30, w - sign_len - digits_len);
            }
            out.append(&mut digits_part);
        }
    } else {
        let blen = body.len();
        if spaced && blen >= w {
            out.push(0x20);
        } else if w > blen {
            push_repeat(out, 0x20, w - blen);
        }
        let mut b2 = body;
        out.append(&mut b2);
    }
    proof {
        assert_seqs_equal!(
            out@,
            old(out)@ + spec_render_signed(v as int, flags, width as int)
        );
    }
}

/// Copy `v[..at]` and `v[at..]` into the two given empty vectors.
fn split_at_copy(v: &Vec<u8>, at: usize, front: &mut Vec<u8>, back: &mut Vec<u8>)
    requires
        at <= v@.len(),
        old(front)@.len() == 0,
        old(back)@.len() == 0,
    ensures
        final(front)@ == v@.subrange(0, at as int),
        final(back)@ == v@.subrange(at as int, v@.len() as int),
    {
    let mut i: usize = 0;
    while i < at
        invariant
            0 <= i <= at <= v@.len(),
            front@ == v@.subrange(0, i as int),
            back@.len() == 0,
        decreases at - i,
    {
        front.push(v[i]);
        proof {
            assert_seqs_equal!(front@, v@.subrange(0, i + 1));
        }
        i = i + 1;
    }
    let mut j: usize = at;
    while j < v.len()
        invariant
            at <= j <= v@.len(),
            front@ == v@.subrange(0, at as int),
            back@ == v@.subrange(at as int, j as int),
        decreases v@.len() - j,
    {
        back.push(v[j]);
        proof {
            assert_seqs_equal!(back@, v@.subrange(at as int, j + 1));
        }
        j = j + 1;
    }
}

/// Render an unsigned number in a base with the alternate-form prefix and
/// padding the flags ask for.
#[verifier::rlimit(60)]
pub fn render_unsigned_pub(out: &mut Vec<u8>, v: u64, base: u64, upper: bool, flags: Flags, width: u32)
    requires
        base == 8 || base == 10 || base == 16,
        width <= i32::MAX,
    ensures
        final(out)@ == old(out)@ + spec_render_unsigned(
            v as nat,
            base as nat,
            upper,
            flags,
            width as int,
        ),
    {
    let digits = format_radix_u64(v, base, upper);
    let mut prefix: Vec<u8> = Vec::new();
    if flags.alternate_form {
        if base == 16 {
            prefix.push(0x30);
            prefix.push(0x78);
        } else if base == 8 {
            prefix.push(0x30);
            prefix.push(0x6f);
        }
    }
    proof {
        assert_seqs_equal!(
            prefix@,
            if flags.alternate_form { spec_alt_prefix(base as nat) } else { Seq::<u8>::empty() }
        );
    }
    let w = width as usize;
    let plen = prefix.len();
    let dlen = digits.len();
    if flags.left_align {
        let mut p2 = prefix;
        let mut d2 = digits;
        out.append(&mut p2);
        out.append(&mut d2);
        if w > plen && w - plen > dlen {
            push_repeat(out, 0x20, w - plen - dlen);
        }
    } else if flags.prepend_zero {
        let mut p2 = prefix;
        let mut d2 = digits;
        out.append(&mut p2);
        if w > plen && w - plen > dlen {
            push_repeat(out, 0x30, w - plen - dlen);
        }
        out.append(&mut d2);
    } else {
        if w > plen && w - plen > dlen {
            push_repeat(out, 0x20, w - plen - dlen);
        }
        let mut p2 = prefix;
        let mut d2 = digits;
        out.append(&mut p2);
        out.append(&mut d2);
    }
    proof {
        assert_seqs_equal!(
            out@,
            old(out)@ + spec_render_unsigned(v as nat, base as nat, upper, flags, width as int)
        );
    }
}

/// Render one directive, appending its bytes; `false` reports a rendering
/// error and leaves the output unchanged.
pub fn render_argument(out: &mut Vec<u8>, arg: &Argument) -> (r: bool)
    requires
        arg.width >= 0,
        (arg.precision matches Some(p) ==> p >= 0),
    ensures
        match spec_render_arg(*arg) {
            Some(bytes) => r && final(out)@ == old(out)@ + bytes,
            None => !r && final(out)@ == old(out)@,
        },
    {
    match &arg.specifier {
        Specifier::Percent => {
            out.push(0x25);
            proof {
                assert_seqs_equal!(out@, old(out)@ + seq![0x25u8]);
            }
            true
        },
        Specifier::Int(v) => {
            render_signed_pub(out, v.to_i64(), arg.flags, arg.width as u32);
            true
        },
        Specifier::Uint(v) => {
            render_unsigned_pub(out, v.to_u64(), 10, false, arg.flags, arg.width as u32);
            true
        },
        Specifier::Octal(v) => {
            render_unsigned_pub(out, v.to_u64(), 8, false, arg.flags, arg.width as u32);
            true
        },
        Specifier::Hex(v) => {
            render_unsigned_pub(out, v.to_u64(), 16, false, arg.flags, arg.width as u32);
            true
        },
        Specifier::UpperHex(v) => {
            render_unsigned_pub(out, v.to_u64(), 16, true, arg.flags, arg.width as u32);
            true
        },
        Specifier::Char(b) => {
            let c = *b;
            let width = arg.width as usize;
            if arg.flags.left_align {
                if c < 0x80 {
                    out.push(c);
                } else {
                    out.push(0xc0 | (c >> 6));
                    out.push(0x80 | (c & 0x3f));
                }
                if width > 1 {
                    push_repeat(out, 0x20, width - 1);
                }
            } else {
                if width > 1 {
                    push_repeat(out, 0x20, width - 1);
                }
                if c < 0x80 {
                    out.push(c);
                } else {
                    out.push(0xc0 | (c >> 6));
                    out.push(0x80 | (c & 0x3f));
                }
            }
            proof {
                assert_seqs_equal!(
                    out@,
                    old(out)@ + spec_render_char(c, arg.flags, arg.width as int)
                );
            }
            true
        },
        Specifier::Bytes(b) => render_str_body(out, b, arg.flags, arg.width, arg.precision),
        Specifier::String(b) => render_str_body(out, b, arg.flags, arg.width, arg.precision),
        Specifier::Pointer(v) => {
            let digits = format_radix_u64(*v as u64, 16, false);
            let dlen = digits.len();
            let w = arg.width as usize;
            if arg.flags.left_align {
                out.push(0x30);
                out.push(0x78);
                let mut d2 = digits;
                out.append(&mut d2);
                if w > 2 && w - 2 > dlen {
                    push_repeat(out, 0x20, w - dlen - 2);
                }
            } else if arg.flags.prepend_zero {
                out.push(0x30);
                out.push(0x78);
                if w > 2 && w - 2 > dlen {
                    push_repeat(out, 0x30, w - dlen - 2);
                }
                let mut d2 = digits;
                out.append(&mut d2);
            } else {
                if w > 2 && w - 2 > dlen {
                    push_repeat(out, 0x20, w - dlen - 2);
                }
                out.push(0x30);
                out.push(0x78);
                let mut d2 = digits;
                out.append(&mut d2);
            }
            proof {
                assert_seqs_equal!(
                    out@,
                    old(out)@ + spec_render_pointer(*v, arg.flags, arg.width as int)
                );
            }
            true
        },
        Specifier::Double { .. } => false,
        Specifier::WriteBytesWritten(_) => false,
    }
}

/// Render a string body: check it is UTF-8, cut it at the precision, pad
/// it to the width in characters.
fn render_str_body(out: &mut Vec<u8>, b: &Vec<u8>, flags: Flags, width: i32, precision: Option<
    i32,
>) -> (r: bool)
    requires
        width >= 0,
        (precision matches Some(p) ==> p >= 0),
    ensures
        vstd::utf8::valid_utf8(b@) ==> r && final(out)@ == old(out)@ + spec_render_str(
            b@,
            flags,
            width as int,
            precision,
        ),
        !vstd::utf8::valid_utf8(b@) ==> !r && final(out)@ == old(out)@,
    {
    if crate::numfmt::utf8_to_string(b.as_slice()).is_none() {
        return false;
    }
    let cut = match precision {
        Some(p) => cut_at(b.as_slice(), p),
        None => b.len(),
    };
    proof {
        if precision is None {
            assert_seqs_equal!(b@.subrange(0, b@.len() as int), b@);
        }
    }
    let body = vstd::slice::slice_subrange(b.as_slice(), 0, cut);
    let chars = char_count(body);
    let w = width as usize;
    if flags.left_align {
        let mut b2 = crate::memory::slice_to_vec(body);
        out.append(&mut b2);
        if w > chars {
            push_repeat(out, 0x20, w - chars);
        }
    } else {
        if w > chars {
            push_repeat(out, 0x20, w - chars);
        }
        let mut b2 = crate::memory::slice_to_vec(body);
        out.append(&mut b2);
    }
    proof {
        let bodyspec = spec_str_body(b@, precision);
        assert(body@ == bodyspec);
        assert_seqs_equal!(
            out@,
            old(out)@ + spec_render_str(b@, flags, width as int, precision)
        );
    }
    true
}

} // verus!
