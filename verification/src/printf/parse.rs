//! Parsing `printf` format strings and fetching their arguments from a
//! guest-memory variadic cursor. The whole engine is specified as one
//! recursive function over the format bytes; the executable code follows
//! it directive by directive.

use vstd::assert_seqs_equal;
use vstd::bytes::spec_u32_from_le_bytes;
use vstd::prelude::*;

use crate::memory::{spec_c_str, WasmVaList};
use crate::printf::render::{
    render_argument, spec_render_char, spec_render_pointer, spec_render_signed, spec_render_str,
    spec_render_unsigned,
};
use crate::printf::types::{Argument, Flags, Specifier};

verus! {

/// The length modifier of a directive, under the guest's 32-bit C ABI.
#[derive(Debug, Clone, Copy, PartialEq, Eq, Structural)]
pub enum Length {
    /// No modifier: a four-byte `int`.
    Bare,
    /// `hh`: a `char`, promoted to four bytes.
    Char,
    /// `h`: a `short`, promoted to four bytes.
    Short,
    /// `l`: the guest's four-byte `long`.
    Long,
    /// `ll`: an eight-byte `long long`.
    LongLong,
    /// `z`: the guest's four-byte `size_t`.
    Size,
    /// `j`: an eight-byte `intmax_t`.
    Max,
    /// `t`: the guest's four-byte `ptrdiff_t`.
    Ptrdiff,
}

/// The percent byte.
pub open spec fn spec_is_pct(b: u8) -> bool {
    b == 0x25
}

/// The end of the literal run starting at `i`: the first `%` at or after
/// it, or the end of the format.
pub open spec fn spec_run_end(fmt: Seq<u8>, i: int) -> int
    decreases fmt.len() - i,
    when 0 <= i
{
    if i >= fmt.len() {
        fmt.len() as int
    } else if spec_is_pct(fmt[i]) {
        i
    } else {
        spec_run_end(fmt, i + 1)
    }
}

/// The run end lies between `i` and the end of the format.
pub proof fn lemma_run_end_bounds(fmt: Seq<u8>, i: int)
    requires
        0 <= i <= fmt.len(),
    ensures
        i <= spec_run_end(fmt, i) <= fmt.len(),
    decreases fmt.len() - i,
{
    if i < fmt.len() && !spec_is_pct(fmt[i]) {
        lemma_run_end_bounds(fmt, i + 1);
    }
}

/// Whether a byte is one of the flag characters.
pub open spec fn spec_is_flag(b: u8) -> bool {
    b == 0x2d || b == 0x2b || b == 0x20 || b == 0x30 || b == 0x27 || b == 0x23
}

/// A flags record extended by one flag character.
pub open spec fn spec_apply_flag(f: Flags, b: u8) -> Flags {
    if b == 0x2d {
        Flags { left_align: true, ..f }
    } else if b == 0x2b {
        Flags { prepend_plus: true, ..f }
    } else if b == 0x20 {
        Flags { prepend_space: true, ..f }
    } else if b == 0x30 {
        Flags { prepend_zero: true, ..f }
    } else if b == 0x27 {
        Flags { thousands_grouping: true, ..f }
    } else {
        Flags { alternate_form: true, ..f }
    }
}

/// The flags read from position `i` on, and the position after them.
pub open spec fn spec_parse_flags(fmt: Seq<u8>, i: int, f: Flags) -> (Flags, int)
    decreases fmt.len() - i,
    when 0 <= i
{
    if i < fmt.len() && spec_is_flag(fmt[i]) {
        spec_parse_flags(fmt, i + 1, spec_apply_flag(f, fmt[i]))
    } else {
        (f, i)
    }
}

/// The flags end position lies between `i` and the end.
pub proof fn lemma_parse_flags_bounds(fmt: Seq<u8>, i: int, f: Flags)
    requires
        0 <= i <= fmt.len(),
    ensures
        i <= spec_parse_flags(fmt, i, f).1 <= fmt.len(),
    decreases fmt.len() - i,
{
    if i < fmt.len() && spec_is_flag(fmt[i]) {
        lemma_parse_flags_bounds(fmt, i + 1, spec_apply_flag(f, fmt[i]));
    }
}

/// Whether a byte is a decimal digit.
pub open spec fn spec_is_digit(b: u8) -> bool {
    0x30 <= b <= 0x39
}

/// The saturation bound of a parsed number: one past the largest value a
/// 32-bit word can carry, so that any overflowing literal is recognised.
pub open spec fn spec_number_cap() -> int {
    0x1_0000_0000
}

/// One accumulation step of a decimal literal, saturating at the cap.
pub open spec fn spec_number_step(acc: int, d: int) -> int {
    if acc * 10 + d > 0xffff_ffff {
        spec_number_cap()
    } else {
        acc * 10 + d
    }
}

/// The decimal literal read from position `i` with accumulator `acc`, and
/// the position after it.
pub open spec fn spec_parse_number(fmt: Seq<u8>, i: int, acc: int) -> (int, int)
    decreases fmt.len() - i,
    when 0 <= i
{
    if i < fmt.len() && spec_is_digit(fmt[i]) {
        spec_parse_number(fmt, i + 1, spec_number_step(acc, fmt[i] - 0x30))
    } else {
        (acc, i)
    }
}

/// The number end position lies between `i` and the end, and a capped
/// accumulator stays capped.
pub proof fn lemma_parse_number_bounds(fmt: Seq<u8>, i: int, acc: int)
    requires
        0 <= i <= fmt.len(),
        0 <= acc <= spec_number_cap(),
    ensures
        i <= spec_parse_number(fmt, i, acc).1 <= fmt.len(),
        0 <= spec_parse_number(fmt, i, acc).0 <= spec_number_cap(),
    decreases fmt.len() - i,
{
    if i < fmt.len() && spec_is_digit(fmt[i]) {
        lemma_parse_number_bounds(fmt, i + 1, spec_number_step(acc, fmt[i] - 0x30));
    }
}

/// The length modifier at position `i` and the position after it.
pub open spec fn spec_parse_length(fmt: Seq<u8>, i: int) -> (Length, int) {
    if i < fmt.len() && fmt[i] == 0x68 {
        if i + 1 < fmt.len() && fmt[i + 1] == 0x68 {
            (Length::Char, i + 2)
        } else {
            (Length::Short, i + 1)
        }
    } else if i < fmt.len() && fmt[i] == 0x6c {
        if i + 1 < fmt.len() && fmt[i + 1] == 0x6c {
            (Length::LongLong, i + 2)
        } else {
            (Length::Long, i + 1)
        }
    } else if i < fmt.len() && fmt[i] == 0x7a {
        (Length::Size, i + 1)
    } else if i < fmt.len() && fmt[i] == 0x6a {
        (Length::Max, i + 1)
    } else if i < fmt.len() && fmt[i] == 0x74 {
        (Length::Ptrdiff, i + 1)
    } else {
        (Length::Bare, i)
    }
}

/// A four-byte little-endian variadic read: the value and the advanced
/// cursor, or nothing when it runs outside memory or the address space.
pub open spec fn spec_va_u32(mem: Seq<u8>, va: int) -> Option<(u32, int)> {
    if 0 <= va && va + 4 <= mem.len() && va + 4 <= u32::MAX {
        Some((spec_u32_from_le_bytes(mem.subrange(va, va + 4)), va + 4))
    } else {
        None
    }
}

/// An eight-byte little-endian variadic read.
pub open spec fn spec_va_u64(mem: Seq<u8>, va: int) -> Option<(u64, int)> {
    if 0 <= va && va + 8 <= mem.len() && va + 8 <= u32::MAX {
        Some((vstd::bytes::spec_u64_from_le_bytes(mem.subrange(va, va + 8)), va + 8))
    } else {
        None
    }
}

/// The numeric value of a signed argument read under a length modifier:
/// how many bytes it takes and what they mean.
pub open spec fn spec_fetch_signed(mem: Seq<u8>, va: int, length: Length) -> Option<(int, int)> {
    match length {
        Length::LongLong | Length::Max => match spec_va_u64(mem, va) {
            Some((x, va2)) => Some(((x as i64) as int, va2)),
            None => None,
        },
        Length::Char => match spec_va_u32(mem, va) {
            Some((x, va2)) => Some((((x as i32) as i8) as int, va2)),
            None => None,
        },
        Length::Short => match spec_va_u32(mem, va) {
            Some((x, va2)) => Some((((x as i32) as i16) as int, va2)),
            None => None,
        },
        _ => match spec_va_u32(mem, va) {
            Some((x, va2)) => Some(((x as i32) as int, va2)),
            None => None,
        },
    }
}

/// The numeric value of an unsigned argument read under a length
/// modifier.
pub open spec fn spec_fetch_unsigned(mem: Seq<u8>, va: int, length: Length) -> Option<(nat, int)> {
    match length {
        Length::LongLong | Length::Max => match spec_va_u64(mem, va) {
            Some((x, va2)) => Some((x as nat, va2)),
            None => None,
        },
        Length::Char => match spec_va_u32(mem, va) {
            Some((x, va2)) => Some(((x as u8) as nat, va2)),
            None => None,
        },
        Length::Short => match spec_va_u32(mem, va) {
            Some((x, va2)) => Some(((x as u16) as nat, va2)),
            None => None,
        },
        _ => match spec_va_u32(mem, va) {
            Some((x, va2)) => Some((x as nat, va2)),
            None => None,
        },
    }
}

/// The width of a directive after the optional `*`: the resolved
/// non-negative width, whether a negative star width forced left
/// alignment, the position after it and the advanced cursor; or nothing
/// when the width cannot be represented.
pub open spec fn spec_parse_width(fmt: Seq<u8>, i: int, mem: Seq<u8>, va: int) -> Option<
    (int, bool, int, int),
> {
    if i < fmt.len() && fmt[i] == 0x2a {
        match spec_va_u32(mem, va) {
            Some((x, va2)) => {
                let w = x as i32;
                if w == i32::MIN {
                    None
                } else if w < 0 {
                    Some((-(w as int), true, i + 1, va2))
                } else {
                    Some((w as int, false, i + 1, va2))
                }
            },
            None => None,
        }
    } else {
        let (n, j) = spec_parse_number(fmt, i, 0);
        if n > i32::MAX {
            None
        } else {
            Some((n, false, j, va))
        }
    }
}

/// The precision of a directive after the optional `.`: the precision if
/// one is given (a negative star precision counts as none), the position
/// after it and the advanced cursor; or nothing when it cannot be
/// represented.
pub open spec fn spec_parse_precision(fmt: Seq<u8>, i: int, mem: Seq<u8>, va: int) -> Option<
    (Option<i32>, int, int),
> {
    if i < fmt.len() && fmt[i] == 0x2e {
        if i + 1 < fmt.len() && fmt[i + 1] == 0x2a {
            match spec_va_u32(mem, va) {
                Some((x, va2)) => {
                    let p = x as i32;
                    if p < 0 {
                        Some((None, i + 2, va2))
                    } else {
                        Some((Some(p), i + 2, va2))
                    }
                },
                None => None,
            }
        } else {
            let (n, j) = spec_parse_number(fmt, i + 1, 0);
            if n > i32::MAX {
                None
            } else {
                Some((Some(n as i32), j, va))
            }
        }
    } else {
        Some((None, i, va))
    }
}

/// What one conversion renders and consumes: the output bytes and the
/// advanced cursor, or nothing on any error. Floating conversions and
/// `%n` are recognised and refused.
pub open spec fn spec_dispatch(
    conv: u8,
    length: Length,
    flags: Flags,
    width: int,
    precision: Option<i32>,
    mem: Seq<u8>,
    va: int,
) -> Option<(Seq<u8>, int)> {
    if conv == 0x25 {  // a literal percent
        Some((seq![0x25u8], va))
    } else if conv == 0x64 || conv == 0x69 {  // signed decimal
        match spec_fetch_signed(mem, va, length) {
            Some((v, va2)) => Some((spec_render_signed(v, flags, width), va2)),
            None => None,
        }
    } else if conv == 0x75 {  // unsigned decimal
        match spec_fetch_unsigned(mem, va, length) {
            Some((v, va2)) => Some((spec_render_unsigned(v, 10, false, flags, width), va2)),
            None => None,
        }
    } else if conv == 0x6f {  // octal
        match spec_fetch_unsigned(mem, va, length) {
            Some((v, va2)) => Some((spec_render_unsigned(v, 8, false, flags, width), va2)),
            None => None,
        }
    } else if conv == 0x78 {  // hex
        match spec_fetch_unsigned(mem, va, length) {
            Some((v, va2)) => Some((spec_render_unsigned(v, 16, false, flags, width), va2)),
            None => None,
        }
    } else if conv == 0x58 {  // upper hex
        match spec_fetch_unsigned(mem, va, length) {
            Some((v, va2)) => Some((spec_render_unsigned(v, 16, true, flags, width), va2)),
            None => None,
        }
    } else if conv == 0x63 {  // character
        match spec_va_u32(mem, va) {
            Some((x, va2)) => Some((spec_render_char(x as u8, flags, width), va2)),
            None => None,
        }
    } else if conv == 0x73 {  // string
        match spec_va_u32(mem, va) {
            Some((p, va2)) => match spec_c_str(mem, p as int) {
                Some(bytes) => if vstd::utf8::valid_utf8(bytes) {
                    Some((spec_render_str(bytes, flags, width, precision), va2))
                } else {
                    None
                },
                None => None,
            },
            None => None,
        }
    } else if conv == 0x70 {  // pointer
        match spec_va_u32(mem, va) {
            Some((x, va2)) => Some((spec_render_pointer(x, flags, width), va2)),
            None => None,
        }
    } else {
        // The floating conversions and `%n` are recognised and refused,
        // as is anything unknown.
        None
    }
}

/// What one directive starting at the `%` at position `i` parses,
/// fetches and renders: the output bytes, the advanced cursor, and the
/// position after the conversion byte; or nothing on any error.
pub open spec fn spec_directive(fmt: Seq<u8>, mem: Seq<u8>, va: int, i: int) -> Option<
    (Seq<u8>, int, int),
> {
    let (flags, j0) = spec_parse_flags(fmt, i + 1, Flags::spec_empty());
    let j0c = spec_clamp_pos(fmt, j0);
    match spec_parse_width(fmt, j0c, mem, va) {
        None => None,
        Some((width, star_left, j1, va1)) => {
            let flags1 = if star_left {
                Flags { left_align: true, ..flags }
            } else {
                flags
            };
            let j1c = spec_clamp_pos(fmt, j1);
            match spec_parse_precision(fmt, j1c, mem, va1) {
                None => None,
                Some((precision, j2, va2)) => {
                    let j2c = spec_clamp_pos(fmt, j2);
                    let (length, j3) = spec_parse_length(fmt, j2c);
                    if j3 >= fmt.len() {
                        None
                    } else {
                        match spec_dispatch(fmt[j3], length, flags1, width, precision, mem, va2) {
                            None => None,
                            Some((bytes, va3)) => Some((bytes, va3, j3 + 1)),
                        }
                    }
                },
            }
        },
    }
}

/// What the format renders from position `i` on: the output bytes, or
/// nothing on any parse, fetch or rendering error.
pub open spec fn spec_format_from(fmt: Seq<u8>, mem: Seq<u8>, va: int, i: int) -> Option<Seq<u8>>
    decreases fmt.len() - i,
    when 0 <= i <= fmt.len()
    via spec_format_from_decreases
{
    if i >= fmt.len() {
        Some(Seq::<u8>::empty())
    } else if !spec_is_pct(fmt[i]) {
        let run = fmt.subrange(i, spec_run_end_clamped(fmt, i));
        if vstd::utf8::valid_utf8(run) {
            match spec_format_from(fmt, mem, va, spec_run_end_clamped(fmt, i)) {
                Some(rest) => Some(run + rest),
                None => None,
            }
        } else {
            None
        }
    } else {
        match spec_directive(fmt, mem, va, i) {
            None => None,
            Some((bytes, va3, ni)) => {
                match spec_format_from(fmt, mem, va3, spec_clamp_pos(fmt, ni)) {
                    Some(rest) => Some(bytes + rest),
                    None => None,
                }
            },
        }
    }
}

/// A position clamped into the format (identity for the positions the
/// parser produces; it keeps the recursion well defined).
pub open spec fn spec_clamp_pos(fmt: Seq<u8>, i: int) -> int {
    if i < 0 {
        0
    } else if i > fmt.len() {
        fmt.len() as int
    } else {
        i
    }
}

/// The run end, clamped (identity: the run end always lies inside).
pub open spec fn spec_run_end_clamped(fmt: Seq<u8>, i: int) -> int {
    spec_clamp_pos(fmt, spec_run_end(fmt, i))
}

/// What a whole format renders with its arguments, or nothing on error.
pub open spec fn spec_format(fmt: Seq<u8>, mem: Seq<u8>, va: int) -> Option<Seq<u8>> {
    spec_format_from(fmt, mem, va, 0)
}

#[via_fn]
proof fn spec_format_from_decreases(fmt: Seq<u8>, mem: Seq<u8>, va: int, i: int) {
    if 0 <= i && i < fmt.len() {
        if !spec_is_pct(fmt[i]) {
            lemma_run_end_bounds(fmt, i + 1);
            assert(spec_run_end(fmt, i) == spec_run_end(fmt, i + 1));
        } else {
            lemma_directive_positions(fmt, mem, va, i);
        }
    }
}

/// Render one directive: parse it, fetch its argument, append its bytes;
/// the returned position follows the conversion byte.
#[verifier::rlimit(100)]
fn exec_directive(fmt: &[u8], mem: &[u8], va: &mut WasmVaList, i: usize, out: &mut Vec<u8>) -> (r:
    (bool, usize))
    requires
        i < fmt@.len(),
        spec_is_pct(fmt@[i as int]),
    ensures
        match spec_directive(fmt@, mem@, old(va).base_ptr as int, i as int) {
            Some((bytes, va2, ni)) => r.0 && final(out)@ == old(out)@ + bytes && final(va).base_ptr == va2 && r.1 == ni && i < ni <= fmt@.len(),
            None => !r.0,
        },
{
    proof {
        lemma_directive_positions(fmt@, mem@, old(va).base_ptr as int, i as int);
    }
    let flen: usize = fmt.len();
    let (mut flags, j0) = parse_flags(fmt, i + 1, Flags::empty());
    let star = j0 < fmt.len() && *crate::memory::slice_index_get(fmt, j0) == 0x2a;
    let mut width: u32 = 0;
    let mut j1: usize = j0;
    if star {
        let x = match va.next_u32(mem) {
            Some(x) => x,
            None => {
                return (false, i);
            },
        };
        let w = x as i32;
        if w == i32::MIN {
            return (false, i);
        }
        if w < 0 {
            flags = Flags { left_align: true, ..flags };
            width = (-w) as u32;
        } else {
            width = w as u32;
        }
        j1 = j0 + 1;
    } else {
        let (n, j) = parse_number(fmt, j0, 0);
        if n > i32::MAX as u64 {
            return (false, i);
        }
        width = n as u32;
        j1 = j;
    }
    let mut precision: Option<i32> = None;
    let mut j2: usize = j1;
    if j1 < fmt.len() && *crate::memory::slice_index_get(fmt, j1) == 0x2e {
        let pstar = j1 + 1 < fmt.len() && *crate::memory::slice_index_get(fmt, j1 + 1) == 0x2a;
        if pstar {
            let x = match va.next_u32(mem) {
                Some(x) => x,
                None => {
                    return (false, i);
                },
            };
            let p = x as i32;
            if p >= 0 {
                precision = Some(p);
            }
            j2 = j1 + 2;
        } else {
            let (n, j) = parse_number(fmt, j1 + 1, 0);
            if n > i32::MAX as u64 {
                return (false, i);
            }
            precision = Some(n as i32);
            j2 = j;
        }
    }
    let (length, j3) = parse_length(fmt, j2);
    if j3 >= fmt.len() {
        return (false, i);
    }
    let conv = *crate::memory::slice_index_get(fmt, j3);
    let ok = render_conversion(fmt, mem, va, out, conv, length, flags, width, precision);
    (ok, j3 + 1)
}

/// Fetch and render one conversion.
#[verifier::rlimit(100)]
fn render_conversion(
    fmt: &[u8],
    mem: &[u8],
    va: &mut WasmVaList,
    out: &mut Vec<u8>,
    conv: u8,
    length: Length,
    flags: Flags,
    width: u32,
    precision: Option<i32>,
) -> (r: bool)
    requires
        width <= i32::MAX,
        (precision matches Some(p) ==> p >= 0),
    ensures
        match spec_dispatch(
            conv,
            length,
            flags,
            width as int,
            precision,
            mem@,
            old(va).base_ptr as int,
        ) {
            Some((bytes, va2)) => r && final(out)@ == old(out)@ + bytes && final(va).base_ptr
                == va2,
            None => !r,
        },
{
    if conv == 0x25 {
        out.push(0x25);
        proof {
            assert_seqs_equal!(out@, old(out)@ + seq![0x25u8]);
        }
        true
    } else if conv == 0x64 || conv == 0x69 {
        match fetch_signed(mem, va, length) {
            Some(v) => {
                crate::printf::render::render_signed_pub(out, v, flags, width);
                true
            },
            None => false,
        }
    } else if conv == 0x75 || conv == 0x6f || conv == 0x78 || conv == 0x58 {
        match fetch_unsigned(mem, va, length) {
            Some(v) => {
                let base: u64 = if conv == 0x75 {
                    10
                } else if conv == 0x6f {
                    8
                } else {
                    16
                };
                crate::printf::render::render_unsigned_pub(out, v, base, conv == 0x58, flags, width);
                true
            },
            None => false,
        }
    } else if conv == 0x63 {
        match va.next_u32(mem) {
            Some(x) => {
                let arg = Argument {
                    flags,
                    width: width as i32,
                    precision,
                    specifier: Specifier::Char(x as u8),
                };
                render_argument(out, &arg)
            },
            None => false,
        }
    } else if conv == 0x73 {
        match va.next_str(mem) {
            Some(bytes) => {
                let arg = Argument {
                    flags,
                    width: width as i32,
                    precision,
                    specifier: Specifier::String(bytes),
                };
                render_argument(out, &arg)
            },
            None => false,
        }
    } else if conv == 0x70 {
        match va.next_u32(mem) {
            Some(x) => {
                let arg = Argument {
                    flags,
                    width: width as i32,
                    precision,
                    specifier: Specifier::Pointer(x),
                };
                render_argument(out, &arg)
            },
            None => false,
        }
    } else {
        false
    }
}

/// The parse positions of a directive move strictly forward: the
/// position after the conversion byte lies past the opening percent and
/// inside the format.
pub proof fn lemma_directive_positions(fmt: Seq<u8>, mem: Seq<u8>, va: int, i: int)
    requires
        0 <= i < fmt.len(),
        spec_is_pct(fmt[i]),
    ensures
        spec_directive(fmt, mem, va, i) matches Some((bytes, va3, ni)) ==> i < ni <= fmt.len(),
{
    lemma_parse_flags_bounds(fmt, i + 1, Flags::spec_empty());
    let (flags, j0) = spec_parse_flags(fmt, i + 1, Flags::spec_empty());
    let j0c = spec_clamp_pos(fmt, j0);
    lemma_parse_number_bounds(fmt, j0c, 0);
    match spec_parse_width(fmt, j0c, mem, va) {
        Some((width, star_left, j1, va1)) => {
            let j1c = spec_clamp_pos(fmt, j1);
            if j1c + 1 <= fmt.len() {
                lemma_parse_number_bounds(fmt, j1c + 1, 0);
            }
        },
        None => {},
    }
}

/// Read the flag characters from position `i` on.
fn parse_flags(fmt: &[u8], i: usize, f: Flags) -> (r: (Flags, usize))
    requires
        i <= fmt@.len(),
    ensures
        (r.0, r.1 as int) == spec_parse_flags(fmt@, i as int, f),
        i <= r.1 <= fmt@.len(),
    decreases fmt@.len() - i,
{
    if i < fmt.len() {
        let b = *crate::memory::slice_index_get(fmt, i);
        if b == 0x2d {
            return parse_flags(fmt, i + 1, Flags { left_align: true, ..f });
        }
        if b == 0x2b {
            return parse_flags(fmt, i + 1, Flags { prepend_plus: true, ..f });
        }
        if b == 0x20 {
            return parse_flags(fmt, i + 1, Flags { prepend_space: true, ..f });
        }
        if b == 0x30 {
            return parse_flags(fmt, i + 1, Flags { prepend_zero: true, ..f });
        }
        if b == 0x27 {
            return parse_flags(fmt, i + 1, Flags { thousands_grouping: true, ..f });
        }
        if b == 0x23 {
            return parse_flags(fmt, i + 1, Flags { alternate_form: true, ..f });
        }
    }
    (f, i)
}

/// Read a decimal literal from position `i` on, saturating at the cap.
fn parse_number(fmt: &[u8], i: usize, acc: u64) -> (r: (u64, usize))
    requires
        i <= fmt@.len(),
        acc <= 0x1_0000_0000,
    ensures
        (r.0 as int, r.1 as int) == spec_parse_number(fmt@, i as int, acc as int),
        i <= r.1 <= fmt@.len(),
        r.0 <= 0x1_0000_0000,
    decreases fmt@.len() - i,
{
    if i < fmt.len() {
        let b = *crate::memory::slice_index_get(fmt, i);
        if 0x30 <= b && b <= 0x39 {
            let d = (b - 0x30) as u64;
            let next = if acc * 10 + d > 0xffff_ffff {
                0x1_0000_0000u64
            } else {
                acc * 10 + d
            };
            return parse_number(fmt, i + 1, next);
        }
    }
    (acc, i)
}

/// Read the length modifier at position `i`.
fn parse_length(fmt: &[u8], i: usize) -> (r: (Length, usize))
    requires
        i <= fmt@.len(),
    ensures
        (r.0, r.1 as int) == spec_parse_length(fmt@, i as int),
        i <= r.1 <= fmt@.len(),
{
    if i < fmt.len() {
        let b = *crate::memory::slice_index_get(fmt, i);
        if b == 0x68 {
            if i + 1 < fmt.len() && *crate::memory::slice_index_get(fmt, i + 1) == 0x68 {
                return (Length::Char, i + 2);
            }
            return (Length::Short, i + 1);
        }
        if b == 0x6c {
            if i + 1 < fmt.len() && *crate::memory::slice_index_get(fmt, i + 1) == 0x6c {
                return (Length::LongLong, i + 2);
            }
            return (Length::Long, i + 1);
        }
        if b == 0x7a {
            return (Length::Size, i + 1);
        }
        if b == 0x6a {
            return (Length::Max, i + 1);
        }
        if b == 0x74 {
            return (Length::Ptrdiff, i + 1);
        }
    }
    (Length::Bare, i)
}

/// The end of the literal run starting at `i`.
fn run_end(fmt: &[u8], i: usize) -> (r: usize)
    requires
        i <= fmt@.len(),
    ensures
        r as int == spec_run_end(fmt@, i as int),
        i <= r <= fmt@.len(),
    decreases fmt@.len() - i,
{
    if i < fmt.len() {
        if *crate::memory::slice_index_get(fmt, i) == 0x25 {
            return i;
        }
        return run_end(fmt, i + 1);
    }
    i
}

/// Fetch a signed argument under a length modifier.
fn fetch_signed(mem: &[u8], va: &mut WasmVaList, length: Length) -> (r: Option<i64>)
    ensures
        match spec_fetch_signed(mem@, old(va).base_ptr as int, length) {
            Some((v, va2)) => r matches Some(x) && x as int == v && final(va).base_ptr == va2,
            None => r is None,
        },
{
    match length {
        Length::LongLong | Length::Max => match va.next_u64(mem) {
            Some(x) => Some(x as i64),
            None => None,
        },
        Length::Char => match va.next_u32(mem) {
            Some(x) => Some(((x as i32) as i8) as i64),
            None => None,
        },
        Length::Short => match va.next_u32(mem) {
            Some(x) => Some(((x as i32) as i16) as i64),
            None => None,
        },
        _ => match va.next_u32(mem) {
            Some(x) => Some((x as i32) as i64),
            None => None,
        },
    }
}

/// Fetch an unsigned argument under a length modifier.
fn fetch_unsigned(mem: &[u8], va: &mut WasmVaList, length: Length) -> (r: Option<u64>)
    ensures
        match spec_fetch_unsigned(mem@, old(va).base_ptr as int, length) {
            Some((v, va2)) => r matches Some(x) && x as nat == v && final(va).base_ptr == va2,
            None => r is None,
        },
{
    match length {
        Length::LongLong | Length::Max => va.next_u64(mem),
        Length::Char => match va.next_u32(mem) {
            Some(x) => Some((x as u8) as u64),
            None => None,
        },
        Length::Short => match va.next_u32(mem) {
            Some(x) => Some((x as u16) as u64),
            None => None,
        },
        _ => match va.next_u32(mem) {
            Some(x) => Some(x as u64),
            None => None,
        },
    }
}

/// Render the format from position `i` on, appending to `out`; `false`
/// reports an error, after which the output is discarded.
#[verifier::rlimit(60)]
fn format_from(fmt: &[u8], mem: &[u8], va: &mut WasmVaList, i: usize, out: &mut Vec<u8>) -> (r:
    bool)
    requires
        i <= fmt@.len(),
    ensures
        match spec_format_from(fmt@, mem@, old(va).base_ptr as int, i as int) {
            Some(bytes) => r && final(out)@ == old(out)@ + bytes,
            None => !r,
        },
    decreases fmt@.len() - i,
{
    if i >= fmt.len() {
        proof {
            assert_seqs_equal!(out@, old(out)@ + Seq::<u8>::empty());
        }
        return true;
    }
    let b = *crate::memory::slice_index_get(fmt, i);
    if b != 0x25 {
        let end = run_end(fmt, i);
        let run = vstd::slice::slice_subrange(fmt, i, end);
        if crate::numfmt::utf8_to_string(run).is_none() {
            return false;
        }
        let mut chunk = crate::memory::slice_to_vec(run);
        out.append(&mut chunk);
        proof {
            lemma_run_end_bounds(fmt@, i + 1);
        }
        let ok = format_from(fmt, mem, va, end, out);
        if !ok {
            return false;
        }
        proof {
            assert_seqs_equal!(
                out@,
                old(out)@ + spec_format_from(fmt@, mem@, old(va).base_ptr as int, i as int).unwrap()
            );
        }
        return true;
    }
    let (ok, ni) = exec_directive(fmt, mem, va, i, out);
    if !ok {
        return false;
    }
    let ok2 = format_from(fmt, mem, va, ni, out);
    if !ok2 {
        return false;
    }
    proof {
        assert_seqs_equal!(
            out@,
            old(out)@ + spec_format_from(fmt@, mem@, old(va).base_ptr as int, i as int).unwrap()
        );
    }
    true
}

/// Render a whole format with its guest-memory arguments: the output
/// bytes, or nothing on any parse, fetch or rendering error.
pub fn format_bytes(fmt: &[u8], mem: &[u8], va_ptr: u32) -> (r: Option<Vec<u8>>)
    ensures
        match spec_format(fmt@, mem@, va_ptr as int) {
            Some(bytes) => r matches Some(v) && v@ == bytes,
            None => r is None,
        },
{
    let mut out: Vec<u8> = Vec::new();
    let mut va = WasmVaList::new(va_ptr);
    if format_from(fmt, mem, &mut va, 0, &mut out) {
        Some(out)
    } else {
        None
    }
}


} // verus!
