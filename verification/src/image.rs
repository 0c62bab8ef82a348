//! Reading a BMP image from guest memory into a guest image record: the
//! record holds a width, a height, a pixel-data pointer and a row pointer
//! as packed little-endian fields. Decoding the BMP bytes themselves is
//! the work of an outside decoder; everything it reports — the size and
//! the pixel count included — is checked here before memory is touched.

use vstd::assert_seqs_equal;
use vstd::bytes::{
    spec_u16_to_le_bytes, spec_u32_from_le_bytes, spec_u32_to_le_bytes, u16_to_le_bytes,
    u32_to_le_bytes,
};
use vstd::prelude::*;

use crate::memory::write_bytes;
use crate::protocol::{Event, LogLevel};

verus! {

/// The decoded form of a BMP byte string: the width and height its header
/// reports, and the pixel words its pixel iterator yields — each pixel's
/// 24-bit color as a four-byte little-endian word, in iteration order; or
/// nothing when the bytes are not a readable BMP. Nothing here ties the
/// word count to the reported size: a malformed or compressed file may
/// yield more or fewer pixels, and callers must check the count.
pub uninterp spec fn bmp_pixels_of(b: Seq<u8>) -> Option<(u32, u32, Seq<u8>)>;

/// Relies on tinybmp's `Bmp::from_slice`, its `pixels` iterator and its
/// reported size: all three depend on the input bytes alone.
#[verifier::external_body]
fn decode_bmp(b: &[u8]) -> (r: Option<(u32, u32, Vec<u8>)>)
    ensures
        (r is Some) == (bmp_pixels_of(b@) is Some),
        r matches Some(img) ==> {
            &&& bmp_pixels_of(b@) matches Some(s)
            &&& img.0 == s.0
            &&& img.1 == s.1
            &&& img.2@ == s.2
        },
{
    let bmp = tinybmp::Bmp::<embedded_graphics_core::pixelcolor::Rgb888>::from_slice(b).ok()?;
    let size = embedded_graphics_core::geometry::OriginDimensions::size(&bmp);
    let mut out = Vec::new();
    for pixel in bmp.pixels() {
        let raw = embedded_graphics_core::pixelcolor::raw::RawU24::from(pixel.1);
        let word = embedded_graphics_core::pixelcolor::raw::RawData::into_inner(raw);
        out.extend_from_slice(&word.to_le_bytes());
    }
    Some((size.width, size.height, out))
}

/// The header bytes written back to the image record: width and height as
/// 16-bit words, the unchanged data pointer, and the row pointer one row
/// past it.
pub open spec fn spec_image_header(w: u32, h: u32, data: u32) -> Seq<u8> {
    spec_u16_to_le_bytes(w as u16) + spec_u16_to_le_bytes(h as u16) + spec_u32_to_le_bytes(data)
        + spec_u32_to_le_bytes((data + w * 4) as u32)
}

/// A byte string with `bytes` stored at `pos`.
pub open spec fn spec_store(mem: Seq<u8>, pos: int, bytes: Seq<u8>) -> Seq<u8>
    recommends
        0 <= pos,
        pos + bytes.len() <= mem.len(),
{
    mem.subrange(0, pos) + bytes + mem.subrange(pos + bytes.len(), mem.len() as int)
}

/// The image record's data pointer: the third field of the record at
/// `o_buf`.
pub open spec fn spec_image_data_ptr(mem: Seq<u8>, o_buf: u32) -> u32 {
    spec_u32_from_le_bytes(mem.subrange(o_buf + 4, o_buf + 8))
}

/// Exactly when a BMP read succeeds: both pointers are non-null, the
/// record and the input lie inside memory, the record's data pointer is
/// non-null, the input decodes, the decoded size fits the caller's caps,
/// the decoder yielded exactly one word per cell, the pixel words fit at
/// the data pointer, and the row pointer does not overflow.
pub open spec fn spec_bmp_read_accepts(
    mem: Seq<u8>,
    i_buf: u32,
    o_buf: u32,
    maxw: u32,
    maxh: u32,
) -> bool {
    &&& i_buf != 0
    &&& o_buf != 0
    &&& o_buf + 12 <= mem.len()
    &&& i_buf <= mem.len()
    &&& spec_image_data_ptr(mem, o_buf) != 0
    &&& bmp_pixels_of(mem.subrange(i_buf as int, mem.len() as int)) matches Some(img) && {
        &&& img.0 <= maxw
        &&& img.1 <= maxh
        &&& img.2.len() == 4 * img.0 * img.1
        &&& spec_image_data_ptr(mem, o_buf) + img.2.len() <= mem.len()
        &&& spec_image_data_ptr(mem, o_buf) + img.0 * 4 <= u32::MAX
    }
}

/// Read a BMP from guest memory at `i_buf` into the image record at
/// `o_buf`: on success the pixel words land at the record's data pointer,
/// the record is rewritten with the image's size and row pointer, and 1
/// is returned. The read succeeds exactly when
/// [`spec_bmp_read_accepts`] holds; any refused input queues a warning
/// event, leaves memory untouched and returns 0.
pub fn vex_image_bmp_read(
    mem: &mut [u8],
    i_buf: u32,
    o_buf: u32,
    maxw: u32,
    maxh: u32,
    out: &mut Vec<Event>,
) -> (r: u32)
    ensures
        final(mem)@.len() == old(mem)@.len(),
        r == 0 || r == 1,
        (r == 1) == spec_bmp_read_accepts(old(mem)@, i_buf, o_buf, maxw, maxh),
        r == 0 ==> final(mem)@ == old(mem)@ && final(out)@.len() == old(out)@.len() + 1
            && final(out)@.subrange(0, old(out)@.len() as int) == old(out)@
            && (final(out)@.last() matches Event::Log { level, message } && level
            == LogLevel::Warn),
        r == 1 ==> final(out)@ == old(out)@ && (bmp_pixels_of(
            old(mem)@.subrange(i_buf as int, old(mem)@.len() as int),
        ) matches Some(img) && final(mem)@ == spec_store(
            spec_store(old(mem)@, spec_image_data_ptr(old(mem)@, o_buf) as int, img.2),
            o_buf as int,
            spec_image_header(img.0, img.1, spec_image_data_ptr(old(mem)@, o_buf)),
        )),
{
    if i_buf == 0 || o_buf == 0 {
        push_image_warning(out);
        return 0;
    }
    if o_buf as u64 + 12 > mem.len() as u64 {
        push_image_warning(out);
        return 0;
    }
    if i_buf as u64 > mem.len() as u64 {
        push_image_warning(out);
        return 0;
    }
    let data = match crate::memory::read_u32_le(mem, o_buf as usize + 4) {
        Some(d) => d,
        None => {
            push_image_warning(out);
            return 0;
        },
    };
    if data == 0 {
        push_image_warning(out);
        return 0;
    }
    let tail = vstd::slice::slice_subrange(mem, i_buf as usize, mem.len());
    let (w, h, pixels) = match decode_bmp(tail) {
        Some(img) => img,
        None => {
            push_image_warning(out);
            return 0;
        },
    };
    if w > maxw || h > maxh {
        push_image_warning(out);
        return 0;
    }
    // The decoder's pixel count is checked, not believed: a compressed or
    // malformed file may yield a count unrelated to the reported size.
    let cells: u128 = 4u128 * (w as u128);
    proof {
        assert(cells * (h as u128) <= 0x4_0000_0000u128 * 0x1_0000_0000u128) by (nonlinear_arith)
            requires
                cells <= 0x4_0000_0000u128,
                (h as u128) <= 0x1_0000_0000u128,
        ;
    }
    if (pixels.len() as u128) != cells * (h as u128) {
        push_image_warning(out);
        return 0;
    }
    if data as u128 + pixels.len() as u128 > mem.len() as u128 {
        push_image_warning(out);
        return 0;
    }
    if data as u64 + (w as u64) * 4 > u32::MAX as u64 {
        push_image_warning(out);
        return 0;
    }
    let wrote_pixels = write_bytes(mem, data as usize, pixels.as_slice());
    proof {
        assert(wrote_pixels);
    }
    let mut header: Vec<u8> = Vec::new();
    let mut word = u16_to_le_bytes(w as u16);
    header.append(&mut word);
    let mut word = u16_to_le_bytes(h as u16);
    header.append(&mut word);
    let mut word = u32_to_le_bytes(data);
    header.append(&mut word);
    let mut word = u32_to_le_bytes(data + w * 4);
    header.append(&mut word);
    proof {
        assert_seqs_equal!(header@, spec_image_header(w, h, data));
    }
    let wrote_header = write_bytes(mem, o_buf as usize, header.as_slice());
    proof {
        assert(wrote_header);
        assert(data == spec_image_data_ptr(old(mem)@, o_buf));
        assert_seqs_equal!(
            mem@,
            spec_store(
                spec_store(old(mem)@, data as int, pixels@),
                o_buf as int,
                spec_image_header(w, h, data),
            )
        );
    }
    1
}

/// Queue the warning that a BMP read was refused.
fn push_image_warning(out: &mut Vec<Event>)
    ensures
        final(out)@.len() == old(out)@.len() + 1,
        final(out)@.subrange(0, old(out)@.len() as int) == old(out)@,
        final(out)@.last() matches Event::Log { level, message } && level == LogLevel::Warn,
{
    let mut message = String::new();
    message.append("vexImageBmpRead: the image could not be read into the given record");
    out.push(Event::Log { level: LogLevel::Warn, message });
    proof {
        assert_seqs_equal!(out@.subrange(0, old(out)@.len() as int), old(out)@);
    }
}

} // verus!
