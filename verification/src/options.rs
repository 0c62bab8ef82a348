//! Program options carried by the guest binary's `.cold_magic` custom
//! section: a four-byte magic tag `XVX5` followed by three little-endian
//! 32-bit words (program type, owner, option flags).

use vstd::assert_seqs_equal;
use vstd::bytes::{spec_u32_from_le_bytes, u32_from_le_bytes, u32_to_le_bytes};
use vstd::prelude::*;
use vstd::slice::slice_subrange;

use crate::color::{spec_black, spec_white, Rgb};

verus! {

/// Flag bit: swap the default foreground and background colors.
pub const FLAG_INVERT_DEFAULT_GRAPHICS_COLORS: u32 = 1;

/// Flag bit: stop all threads when the main task returns.
pub const FLAG_KILL_THREADS_WHEN_MAIN_EXITS: u32 = 2;

/// Flag bit: invert graphics following the system theme.
pub const FLAG_INVERT_GRAPHICS_BASED_ON_THEME: u32 = 4;

/// Byte length of the fixed-size cold header: magic plus three words.
pub const COLD_HEADER_LEN: usize = 16;

/// Options parsed from the program's code signature / cold header.
#[derive(Debug, Clone, Copy, PartialEq, Eq, Structural)]
pub struct ProgramOptions {
    /// The program type word; user programs set this to 0.
    pub program_type: u32,
    /// The owner word; partner programs set this to 2.
    pub owner: u32,
    pub invert_default_graphics_colors: bool,
    pub kill_threads_when_main_exits: bool,
    pub invert_graphics_based_on_theme: bool,
}

/// The magic tag that opens a cold header: the bytes of `XVX5`.
pub open spec fn spec_cold_magic() -> Seq<u8> {
    seq![0x58u8, 0x56u8, 0x58u8, 0x35u8]
}

/// The options a flags word decodes to, together with the other two words.
pub open spec fn spec_options_from_words(program_type: u32, owner: u32, flags: u32) -> ProgramOptions {
    ProgramOptions {
        program_type,
        owner,
        invert_default_graphics_colors: flags & FLAG_INVERT_DEFAULT_GRAPHICS_COLORS != 0,
        kill_threads_when_main_exits: flags & FLAG_KILL_THREADS_WHEN_MAIN_EXITS != 0,
        invert_graphics_based_on_theme: flags & FLAG_INVERT_GRAPHICS_BASED_ON_THEME != 0,
    }
}

/// What a cold-header byte string parses to: `None` when it is shorter
/// than the fixed header or does not open with the magic tag.
pub open spec fn spec_parse_cold_header(b: Seq<u8>) -> Option<ProgramOptions> {
    if b.len() < COLD_HEADER_LEN {
        None
    } else if b.subrange(0, 4) != spec_cold_magic() {
        None
    } else {
        Some(
            spec_options_from_words(
                spec_u32_from_le_bytes(b.subrange(4, 8)),
                spec_u32_from_le_bytes(b.subrange(8, 12)),
                spec_u32_from_le_bytes(b.subrange(12, 16)),
            ),
        )
    }
}

impl ProgramOptions {
    /// The default foreground color: white, or black when the invert flag
    /// is set.
    pub fn default_fg_color(&self) -> (r: Rgb)
        ensures
            r == self.spec_default_fg_color(),
    {
        if self.invert_default_graphics_colors {
            crate::color::black()
        } else {
            crate::color::white()
        }
    }

    /// The default background color: black, or white when the invert flag
    /// is set.
    pub fn default_bg_color(&self) -> (r: Rgb)
        ensures
            r == self.spec_default_bg_color(),
    {
        if self.invert_default_graphics_colors {
            crate::color::white()
        } else {
            crate::color::black()
        }
    }

    pub open spec fn spec_default_fg_color(&self) -> Rgb {
        if self.invert_default_graphics_colors {
            spec_black()
        } else {
            spec_white()
        }
    }

    pub open spec fn spec_default_bg_color(&self) -> Rgb {
        if self.invert_default_graphics_colors {
            spec_white()
        } else {
            spec_black()
        }
    }
}

/// Parse the bytes of a `.cold_magic` section into program options.
pub fn parse_cold_header(bytes: &[u8]) -> (r: Option<ProgramOptions>)
    ensures
        r == spec_parse_cold_header(bytes@),
{
    if bytes.len() < COLD_HEADER_LEN {
        return None;
    }
    if !(bytes[0] == 0x58 && bytes[1] == 0x56 && bytes[2] == 0x58 && bytes[3] == 0x35) {
        proof {
            assert(bytes@.subrange(0, 4) != spec_cold_magic()) by {
                assert(spec_cold_magic()[0] == 0x58 && spec_cold_magic()[1] == 0x56
                    && spec_cold_magic()[2] == 0x58 && spec_cold_magic()[3] == 0x35);
            }
        }
        return None;
    }
    proof {
        assert_seqs_equal!(bytes@.subrange(0, 4), spec_cold_magic());
    }
    let program_type = u32_from_le_bytes(slice_subrange(bytes, 4, 8));
    let owner = u32_from_le_bytes(slice_subrange(bytes, 8, 12));
    let flags = u32_from_le_bytes(slice_subrange(bytes, 12, 16));
    Some(
        ProgramOptions {
            program_type,
            owner,
            invert_default_graphics_colors: flags & FLAG_INVERT_DEFAULT_GRAPHICS_COLORS != 0,
            kill_threads_when_main_exits: flags & FLAG_KILL_THREADS_WHEN_MAIN_EXITS != 0,
            invert_graphics_based_on_theme: flags & FLAG_INVERT_GRAPHICS_BASED_ON_THEME != 0,
        },
    )
}

/// Build the bytes of a cold header from its three words.
pub fn encode_cold_header(program_type: u32, owner: u32, flags: u32) -> (r: Vec<u8>)
    ensures
        r@ == spec_cold_magic() + vstd::bytes::spec_u32_to_le_bytes(program_type)
            + vstd::bytes::spec_u32_to_le_bytes(owner) + vstd::bytes::spec_u32_to_le_bytes(flags),
{
    let mut out: Vec<u8> = Vec::new();
    out.push(0x58);
    out.push(0x56);
    out.push(0x58);
    out.push(0x35);
    let mut pt = u32_to_le_bytes(program_type);
    let mut ow = u32_to_le_bytes(owner);
    let mut fl = u32_to_le_bytes(flags);
    out.append(&mut pt);
    out.append(&mut ow);
    out.append(&mut fl);
    proof {
        assert_seqs_equal!(
            out@,
            spec_cold_magic() + vstd::bytes::spec_u32_to_le_bytes(program_type)
                + vstd::bytes::spec_u32_to_le_bytes(owner)
                + vstd::bytes::spec_u32_to_le_bytes(flags)
        );
    }
    out
}

/// Round trip of the cold header: the bytes built from any three words
/// parse back to exactly the options those words decode to.
pub proof fn lemma_cold_header_round_trip(program_type: u32, owner: u32, flags: u32)
    ensures
        spec_parse_cold_header(
            spec_cold_magic() + vstd::bytes::spec_u32_to_le_bytes(program_type)
                + vstd::bytes::spec_u32_to_le_bytes(owner)
                + vstd::bytes::spec_u32_to_le_bytes(flags),
        ) == Some(spec_options_from_words(program_type, owner, flags)),
{
    vstd::bytes::lemma_auto_spec_u32_to_from_le_bytes();
    let b = spec_cold_magic() + vstd::bytes::spec_u32_to_le_bytes(program_type)
        + vstd::bytes::spec_u32_to_le_bytes(owner) + vstd::bytes::spec_u32_to_le_bytes(flags);
    assert(b.len() == COLD_HEADER_LEN);
    assert_seqs_equal!(b.subrange(0, 4), spec_cold_magic());
    assert_seqs_equal!(b.subrange(4, 8), vstd::bytes::spec_u32_to_le_bytes(program_type));
    assert_seqs_equal!(b.subrange(8, 12), vstd::bytes::spec_u32_to_le_bytes(owner));
    assert_seqs_equal!(b.subrange(12, 16), vstd::bytes::spec_u32_to_le_bytes(flags));
}

/// How loading a program's bytes can fail.
#[derive(Debug, Clone, Copy, PartialEq, Eq, Structural)]
pub enum LoadError {
    /// The binary holds no `.cold_magic` custom section.
    MissingColdHeader,
    /// The section does not open with the `XVX5` magic tag, or is shorter
    /// than the fixed header.
    InvalidMagic,
}

/// The `.cold_magic` custom section of a WebAssembly binary, when the
/// binary's payloads hold one; the first such section decides.
pub uninterp spec fn cold_section_of(program: Seq<u8>) -> Option<Seq<u8>>;

/// Relies on wasmparser's `Parser::parse_all` and `CustomSectionReader`:
/// scanning the binary's payloads for the first custom section named
/// `.cold_magic` depends on the input bytes alone.
#[verifier::external_body]
fn find_cold_section(program: &[u8]) -> (r: Option<Vec<u8>>)
    ensures
        (r is Some) == (cold_section_of(program@) is Some),
        r matches Some(v) ==> Some(v@) == cold_section_of(program@),
{
    for payload in wasmparser::Parser::new(0).parse_all(program) {
        if let Ok(wasmparser::Payload::CustomSection(section)) = payload {
            if section.name() == ".cold_magic" {
                return Some(section.data().to_vec());
            }
        }
    }
    None
}

/// The bytes of the binary's `.cold_magic` section, for the code
/// signature announcement.
pub fn cold_signature_section(program: &[u8]) -> (r: Option<Vec<u8>>)
    ensures
        (r is Some) == (cold_section_of(program@) is Some),
        r matches Some(v) ==> Some(v@) == cold_section_of(program@),
{
    find_cold_section(program)
}

/// Locate the cold header in a guest binary and parse its program options.
/// Succeeds exactly on binaries whose `.cold_magic` section parses; the
/// engine-side compilation of the same bytes happens elsewhere.
pub fn load_program_options(program: &[u8]) -> (r: Result<ProgramOptions, LoadError>)
    ensures
        match r {
            Ok(opts) => {
                &&& cold_section_of(program@) matches Some(sec)
                &&& spec_parse_cold_header(sec) == Some(opts)
            },
            Err(LoadError::MissingColdHeader) => cold_section_of(program@) is None,
            Err(LoadError::InvalidMagic) => {
                &&& cold_section_of(program@) matches Some(sec)
                &&& spec_parse_cold_header(sec) is None
            },
        },
{
    match find_cold_section(program) {
        None => Err(LoadError::MissingColdHeader),
        Some(section) => match parse_cold_header(section.as_slice()) {
            Some(opts) => Ok(opts),
            None => Err(LoadError::InvalidMagic),
        },
    }
}

} // verus!
