use v5sim::options::{
    encode_cold_header, load_program_options, parse_cold_header, LoadError, ProgramOptions,
};

/// A minimal WebAssembly binary holding one custom section named
/// `.cold_magic` with the given payload.
fn wasm_with_cold_magic(payload: &[u8]) -> Vec<u8> {
    let mut out = vec![0x00, 0x61, 0x73, 0x6d, 0x01, 0x00, 0x00, 0x00];
    let name = b".cold_magic";
    let section_len = 1 + name.len() + payload.len();
    assert!(section_len < 128);
    out.push(0x00); // custom section id
    out.push(section_len as u8);
    out.push(name.len() as u8);
    out.extend_from_slice(name);
    out.extend_from_slice(payload);
    out
}

#[test]
fn cold_header_encodes_magic_and_words() {
    let bytes = encode_cold_header(7, 2, 5);
    assert_eq!(&bytes[0..4], b"XVX5");
    assert_eq!(&bytes[4..8], &7u32.to_le_bytes());
    assert_eq!(&bytes[8..12], &2u32.to_le_bytes());
    assert_eq!(&bytes[12..16], &5u32.to_le_bytes());
}

#[test]
fn cold_header_round_trips() {
    for &(pt, owner, flags) in &[(0u32, 2u32, 0u32), (1, 0, 1), (9, 9, 7), (u32::MAX, 0, 6)] {
        let bytes = encode_cold_header(pt, owner, flags);
        let opts = parse_cold_header(&bytes).expect("header should parse");
        assert_eq!(opts.program_type, pt);
        assert_eq!(opts.owner, owner);
        assert_eq!(opts.invert_default_graphics_colors, flags & 1 != 0);
        assert_eq!(opts.kill_threads_when_main_exits, flags & 2 != 0);
        assert_eq!(opts.invert_graphics_based_on_theme, flags & 4 != 0);
    }
}

#[test]
fn loads_program_with_default_colors() {
    // magic, program_type 0, owner 2, flags 0
    let header = encode_cold_header(0, 2, 0);
    let binary = wasm_with_cold_magic(&header);
    let opts = load_program_options(&binary).expect("program should load");
    assert_eq!(opts.program_type, 0);
    assert_eq!(opts.owner, 2);
    assert!(!opts.invert_default_graphics_colors);
    let fg = opts.default_fg_color();
    let bg = opts.default_bg_color();
    assert_eq!((fg.r, fg.g, fg.b), (255, 255, 255));
    assert_eq!((bg.r, bg.g, bg.b), (0, 0, 0));
}

#[test]
fn invert_flag_swaps_default_colors() {
    let header = encode_cold_header(0, 2, 0x1);
    let binary = wasm_with_cold_magic(&header);
    let opts = load_program_options(&binary).expect("program should load");
    let fg = opts.default_fg_color();
    let bg = opts.default_bg_color();
    assert_eq!((fg.r, fg.g, fg.b), (0, 0, 0));
    assert_eq!((bg.r, bg.g, bg.b), (255, 255, 255));
}

#[test]
fn missing_cold_header_is_reported() {
    // a bare module without any custom section
    let binary = vec![0x00, 0x61, 0x73, 0x6d, 0x01, 0x00, 0x00, 0x00];
    assert_eq!(load_program_options(&binary), Err(LoadError::MissingColdHeader));
}

#[test]
fn invalid_magic_is_reported() {
    let mut header = encode_cold_header(0, 2, 0);
    header[0] = b'Y';
    let binary = wasm_with_cold_magic(&header);
    assert_eq!(load_program_options(&binary), Err(LoadError::InvalidMagic));
}

#[test]
fn truncated_header_is_reported() {
    let binary = wasm_with_cold_magic(b"XVX5\x00\x00");
    assert_eq!(load_program_options(&binary), Err(LoadError::InvalidMagic));
}

#[test]
fn short_or_mismatched_headers_do_not_parse() {
    assert_eq!(parse_cold_header(b""), None);
    assert_eq!(parse_cold_header(b"XVX5"), None);
    assert_eq!(parse_cold_header(b"AVX5\x00\x00\x00\x00\x00\x00\x00\x00\x00\x00\x00\x00"), None);
}

#[test]
fn options_are_plain_values() {
    let opts = ProgramOptions {
        program_type: 1,
        owner: 2,
        invert_default_graphics_colors: true,
        kill_threads_when_main_exits: false,
        invert_graphics_based_on_theme: false,
    };
    assert_eq!(opts, opts.clone());
}
