use v5sim::jump::{default_jump_table, install_jump_writes, JumpTable, JumpTableError, JumpWrite, JUMP_TABLE_BASE};
use v5sim::printf::format_bytes;
use v5sim::printf::{DoubleFormat, SignedInt};
use v5sim::sdk::SdkState;

/// Guest memory with a format string at 0, a variadic area at `VA`, and
/// scratch room above it.
const VA: usize = 128;

fn mem_with(fmt: &[u8], args: &[u8]) -> Vec<u8> {
    let mut mem = vec![0u8; 512];
    mem[..fmt.len()].copy_from_slice(fmt);
    mem[VA..VA + args.len()].copy_from_slice(args);
    mem
}

/// Format using the NUL-terminated string at offset 0 of `mem`.
fn fmt(mem: &[u8]) -> Option<String> {
    let end = mem.iter().position(|&b| b == 0).unwrap();
    format_bytes(&mem[..end], mem, VA as u32).map(|v| String::from_utf8(v).unwrap())
}

fn run(fmt_str: &[u8], args: &[u8]) -> Option<String> {
    let mem = mem_with(fmt_str, args);
    fmt(&mem)
}

#[test]
fn plain_text_passes_through() {
    assert_eq!(run(b"hello world\0", &[]), Some("hello world".to_string()));
    assert_eq!(run(b"100%%\0", &[]), Some("100%".to_string()));
}

#[test]
fn signed_decimal_with_flags_and_width() {
    let pos42 = 42i32.to_le_bytes();
    let neg42 = (-42i32).to_le_bytes();
    assert_eq!(run(b"%d\0", &pos42), Some("42".to_string()));
    assert_eq!(run(b"%d\0", &neg42), Some("-42".to_string()));
    assert_eq!(run(b"%5d\0", &pos42), Some("   42".to_string()));
    assert_eq!(run(b"%-5d|\0", &pos42), Some("42   |".to_string()));
    assert_eq!(run(b"%05d\0", &pos42), Some("00042".to_string()));
    assert_eq!(run(b"%05d\0", &neg42), Some("-0042".to_string()));
    assert_eq!(run(b"%+d\0", &pos42), Some("+42".to_string()));
    assert_eq!(run(b"% d\0", &pos42), Some(" 42".to_string()));
    assert_eq!(run(b"% 05d\0", &pos42), Some(" 0042".to_string()));
}

#[test]
fn length_modifiers_read_guest_sizes() {
    // hh keeps only the low byte of the promoted int
    let arg = 0x1ff_i32.to_le_bytes();
    assert_eq!(run(b"%hhd\0", &arg), Some("-1".to_string()));
    assert_eq!(run(b"%hhu\0", &arg), Some("255".to_string()));
    // l is the guest's four-byte long
    let arg = (-7i32).to_le_bytes();
    assert_eq!(run(b"%ld\0", &arg), Some("-7".to_string()));
    // ll reads eight bytes
    let arg = (-5_000_000_000i64).to_le_bytes();
    assert_eq!(run(b"%lld\0", &arg), Some("-5000000000".to_string()));
}

#[test]
fn unsigned_bases_and_alternate_forms() {
    let n42 = 42u32.to_le_bytes();
    assert_eq!(run(b"%u\0", &n42), Some("42".to_string()));
    assert_eq!(run(b"%o\0", &n42), Some("52".to_string()));
    assert_eq!(run(b"%x\0", &(0x2fu32.to_le_bytes())), Some("2f".to_string()));
    assert_eq!(run(b"%X\0", &(0x2fu32.to_le_bytes())), Some("2F".to_string()));
    // the 0x prefix of an alternate-form %X stays lower case
    assert_eq!(run(b"%#X\0", &(0x2fu32.to_le_bytes())), Some("0x2F".to_string()));
    // alternate octal carries the 0o prefix of the reference engine
    assert_eq!(run(b"%#o\0", &n42), Some("0o52".to_string()));
    assert_eq!(run(b"%08x\0", &(0x2fu32.to_le_bytes())), Some("0000002f".to_string()));
    assert_eq!(run(b"%#06x\0", &(0x2fu32.to_le_bytes())), Some("0x002f".to_string()));
}

#[test]
fn char_string_and_pointer() {
    let c = (b'A' as u32).to_le_bytes();
    assert_eq!(run(b"%c\0", &c), Some("A".to_string()));
    assert_eq!(run(b"%3c\0", &c), Some("  A".to_string()));
    // a string argument is a guest pointer; put "world" at offset 64
    let mut mem = mem_with(b"<%s>\0", &64u32.to_le_bytes());
    mem[64..70].copy_from_slice(b"world\0");
    assert_eq!(fmt(&mem), Some("<world>".to_string()));
    // precision cuts the string, width pads it
    let mut mem = mem_with(b"%8.3s\0", &64u32.to_le_bytes());
    mem[64..70].copy_from_slice(b"world\0");
    assert_eq!(fmt(&mem), Some("     wor".to_string()));
    let p = 0x1f4u32.to_le_bytes();
    assert_eq!(run(b"%p\0", &p), Some("0x1f4".to_string()));
}

#[test]
fn star_width_and_precision_come_from_arguments() {
    let mut args = Vec::new();
    args.extend_from_slice(&5i32.to_le_bytes());
    args.extend_from_slice(&7i32.to_le_bytes());
    assert_eq!(run(b"%*d\0", &args), Some("    7".to_string()));
    // a negative star width left-aligns
    let mut args = Vec::new();
    args.extend_from_slice(&(-5i32).to_le_bytes());
    args.extend_from_slice(&7i32.to_le_bytes());
    assert_eq!(run(b"%*d|\0", &args), Some("7    |".to_string()));
}

#[test]
fn formatting_errors_return_nothing() {
    // %n is recognised and refused
    assert_eq!(run(b"%n\0", &0u32.to_le_bytes()), None);
    // an unknown conversion is refused
    assert_eq!(run(b"%q\0", &[]), None);
    // a truncated directive is refused
    assert_eq!(run(b"%\0", &[]), None);
    // a string that is not valid UTF-8 is refused
    let mut mem = mem_with(b"%s\0", &64u32.to_le_bytes());
    mem[64] = 0xff;
    mem[65] = 0;
    assert_eq!(fmt(&mem), None);
    // invalid UTF-8 between directives is refused too
    let mem = mem_with(b"a\xffb\0", &[]);
    let end = 3;
    assert_eq!(format_bytes(&mem[..end], &mem, VA as u32), None);
    // an unterminated string argument is refused
    let mut mem = mem_with(b"%s\0", &(508u32).to_le_bytes());
    mem[508] = b'x';
    mem[509] = b'x';
    mem[510] = b'x';
    mem[511] = b'x';
    assert_eq!(fmt(&mem), None);
}

#[test]
fn floating_directives_are_recognised_and_refused() {
    let bits = 1.5f64.to_bits().to_le_bytes();
    assert_eq!(run(b"%f\0", &bits), None);
    assert_eq!(run(b"%G\0", &bits), None);
}

#[test]
fn vsnprintf_stores_a_bounded_prefix_and_returns_the_full_length() {
    let mut mem = vec![0u8; 512];
    mem[..6].copy_from_slice(b"%d-%s\0");
    mem[16..22].copy_from_slice(b"world\0");
    mem[32..36].copy_from_slice(&42i32.to_le_bytes());
    mem[36..40].copy_from_slice(&16u32.to_le_bytes());
    let r = SdkState::vex_vsnprintf(&mut mem, 64, 8, 0, 32);
    assert_eq!(r, Ok(8));
    assert_eq!(&mem[64..72], b"42-world");
    // a shorter bound stores only the prefix but still reports the whole
    let r = SdkState::vex_vsnprintf(&mut mem, 100, 3, 0, 32);
    assert_eq!(r, Ok(8));
    assert_eq!(&mem[100..103], b"42-");
    assert_eq!(mem[103], 0);
}

#[test]
fn vsprintf_writes_the_whole_text() {
    let mut mem = vec![0u8; 256];
    mem[..6].copy_from_slice(b"%d-%s\0");
    mem[16..22].copy_from_slice(b"world\0");
    mem[32..36].copy_from_slice(&42i32.to_le_bytes());
    mem[36..40].copy_from_slice(&16u32.to_le_bytes());
    let r = SdkState::vex_vsprintf(&mut mem, 64, 0, 32);
    assert_eq!(r, Ok(8));
    assert_eq!(&mem[64..72], b"42-world");
}

#[test]
fn vprintf_buffers_into_serial_channel_one() {
    let opts =
        v5sim::options::parse_cold_header(&v5sim::options::encode_cold_header(0, 2, 0)).unwrap();
    let mut state = SdkState::new(opts);
    let mut mem = vec![0u8; 256];
    mem[..6].copy_from_slice(b"%d-%s\0");
    mem[16..22].copy_from_slice(b"world\0");
    mem[32..36].copy_from_slice(&42i32.to_le_bytes());
    mem[36..40].copy_from_slice(&16u32.to_le_bytes());
    let r = state.vex_vprintf(&mem, 0, 32);
    assert_eq!(r, Ok(8));
    state.flush_serial();
    let events = state.take_events();
    match &events[0] {
        v5sim::protocol::Event::Serial(sd) => {
            assert_eq!(sd.data, v5sim::protocol::base64_encode(b"42-world"));
        }
        other => panic!("unexpected event {other:?}"),
    }
    // a bad format reports the sentinel and buffers nothing
    let mut state = SdkState::new(opts);
    let mem = {
        let mut m = vec![0u8; 64];
        m[..3].copy_from_slice(b"%q\0");
        m
    };
    assert_eq!(state.vex_vprintf(&mem, 0, 32), Ok(-1));
    state.flush_serial();
    assert!(state.take_events().is_empty());
}

#[test]
fn printf_value_types_behave() {
    assert!(SignedInt::Int(-1).is_sign_negative());
    assert!(!SignedInt::Char(5).is_sign_negative());
    assert!(DoubleFormat::UpperScientific.is_upper());
    assert!(!DoubleFormat::Hex.is_upper());
    assert_eq!(DoubleFormat::Normal.set_upper(true), DoubleFormat::UpperNormal);
    assert_eq!(DoubleFormat::UpperAuto.set_upper(false), DoubleFormat::Auto);
    assert_eq!(DoubleFormat::Scientific.set_upper(true), DoubleFormat::UpperScientific);
}

#[test]
fn high_res_time_is_monotonic() {
    let opts =
        v5sim::options::parse_cold_header(&v5sim::options::encode_cold_header(0, 2, 0)).unwrap();
    let mut state = SdkState::new(opts);
    let t1 = state.high_res_time();
    let t2 = state.high_res_time();
    assert!(t1 <= t2);
}

#[test]
fn jump_table_installation_writes_each_index_and_nothing_else() {
    let mut table = JumpTable::new();
    table.insert(0x0).unwrap();
    table.insert(0x8).unwrap();
    table.insert(0x4).unwrap();
    assert_eq!(table.insert(0x8), Err(JumpTableError::DuplicateAddress));
    // a small memory model around the writes themselves
    let writes = vec![
        JumpWrite { address: 4, index: 100 },
        JumpWrite { address: 12, index: 101 },
    ];
    let mut mem = vec![0xeeu8; 32];
    assert!(install_jump_writes(&mut mem, &writes));
    assert_eq!(&mem[4..8], &100u32.to_le_bytes());
    assert_eq!(&mem[12..16], &101u32.to_le_bytes());
    for (i, b) in mem.iter().enumerate() {
        if !(4..8).contains(&i) && !(12..16).contains(&i) {
            assert_eq!(*b, 0xee, "byte {i} must be untouched");
        }
    }
    // writes reaching outside memory are refused whole
    let mut mem = vec![0u8; 8];
    let bad = vec![JumpWrite { address: 6, index: 1 }];
    assert!(!install_jump_writes(&mut mem, &bad));
    assert_eq!(mem, vec![0u8; 8]);
}

#[test]
fn default_jump_table_exposes_ascending_indices() {
    let table = default_jump_table();
    assert_eq!(table.len(), 45);
    let writes = table.expose_writes(32);
    assert_eq!(writes.len(), 45);
    assert_eq!(writes[0].address, JUMP_TABLE_BASE + 0x05c);
    assert_eq!(writes[0].index, 32);
    assert_eq!(writes[44].address, JUMP_TABLE_BASE + 0x9d8);
    assert_eq!(writes[44].index, 32 + 44);
}
