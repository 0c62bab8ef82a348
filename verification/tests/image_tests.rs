use v5sim::image::vex_image_bmp_read;
use v5sim::protocol::{Event, LogLevel};

/// A minimal 24-bit BMP: one red pixel.
fn one_pixel_bmp() -> Vec<u8> {
    let mut b = Vec::new();
    b.extend_from_slice(b"BM");
    b.extend_from_slice(&58u32.to_le_bytes()); // file size
    b.extend_from_slice(&[0, 0, 0, 0]); // reserved
    b.extend_from_slice(&54u32.to_le_bytes()); // pixel data offset
    b.extend_from_slice(&40u32.to_le_bytes()); // header size
    b.extend_from_slice(&1i32.to_le_bytes()); // width
    b.extend_from_slice(&1i32.to_le_bytes()); // height
    b.extend_from_slice(&1u16.to_le_bytes()); // planes
    b.extend_from_slice(&24u16.to_le_bytes()); // bits per pixel
    b.extend_from_slice(&0u32.to_le_bytes()); // compression
    b.extend_from_slice(&4u32.to_le_bytes()); // image size
    b.extend_from_slice(&[0; 16]); // resolution and palette fields
    b.extend_from_slice(&[0, 0, 255, 0]); // blue, green, red, row padding
    assert_eq!(b.len(), 58);
    b
}

#[test]
fn bmp_read_stores_pixels_and_rewrites_the_record() {
    let bmp = one_pixel_bmp();
    let mut mem = vec![0u8; 512];
    mem[100..100 + bmp.len()].copy_from_slice(&bmp);
    // the image record: width, height, data pointer, row pointer
    mem[16..18].copy_from_slice(&0u16.to_le_bytes());
    mem[18..20].copy_from_slice(&0u16.to_le_bytes());
    mem[20..24].copy_from_slice(&200u32.to_le_bytes());
    mem[24..28].copy_from_slice(&0u32.to_le_bytes());
    let mut events = Vec::new();
    let r = vex_image_bmp_read(&mut mem, 100, 16, 10, 10, &mut events);
    assert_eq!(r, 1);
    assert!(events.is_empty());
    // one pixel of pure red as a little-endian 24-bit word
    assert_eq!(&mem[200..204], &[0, 0, 255, 0]);
    // the record now holds the size and the advanced row pointer
    assert_eq!(&mem[16..18], &1u16.to_le_bytes());
    assert_eq!(&mem[18..20], &1u16.to_le_bytes());
    assert_eq!(&mem[20..24], &200u32.to_le_bytes());
    assert_eq!(&mem[24..28], &204u32.to_le_bytes());
}

#[test]
fn bmp_read_refuses_bad_records_with_a_warning() {
    let mut mem = vec![0u8; 256];
    let mut events = Vec::new();
    // a null input buffer
    assert_eq!(vex_image_bmp_read(&mut mem, 0, 16, 10, 10, &mut events), 0);
    // a null output record
    assert_eq!(vex_image_bmp_read(&mut mem, 100, 0, 10, 10, &mut events), 0);
    // a record whose data pointer is null
    assert_eq!(vex_image_bmp_read(&mut mem, 100, 16, 10, 10, &mut events), 0);
    assert_eq!(events.len(), 3);
    assert!(events
        .iter()
        .all(|e| matches!(e, Event::Log { level: LogLevel::Warn, .. })));
    assert_eq!(mem, vec![0u8; 256]);
}

#[test]
fn bmp_read_refuses_images_over_the_caps() {
    let bmp = one_pixel_bmp();
    let mut mem = vec![0u8; 512];
    mem[100..100 + bmp.len()].copy_from_slice(&bmp);
    mem[20..24].copy_from_slice(&200u32.to_le_bytes());
    let mut events = Vec::new();
    assert_eq!(vex_image_bmp_read(&mut mem, 100, 16, 0, 10, &mut events), 0);
    assert_eq!(events.len(), 1);
}

#[test]
fn bmp_read_refuses_garbage_input() {
    let mut mem = vec![0u8; 256];
    mem[20..24].copy_from_slice(&200u32.to_le_bytes());
    mem[100] = b'X';
    let mut events = Vec::new();
    assert_eq!(vex_image_bmp_read(&mut mem, 100, 16, 10, 10, &mut events), 0);
    assert_eq!(events.len(), 1);
}

#[test]
fn stub_commands_are_accepted_and_ignored() {
    let opts =
        v5sim::options::parse_cold_header(&v5sim::options::encode_cold_header(0, 2, 0)).unwrap();
    let mut state = v5sim::sdk::SdkState::new(opts);
    let cmds = vec![
        v5sim::protocol::Command::Touch {
            pos: v5sim::protocol::Point { x: 1, y: 2 },
            event: v5sim::protocol::TouchEvent::Pressed,
        },
        v5sim::protocol::Command::USD { root: None },
        v5sim::protocol::Command::SetBatteryCapacity { capacity_bits: 0x3ff0000000000000 },
    ];
    for cmd in cmds {
        assert_eq!(state.execute_command(cmd), Ok(()));
    }
    assert!(state.take_events().is_empty());
}

#[test]
fn multibyte_text_counts_characters_for_padding() {
    // two characters wide, four bytes long
    let mut mem = vec![0u8; 512];
    mem[..5].copy_from_slice(b"%4s\0\0");
    mem[128..132].copy_from_slice(&64u32.to_le_bytes());
    let s = "éé"; // two two-byte characters
    mem[64..64 + s.len()].copy_from_slice(s.as_bytes());
    let out = v5sim::printf::format_bytes(&mem[..3], &mem, 128).unwrap();
    assert_eq!(String::from_utf8(out).unwrap(), "  éé");
}
