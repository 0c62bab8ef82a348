use v5sim::color::Rgb;
use v5sim::display::{Display, DISPLAY_HEIGHT, DISPLAY_WIDTH, HEADER_HEIGHT};
use v5sim::options::parse_cold_header;
use v5sim::options::encode_cold_header;
use v5sim::protocol::{
    DrawCommand, Event, Point, Rect, Shape, TextMetrics, V5FontFamily, V5FontSize, V5Text,
};
use v5sim::sdk::SdkState;

fn options() -> v5sim::options::ProgramOptions {
    parse_cold_header(&encode_cold_header(0, 2, 0)).unwrap()
}

fn default_clip() -> Rect {
    Rect {
        top_left: Point { x: 0, y: HEADER_HEIGHT },
        bottom_right: Point { x: DISPLAY_WIDTH, y: DISPLAY_HEIGHT },
    }
}

#[test]
fn color_pack_round_trips() {
    for &c in &[0u32, 0x112233, 0x00ff_ffff, 0xdead_beef, u32::MAX] {
        let unpacked = Rgb::unpack(c);
        assert_eq!(unpacked.pack(), c & 0x00ff_ffff);
    }
}

#[test]
fn foreground_color_query_returns_set_color() {
    let mut state = SdkState::new(options());
    state.vex_display_foreground_color(0xaa112233);
    assert_eq!(state.vex_display_foreground_color_get(), 0x112233);
    state.vex_display_background_color(0x445566);
    assert_eq!(state.vex_display_background_color_get(), 0x445566);
}

#[test]
fn rect_fill_emits_one_draw_event_in_foreground_color() {
    let mut state = SdkState::new(options());
    state.vex_display_foreground_color(0x112233);
    state.vex_display_rect(10, 40, 30, 60, false, false);
    let events = state.take_events();
    assert_eq!(events.len(), 1);
    assert_eq!(
        events[0],
        Event::ScreenDraw {
            command: DrawCommand::Fill {
                shape: Shape::Rectangle {
                    top_left: Point { x: 10, y: 40 },
                    bottom_right: Point { x: 30, y: 60 },
                },
            },
            color: Rgb { r: 17, g: 34, b: 51 },
            clip_region: default_clip(),
        }
    );
}

#[test]
fn double_buffer_toggle_is_idempotent() {
    let mut display = Display::new(options());
    let mut out = Vec::new();
    display.set_double_buffered(true, &mut out);
    display.set_double_buffered(true, &mut out);
    assert_eq!(out.len(), 1);
    assert_eq!(out[0], Event::ScreenDoubleBufferMode { enable: true });
    display.set_double_buffered(false, &mut out);
    display.set_double_buffered(false, &mut out);
    assert_eq!(out.len(), 2);
    assert_eq!(out[1], Event::ScreenDoubleBufferMode { enable: false });
}

#[test]
fn text_metrics_cache_coalesces_equal_queries() {
    let mut display = Display::new(options());
    let mut out = Vec::new();
    let text = V5Text {
        data: "hello".to_string(),
        font_family: V5FontFamily::UserMono,
        font_size: V5FontSize::Normal,
    };
    let metrics = TextMetrics { width: 50, height: 12 };
    // first query misses and emits exactly one request
    assert_eq!(display.get_text_metrics(&text, &mut out), None);
    assert_eq!(out.len(), 1);
    assert!(matches!(&out[0], Event::TextMetricsRequest { .. }));
    // the reply is installed; the second query hits and emits nothing
    display.set_metrics_cache(text.clone(), metrics);
    assert_eq!(display.get_text_metrics(&text, &mut out), Some(metrics));
    assert_eq!(out.len(), 1);
    // from a cache already holding the text, further queries emit nothing
    assert_eq!(display.get_text_metrics(&text, &mut out), Some(metrics));
    assert_eq!(out.len(), 1);
}

#[test]
fn erase_fills_whole_screen_with_background() {
    let mut state = SdkState::new(options());
    state.vex_display_background_color(0x010203);
    state.vex_display_erase();
    let events = state.take_events();
    assert_eq!(events.len(), 1);
    match &events[0] {
        Event::ScreenDraw { command, color, .. } => {
            assert_eq!(
                *command,
                DrawCommand::Fill {
                    shape: Shape::Rectangle {
                        top_left: Point { x: 0, y: 0 },
                        bottom_right: Point { x: 480, y: 272 },
                    },
                }
            );
            assert_eq!(*color, Rgb { r: 1, g: 2, b: 3 });
        }
        other => panic!("unexpected event {other:?}"),
    }
}

#[test]
fn clip_region_is_clamped_to_drawable_area() {
    let mut state = SdkState::new(options());
    state.vex_display_clip_region_set(-5, 0, 10_000, 300);
    let events = state.take_events();
    assert!(events.is_empty());
    state.vex_display_rect(0, 0, 1, 1, true, false);
    let events = state.take_events();
    match &events[0] {
        Event::ScreenDraw { clip_region, .. } => {
            assert_eq!(
                *clip_region,
                Rect {
                    top_left: Point { x: 0, y: 32 },
                    bottom_right: Point { x: 480, y: 272 },
                }
            );
        }
        other => panic!("unexpected event {other:?}"),
    }
}

#[test]
fn clip_region_with_index_accepts_only_index_zero() {
    let mut state = SdkState::new(options());
    state.vex_display_clip_region_set_with_index(1, 0, 40, 100, 200);
    let events = state.take_events();
    assert_eq!(events.len(), 1);
    assert!(matches!(
        &events[0],
        Event::Log { level: v5sim::protocol::LogLevel::Warn, .. }
    ));
    // the clip region did not move
    state.vex_display_rect(0, 0, 1, 1, true, false);
    let events = state.take_events();
    match &events[0] {
        Event::ScreenDraw { clip_region, .. } => assert_eq!(*clip_region, default_clip()),
        other => panic!("unexpected event {other:?}"),
    }
}

#[test]
fn render_forces_double_buffering_and_paints_header() {
    let mut state = SdkState::new(options());
    state.vex_display_render();
    let events = state.take_events();
    // mode change, header rectangle, header timer text, render
    assert_eq!(events.len(), 4);
    assert_eq!(events[0], Event::ScreenDoubleBufferMode { enable: true });
    match &events[1] {
        Event::ScreenDraw { command, color, .. } => {
            assert_eq!(
                *command,
                DrawCommand::Fill {
                    shape: Shape::Rectangle {
                        top_left: Point { x: 0, y: 0 },
                        bottom_right: Point { x: 480, y: 32 },
                    },
                }
            );
            assert_eq!(*color, Rgb { r: 0x00, g: 0x99, b: 0xcc });
        }
        other => panic!("unexpected event {other:?}"),
    }
    match &events[2] {
        Event::ScreenDraw { command, .. } => match command {
            DrawCommand::Write { text, opaque, .. } => {
                assert_eq!(text.data, "0:00");
                assert_eq!(text.font_family, V5FontFamily::TimerMono);
                assert_eq!(text.font_size, V5FontSize::Large);
                assert!(*opaque);
            }
            other => panic!("unexpected command {other:?}"),
        },
        other => panic!("unexpected event {other:?}"),
    }
    assert_eq!(events[3], Event::ScreenRender);
    // a second render emits no further mode event
    state.vex_display_render();
    let events = state.take_events();
    assert_eq!(events.len(), 3);
}

#[test]
fn draw_buffer_encodes_pixels_in_base64() {
    let mut display = Display::new(options());
    let mut out = Vec::new();
    display.draw_buffer(
        b"hi",
        Point { x: 0, y: 32 },
        Point { x: 1, y: 33 },
        480,
        &mut out,
    );
    assert_eq!(out.len(), 1);
    match &out[0] {
        Event::ScreenDraw { command, .. } => match command {
            DrawCommand::CopyBuffer { buffer, stride, .. } => {
                assert_eq!(buffer, "aGk=");
                assert_eq!(*stride, 480);
            }
            other => panic!("unexpected command {other:?}"),
        },
        other => panic!("unexpected event {other:?}"),
    }
}

#[test]
fn timer_text_formats_minutes_and_seconds() {
    assert_eq!(v5sim::numfmt::timer_string(0), "0:00");
    assert_eq!(v5sim::numfmt::timer_string(59), "0:59");
    assert_eq!(v5sim::numfmt::timer_string(60), "1:00");
    assert_eq!(v5sim::numfmt::timer_string(754), "12:34");
}
