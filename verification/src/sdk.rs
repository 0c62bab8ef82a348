//! The SDK root state and the guest-callable entry points: each function
//! here is the decision-and-state part of one jump-table call. Blocking,
//! sleeping and the engine itself stay outside; events to send are queued
//! on the state in emission order.

use vstd::assert_seqs_equal;
use vstd::prelude::*;

use crate::color::Rgb;
use crate::controller::Inputs;
use crate::display::Display;
use crate::memory::read_c_string;
use crate::options::ProgramOptions;
use crate::protocol::{
    base64_decoded, CompetitionMode, CompMode, Command, Event, Point, Protocol, ScrollLocation,
    Shape, TextLocation, TextMetrics, V5FontFamily, V5FontSize, V5Text,
};
use crate::serial::Serial;

verus! {

/// How a guest call or inbound command can fail inside the simulator.
#[derive(Debug, Clone, PartialEq, Eq)]
pub enum SdkError {
    /// A guest pointer or length reaches outside linear memory.
    ReadOutOfBounds,
    /// Guest text is not valid UTF-8.
    MalformedUtf8,
    /// A guest string runs to the end of memory without a NUL.
    CStringUnterminated,
    /// A copy-rect stride of zero.
    BadStride,
    /// A second `StartExecution` after execution began.
    StartedTwice,
    /// An inbound serial payload that does not decode.
    SerialDecodeFailed,
    /// An inbound serial payload for an undefined channel, or one that
    /// does not fit the input buffer.
    SerialBufferFailed,
    /// A controller update carrying a device UUID the input source cannot
    /// take.
    InvalidControllerUuid,
}

/// The monotonic high-resolution timer: reported readings never go
/// backwards, whatever the clock samples say.
pub struct HighResTimer {
    pub last_micros: u64,
}

/// One observation step: the reported time is the sample, or the previous
/// report when the sample lags behind it.
pub open spec fn spec_observe(last: u64, sample: u64) -> u64 {
    if sample > last {
        sample
    } else {
        last
    }
}

impl HighResTimer {
    pub fn new() -> (r: HighResTimer)
        ensures
            r.last_micros == 0,
    {
        HighResTimer { last_micros: 0 }
    }

    /// Report a clock sample, clamped to be monotone.
    pub fn observe(&mut self, sample_micros: u64) -> (r: u64)
        ensures
            r == spec_observe(old(self).last_micros, sample_micros),
            final(self).last_micros == r,
            r >= old(self).last_micros,
    {
        if sample_micros > self.last_micros {
            self.last_micros = sample_micros;
        }
        self.last_micros
    }
}

/// High-resolution time is monotone: of two consecutive readings, the
/// second is at least the first, whatever the two clock samples were.
pub proof fn lemma_high_res_time_monotonic(last: u64, s1: u64, s2: u64)
    ensures
        spec_observe(last, s1) <= spec_observe(spec_observe(last, s1), s2),
{
}

/// The status word of a competition mode: disabled, autonomous, connected
/// and field-control bits.
pub open spec fn spec_competition_status(m: CompetitionMode) -> u32 {
    ((if !m.enabled {
        1u32
    } else {
        0u32
    }) + (if m.mode == CompMode::Auto {
        2u32
    } else {
        0u32
    }) + (if m.connected {
        4u32
    } else {
        0u32
    }) + (if m.is_competition {
        8u32
    } else {
        0u32
    })) as u32
}

/// A reading of the host's monotonic clock, opaque to the simulation.
#[verifier::external_type_specification]
#[verifier::external_body]
pub struct ExInstant(std::time::Instant);

/// Relies on `Instant::now`: an opaque reading of the host's monotonic
/// clock; nothing is assumed of its value.
#[verifier::external_body]
pub fn instant_now() -> std::time::Instant {
    std::time::Instant::now()
}

/// Relies on `Instant::elapsed`: the microseconds since the instant, as
/// the clock reports them; nothing is assumed of the value.
#[verifier::external_body]
pub fn elapsed_micros(start: &std::time::Instant) -> u64 {
    let m = start.elapsed().as_micros();
    if m > u64::MAX as u128 {
        u64::MAX
    } else {
        m as u64
    }
}

/// Relies on `Instant::elapsed`: the whole seconds since the instant, as
/// the clock reports them; nothing is assumed of the value.
#[verifier::external_body]
pub fn elapsed_whole_secs(start: &std::time::Instant) -> u64 {
    start.elapsed().as_secs()
}

/// The state of the SDK: the peripherals, the program options, the
/// protocol receive state, the execution flag, and the queue of events
/// waiting to be sent to the frontend.
pub struct SdkState {
    pub program_options: ProgramOptions,
    pub display: Display,
    pub serial: Serial,
    pub inputs: Inputs,
    pub competition_mode: CompetitionMode,
    pub protocol: Protocol,
    pub is_executing: bool,
    pub timer: HighResTimer,
    pub program_start: std::time::Instant,
    pub events: Vec<Event>,
}

impl SdkState {
    pub open spec fn wf(&self) -> bool {
        self.serial.wf()
    }

    /// Fresh SDK state at program start: peripherals in their initial
    /// states, handshake pending, not yet executing, no queued events.
    pub fn new(program_options: ProgramOptions) -> (r: SdkState)
        ensures
            r.wf(),
            r.program_options == program_options,
            r.display.foreground_color == program_options.spec_default_fg_color(),
            r.display.background_color == program_options.spec_default_bg_color(),
            r.display.text_metrics_cache is None,
            !r.display.double_buffered,
            r.display.clip_region == crate::display::spec_default_clip_region(),
            r.serial.out_view() == Seq::<u8>::empty(),
            r.serial.in_view() == Seq::<u8>::empty(),
            r.inputs.primary is None,
            r.inputs.partner is None,
            r.competition_mode == CompetitionMode::spec_initial(),
            !r.protocol.handshake_finished,
            r.protocol.queue_view() == Seq::<Command>::empty(),
            !r.is_executing,
            r.timer.last_micros == 0,
            r.events@ == Seq::<Event>::empty(),
    {
        SdkState {
            program_options,
            display: Display::new(program_options),
            serial: Serial::new(),
            inputs: Inputs::new(),
            competition_mode: CompetitionMode::initial(),
            protocol: Protocol::open(),
            is_executing: false,
            timer: HighResTimer::new(),
            program_start: instant_now(),
            events: Vec::new(),
        }
    }

    /// Whether the simulator is in the execution phase.
    pub fn executing(&self) -> (r: bool)
        ensures
            r == self.is_executing,
    {
        self.is_executing
    }

    /// Queue the readiness event that opens the setup phase.
    pub fn begin_setup(&mut self)
        ensures
            *final(self) == (SdkState { events: final(self).events, ..*old(self) }),
            final(self).events@ == old(self).events@.push(Event::Ready),
    {
        self.events.push(Event::Ready);
    }

    /// Hand over the queued events for sending, oldest first, leaving the
    /// queue empty.
    pub fn take_events(&mut self) -> (r: Vec<Event>)
        ensures
            r@ == old(self).events@,
            *final(self) == (SdkState { events: final(self).events, ..*old(self) }),
            final(self).events@ == Seq::<Event>::empty(),
    {
        let mut drained: Vec<Event> = Vec::new();
        core::mem::swap(&mut drained, &mut self.events);
        drained
    }

    /// Route one inbound command to its peripheral. Commands for devices
    /// the simulator does not yet model are accepted and ignored.
    pub fn execute_command(&mut self, cmd: Command) -> (r: Result<(), SdkError>)
        requires
            old(self).wf(),
            !(cmd matches Command::Handshake { .. }),
        ensures
            final(self).wf(),
            final(self).events@ == old(self).events@,
            match cmd {
                Command::ControllerUpdate(p, q) => {
                    &&& *final(self) == (SdkState { inputs: final(self).inputs, ..*old(self) })
                    &&& if !crate::controller::spec_update_valid(p) {
                        r == Err::<(), SdkError>(SdkError::InvalidControllerUuid) && final(self).inputs.spec_slot(0) == old(self).inputs.spec_slot(0) && final(self).inputs.spec_slot(1) == old(self).inputs.spec_slot(1)
                    } else if !crate::controller::spec_update_valid(q) {
                        r == Err::<(), SdkError>(SdkError::InvalidControllerUuid) && final(self).inputs.spec_slot(0) == crate::controller::spec_slot_of_update(p) && final(self).inputs.spec_slot(1) == old(self).inputs.spec_slot(1)
                    } else {
                        r == Ok::<(), SdkError>(()) && final(self).inputs.spec_slot(0)
                            == crate::controller::spec_slot_of_update(p) && final(self).inputs.spec_slot(1) == crate::controller::spec_slot_of_update(q)
                    }
                },
                Command::CompetitionMode(m) => r == Ok::<(), SdkError>(()) && *final(self) == (
                SdkState { competition_mode: m, ..*old(self) }),
                Command::StartExecution => {
                    &&& *final(self) == (SdkState {
                        is_executing: final(self).is_executing,
                        ..*old(self)
                    })
                    &&& if old(self).is_executing {
                        r == Err::<(), SdkError>(SdkError::StartedTwice) && final(self).is_executing
                    } else {
                        r == Ok::<(), SdkError>(()) && final(self).is_executing
                    }
                },
                Command::SetTextMetrics { text, metrics } => {
                    &&& r == Ok::<(), SdkError>(())
                    &&& *final(self) == (SdkState { display: final(self).display, ..*old(self) })
                    &&& final(self).display == (crate::display::Display {
                        text_metrics_cache: Some((text, metrics)),
                        ..old(self).display
                    })
                },
                Command::Serial(data) => {
                    &&& *final(self) == (SdkState { serial: final(self).serial, ..*old(self) })
                    &&& final(self).serial.out_view() == old(self).serial.out_view()
                    &&& if data.channel == 1 {
                        match base64_decoded(data.data@) {
                            Some(bytes) => {
                                if old(self).serial.in_view().len() + bytes.len()
                                    <= crate::serial::STDIN_CAPACITY {
                                    r == Ok::<(), SdkError>(()) && final(self).serial.in_view()
                                        == old(self).serial.in_view() + bytes
                                } else {
                                    r == Err::<(), SdkError>(SdkError::SerialBufferFailed)
                                }
                            },
                            None => r == Err::<(), SdkError>(SdkError::SerialDecodeFailed) && final(self).serial.in_view() == old(self).serial.in_view(),
                        }
                    } else {
                        r == Err::<(), SdkError>(SdkError::SerialBufferFailed) && final(self).serial.in_view() == old(self).serial.in_view()
                    }
                },
                _ => r == Ok::<(), SdkError>(()) && *final(self) == *old(self),
            },
    {
        match cmd {
            Command::Handshake { .. } => Ok(()),
            Command::ControllerUpdate(p, q) => {
                let inputs = &mut self.inputs;
                match inputs.set_controller(0, p) {
                    Ok(()) => {},
                    Err(_) => {
                        return Err(SdkError::InvalidControllerUuid);
                    },
                }
                match inputs.set_controller(1, q) {
                    Ok(()) => {},
                    Err(_) => {
                        return Err(SdkError::InvalidControllerUuid);
                    },
                }
                Ok(())
            },
            Command::CompetitionMode(m) => {
                self.competition_mode = m;
                Ok(())
            },
            Command::StartExecution => {
                if self.is_executing {
                    return Err(SdkError::StartedTwice);
                }
                self.is_executing = true;
                Ok(())
            },
            Command::SetTextMetrics { text, metrics } => {
                self.display.set_metrics_cache(text, metrics);
                Ok(())
            },
            Command::Serial(data) => {
                if data.channel != 1 {
                    return Err(SdkError::SerialBufferFailed);
                }
                let bytes = match crate::protocol::base64_decode(data.data.as_str()) {
                    Some(b) => b,
                    None => {
                        return Err(SdkError::SerialDecodeFailed);
                    },
                };
                match self.serial.buffer_input(1, bytes.as_slice()) {
                    Ok(()) => Ok(()),
                    Err(_) => Err(SdkError::SerialBufferFailed),
                }
            },
            _ => Ok(()),
        }
    }

    /// The flush step of the task hook: drain buffered serial output into
    /// one queued event.
    pub fn flush_serial(&mut self)
        requires
            old(self).wf(),
        ensures
            final(self).wf() == old(self).wf(),
            final(self).serial.out_view() == Seq::<u8>::empty(),
            final(self).serial.in_view() == old(self).serial.in_view(),
            old(self).serial.out_view().len() == 0 ==> final(self).events@ == old(self).events@,
            old(self).serial.out_view().len() > 0 ==> {
                &&& final(self).events@.len() == old(self).events@.len() + 1
                &&& final(self).events@.subrange(0, old(self).events@.len() as int) == old(self).events@
                &&& final(self).events@.last() matches Event::Serial(sd)
                &&& sd.channel == 1
                &&& sd.data@ == crate::protocol::base64_of(old(self).serial.out_view())
            },
    {
        let serial = &mut self.serial;
        match serial.flush() {
            Some(ev) => {
                self.events.push(ev);
                proof {
                    assert_seqs_equal!(
                        self.events@.subrange(0, old(self).events@.len() as int),
                        old(self).events@
                    );
                }
            },
            None => {},
        }
    }

    /// The current competition status word.
    pub fn competition_status(&self) -> (r: u32)
        ensures
            r == spec_competition_status(self.competition_mode),
    {
        let m = self.competition_mode;
        let mut bits: u32 = 0;
        if !m.enabled {
            bits = bits + 1;
        }
        if matches!(m.mode, CompMode::Auto) {
            bits = bits + 2;
        }
        if m.connected {
            bits = bits + 4;
        }
        if m.is_competition {
            bits = bits + 8;
        }
        bits
    }

    /// The high-resolution time in microseconds since program start,
    /// clamped so that consecutive readings never decrease.
    pub fn high_res_time(&mut self) -> (r: u64)
        ensures
            r == spec_observe(old(self).timer.last_micros, r) && r >= old(self).timer.last_micros,
            final(self).timer.last_micros == r,
            *final(self) == (SdkState { timer: final(self).timer, ..*old(self) }),
    {
        let sample = elapsed_micros(&self.program_start);
        let timer = &mut self.timer;
        timer.observe(sample)
    }
}

/// The text a guest pointer denotes: the NUL-terminated bytes at `ptr`,
/// which must be valid UTF-8.
pub open spec fn spec_guest_text(mem: Seq<u8>, ptr: int) -> Option<Seq<char>> {
    match crate::memory::spec_c_str(mem, ptr) {
        Some(b) => if vstd::utf8::valid_utf8(b) {
            Some(vstd::utf8::decode_utf8(b))
        } else {
            None
        },
        None => None,
    }
}

impl SdkState {
    /// Read a guest string: the NUL-terminated, UTF-8 text at `ptr`.
    pub fn read_guest_text(&self, mem: &[u8], ptr: u32) -> (r: Result<String, SdkError>)
        ensures
            match r {
                Ok(s) => spec_guest_text(mem@, ptr as int) == Some(s@),
                Err(SdkError::CStringUnterminated) => crate::memory::spec_c_str(mem@, ptr as int)
                    is None,
                Err(SdkError::MalformedUtf8) => {
                    &&& crate::memory::spec_c_str(mem@, ptr as int) matches Some(b)
                    &&& !vstd::utf8::valid_utf8(b)
                },
                _ => false,
            },
    {
        let bytes = match read_c_string(mem, ptr as usize) {
            Some(b) => b,
            None => {
                return Err(SdkError::CStringUnterminated);
            },
        };
        match crate::numfmt::utf8_to_string(bytes.as_slice()) {
            Some(s) => Ok(s),
            None => Err(SdkError::MalformedUtf8),
        }
    }

    /// Set the foreground color from a packed color word.
    pub fn vex_display_foreground_color(&mut self, col: u32)
        ensures
            *final(self) == (SdkState { display: final(self).display, ..*old(self) }),
            final(self).display == (Display {
                foreground_color: crate::color::spec_unpack_color(col),
                ..old(self).display
            }),
    {
        self.display.foreground_color = Rgb::unpack(col);
    }

    /// Set the background color from a packed color word.
    pub fn vex_display_background_color(&mut self, col: u32)
        ensures
            *final(self) == (SdkState { display: final(self).display, ..*old(self) }),
            final(self).display == (Display {
                background_color: crate::color::spec_unpack_color(col),
                ..old(self).display
            }),
    {
        self.display.background_color = Rgb::unpack(col);
    }

    /// The packed foreground color word.
    pub fn vex_display_foreground_color_get(&self) -> (r: u32)
        ensures
            r == crate::color::spec_pack_color(self.display.foreground_color),
    {
        self.display.foreground_color.pack()
    }

    /// The packed background color word.
    pub fn vex_display_background_color_get(&self) -> (r: u32)
        ensures
            r == crate::color::spec_pack_color(self.display.background_color),
    {
        self.display.background_color.pack()
    }

    /// Queue a draw event for a shape in the display's current palette.
    pub fn display_draw(&mut self, shape: Shape, stroke: bool, erase: bool)
        ensures
            *final(self) == (SdkState { events: final(self).events, ..*old(self) }),
            final(self).events@ == old(self).events@.push(
                Event::ScreenDraw {
                    command: if stroke {
                        crate::protocol::DrawCommand::Stroke { shape }
                    } else {
                        crate::protocol::DrawCommand::Fill { shape }
                    },
                    color: if erase {
                        old(self).display.background_color
                    } else {
                        old(self).display.foreground_color
                    },
                    clip_region: old(self).display.clip_region,
                },
            ),
    {
        let display = &mut self.display;
        display.draw(shape, stroke, erase, &mut self.events);
    }

    /// Fill the whole display with the background color.
    pub fn vex_display_erase(&mut self)
        ensures
            *final(self) == (SdkState { events: final(self).events, ..*old(self) }),
            final(self).events@ == old(self).events@.push(
                Event::ScreenDraw {
                    command: crate::protocol::DrawCommand::Fill {
                        shape: Shape::Rectangle {
                            top_left: Point { x: 0, y: 0 },
                            bottom_right: Point {
                                x: crate::display::DISPLAY_WIDTH,
                                y: crate::display::DISPLAY_HEIGHT,
                            },
                        },
                    },
                    color: old(self).display.background_color,
                    clip_region: old(self).display.clip_region,
                },
            ),
    {
        let display = &mut self.display;
        display.erase(&mut self.events);
    }

    /// Scroll whole display lines.
    pub fn vex_display_scroll(&mut self, start_line: i32, n_lines: i32)
        ensures
            *final(self) == (SdkState { events: final(self).events, ..*old(self) }),
            final(self).events@ == old(self).events@.push(
                Event::ScreenScroll {
                    location: ScrollLocation::Line { line: start_line },
                    lines: n_lines,
                    background: old(self).display.background_color,
                    clip_region: old(self).display.clip_region,
                },
            ),
    {
        let display = &mut self.display;
        display.scroll(ScrollLocation::Line { line: start_line }, n_lines, &mut self.events);
    }

    /// Scroll a rectangle of the display.
    pub fn vex_display_scroll_rect(&mut self, x1: i32, y1: i32, x2: i32, y2: i32, n_lines: i32)
        ensures
            *final(self) == (SdkState { events: final(self).events, ..*old(self) }),
            final(self).events@ == old(self).events@.push(
                Event::ScreenScroll {
                    location: ScrollLocation::Rectangle {
                        top_left: Point { x: x1, y: y1 },
                        bottom_right: Point { x: x2, y: y2 },
                    },
                    lines: n_lines,
                    background: old(self).display.background_color,
                    clip_region: old(self).display.clip_region,
                },
            ),
    {
        let display = &mut self.display;
        display.scroll(
            ScrollLocation::Rectangle {
                top_left: Point { x: x1, y: y1 },
                bottom_right: Point { x: x2, y: y2 },
            },
            n_lines,
            &mut self.events,
        );
    }

    /// Set one pixel (or clear it to the background color).
    pub fn vex_display_pixel(&mut self, x: i32, y: i32, erase: bool)
        ensures
            *final(self) == (SdkState { events: final(self).events, ..*old(self) }),
            final(self).events@ == old(self).events@.push(
                Event::ScreenDraw {
                    command: crate::protocol::DrawCommand::Fill {
                        shape: Shape::Rectangle {
                            top_left: Point { x, y },
                            bottom_right: Point { x, y },
                        },
                    },
                    color: if erase {
                        old(self).display.background_color
                    } else {
                        old(self).display.foreground_color
                    },
                    clip_region: old(self).display.clip_region,
                },
            ),
    {
        self.display_draw(
            Shape::Rectangle { top_left: Point { x, y }, bottom_right: Point { x, y } },
            false,
            erase,
        );
    }

    /// Stroke (or erase) a line.
    pub fn vex_display_line(&mut self, x1: i32, y1: i32, x2: i32, y2: i32, erase: bool)
        ensures
            *final(self) == (SdkState { events: final(self).events, ..*old(self) }),
            final(self).events@ == old(self).events@.push(
                Event::ScreenDraw {
                    command: crate::protocol::DrawCommand::Stroke {
                        shape: Shape::Line {
                            start: Point { x: x1, y: y1 },
                            end: Point { x: x2, y: y2 },
                        },
                    },
                    color: if erase {
                        old(self).display.background_color
                    } else {
                        old(self).display.foreground_color
                    },
                    clip_region: old(self).display.clip_region,
                },
            ),
    {
        self.display_draw(
            Shape::Line { start: Point { x: x1, y: y1 }, end: Point { x: x2, y: y2 } },
            true,
            erase,
        );
    }

    /// Draw, clear or fill a rectangle: stroked for draw and clear, filled
    /// for fill; clearing paints in the background color.
    pub fn vex_display_rect(&mut self, x1: i32, y1: i32, x2: i32, y2: i32, stroke: bool, erase: bool)
        ensures
            *final(self) == (SdkState { events: final(self).events, ..*old(self) }),
            final(self).events@ == old(self).events@.push(
                Event::ScreenDraw {
                    command: if stroke {
                        crate::protocol::DrawCommand::Stroke {
                            shape: Shape::Rectangle {
                                top_left: Point { x: x1, y: y1 },
                                bottom_right: Point { x: x2, y: y2 },
                            },
                        }
                    } else {
                        crate::protocol::DrawCommand::Fill {
                            shape: Shape::Rectangle {
                                top_left: Point { x: x1, y: y1 },
                                bottom_right: Point { x: x2, y: y2 },
                            },
                        }
                    },
                    color: if erase {
                        old(self).display.background_color
                    } else {
                        old(self).display.foreground_color
                    },
                    clip_region: old(self).display.clip_region,
                },
            ),
    {
        self.display_draw(
            Shape::Rectangle {
                top_left: Point { x: x1, y: y1 },
                bottom_right: Point { x: x2, y: y2 },
            },
            stroke,
            erase,
        );
    }

    /// Draw, clear or fill a circle.
    pub fn vex_display_circle(&mut self, cx: i32, cy: i32, radius: u16, stroke: bool, erase: bool)
        ensures
            *final(self) == (SdkState { events: final(self).events, ..*old(self) }),
            final(self).events@ == old(self).events@.push(
                Event::ScreenDraw {
                    command: if stroke {
                        crate::protocol::DrawCommand::Stroke {
                            shape: Shape::Circle { center: Point { x: cx, y: cy }, radius },
                        }
                    } else {
                        crate::protocol::DrawCommand::Fill {
                            shape: Shape::Circle { center: Point { x: cx, y: cy }, radius },
                        }
                    },
                    color: if erase {
                        old(self).display.background_color
                    } else {
                        old(self).display.foreground_color
                    },
                    clip_region: old(self).display.clip_region,
                },
            ),
    {
        self.display_draw(Shape::Circle { center: Point { x: cx, y: cy }, radius }, stroke, erase);
    }

    /// Replace the clip region, clamped to the drawable area.
    pub fn vex_display_clip_region_set(&mut self, x1: i32, y1: i32, x2: i32, y2: i32)
        ensures
            *final(self) == (SdkState { display: final(self).display, ..*old(self) }),
            final(self).display == (Display {
                clip_region: crate::display::spec_clamped_clip_region(
                    x1 as int,
                    y1 as int,
                    x2 as int,
                    y2 as int,
                ),
                ..old(self).display
            }),
    {
        self.display.set_clip_region(x1, y1, x2, y2);
    }

    /// Replace the clip region through the indexed call: only index 0 is
    /// defined; any other index is reported in a warning event and
    /// ignored.
    pub fn vex_display_clip_region_set_with_index(
        &mut self,
        index: i32,
        x1: i32,
        y1: i32,
        x2: i32,
        y2: i32,
    )
        ensures
            index == 0 ==> *final(self) == (SdkState {
                display: final(self).display,
                ..*old(self)
            }) && final(self).display == (Display {
                clip_region: crate::display::spec_clamped_clip_region(
                    x1 as int,
                    y1 as int,
                    x2 as int,
                    y2 as int,
                ),
                ..old(self).display
            }),
            index != 0 ==> *final(self) == (SdkState { events: final(self).events, ..*old(self) })
                && final(self).events@.len() == old(self).events@.len() + 1
                && final(self).events@.subrange(0, old(self).events@.len() as int)
                == old(self).events@
                && (final(self).events@.last() matches Event::Log { level, message } && level
                == crate::protocol::LogLevel::Warn),
    {
        if index != 0 {
            self.events.push(
                Event::Log {
                    level: crate::protocol::LogLevel::Warn,
                    message: warn_clip_region_index_message(),
                },
            );
            proof {
                assert_seqs_equal!(
                    self.events@.subrange(0, old(self).events@.len() as int),
                    old(self).events@
                );
            }
            return ;
        }
        self.display.set_clip_region(x1, y1, x2, y2);
    }

    /// Force double-buffered mode and queue the render event, repainting
    /// the header with the current elapsed time: a mode event only on a
    /// transition, then the two header draws for some clock reading, then
    /// the render event, and nothing else.
    pub fn vex_display_render(&mut self)
        ensures
            final(self).display == (Display {
                double_buffered: true,
                last_font_size: V5FontSize::Large,
                ..old(self).display
            }),
            *final(self) == (SdkState {
                display: final(self).display,
                events: final(self).events,
                ..*old(self)
            }),
            final(self).events@.len() == old(self).events@.len() + 3
                + crate::display::spec_double_buffer_events(
                old(self).display.double_buffered,
                true,
            ).len(),
            final(self).events@.subrange(0, old(self).events@.len() as int) == old(self).events@,
            final(self).events@.subrange(
                old(self).events@.len() as int,
                old(self).events@.len() as int + crate::display::spec_double_buffer_events(
                    old(self).display.double_buffered,
                    true,
                ).len() as int,
            ) == crate::display::spec_double_buffer_events(old(self).display.double_buffered, true),
            exists|secs: u64|
                #[trigger] crate::display::spec_header_events_at(
                    old(self).display.clip_region,
                    secs,
                    final(self).events@,
                    old(self).events@.len() as int + crate::display::spec_double_buffer_events(
                        old(self).display.double_buffered,
                        true,
                    ).len() as int,
                ),
            final(self).events@.last() == Event::ScreenRender,
    {
        let secs = elapsed_whole_secs(&self.program_start);
        let display = &mut self.display;
        display.render(secs, &mut self.events);
        proof {
            assert(crate::display::spec_header_events_at(
                old(self).display.clip_region,
                secs,
                self.events@,
                old(self).events@.len() as int + crate::display::spec_double_buffer_events(
                    old(self).display.double_buffered,
                    true,
                ).len() as int,
            ));
        }
    }

    /// Leave double-buffered mode; the mode event is emitted only when
    /// the display was in it.
    pub fn vex_display_double_buffer_disable(&mut self)
        ensures
            final(self).display == (Display { double_buffered: false, ..old(self).display }),
            *final(self) == (SdkState {
                display: final(self).display,
                events: final(self).events,
                ..*old(self)
            }),
            final(self).events@ == old(self).events@ + crate::display::spec_double_buffer_events(
                old(self).display.double_buffered,
                false,
            ),
    {
        let display = &mut self.display;
        display.set_double_buffered(false, &mut self.events);
    }

    /// Write guest text at a location: the text is the NUL-terminated
    /// UTF-8 string at `format_ptr`, drawn in the given font.
    pub fn vex_display_write_text(
        &mut self,
        mem: &[u8],
        format_ptr: u32,
        at: TextLocation,
        opaque: bool,
        family: V5FontFamily,
        size: V5FontSize,
    ) -> (r: Result<(), SdkError>)
        ensures
            r matches Err(e) ==> *final(self) == *old(self) && (e == SdkError::CStringUnterminated
                || e == SdkError::MalformedUtf8) && spec_guest_text(mem@, format_ptr as int)
                is None,
            r matches Ok(()) ==> {
                &&& spec_guest_text(mem@, format_ptr as int) matches Some(chars)
                &&& final(self).display == (Display {
                    last_font_size: size,
                    ..old(self).display
                })
                &&& *final(self) == (SdkState {
                    display: final(self).display,
                    events: final(self).events,
                    ..*old(self)
                })
                &&& final(self).events@.len() == old(self).events@.len() + 1
                &&& final(self).events@.subrange(0, old(self).events@.len() as int) == old(self).events@
                &&& crate::display::spec_is_text_write_event(
                    final(self).events@.last(),
                    chars,
                    family,
                    size,
                    at,
                    opaque,
                    old(self).display,
                )
            },
    {
        let data = self.read_guest_text(mem, format_ptr)?;
        let text = V5Text { data, font_family: family, font_size: size };
        let display = &mut self.display;
        display.write(text, at, opaque, &mut self.events);
        proof {
            assert_seqs_equal!(
                self.events@.subrange(0, old(self).events@.len() as int),
                old(self).events@
            );
        }
        Ok(())
    }

    /// Measure guest text: answer from the one-slot cache, or queue one
    /// metrics request for exactly that text and answer nothing until the
    /// frontend's reply is installed.
    pub fn vex_display_text_metrics(&mut self, mem: &[u8], string_ptr: u32, family: V5FontFamily, size: V5FontSize) -> (r:
        Result<Option<TextMetrics>, SdkError>)
        ensures
            r matches Err(e) ==> *final(self) == *old(self) && (e == SdkError::CStringUnterminated
                || e == SdkError::MalformedUtf8) && spec_guest_text(mem@, string_ptr as int)
                is None,
            r matches Ok(m) ==> {
                &&& spec_guest_text(mem@, string_ptr as int) matches Some(chars)
                &&& m == old(self).display.spec_cache_lookup_chars(chars, family, size)
                &&& *final(self) == (SdkState { events: final(self).events, ..*old(self) })
                &&& m is Some ==> final(self).events@ == old(self).events@
                &&& m is None ==> final(self).events@.len() == old(self).events@.len() + 1
                    && final(self).events@.subrange(0, old(self).events@.len() as int)
                    == old(self).events@
                    && (final(self).events@.last() matches Event::TextMetricsRequest { text }
                        && text.data@ == chars && text.font_family == family && text.font_size
                        == size)
            },
    {
        let data = self.read_guest_text(mem, string_ptr)?;
        let text = V5Text { data, font_family: family, font_size: size };
        let display = &mut self.display;
        let m = display.get_text_metrics(&text, &mut self.events);
        proof {
            if m is None {
                assert_seqs_equal!(
                    self.events@.subrange(0, old(self).events@.len() as int),
                    old(self).events@
                );
            }
        }
        Ok(m)
    }

    /// Write one byte to a serial channel: the count written (one or
    /// zero), or the failure sentinel for an undefined channel.
    pub fn vex_serial_write_char(&mut self, channel: u32, c: u32) -> (r: i32)
        requires
            old(self).wf(),
        ensures
            final(self).wf(),
            *final(self) == (SdkState { serial: final(self).serial, ..*old(self) }),
            final(self).serial.in_view() == old(self).serial.in_view(),
            channel != 1 ==> r == -1 && final(self).serial.out_view() == old(self).serial.out_view(),
            channel == 1 && old(self).serial.out_view().len() < crate::serial::STDOUT_CAPACITY
                ==> r == 1 && final(self).serial.out_view() == old(self).serial.out_view().push(
                c as u8,
            ),
            channel == 1 && old(self).serial.out_view().len() == crate::serial::STDOUT_CAPACITY
                ==> r == 0 && final(self).serial.out_view() == old(self).serial.out_view(),
    {
        let buf: Vec<u8> = vec![c as u8];
        let serial = &mut self.serial;
        let r = match serial.write(channel, buf.as_slice()) {
            Ok(n) => n as i32,
            Err(_) => -1,
        };
        proof {
            if channel == 1 {
                if old(self).serial.out_view().len() < crate::serial::STDOUT_CAPACITY {
                    assert_seqs_equal!(
                        self.serial.out_view(),
                        old(self).serial.out_view().push(c as u8)
                    );
                } else {
                    assert_seqs_equal!(self.serial.out_view(), old(self).serial.out_view());
                }
            }
        }
        r
    }

    /// Write a guest buffer to a serial channel: the count actually
    /// buffered, or the failure sentinel for an undefined channel or a
    /// buffer that reaches outside guest memory.
    pub fn vex_serial_write_buffer(&mut self, mem: &[u8], channel: u32, data_ptr: u32, len: u32) -> (r:
        i32)
        requires
            old(self).wf(),
        ensures
            final(self).wf(),
            *final(self) == (SdkState { serial: final(self).serial, ..*old(self) }),
            final(self).serial.in_view() == old(self).serial.in_view(),
            data_ptr + len > mem@.len() ==> r == -1 && final(self).serial.out_view() == old(self).serial.out_view(),
            data_ptr + len <= mem@.len() && channel != 1 ==> r == -1 && final(self).serial.out_view() == old(self).serial.out_view(),
            data_ptr + len <= mem@.len() && channel == 1 ==> {
                let free = crate::serial::STDOUT_CAPACITY - old(self).serial.out_view().len();
                let n = if len <= free {
                    len as int
                } else {
                    free
                };
                &&& r == n
                &&& final(self).serial.out_view() == old(self).serial.out_view()
                    + mem@.subrange(data_ptr as int, data_ptr + n)
            },
    {
        if data_ptr as u64 + len as u64 > mem.len() as u64 {
            return -1;
        }
        let buf = vstd::slice::slice_subrange(mem, data_ptr as usize, data_ptr as usize + len as usize);
        let serial = &mut self.serial;
        match serial.write(channel, buf) {
            Ok(n) => {
                proof {
                    assert(mem@.subrange(data_ptr as int, data_ptr + len as int).subrange(
                        0,
                        (if len <= crate::serial::STDOUT_CAPACITY - old(self).serial.out_view().len() {
                            len as int
                        } else {
                            crate::serial::STDOUT_CAPACITY - old(self).serial.out_view().len()
                        }),
                    ) =~= mem@.subrange(
                        data_ptr as int,
                        data_ptr + (if len <= crate::serial::STDOUT_CAPACITY - old(self).serial.out_view().len() {
                            len as int
                        } else {
                            crate::serial::STDOUT_CAPACITY - old(self).serial.out_view().len()
                        }),
                    ));
                }
                n as i32
            },
            Err(_) => -1,
        }
    }

    /// Read the most recently buffered input byte, or the failure
    /// sentinel when there is none or the channel is undefined.
    pub fn vex_serial_read_char(&mut self, channel: u32) -> (r: i32)
        requires
            old(self).wf(),
        ensures
            final(self).wf(),
            *final(self) == (SdkState { serial: final(self).serial, ..*old(self) }),
            final(self).serial.out_view() == old(self).serial.out_view(),
            channel != 1 || old(self).serial.in_view().len() == 0 ==> r == -1 && final(self).serial.in_view() == old(self).serial.in_view(),
            channel == 1 && old(self).serial.in_view().len() > 0 ==> r == old(self).serial.in_view().last() as i32 && final(self).serial.in_view() == old(self).serial.in_view().drop_last(),
    {
        let serial = &mut self.serial;
        match serial.read_byte(channel) {
            Ok(b) => b as i32,
            Err(_) => -1,
        }
    }

    /// Look at the most recently buffered input byte without consuming
    /// it, or the failure sentinel.
    pub fn vex_serial_peek_char(&self, channel: u32) -> (r: i32)
        ensures
            channel != 1 || self.serial.in_view().len() == 0 ==> r == -1,
            channel == 1 && self.serial.in_view().len() > 0 ==> r == self.serial.in_view().last()
                as i32,
    {
        match self.serial.peek_byte(channel) {
            Ok(b) => b as i32,
            Err(_) => -1,
        }
    }

    /// The free room of the output buffer, or zero for an undefined
    /// channel.
    pub fn vex_serial_write_free(&self, channel: u32) -> (r: i32)
        requires
            self.wf(),
        ensures
            channel != 1 ==> r == 0,
            channel == 1 ==> r == crate::serial::STDOUT_CAPACITY - self.serial.out_view().len(),
    {
        match self.serial.num_free_bytes(channel) {
            Ok(f) => f as i32,
            Err(_) => 0,
        }
    }
}

/// The warning text for an unsupported clip-region index.
fn warn_clip_region_index_message() -> String {
    let mut s = String::new();
    s.append("vexDisplayClipRegionSetWithIndex: the only supported index is 0");
    s
}


impl SdkState {
    /// Format into channel-1 serial output: the count of bytes written,
    /// the failure sentinel on any formatting error or when the output
    /// cannot be buffered whole, or an unterminated-format error.
    pub fn vex_vprintf(&mut self, mem: &[u8], format_ptr: u32, args: u32) -> (r: Result<
        i32,
        SdkError,
    >)
        requires
            old(self).wf(),
        ensures
            final(self).wf(),
            final(self).serial.in_view() == old(self).serial.in_view(),
            final(self).events@ == old(self).events@,
            match crate::memory::spec_c_str(mem@, format_ptr as int) {
                None => r == Err::<i32, SdkError>(SdkError::CStringUnterminated) && final(self).serial.out_view() == old(self).serial.out_view(),
                Some(fmtb) => match crate::printf::parse::spec_format(fmtb, mem@, args as int) {
                    None => r == Ok::<i32, SdkError>(-1i32) && final(self).serial.out_view() == old(self).serial.out_view(),
                    Some(bytes) => {
                        if bytes.len() > i32::MAX {
                            r == Ok::<i32, SdkError>(-1i32) && final(self).serial.out_view() == old(self).serial.out_view()
                        } else if old(self).serial.out_view().len() + bytes.len()
                            <= crate::serial::STDOUT_CAPACITY {
                            r == Ok::<i32, SdkError>(bytes.len() as i32) && final(self).serial.out_view() == old(self).serial.out_view() + bytes
                        } else {
                            // what fit was buffered before the failure
                            r == Ok::<i32, SdkError>(-1i32) && final(self).serial.out_view()
                                == old(self).serial.out_view() + bytes.subrange(
                                0,
                                crate::serial::STDOUT_CAPACITY - old(
                                    self,
                                ).serial.out_view().len() as int,
                            )
                        }
                    },
                },
            },
    {
        let fmt = match crate::memory::read_c_string(mem, format_ptr as usize) {
            Some(f) => f,
            None => {
                return Err(SdkError::CStringUnterminated);
            },
        };
        let buf = match crate::printf::parse::format_bytes(fmt.as_slice(), mem, args) {
            Some(b) => b,
            None => {
                return Ok(-1);
            },
        };
        if buf.len() > i32::MAX as usize {
            return Ok(-1);
        }
        let serial = &mut self.serial;
        match serial.write_all(1, buf.as_slice()) {
            Ok(()) => Ok(buf.len() as i32),
            Err(_) => Ok(-1),
        }
    }

    /// Format into a guest buffer without a length bound: the count of
    /// bytes written, the failure sentinel on a formatting error, or an
    /// error when the format is unterminated or the buffer runs outside
    /// guest memory.
    pub fn vex_vsprintf(mem: &mut [u8], buffer: u32, format_ptr: u32, args: u32) -> (r: Result<
        i32,
        SdkError,
    >)
        ensures
            final(mem)@.len() == old(mem)@.len(),
            match crate::memory::spec_c_str(old(mem)@, format_ptr as int) {
                None => r == Err::<i32, SdkError>(SdkError::CStringUnterminated) && final(mem)@
                    == old(mem)@,
                Some(fmtb) => match crate::printf::parse::spec_format(
                    fmtb,
                    old(mem)@,
                    args as int,
                ) {
                    None => r == Ok::<i32, SdkError>(-1i32) && final(mem)@ == old(mem)@,
                    Some(bytes) => {
                        if bytes.len() > i32::MAX {
                            r == Ok::<i32, SdkError>(-1i32) && final(mem)@ == old(mem)@
                        } else if buffer + bytes.len() <= old(mem)@.len() {
                            r == Ok::<i32, SdkError>(bytes.len() as i32) && final(mem)@ == old(mem)@.subrange(0, buffer as int) + bytes + old(mem)@.subrange(
                                buffer + bytes.len(),
                                old(mem)@.len() as int,
                            )
                        } else {
                            r == Err::<i32, SdkError>(SdkError::ReadOutOfBounds) && final(mem)@
                                == old(mem)@
                        }
                    },
                },
            },
    {
        let fmt = match crate::memory::read_c_string(mem, format_ptr as usize) {
            Some(f) => f,
            None => {
                return Err(SdkError::CStringUnterminated);
            },
        };
        let buf = match crate::printf::parse::format_bytes(fmt.as_slice(), mem, args) {
            Some(b) => b,
            None => {
                return Ok(-1);
            },
        };
        if buf.len() > i32::MAX as usize {
            return Ok(-1);
        }
        if crate::memory::write_bytes(mem, buffer as usize, buf.as_slice()) {
            Ok(buf.len() as i32)
        } else {
            Err(SdkError::ReadOutOfBounds)
        }
    }

    /// Format into a guest buffer of bounded size: at most `size` bytes
    /// are stored, and the full formatted length is returned, not the
    /// stored prefix's.
    pub fn vex_vsnprintf(mem: &mut [u8], buffer: u32, size: u32, format_ptr: u32, args: u32) -> (r:
        Result<i32, SdkError>)
        ensures
            final(mem)@.len() == old(mem)@.len(),
            match crate::memory::spec_c_str(old(mem)@, format_ptr as int) {
                None => r == Err::<i32, SdkError>(SdkError::CStringUnterminated) && final(mem)@
                    == old(mem)@,
                Some(fmtb) => match crate::printf::parse::spec_format(
                    fmtb,
                    old(mem)@,
                    args as int,
                ) {
                    None => r == Ok::<i32, SdkError>(-1i32) && final(mem)@ == old(mem)@,
                    Some(bytes) => {
                        let n = if size <= bytes.len() {
                            size as int
                        } else {
                            bytes.len() as int
                        };
                        if bytes.len() > i32::MAX {
                            r == Ok::<i32, SdkError>(-1i32) && final(mem)@ == old(mem)@
                        } else if buffer + n <= old(mem)@.len() {
                            r == Ok::<i32, SdkError>(bytes.len() as i32) && final(mem)@ == old(mem)@.subrange(0, buffer as int) + bytes.subrange(0, n) + old(mem)@.subrange(buffer + n, old(mem)@.len() as int)
                        } else {
                            r == Err::<i32, SdkError>(SdkError::ReadOutOfBounds) && final(mem)@
                                == old(mem)@
                        }
                    },
                },
            },
    {
        let fmt = match crate::memory::read_c_string(mem, format_ptr as usize) {
            Some(f) => f,
            None => {
                return Err(SdkError::CStringUnterminated);
            },
        };
        let buf = match crate::printf::parse::format_bytes(fmt.as_slice(), mem, args) {
            Some(b) => b,
            None => {
                return Ok(-1);
            },
        };
        if buf.len() > i32::MAX as usize {
            return Ok(-1);
        }
        let n: usize = if (size as usize) <= buf.len() {
            size as usize
        } else {
            buf.len()
        };
        let part = vstd::slice::slice_subrange(buf.as_slice(), 0, n);
        if crate::memory::write_bytes(mem, buffer as usize, part) {
            Ok(buf.len() as i32)
        } else {
            Err(SdkError::ReadOutOfBounds)
        }
    }
}


impl SdkState {
    /// Copy a guest pixel buffer to the display: the buffer covers the
    /// rectangle's cells at four bytes each and is carried base64-encoded
    /// in one draw event. A zero stride, a malformed rectangle or a buffer
    /// outside guest memory is refused.
    pub fn vex_display_copy_rect(
        &mut self,
        mem: &[u8],
        x1: i32,
        y1: i32,
        x2: i32,
        y2: i32,
        buffer_ptr: u32,
        stride: u32,
    ) -> (r: Result<(), SdkError>)
        ensures
            r matches Err(e) ==> *final(self) == *old(self) && (e == SdkError::BadStride || e
                == SdkError::ReadOutOfBounds),
            r matches Ok(()) ==> {
                let len = (x2 - x1) * (y2 - y1) * 4;
                &&& x2 >= x1 && y2 >= y1
                &&& stride as u16 != 0
                &&& buffer_ptr + len <= mem@.len()
                &&& *final(self) == (SdkState { events: final(self).events, ..*old(self) })
                &&& final(self).events@.len() == old(self).events@.len() + 1
                &&& final(self).events@.subrange(0, old(self).events@.len() as int) == old(
                    self,
                ).events@
                &&& (final(self).events@.last() matches Event::ScreenDraw {
                    command,
                    color,
                    clip_region,
                } && (command matches crate::protocol::DrawCommand::CopyBuffer {
                    top_left,
                    bottom_right,
                    stride: st,
                    buffer,
                } && top_left == (Point { x: x1, y: y1 }) && bottom_right == (Point {
                    x: x2,
                    y: y2,
                }) && st == stride as u16 && buffer@ == crate::protocol::base64_of(
                    mem@.subrange(buffer_ptr as int, buffer_ptr + len),
                )) && color == old(self).display.foreground_color && clip_region == old(
                    self,
                ).display.clip_region)
            },
    {
        let stride16 = stride as u16;
        if stride16 == 0 {
            return Err(SdkError::BadStride);
        }
        if x2 < x1 || y2 < y1 {
            return Err(SdkError::ReadOutOfBounds);
        }
        let dx = (x2 as i64) - (x1 as i64);
        let dy = (y2 as i64) - (y1 as i64);
        proof {
            assert((dx as u128) * (dy as u128) <= 0x1_0000_0000u128 * 0x1_0000_0000u128)
                by (nonlinear_arith)
                requires
                    0 <= (dx as u128) <= 0x1_0000_0000u128,
                    0 <= (dy as u128) <= 0x1_0000_0000u128,
            ;
        }
        let len_u128: u128 = (dx as u128) * (dy as u128) * 4;
        if (buffer_ptr as u128) + len_u128 > mem.len() as u128 {
            return Err(SdkError::ReadOutOfBounds);
        }
        let len = len_u128 as usize;
        let buf = vstd::slice::slice_subrange(mem, buffer_ptr as usize, buffer_ptr as usize + len);
        proof {
            assert(len as int == (x2 - x1) * (y2 - y1) * 4);
        }
        let display = &mut self.display;
        display.draw_buffer(
            buf,
            Point { x: x1, y: y1 },
            Point { x: x2, y: y2 },
            stride16,
            &mut self.events,
        );
        Ok(())
    }
}


} // verus!
