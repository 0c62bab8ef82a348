//! The display subsystem: color state, clip region, double-buffer flag,
//! the one-slot text-metrics cache, and the draw operations, each of which
//! appends the protocol events it emits to a caller-supplied sink.

use vstd::assert_seqs_equal;
use vstd::prelude::*;

use crate::color::{spec_black, spec_header_bg, Rgb};
use crate::numfmt::{spec_timer_chars, timer_string};
use crate::options::ProgramOptions;
use crate::protocol::{
    base64_of, DrawCommand, Event, Point, Rect, ScrollLocation, Shape, TextLocation, TextMetrics,
    V5FontFamily, V5FontSize, V5Text,
};

verus! {

/// Height of the display in pixels.
pub const DISPLAY_HEIGHT: i32 = 272;

/// Width of the display in pixels.
pub const DISPLAY_WIDTH: i32 = 480;

/// Height of the reserved header strip at the top of the display.
pub const HEADER_HEIGHT: i32 = 32;

/// A value clamped into a closed interval.
pub open spec fn spec_clamp(v: int, lo: int, hi: int) -> int
    recommends
        lo <= hi,
{
    if v < lo {
        lo
    } else if v > hi {
        hi
    } else {
        v
    }
}

fn clamp_i32(v: i32, lo: i32, hi: i32) -> (r: i32)
    requires
        lo <= hi,
    ensures
        r as int == spec_clamp(v as int, lo as int, hi as int),
{
    if v < lo {
        lo
    } else if v > hi {
        hi
    } else {
        v
    }
}

/// The clip region a display starts with: everything below the header.
pub open spec fn spec_default_clip_region() -> Rect {
    Rect {
        top_left: Point { x: 0, y: HEADER_HEIGHT },
        bottom_right: Point { x: DISPLAY_WIDTH, y: DISPLAY_HEIGHT },
    }
}

/// The clip region that corners clamped to the drawable area give.
pub open spec fn spec_clamped_clip_region(x1: int, y1: int, x2: int, y2: int) -> Rect {
    Rect {
        top_left: Point {
            x: spec_clamp(x1, 0, DISPLAY_WIDTH as int) as i32,
            y: spec_clamp(y1, HEADER_HEIGHT as int, DISPLAY_HEIGHT as int) as i32,
        },
        bottom_right: Point {
            x: spec_clamp(x2, 0, DISPLAY_WIDTH as int) as i32,
            y: spec_clamp(y2, HEADER_HEIGHT as int, DISPLAY_HEIGHT as int) as i32,
        },
    }
}

/// The events one double-buffer toggle emits: the mode event on a
/// transition, nothing otherwise.
pub open spec fn spec_double_buffer_events(was: bool, enable: bool) -> Seq<Event> {
    if was == enable {
        Seq::<Event>::empty()
    } else {
        seq![Event::ScreenDoubleBufferMode { enable }]
    }
}

/// The filled header rectangle a header repaint opens with.
pub open spec fn spec_header_rect_event(clip: Rect) -> Event {
    Event::ScreenDraw {
        command: DrawCommand::Fill {
            shape: Shape::Rectangle {
                top_left: Point { x: 0, y: 0 },
                bottom_right: Point { x: DISPLAY_WIDTH, y: HEADER_HEIGHT },
            },
        },
        color: spec_header_bg(),
        clip_region: clip,
    }
}

/// Whether an event is the header's timer write: the `m:ss` text of the
/// elapsed time, centred on the header, in the header palette.
pub open spec fn spec_is_header_timer_event(ev: Event, elapsed_secs: u64, clip: Rect) -> bool {
    &&& ev matches Event::ScreenDraw { command, color, clip_region }
    &&& command matches DrawCommand::Write { text, location, opaque, background }
    &&& text.data@ == spec_timer_chars(elapsed_secs)
    &&& text.font_family == V5FontFamily::TimerMono
    &&& text.font_size == V5FontSize::Large
    &&& location == TextLocation::Coordinates { point: Point { x: (DISPLAY_WIDTH / 2) as i32, y: 3 } }
    &&& opaque
    &&& background == spec_black()
    &&& color == spec_header_bg()
    &&& clip_region == clip
}

/// Whether `evs[at]` and `evs[at + 1]` are the two events of a header
/// repaint under clip region `clip`.
pub open spec fn spec_header_events_at(clip: Rect, elapsed_secs: u64, evs: Seq<Event>, at: int) -> bool
    recommends
        0 <= at,
        at + 2 <= evs.len(),
{
    &&& evs[at] == spec_header_rect_event(clip)
    &&& spec_is_header_timer_event(evs[at + 1], elapsed_secs, clip)
}

/// Whether an event is a text write of the given characters, font,
/// location and opacity, in the palette and clip region of display `d`.
pub open spec fn spec_is_text_write_event(
    ev: Event,
    chars: Seq<char>,
    family: V5FontFamily,
    size: V5FontSize,
    at: TextLocation,
    opaque_flag: bool,
    d: Display,
) -> bool {
    &&& ev matches Event::ScreenDraw { command, color, clip_region }
    &&& command matches DrawCommand::Write { text, location, opaque, background }
    &&& text.data@ == chars
    &&& text.font_family == family
    &&& text.font_size == size
    &&& location == at
    &&& opaque == opaque_flag
    &&& background == d.background_color
    &&& color == d.foreground_color
    &&& clip_region == d.clip_region
}

/// The display state.
pub struct Display {
    /// The saved foreground color.
    pub foreground_color: Rgb,
    /// The saved background color.
    pub background_color: Rgb,
    pub program_options: ProgramOptions,
    /// One-slot cache of the most recent text-metrics reply.
    pub text_metrics_cache: Option<(V5Text, TextMetrics)>,
    /// The size of the most recently written text.
    pub last_font_size: V5FontSize,
    pub double_buffered: bool,
    pub clip_region: Rect,
}

impl Display {
    /// What the metrics cache answers for a text descriptor.
    pub open spec fn spec_cache_lookup(&self, text: V5Text) -> Option<TextMetrics> {
        match self.text_metrics_cache {
            Some((cached, metrics)) => if cached.spec_same(&text) {
                Some(metrics)
            } else {
                None
            },
            None => None,
        }
    }

    /// What the metrics cache answers for a text descriptor given as its
    /// characters, family and size.
    pub open spec fn spec_cache_lookup_chars(
        &self,
        chars: Seq<char>,
        family: V5FontFamily,
        size: V5FontSize,
    ) -> Option<TextMetrics> {
        match self.text_metrics_cache {
            Some((cached, metrics)) => if cached.data@ == chars && cached.font_family == family
                && cached.font_size == size {
                Some(metrics)
            } else {
                None
            },
            None => None,
        }
    }

    /// A fresh display: colors from the program options, empty cache,
    /// normal font, immediate (not double-buffered) mode, default clip.
    pub fn new(program_options: ProgramOptions) -> (r: Display)
        ensures
            r.foreground_color == program_options.spec_default_fg_color(),
            r.background_color == program_options.spec_default_bg_color(),
            r.program_options == program_options,
            r.text_metrics_cache is None,
            r.last_font_size == V5FontSize::Normal,
            !r.double_buffered,
            r.clip_region == spec_default_clip_region(),
    {
        Display {
            foreground_color: program_options.default_fg_color(),
            background_color: program_options.default_bg_color(),
            program_options,
            text_metrics_cache: None,
            last_font_size: V5FontSize::Normal,
            double_buffered: false,
            clip_region: Rect {
                top_left: Point { x: 0, y: HEADER_HEIGHT },
                bottom_right: Point { x: DISPLAY_WIDTH, y: DISPLAY_HEIGHT },
            },
        }
    }

    /// Emit a draw event for a shape: stroked or filled, in the current
    /// foreground color, or the background color when erasing; clipped to
    /// the current clip region.
    pub fn draw(&mut self, shape: Shape, stroke: bool, erase: bool, out: &mut Vec<Event>)
        ensures
            *final(self) == *old(self),
            final(out)@ == old(out)@.push(
                Event::ScreenDraw {
                    command: if stroke {
                        DrawCommand::Stroke { shape }
                    } else {
                        DrawCommand::Fill { shape }
                    },
                    color: if erase {
                        old(self).background_color
                    } else {
                        old(self).foreground_color
                    },
                    clip_region: old(self).clip_region,
                },
            ),
    {
        out.push(
            Event::ScreenDraw {
                command: if stroke {
                    DrawCommand::Stroke { shape }
                } else {
                    DrawCommand::Fill { shape }
                },
                color: if erase {
                    self.background_color
                } else {
                    self.foreground_color
                },
                clip_region: self.clip_region,
            },
        );
    }

    /// Emit a text-write event and remember the text's font size. The
    /// event carries the current background color for opaque writes.
    pub fn write(&mut self, text: V5Text, location: TextLocation, opaque: bool, out: &mut Vec<
        Event,
    >)
        ensures
            *final(self) == (Display { last_font_size: text.font_size, ..*old(self) }),
            final(out)@ == old(out)@.push(
                Event::ScreenDraw {
                    command: DrawCommand::Write {
                        text,
                        location,
                        opaque,
                        background: old(self).background_color,
                    },
                    color: old(self).foreground_color,
                    clip_region: old(self).clip_region,
                },
            ),
    {
        self.last_font_size = text.font_size;
        out.push(
            Event::ScreenDraw {
                command: DrawCommand::Write {
                    text,
                    location,
                    opaque,
                    background: self.background_color,
                },
                color: self.foreground_color,
                clip_region: self.clip_region,
            },
        );
    }

    /// Erase the whole display: fill it with the background color.
    pub fn erase(&mut self, out: &mut Vec<Event>)
        ensures
            *final(self) == *old(self),
            final(out)@ == old(out)@.push(
                Event::ScreenDraw {
                    command: DrawCommand::Fill {
                        shape: Shape::Rectangle {
                            top_left: Point { x: 0, y: 0 },
                            bottom_right: Point { x: DISPLAY_WIDTH, y: DISPLAY_HEIGHT },
                        },
                    },
                    color: old(self).background_color,
                    clip_region: old(self).clip_region,
                },
            ),
    {
        self.draw(
            Shape::Rectangle {
                top_left: Point { x: 0, y: 0 },
                bottom_right: Point { x: DISPLAY_WIDTH, y: DISPLAY_HEIGHT },
            },
            false,
            true,
            out,
        );
    }

    /// Emit a scroll event for a line range or rectangle, with the
    /// current background color filling the exposed pixels.
    pub fn scroll(&mut self, location: ScrollLocation, lines: i32, out: &mut Vec<Event>)
        ensures
            *final(self) == *old(self),
            final(out)@ == old(out)@.push(
                Event::ScreenScroll {
                    location,
                    lines,
                    background: old(self).background_color,
                    clip_region: old(self).clip_region,
                },
            ),
    {
        out.push(
            Event::ScreenScroll {
                location,
                lines,
                background: self.background_color,
                clip_region: self.clip_region,
            },
        );
    }

    /// Emit a copy-buffer draw event for raw pixel bytes; the payload is
    /// carried in the standard base64 alphabet.
    pub fn draw_buffer(
        &mut self,
        buf: &[u8],
        top_left: Point,
        bottom_right: Point,
        stride: u16,
        out: &mut Vec<Event>,
    )
        ensures
            *final(self) == *old(self),
            final(out)@.len() == old(out)@.len() + 1,
            final(out)@.subrange(0, old(out)@.len() as int) == old(out)@,
            final(out)@.last() matches Event::ScreenDraw { command, color, clip_region } && {
                &&& command matches DrawCommand::CopyBuffer {
                    top_left: tl,
                    bottom_right: br,
                    stride: st,
                    buffer,
                }
                &&& tl == top_left
                &&& br == bottom_right
                &&& st == stride
                &&& buffer@ == base64_of(buf@)
                &&& color == old(self).foreground_color
                &&& clip_region == old(self).clip_region
            },
    {
        let buffer = crate::protocol::base64_encode(buf);
        out.push(
            Event::ScreenDraw {
                command: DrawCommand::CopyBuffer { top_left, bottom_right, stride, buffer },
                color: self.foreground_color,
                clip_region: self.clip_region,
            },
        );
        proof {
            assert_seqs_equal!(out@.subrange(0, old(out)@.len() as int), old(out)@);
        }
    }

    /// Switch double-buffered mode; the mode event is emitted only on a
    /// transition, so repeating a setting emits nothing more.
    pub fn set_double_buffered(&mut self, enable: bool, out: &mut Vec<Event>)
        ensures
            *final(self) == (Display { double_buffered: enable, ..*old(self) }),
            final(out)@ == old(out)@ + spec_double_buffer_events(old(self).double_buffered, enable),
    {
        if self.double_buffered == enable {
            proof {
                assert_seqs_equal!(
                    out@,
                    old(out)@ + spec_double_buffer_events(old(self).double_buffered, enable)
                );
            }
            return ;
        }
        self.double_buffered = enable;
        out.push(Event::ScreenDoubleBufferMode { enable });
        proof {
            assert_seqs_equal!(
                out@,
                old(out)@ + spec_double_buffer_events(old(self).double_buffered, enable)
            );
        }
    }

    /// Paint the header strip: a filled rectangle in the header color and
    /// the centred `m:ss` timer text, leaving the saved colors unchanged.
    pub fn draw_header(&mut self, elapsed_secs: u64, out: &mut Vec<Event>)
        ensures
            *final(self) == (Display { last_font_size: V5FontSize::Large, ..*old(self) }),
            final(out)@.len() == old(out)@.len() + 2,
            final(out)@.subrange(0, old(out)@.len() as int) == old(out)@,
            spec_header_events_at(
                old(self).clip_region,
                elapsed_secs,
                final(out)@,
                old(out)@.len() as int,
            ),
    {
        let saved_fg = self.foreground_color;
        let saved_bg = self.background_color;
        self.foreground_color = crate::color::header_bg();
        self.background_color = crate::color::black();
        self.draw(
            Shape::Rectangle {
                top_left: Point { x: 0, y: 0 },
                bottom_right: Point { x: DISPLAY_WIDTH, y: HEADER_HEIGHT },
            },
            false,
            false,
            out,
        );
        let text = V5Text {
            data: timer_string(elapsed_secs),
            font_family: V5FontFamily::TimerMono,
            font_size: V5FontSize::Large,
        };
        self.write(
            text,
            TextLocation::Coordinates { point: Point { x: DISPLAY_WIDTH / 2, y: 3 } },
            true,
            out,
        );
        self.foreground_color = saved_fg;
        self.background_color = saved_bg;
        proof {
            assert_seqs_equal!(out@.subrange(0, old(out)@.len() as int), old(out)@);
        }
    }

    /// Force double-buffered mode, repaint the header, and emit the
    /// render event.
    pub fn render(&mut self, elapsed_secs: u64, out: &mut Vec<Event>)
        ensures
            *final(self) == (Display {
                double_buffered: true,
                last_font_size: V5FontSize::Large,
                ..*old(self)
            }),
            final(out)@.len() == old(out)@.len() + 3 + spec_double_buffer_events(
                old(self).double_buffered,
                true,
            ).len(),
            final(out)@.subrange(0, old(out)@.len() as int) == old(out)@,
            final(out)@.subrange(
                old(out)@.len() as int,
                old(out)@.len() as int + spec_double_buffer_events(
                    old(self).double_buffered,
                    true,
                ).len() as int,
            ) == spec_double_buffer_events(old(self).double_buffered, true),
            spec_header_events_at(
                old(self).clip_region,
                elapsed_secs,
                final(out)@,
                old(out)@.len() as int + spec_double_buffer_events(
                    old(self).double_buffered,
                    true,
                ).len() as int,
            ),
            final(out)@.last() == Event::ScreenRender,
    {
        self.set_double_buffered(true, out);
        let ghost out1 = out@;
        self.draw_header(elapsed_secs, out);
        let ghost out2 = out@;
        out.push(Event::ScreenRender);
        proof {
            let dbe = spec_double_buffer_events(old(self).double_buffered, true);
            let k = dbe.len() as int;
            let n = old(out)@.len() as int;
            assert(out1 == old(out)@ + dbe);
            assert(out2.subrange(0, n + k) == out1);
            assert(out@ == out2.push(Event::ScreenRender));
            assert forall|i: int| 0 <= i < n + k implies out2[i] == out1[i] by {
                assert(out2.subrange(0, n + k)[i] == out1[i]);
            }
            assert_seqs_equal!(out@.subrange(0, n), old(out)@);
            assert_seqs_equal!(out@.subrange(n, n + k), dbe);
            assert(out2[n + k] == out@[n + k] && out2[n + k + 1] == out@[n + k + 1]);
        }
    }

    /// Answer a text-metrics query from the one-slot cache; on a miss,
    /// emit one metrics-request event and answer nothing. The caller then
    /// waits for the frontend's `SetTextMetrics` reply and installs it
    /// with [`Display::set_metrics_cache`].
    pub fn get_text_metrics(&mut self, text: &V5Text, out: &mut Vec<Event>) -> (r: Option<
        TextMetrics,
    >)
        ensures
            *final(self) == *old(self),
            r == old(self).spec_cache_lookup(*text),
            r is Some ==> final(out)@ == old(out)@,
            r is None ==> final(out)@ == old(out)@.push(Event::TextMetricsRequest { text: *text }),
    {
        match &self.text_metrics_cache {
            Some((cached, metrics)) => {
                if cached.same(text) {
                    return Some(*metrics);
                }
            },
            None => {},
        }
        out.push(Event::TextMetricsRequest { text: text.duplicate() });
        None
    }

    /// Install a text-metrics reply into the one-slot cache.
    pub fn set_metrics_cache(&mut self, text: V5Text, metrics: TextMetrics)
        ensures
            *final(self) == (Display { text_metrics_cache: Some((text, metrics)), ..*old(self) }),
    {
        self.text_metrics_cache = Some((text, metrics));
    }

    /// Replace the clip region, clamping both corners to the drawable
    /// area below the header.
    pub fn set_clip_region(&mut self, x1: i32, y1: i32, x2: i32, y2: i32)
        ensures
            *final(self) == (Display {
                clip_region: spec_clamped_clip_region(x1 as int, y1 as int, x2 as int, y2 as int),
                ..*old(self)
            }),
    {
        self.clip_region = Rect {
            top_left: Point {
                x: clamp_i32(x1, 0, DISPLAY_WIDTH),
                y: clamp_i32(y1, HEADER_HEIGHT, DISPLAY_HEIGHT),
            },
            bottom_right: Point {
                x: clamp_i32(x2, 0, DISPLAY_WIDTH),
                y: clamp_i32(y2, HEADER_HEIGHT, DISPLAY_HEIGHT),
            },
        };
    }
}

/// Doubling a double-buffer toggle changes nothing more: two successive
/// toggles to one value emit at most one mode event between them, and the
/// second emits none at all.
pub proof fn lemma_double_buffer_toggle_idempotent(was: bool, enable: bool)
    ensures
        spec_double_buffer_events(was, enable).len() + spec_double_buffer_events(
            enable,
            enable,
        ).len() <= 1,
        spec_double_buffer_events(enable, enable).len() == 0,
{
}

/// The text-metrics cache coalesces equal queries: once a reply for `t`
/// is installed, a lookup of `t` hits the cache, so of two consecutive
/// queries for equal text only the first can emit a request.
pub proof fn lemma_text_metrics_cache_hit(d: Display, t: V5Text, m: TextMetrics)
    ensures
        (Display { text_metrics_cache: Some((t, m)), ..d }).spec_cache_lookup(t) == Some(m),
{
}

/// The number of metrics requests one query for `t` emits: one on a cache
/// miss, none on a hit.
pub open spec fn spec_metrics_requests(d: Display, t: V5Text) -> int {
    if d.spec_cache_lookup(t) is Some {
        0
    } else {
        1
    }
}

/// Two consecutive queries for equal text emit at most one metrics
/// request between them, from any starting cache: a hit emits none and
/// leaves the cache as it was, and a miss emits one whose installed reply
/// makes the second query a hit.
pub proof fn lemma_text_metrics_two_queries(d: Display, t: V5Text, m: TextMetrics)
    ensures
        d.spec_cache_lookup(t) is Some ==> spec_metrics_requests(d, t) + spec_metrics_requests(
            d,
            t,
        ) == 0,
        d.spec_cache_lookup(t) is None ==> spec_metrics_requests(d, t) + spec_metrics_requests(
            Display { text_metrics_cache: Some((t, m)), ..d },
            t,
        ) == 1,
{
}

} // verus!
