//! The frontend protocol: the commands the frontend sends, the events the
//! simulator emits, and the replay-queue state machine that lets a host
//! callback wait for one matching command without losing the others.
//!
//! The line-delimited JSON transport itself lives outside the library;
//! these functions decide what each received command means.

use vstd::assert_seqs_equal;
use vstd::prelude::*;

verus! {

/// A point on the display, origin at the top left.
#[derive(Debug, Clone, Copy, PartialEq, Eq, Structural)]
pub struct Point {
    pub x: i32,
    pub y: i32,
}

/// An axis-aligned rectangle given by two corners.
#[derive(Debug, Clone, Copy, PartialEq, Eq, Structural)]
pub struct Rect {
    pub top_left: Point,
    pub bottom_right: Point,
}

/// A touch-screen event kind.
#[derive(Debug, Clone, Copy, PartialEq, Eq, Structural)]
pub enum TouchEvent {
    Released,
    Pressed,
    Held,
}

/// The current stage of a competition.
#[derive(Debug, Clone, Copy, PartialEq, Eq, Structural)]
pub enum CompMode {
    Auto,
    Driver,
}

/// The competition status record the frontend drives.
#[derive(Debug, Clone, Copy, PartialEq, Eq, Structural)]
pub struct CompetitionMode {
    pub enabled: bool,
    pub connected: bool,
    pub mode: CompMode,
    pub is_competition: bool,
}

impl CompetitionMode {
    /// The state before the frontend has sent any: enabled driver mode,
    /// not connected, not in a competition.
    pub open spec fn spec_initial() -> CompetitionMode {
        CompetitionMode { enabled: true, connected: false, mode: CompMode::Driver, is_competition: false }
    }

    pub fn initial() -> (r: CompetitionMode)
        ensures
            r == CompetitionMode::spec_initial(),
    {
        CompetitionMode { enabled: true, connected: false, mode: CompMode::Driver, is_competition: false }
    }
}

/// The raw state of a V5 controller.
#[derive(Debug, Clone, Copy, PartialEq, Eq, Structural)]
pub struct ControllerState {
    pub axis1: i32,
    pub axis2: i32,
    pub axis3: i32,
    pub axis4: i32,
    pub button_l1: bool,
    pub button_l2: bool,
    pub button_r1: bool,
    pub button_r2: bool,
    pub button_up: bool,
    pub button_down: bool,
    pub button_left: bool,
    pub button_right: bool,
    pub button_x: bool,
    pub button_b: bool,
    pub button_y: bool,
    pub button_a: bool,
    pub button_sel: bool,
    pub battery_level: i32,
    pub button_all: bool,
    pub flags: i32,
    pub battery_capacity: i32,
}

impl ControllerState {
    /// The all-zero state a UUID-bound slot starts from.
    pub open spec fn spec_zeroed() -> ControllerState {
        ControllerState {
            axis1: 0,
            axis2: 0,
            axis3: 0,
            axis4: 0,
            button_l1: false,
            button_l2: false,
            button_r1: false,
            button_r2: false,
            button_up: false,
            button_down: false,
            button_left: false,
            button_right: false,
            button_x: false,
            button_b: false,
            button_y: false,
            button_a: false,
            button_sel: false,
            battery_level: 0,
            button_all: false,
            flags: 0,
            battery_capacity: 0,
        }
    }

    pub fn zeroed() -> (r: ControllerState)
        ensures
            r == ControllerState::spec_zeroed(),
    {
        ControllerState {
            axis1: 0,
            axis2: 0,
            axis3: 0,
            axis4: 0,
            button_l1: false,
            button_l2: false,
            button_r1: false,
            button_r2: false,
            button_up: false,
            button_down: false,
            button_left: false,
            button_right: false,
            button_x: false,
            button_b: false,
            button_y: false,
            button_a: false,
            button_sel: false,
            battery_level: 0,
            button_all: false,
            flags: 0,
            battery_capacity: 0,
        }
    }
}

/// How the frontend updates a controller slot.
#[derive(Debug, Clone, PartialEq, Eq)]
pub enum ControllerUpdate {
    /// A fixed snapshot of the controller's state.
    Raw(ControllerState),
    /// The UUID of a physical device the slot binds to.
    UUID(String),
}

/// The font family of a text descriptor.
#[derive(Debug, Clone, Copy, PartialEq, Eq, Structural)]
pub enum V5FontFamily {
    UserMono,
    TimerMono,
}

/// The font size of a text descriptor.
#[derive(Debug, Clone, Copy, PartialEq, Eq, Structural)]
pub enum V5FontSize {
    Small,
    Normal,
    Large,
}

/// A full text descriptor: the string and how it is drawn.
#[derive(Debug, Clone, PartialEq, Eq)]
pub struct V5Text {
    pub data: String,
    pub font_family: V5FontFamily,
    pub font_size: V5FontSize,
}

impl V5Text {
    /// Descriptor equality: same characters, family and size.
    pub open spec fn spec_same(&self, other: &V5Text) -> bool {
        &&& self.data@ == other.data@
        &&& self.font_family == other.font_family
        &&& self.font_size == other.font_size
    }

    pub fn same(&self, other: &V5Text) -> (r: bool)
        ensures
            r == self.spec_same(other),
    {
        self.data == other.data && self.font_family == other.font_family && self.font_size
            == other.font_size
    }

    /// An owned copy equal to this descriptor.
    pub fn duplicate(&self) -> (r: V5Text)
        ensures
            r == *self,
    {
        V5Text { data: self.data.clone(), font_family: self.font_family, font_size: self.font_size }
    }
}

/// The measured size of a rendered text.
#[derive(Debug, Clone, Copy, PartialEq, Eq, Structural)]
pub struct TextMetrics {
    pub width: usize,
    pub height: usize,
}

/// Where a text write lands.
#[derive(Debug, Clone, Copy, PartialEq, Eq, Structural)]
pub enum TextLocation {
    Coordinates { point: Point },
    Line { line: i32 },
}

/// What region a scroll moves.
#[derive(Debug, Clone, Copy, PartialEq, Eq, Structural)]
pub enum ScrollLocation {
    Line { line: i32 },
    Rectangle { top_left: Point, bottom_right: Point },
}

/// A shape a draw command paints.
#[derive(Debug, Clone, Copy, PartialEq, Eq, Structural)]
pub enum Shape {
    Rectangle { top_left: Point, bottom_right: Point },
    Circle { center: Point, radius: u16 },
    Pixel { pos: Point },
    Line { start: Point, end: Point },
}

/// An instruction for drawing to the screen.
#[derive(Debug, Clone, PartialEq, Eq)]
pub enum DrawCommand {
    Fill { shape: Shape },
    Stroke { shape: Shape },
    CopyBuffer {
        top_left: Point,
        bottom_right: Point,
        stride: u16,
        /// The pixel bytes, in the standard base64 alphabet.
        buffer: String,
    },
    Write { text: V5Text, location: TextLocation, opaque: bool, background: crate::color::Rgb },
}

/// A serial payload on the wire: the bytes in the standard base64
/// alphabet, tagged with their channel.
#[derive(Debug, Clone, PartialEq, Eq)]
pub struct SerialData {
    pub channel: u32,
    pub data: String,
}

/// The importance of a log message.
#[derive(Debug, Clone, Copy, PartialEq, Eq, Structural)]
pub enum LogLevel {
    Trace,
    Info,
    Warn,
    Error,
}

/// An RJ9 "Smart" port number.
#[derive(Debug, Clone, Copy, PartialEq, Eq, Structural)]
pub struct SmartPort(pub u8);

/// A three-wire "ADI" port number.
#[derive(Debug, Clone, Copy, PartialEq, Eq, Structural)]
pub struct AdiPort(pub u8);

/// An arbitrary port.
#[derive(Debug, Clone, Copy, PartialEq, Eq, Structural)]
pub enum Port {
    Smart(SmartPort),
    Adi(AdiPort),
}

/// The mode of a VEXlink-configured radio.
#[derive(Debug, Clone, Copy, PartialEq, Eq, Structural)]
pub enum LinkMode {
    Manager,
    Worker,
}

/// The configuration of a simulated peripheral. Numeric parameters that
/// are floating point on the wire are carried as raw IEEE-754 bits.
#[derive(Debug, Clone, Copy, PartialEq, Eq, Structural)]
pub enum Device {
    Motor { physical_gearset: MotorGearset, moment_of_inertia_bits: u64 },
}

/// The gearset of a V5 motor.
#[derive(Debug, Clone, Copy, PartialEq, Eq, Structural)]
pub enum MotorGearset {
    Red,
    Green,
    Blue,
}

/// A message from the frontend to the simulator.
#[derive(Debug, Clone, PartialEq, Eq)]
pub enum Command {
    Handshake { version: i32, extensions: Vec<String> },
    Touch { pos: Point, event: TouchEvent },
    ControllerUpdate(Option<ControllerUpdate>, Option<ControllerUpdate>),
    USD { root: Option<String> },
    VEXLinkOpened { port: SmartPort, mode: LinkMode },
    VEXLinkClosed { port: SmartPort },
    CompetitionMode(CompetitionMode),
    ConfigureDevice { port: Port, device: Device },
    AdiInput { port: AdiPort, voltage_bits: u64 },
    StartExecution,
    SetBatteryCapacity { capacity_bits: u64 },
    SetTextMetrics { text: V5Text, metrics: TextMetrics },
    Serial(SerialData),
}

/// Base64-encoded program metadata.
#[derive(Debug, Clone, PartialEq, Eq)]
pub struct VCodeSig(pub String);

/// A message from the simulator to the frontend.
#[derive(Debug, Clone, PartialEq, Eq)]
pub enum Event {
    Handshake { version: i32, extensions: Vec<String> },
    ScreenDraw { command: DrawCommand, color: crate::color::Rgb, clip_region: Rect },
    ScreenScroll {
        location: ScrollLocation,
        lines: i32,
        background: crate::color::Rgb,
        clip_region: Rect,
    },
    ScreenDoubleBufferMode { enable: bool },
    ScreenRender,
    VCodeSig(VCodeSig),
    Ready,
    Serial(SerialData),
    Log { level: LogLevel, message: String },
    TextMetricsRequest { text: V5Text },
}

/// How a protocol interaction can fail.
#[derive(Debug, Clone, PartialEq, Eq)]
pub enum ProtocolError {
    /// Writing an event to the frontend failed.
    SendFailed,
    /// Reading a command from the frontend failed.
    RecvFailed,
    /// The background reader is gone.
    ReaderStopped,
    /// A command other than `Handshake` arrived before the handshake
    /// finished.
    InvalidCommandDuringHandshake { command: Command },
    /// A `Handshake` arrived after the handshake had finished.
    HandshakeAfterComplete,
    /// The frontend's protocol version is too old.
    IncompatibleVersion { expected: i32, got: i32 },
}

/// The protocol version this simulator speaks.
pub const PROTOCOL_VERSION: i32 = 1;

/// The characters the standard base64 alphabet encodes a byte string to,
/// with `=` padding.
pub uninterp spec fn base64_of(b: Seq<u8>) -> Seq<char>;

/// Relies on base64's `Engine::encode` with the `STANDARD` engine: the
/// encoding depends on the input bytes alone, an empty input encodes to
/// an empty text, and `Engine::decode` inverts it.
#[verifier::external_body]
pub fn base64_encode(b: &[u8]) -> (r: String)
    ensures
        r@ == base64_of(b@),
        b@.len() == 0 ==> r@.len() == 0,
        base64_decoded(r@) == Some(b@),
    {
    base64::Engine::encode(&base64::engine::general_purpose::STANDARD, b)
}

/// The bytes a text decodes to under the standard base64 alphabet, or
/// nothing when it is not valid base64.
pub uninterp spec fn base64_decoded(s: Seq<char>) -> Option<Seq<u8>>;

/// Relies on base64's `Engine::decode` with the `STANDARD` engine: the
/// decoding depends on the input text alone.
#[verifier::external_body]
pub fn base64_decode(s: &str) -> (r: Option<Vec<u8>>)
    ensures
        (r is Some) == (base64_decoded(s@) is Some),
        r matches Some(v) ==> Some(v@) == base64_decoded(s@),
{
    base64::Engine::decode(&base64::engine::general_purpose::STANDARD, s).ok()
}

/// A predicate a waited-for command must satisfy. Keeping the predicate
/// first-order lets the replay queue state exactly which commands pass.
#[derive(Debug, Clone, PartialEq, Eq)]
pub enum CommandPredicate {
    /// Matches `SetTextMetrics` whose text descriptor equals the given
    /// one.
    SetTextMetricsFor(V5Text),
}

impl CommandPredicate {
    /// Whether a command satisfies this predicate.
    pub open spec fn spec_matches(&self, cmd: &Command) -> bool {
        match self {
            CommandPredicate::SetTextMetricsFor(text) => match cmd {
                Command::SetTextMetrics { text: recv_text, .. } => text.spec_same(recv_text),
                _ => false,
            },
        }
    }

    pub fn matches(&self, cmd: &Command) -> (r: bool)
        ensures
            r == self.spec_matches(cmd),
    {
        match self {
            CommandPredicate::SetTextMetricsFor(text) => match cmd {
                Command::SetTextMetrics { text: recv_text, .. } => text.same(recv_text),
                _ => false,
            },
        }
    }
}

/// The protocol's receive-side state: whether the handshake finished, and
/// the FIFO of commands set aside while waiting for a matching one.
pub struct Protocol {
    pub handshake_finished: bool,
    pub command_process_queue: Vec<Command>,
}

/// One step of waiting for a matching command: a matching command is
/// returned, any other is appended to the replay queue.
pub open spec fn spec_wait_step(queue: Seq<Command>, cmd: Command, pred: CommandPredicate) -> (
    Option<Command>,
    Seq<Command>,
) {
    if pred.spec_matches(&cmd) {
        (Some(cmd), queue)
    } else {
        (None, queue.push(cmd))
    }
}

/// Waiting over a whole inbound sequence: commands are offered in order
/// until one matches.
pub open spec fn spec_wait_run(queue: Seq<Command>, inbound: Seq<Command>, pred: CommandPredicate) -> (
    Option<Command>,
    Seq<Command>,
)
    decreases inbound.len(),
{
    if inbound.len() == 0 {
        (None, queue)
    } else {
        let (r, q) = spec_wait_step(queue, inbound.first(), pred);
        match r {
            Some(c) => (Some(c), q),
            None => spec_wait_run(q, inbound.drop_first(), pred),
        }
    }
}

impl Protocol {
    pub open spec fn queue_view(&self) -> Seq<Command> {
        self.command_process_queue@
    }

    /// A fresh protocol: handshake pending, replay queue empty.
    pub fn open() -> (r: Protocol)
        ensures
            !r.handshake_finished,
            r.queue_view() == Seq::<Command>::empty(),
    {
        Protocol { handshake_finished: false, command_process_queue: Vec::new() }
    }

    /// Pop the next replayed command, if any is queued.
    pub fn next_queued(&mut self) -> (r: Option<Command>)
        ensures
            final(self).handshake_finished == old(self).handshake_finished,
            old(self).queue_view().len() == 0 ==> r is None && final(self).queue_view() == old(
                self,
            ).queue_view(),
            old(self).queue_view().len() > 0 ==> r == Some(old(self).queue_view().first())
                && final(self).queue_view() == old(self).queue_view().drop_first(),
    {
        if self.command_process_queue.len() == 0 {
            None
        } else {
            let cmd = self.command_process_queue.remove(0);
            proof {
                assert_seqs_equal!(
                    final(self).command_process_queue@,
                    old(self).command_process_queue@.drop_first()
                );
            }
            Some(cmd)
        }
    }

    /// Screen a freshly received command: a handshake after the handshake
    /// finished is an error, everything else passes through.
    pub fn accept_incoming(&self, cmd: Command) -> (r: Result<Command, ProtocolError>)
        ensures
            (self.handshake_finished && (cmd matches Command::Handshake { .. })) ==> r == Err::<
                Command,
                ProtocolError,
            >(ProtocolError::HandshakeAfterComplete),
            !(self.handshake_finished && (cmd matches Command::Handshake { .. })) ==> r == Ok::<
                Command,
                ProtocolError,
            >(cmd),
    {
        if self.handshake_finished && matches!(cmd, Command::Handshake { .. }) {
            Err(ProtocolError::HandshakeAfterComplete)
        } else {
            Ok(cmd)
        }
    }

    /// Mark the handshake complete without any exchange, as the
    /// implied-start flag asks.
    pub fn handshake_implied(&mut self)
        requires
            !old(self).handshake_finished,
        ensures
            final(self).handshake_finished,
            final(self).queue_view() == old(self).queue_view(),
    {
        self.handshake_finished = true;
    }

    /// Decide the handshake from the first received command: a compatible
    /// `Handshake` completes it and is answered with this simulator's own
    /// handshake event; anything else is fatal.
    pub fn handshake_step(&mut self, cmd: Command) -> (r: Result<Event, ProtocolError>)
        requires
            !old(self).handshake_finished,
        ensures
            final(self).queue_view() == old(self).queue_view(),
            match cmd {
                Command::Handshake { version, .. } => {
                    if version >= PROTOCOL_VERSION {
                        &&& r matches Ok(ev)
                        &&& ev matches Event::Handshake { version: v, extensions }
                        &&& v == PROTOCOL_VERSION
                        &&& extensions@.len() == 0
                        &&& final(self).handshake_finished
                    } else {
                        &&& r == Err::<Event, ProtocolError>(
                            ProtocolError::IncompatibleVersion {
                                expected: PROTOCOL_VERSION,
                                got: version,
                            },
                        )
                        &&& !final(self).handshake_finished
                    }
                },
                _ => {
                    &&& r == Err::<Event, ProtocolError>(
                        ProtocolError::InvalidCommandDuringHandshake { command: cmd },
                    )
                    &&& !final(self).handshake_finished
                },
            },
    {
        match cmd {
            Command::Handshake { version, extensions: _ } => {
                if version >= PROTOCOL_VERSION {
                    self.handshake_finished = true;
                    Ok(Event::Handshake { version: PROTOCOL_VERSION, extensions: Vec::new() })
                } else {
                    Err(
                        ProtocolError::IncompatibleVersion {
                            expected: PROTOCOL_VERSION,
                            got: version,
                        },
                    )
                }
            },
            other => Err(ProtocolError::InvalidCommandDuringHandshake { command: other }),
        }
    }

    /// Offer one received command to a pending wait: return it when it
    /// matches, otherwise set it aside on the replay queue.
    pub fn wait_step(&mut self, cmd: Command, pred: &CommandPredicate) -> (r: Option<Command>)
        ensures
            final(self).handshake_finished == old(self).handshake_finished,
            (r, final(self).queue_view()) == spec_wait_step(old(self).queue_view(), cmd, *pred),
    {
        if pred.matches(&cmd) {
            Some(cmd)
        } else {
            self.command_process_queue.push(cmd);
            None
        }
    }
}

/// Replay order: when exactly one command of an inbound sequence matches
/// the predicate, waiting returns that command, and the replay queue then
/// holds exactly the commands that arrived before it, in arrival order;
/// the commands after it were never taken from the stream.
pub proof fn lemma_wait_for_command_replay(
    queue: Seq<Command>,
    inbound: Seq<Command>,
    pred: CommandPredicate,
    i: int,
)
    requires
        0 <= i < inbound.len(),
        pred.spec_matches(&inbound[i]),
        forall|j: int| 0 <= j < i ==> !pred.spec_matches(&inbound[j]),
    ensures
        spec_wait_run(queue, inbound, pred) == (
            Some(inbound[i]),
            queue + inbound.subrange(0, i),
        ),
    decreases i,
{
    if i == 0 {
        assert(queue + inbound.subrange(0, 0) =~= queue);
    } else {
        let first = inbound.first();
        assert(!pred.spec_matches(&first));
        let rest = inbound.drop_first();
        assert(rest[i - 1] == inbound[i]);
        assert(forall|j: int| 0 <= j < i - 1 ==> rest[j] == inbound[j + 1]);
        lemma_wait_for_command_replay(queue.push(first), rest, pred, i - 1);
        assert(queue.push(first) + rest.subrange(0, i - 1) =~= queue + inbound.subrange(0, i));
    }
}

} // verus!
