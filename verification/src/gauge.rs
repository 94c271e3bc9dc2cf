//! The gauge's wire protocol: framing of the byte stream, decoding of
//! response frames, and detection of a completed measurement cycle.
use vstd::prelude::*;
use bytes::BytesMut;
use crate::hexstr::{encode_hex, hex_encoding};
use crate::wire::{buffer_byte, buffer_extend, buffer_len, buffer_split_to, buffered};
use crate::HexCommands;

verus! {

/// The status word with which the gauge reports a completed measurement.
pub const PLC_MEASUREMENT_COMPLETE: u16 = 2;

/// The shortest response that holds every measurement word: a header of 9
/// bytes, an end code of 2 and 22 data words.
pub const PLC_RESPONSE_MIN_LEN: usize = 55;

/// The length of a frame's header. Its last two bytes give the number of
/// bytes that follow the header.
pub const FRAME_HEADER_LEN: usize = 9;

/// A command for the gauge.
#[derive(Debug, Clone, Copy, PartialEq, Eq, Structural)]
pub enum HexCommand {
    /// Read the status and measurement words.
    Read,
    /// Clear the reset request.
    Write0,
    /// Raise the reset request, then clear it.
    Write,
}

/// The two values that the gauge reports for one line, in ten-thousandths.
#[derive(Debug, Clone, Copy, PartialEq, Eq, Structural)]
pub struct LineMeasurement {
    pub line_id: u16,
    pub value1: i32,
    pub value2: i32,
}

/// One decoded response of the gauge.
#[derive(Debug, Clone)]
pub struct GaugeResponse {
    /// The line that the response is about.
    pub active_line: u16,
    /// The whole frame as hexadecimal text.
    pub raw_data: String,
    /// Whether the gauge reports a completed measurement.
    pub plc_data_on: bool,
    /// The measurement words of the three lines.
    pub lines: [LineMeasurement; 3],
}

/// What a response holds, as plain values.
pub struct GaugeResponseView {
    pub active_line: u16,
    pub raw_data: Seq<char>,
    pub plc_data_on: bool,
    pub lines: Seq<LineMeasurement>,
}

impl View for GaugeResponse {
    type V = GaugeResponseView;

    open spec fn view(&self) -> GaugeResponseView {
        GaugeResponseView {
            active_line: self.active_line,
            raw_data: self.raw_data@,
            plc_data_on: self.plc_data_on,
            lines: self.lines@,
        }
    }
}

/// The unsigned 16-bit number whose little-endian bytes are `lo`, `hi`.
pub open spec fn le_u16(lo: u8, hi: u8) -> int {
    lo + 256 * hi
}

/// The signed 16-bit number whose little-endian bytes are `lo`, `hi`.
pub open spec fn le_i16(lo: u8, hi: u8) -> int {
    if hi >= 128 {
        le_u16(lo, hi) - 65536
    } else {
        le_u16(lo, hi)
    }
}

/// The measurement in the four bytes from `base`: a signed integer part and a
/// signed fractional part, combined into ten-thousandths.
pub open spec fn slot_value(bytes: Seq<u8>, base: int) -> int {
    le_i16(bytes[base], bytes[base + 1]) * 10000 + le_i16(bytes[base + 2], bytes[base + 3])
}

/// The measurement words of line `k + 1`, which start at byte `31 + 8 * k`.
pub open spec fn line_at(bytes: Seq<u8>, k: int) -> LineMeasurement {
    LineMeasurement {
        line_id: (k + 1) as u16,
        value1: slot_value(bytes, 31 + 8 * k) as i32,
        value2: slot_value(bytes, 35 + 8 * k) as i32,
    }
}

/// Whether a frame yields a response: it is long enough to hold every
/// measurement word, and its end code is zero.
pub open spec fn frame_accepted(bytes: Seq<u8>) -> bool {
    bytes.len() >= PLC_RESPONSE_MIN_LEN && le_u16(bytes[9], bytes[10]) == 0
}

/// The response that a frame decodes to, if any.
pub open spec fn decoded(bytes: Seq<u8>) -> Option<GaugeResponseView> {
    if frame_accepted(bytes) {
        Some(
            GaugeResponseView {
                active_line: le_u16(bytes[11], bytes[12]) as u16,
                raw_data: hex_encoding(bytes),
                plc_data_on: le_u16(bytes[13], bytes[14]) == PLC_MEASUREMENT_COMPLETE,
                lines: seq![line_at(bytes, 0), line_at(bytes, 1), line_at(bytes, 2)],
            },
        )
    } else {
        None
    }
}

/// Whether `response` is what `bytes` decodes to.
pub open spec fn decodes_to(bytes: Seq<u8>, response: Option<GaugeResponse>) -> bool {
    match response {
        Some(g) => decoded(bytes) == Some(g@),
        None => decoded(bytes) is None,
    }
}

fn read_u16(bytes: &Vec<u8>, at: usize) -> (v: u16)
    requires
        at + 1 < bytes.len(),
    ensures
        v == le_u16(bytes[at as int], bytes[at + 1]),
{
    let lo: u16 = bytes[at] as u16;
    let hi: u16 = bytes[at + 1] as u16;
    lo + 256 * hi
}

fn read_i16(bytes: &Vec<u8>, at: usize) -> (v: i16)
    requires
        at + 1 < bytes.len(),
    ensures
        v == le_i16(bytes[at as int], bytes[at + 1]),
{
    let u: u16 = read_u16(bytes, at);
    if u >= 32768 {
        (u as i32 - 65536) as i16
    } else {
        u as i16
    }
}

fn parse_value(bytes: &Vec<u8>, base: usize) -> (v: i32)
    requires
        base + 3 < bytes.len(),
    ensures
        v == slot_value(bytes@, base as int),
{
    let integer: i16 = read_i16(bytes, base);
    let fractional: i16 = read_i16(bytes, base + 2);
    integer as i32 * 10000 + fractional as i32
}

impl GaugeResponse {
    /// Decodes one frame. A frame that is too short to hold every
    /// measurement word, or whose end code is not zero, gives nothing.
    pub fn from_bytes(bytes: Vec<u8>) -> (r: Option<Self>)
        ensures
            decodes_to(bytes@, r),
    {
        if bytes.len() < 11 {
            return None;
        }
        let end_code: u16 = read_u16(&bytes, 9);
        if end_code != 0 {
            return None;
        }
        if bytes.len() < PLC_RESPONSE_MIN_LEN {
            return None;
        }
        let active_line: u16 = read_u16(&bytes, 11);
        let plc_data_on_raw: u16 = read_u16(&bytes, 13);
        let lines = [
            LineMeasurement {
                line_id: 1,
                value1: parse_value(&bytes, 31),
                value2: parse_value(&bytes, 35),
            },
            LineMeasurement {
                line_id: 2,
                value1: parse_value(&bytes, 39),
                value2: parse_value(&bytes, 43),
            },
            LineMeasurement {
                line_id: 3,
                value1: parse_value(&bytes, 47),
                value2: parse_value(&bytes, 51),
            },
        ];
        let response = GaugeResponse {
            active_line,
            raw_data: encode_hex(&bytes),
            plc_data_on: plc_data_on_raw == PLC_MEASUREMENT_COMPLETE,
            lines,
        };
        proof {
            assert(response@.lines =~= seq![
                line_at(bytes@, 0),
                line_at(bytes@, 1),
                line_at(bytes@, 2),
            ]);
        }
        Some(response)
    }
}

/// The total length of the frame at the front of a buffer that holds at
/// least a header.
pub open spec fn frame_len(buf: Seq<u8>) -> int {
    FRAME_HEADER_LEN + le_u16(buf[7], buf[8])
}

/// Whether a whole frame is buffered: the header, and the bytes that the
/// header announces.
pub open spec fn frame_ready(buf: Seq<u8>) -> bool {
    buf.len() >= FRAME_HEADER_LEN && buf.len() >= frame_len(buf)
}

/// The codec of a gauge connection. It keeps nothing between calls: what is
/// left of a frame stays in the buffer.
#[derive(Debug, Clone, Copy)]
pub struct McProtocolCodec;

impl McProtocolCodec {
    /// Takes one whole frame off the front of `src`, if one is buffered, and
    /// decodes it. Until a whole frame is buffered, `src` is left as it is.
    /// A frame that does not decode is taken off and dropped.
    pub fn decode(&mut self, src: &mut BytesMut) -> (r: Option<GaugeResponse>)
        ensures
            frame_ready(buffered(*old(src))) ==> {
                &&& buffered(*final(src)) == buffered(*old(src)).subrange(
                    frame_len(buffered(*old(src))),
                    buffered(*old(src)).len() as int,
                )
                &&& decodes_to(
                    buffered(*old(src)).subrange(0, frame_len(buffered(*old(src)))),
                    r,
                )
            },
            !frame_ready(buffered(*old(src))) ==> {
                &&& buffered(*final(src)) == buffered(*old(src))
                &&& r is None
            },
    {
        if buffer_len(src) < FRAME_HEADER_LEN {
            return None;
        }
        let lo: usize = buffer_byte(src, 7) as usize;
        let hi: usize = buffer_byte(src, 8) as usize;
        let length: usize = lo + 256 * hi;
        if buffer_len(src) < length + FRAME_HEADER_LEN {
            return None;
        }
        let data = buffer_split_to(src, length + FRAME_HEADER_LEN);
        GaugeResponse::from_bytes(data)
    }

    /// Appends a command's bytes to the outbound buffer, unchanged, if the
    /// buffer can take them: the result says whether it did. A buffer whose
    /// length would pass what a length can be is left as it is.
    pub fn try_encode(&mut self, item: &[u8], dst: &mut BytesMut) -> (fits: bool)
        ensures
            fits == (buffered(*old(dst)).len() + item@.len() <= usize::MAX),
            fits ==> buffered(*final(dst)) == buffered(*old(dst)) + item@,
            !fits ==> buffered(*final(dst)) == buffered(*old(dst)),
    {
        if item.len() <= usize::MAX - buffer_len(dst) {
            self.encode(item, dst);
            true
        } else {
            false
        }
    }

    /// Appends a command's bytes to the outbound buffer, unchanged. The
    /// buffer must be able to take them, which `try_encode` tests.
    pub fn encode(&mut self, item: &[u8], dst: &mut BytesMut)
        requires
            buffered(*old(dst)).len() + item@.len() <= usize::MAX,
        ensures
            buffered(*final(dst)) == buffered(*old(dst)) + item@,
    {
        buffer_extend(dst, item);
    }
}

/// One measurement, as it is handed to the batches of its machine.
#[derive(Debug, Clone, Copy, PartialEq, Eq, Structural)]
pub struct Measurement {
    /// The line, which is also the machine, that was measured.
    pub source_line_id: u16,
    /// The measured value in ten-thousandths.
    pub raw_value: i32,
    /// The state of the gauge's completion flag in the frame.
    pub completion_flag: bool,
}

/// The measurement that a response carries: the first value of its active
/// line, where that line is one of the three that a frame has words for.
pub open spec fn measurement_of(response: GaugeResponseView) -> Option<Measurement> {
    if 1 <= response.active_line <= 3 {
        Some(
            Measurement {
                source_line_id: response.active_line,
                raw_value: response.lines[response.active_line - 1].value1,
                completion_flag: response.plc_data_on,
            },
        )
    } else {
        None
    }
}

impl GaugeResponse {
    /// The measurement of the active line. A response whose active line is
    /// none of the three lines carries no measurement.
    pub fn measurement(&self) -> (m: Option<Measurement>)
        ensures
            m == measurement_of(self@),
    {
        if 1 <= self.active_line && self.active_line <= 3 {
            let k: usize = (self.active_line - 1) as usize;
            Some(
                Measurement {
                    source_line_id: self.active_line,
                    raw_value: self.lines[k].value1,
                    completion_flag: self.plc_data_on,
                },
            )
        } else {
            None
        }
    }
}

/// Whether the completion flag went from clear to set.
pub open spec fn rising_edge(before: bool, now: bool) -> bool {
    now && !before
}

/// The completion flag that was seen just before position `i` of `flags`,
/// where `initial` was seen before the first of them.
pub open spec fn flag_before(initial: bool, flags: Seq<bool>, i: int) -> bool {
    if i == 0 {
        initial
    } else {
        flags[i - 1]
    }
}

/// Watches the completion flag of the decoded frames of one connection, and
/// says for each frame whether it completes a measurement cycle.
#[derive(Debug, Clone, Copy)]
pub struct MeasurementRouter {
    last_plc_on: bool,
}

impl MeasurementRouter {
    /// The completion flag of the last frame seen.
    pub closed spec fn last_flag(&self) -> bool {
        self.last_plc_on
    }

    /// A router for a new connection: no completed measurement was seen yet.
    pub fn new() -> (router: Self)
        ensures
            !router.last_flag(),
    {
        MeasurementRouter { last_plc_on: false }
    }

    /// Takes the next decoded frame. On a rising edge of the completion flag
    /// the result is the reset request `HexCommand::Write`: the frame is to
    /// be published, and the request to be queued for the gauge. On any other
    /// frame the result is nothing, and nothing is to be done.
    pub fn observe(&mut self, response: &GaugeResponse) -> (command: Option<HexCommand>)
        ensures
            final(self).last_flag() == response.plc_data_on,
            command == if rising_edge(old(self).last_flag(), response.plc_data_on) {
                Some(HexCommand::Write)
            } else {
                None::<HexCommand>
            },
    {
        let rising = response.plc_data_on && !self.last_plc_on;
        self.last_plc_on = response.plc_data_on;
        if rising {
            Some(HexCommand::Write)
        } else {
            None
        }
    }

    /// Takes a run of decoded frames in order. The result says for each frame
    /// whether it is to be published: exactly the frames on which the flag
    /// rises, so one frame for each completed cycle.
    pub fn observe_all(&mut self, responses: &Vec<GaugeResponse>) -> (publish: Vec<bool>)
        ensures
            publish@.len() == responses@.len(),
            forall|i: int|
                0 <= i < responses@.len() ==> publish@[i] == rising_edge(
                    if i == 0 {
                        old(self).last_flag()
                    } else {
                        responses@[i - 1].plc_data_on
                    },
                    #[trigger] responses@[i].plc_data_on,
                ),
            final(self).last_flag() == if responses@.len() == 0 {
                old(self).last_flag()
            } else {
                responses@[responses@.len() - 1].plc_data_on
            },
    {
        let mut publish: Vec<bool> = Vec::new();
        let mut i: usize = 0;
        while i < responses.len()
            invariant
                i <= responses@.len(),
                publish@.len() == i,
                forall|j: int|
                    0 <= j < i ==> publish@[j] == rising_edge(
                        if j == 0 {
                            old(self).last_flag()
                        } else {
                            responses@[j - 1].plc_data_on
                        },
                        #[trigger] responses@[j].plc_data_on,
                    ),
                self.last_flag() == if i == 0 {
                    old(self).last_flag()
                } else {
                    responses@[i - 1].plc_data_on
                },
            decreases responses@.len() - i,
        {
            let command = self.observe(&responses[i]);
            publish.push(command.is_some());
            i = i + 1;
        }
        publish
    }
}

/// The frames that one queued command puts on the wire. A reset request is
/// two frames, the request and at once its release.
pub open spec fn command_frames(command: HexCommand, cmds: HexCommands) -> Seq<Seq<u8>> {
    match command {
        HexCommand::Write => seq![cmds.write_req_hex_1@, cmds.write_req_hex_0@],
        HexCommand::Write0 => seq![cmds.write_req_hex_0@],
        HexCommand::Read => Seq::<Seq<u8>>::empty(),
    }
}

/// The frames of a queue of commands, in the order of the queue.
pub open spec fn drained_frames(pending: Seq<HexCommand>, cmds: HexCommands) -> Seq<Seq<u8>>
    decreases pending.len(),
{
    if pending.len() == 0 {
        Seq::<Seq<u8>>::empty()
    } else {
        drained_frames(pending.drop_last(), cmds) + command_frames(pending.last(), cmds)
    }
}

/// The frames of one poll cycle: those of every queued command, then the
/// read request.
pub open spec fn poll_cycle(pending: Seq<HexCommand>, cmds: HexCommands) -> Seq<Seq<u8>> {
    drained_frames(pending, cmds).push(cmds.read_req_hex@)
}

/// The frames as plain byte sequences.
pub open spec fn frames_view(frames: Seq<Vec<u8>>) -> Seq<Seq<u8>> {
    frames.map_values(|f: Vec<u8>| f@)
}

fn copy_frame(frame: &Vec<u8>) -> (copy: Vec<u8>)
    ensures
        copy@ == frame@,
{
    frame.clone()
}

/// The frames to send in one poll cycle, in order: the queued write commands
/// are drained ahead of the read request, so that a reset never waits behind
/// a poll.
pub fn poll_frames(pending: &Vec<HexCommand>, cmds: &HexCommands) -> (frames: Vec<Vec<u8>>)
    ensures
        frames_view(frames@) == poll_cycle(pending@, *cmds),
{
    let mut frames: Vec<Vec<u8>> = Vec::new();
    let mut i: usize = 0;
    while i < pending.len()
        invariant
            i <= pending@.len(),
            frames_view(frames@) == drained_frames(pending@.take(i as int), *cmds),
        decreases pending@.len() - i,
    {
        match pending[i] {
            HexCommand::Write => {
                frames.push(copy_frame(&cmds.write_req_hex_1));
                frames.push(copy_frame(&cmds.write_req_hex_0));
            },
            HexCommand::Write0 => {
                frames.push(copy_frame(&cmds.write_req_hex_0));
            },
            HexCommand::Read => {},
        }
        assert(pending@.take(i + 1).drop_last() =~= pending@.take(i as int));
        i = i + 1;
    }
    assert(pending@.take(i as int) =~= pending@);
    frames.push(copy_frame(&cmds.read_req_hex));
    frames
}

/// The time between two read requests, in milliseconds.
pub const POLL_INTERVAL_MS: u64 = 200;

/// The time to wait before connecting again, in milliseconds.
pub const RECONNECT_BACKOFF_MS: u64 = 5000;

/// Where a gauge connection stands.
#[derive(Debug, Clone, Copy, PartialEq, Eq, Structural)]
pub enum LinkState {
    Disconnected,
    Connecting,
    Connected,
}

/// What happened to a gauge connection.
#[derive(Debug, Clone, Copy, PartialEq, Eq, Structural)]
pub enum LinkEvent {
    /// The link was started, or the backoff has passed.
    Ready,
    /// The connection was opened.
    ConnectSucceeded,
    /// The connection could not be opened.
    ConnectFailed,
    /// A send or a receive failed, or the stream ended.
    IoFailed,
}

/// What the owner of a gauge connection is to do next.
#[derive(Debug, Clone, Copy, PartialEq, Eq, Structural)]
pub enum LinkAction {
    /// Open the connection, and report how it went.
    Connect,
    /// Start polling and receiving over the new connection, with a fresh
    /// codec and a fresh router, and report the first failure.
    Poll,
    /// Drop the connection, wait `RECONNECT_BACKOFF_MS`, and report `Ready`.
    Backoff,
    /// The event does not belong to this state: do nothing.
    Ignore,
}

/// The state and the action that follow from an event.
pub open spec fn link_step(state: LinkState, event: LinkEvent) -> (LinkState, LinkAction) {
    match (state, event) {
        (LinkState::Disconnected, LinkEvent::Ready) => (LinkState::Connecting, LinkAction::Connect),
        (LinkState::Connecting, LinkEvent::ConnectSucceeded) => (
            LinkState::Connected,
            LinkAction::Poll,
        ),
        (LinkState::Connecting, LinkEvent::ConnectFailed) => (
            LinkState::Disconnected,
            LinkAction::Backoff,
        ),
        (LinkState::Connected, LinkEvent::IoFailed) => (
            LinkState::Disconnected,
            LinkAction::Backoff,
        ),
        _ => (state, LinkAction::Ignore),
    }
}

/// The life cycle of one gauge connection. It retries without end: every
/// failure leads back to `Disconnected`, and from there to a new attempt.
#[derive(Debug, Clone, Copy)]
pub struct GaugeLink {
    state: LinkState,
}

impl GaugeLink {
    /// Where the link stands.
    pub closed spec fn current(&self) -> LinkState {
        self.state
    }

    /// A link that is not connected yet.
    pub fn new() -> (link: Self)
        ensures
            link.current() == LinkState::Disconnected,
    {
        GaugeLink { state: LinkState::Disconnected }
    }

    /// Where the link stands.
    pub fn state(&self) -> (state: LinkState)
        ensures
            state == self.current(),
    {
        self.state
    }

    /// Takes an event, moves to the state that follows, and says what to do.
    pub fn on_event(&mut self, event: LinkEvent) -> (action: LinkAction)
        ensures
            (final(self).current(), action) == link_step(old(self).current(), event),
    {
        let (next, action) = match (self.state, event) {
            (LinkState::Disconnected, LinkEvent::Ready) => (
                LinkState::Connecting,
                LinkAction::Connect,
            ),
            (LinkState::Connecting, LinkEvent::ConnectSucceeded) => (
                LinkState::Connected,
                LinkAction::Poll,
            ),
            (LinkState::Connecting, LinkEvent::ConnectFailed) => (
                LinkState::Disconnected,
                LinkAction::Backoff,
            ),
            (LinkState::Connected, LinkEvent::IoFailed) => (
                LinkState::Disconnected,
                LinkAction::Backoff,
            ),
            _ => (self.state, LinkAction::Ignore),
        };
        self.state = next;
        action
    }
}

/// Every failure ends in a new attempt: from a failed connection attempt or a
/// failed connection the link is told to back off, and after the backoff to
/// connect again.
pub proof fn link_always_reconnects(state: LinkState, event: LinkEvent)
    requires
        (state == LinkState::Connecting && event == LinkEvent::ConnectFailed) || (state
            == LinkState::Connected && event == LinkEvent::IoFailed),
    ensures
        link_step(state, event) == (LinkState::Disconnected, LinkAction::Backoff),
        link_step(link_step(state, event).0, LinkEvent::Ready) == (
            LinkState::Connecting,
            LinkAction::Connect,
        ),
{
}

/// The little-endian bytes of an unsigned 16-bit number.
pub open spec fn u16_le(v: u16) -> Seq<u8> {
    seq![(v % 256) as u8, (v / 256) as u8]
}

/// The little-endian bytes of a signed 16-bit number, in two's complement.
pub open spec fn i16_le(v: i16) -> Seq<u8> {
    if v < 0 {
        u16_le((v + 65536) as u16)
    } else {
        u16_le(v as u16)
    }
}

/// The four bytes of one measurement: integer part, then fractional part.
pub open spec fn slot_bytes(int_val: i16, frac: i16) -> Seq<u8> {
    i16_le(int_val) + i16_le(frac)
}

/// The response frame of the simulated gauge: the fixed header, a length of
/// 46, end code zero, the line and the status word, eight unused words, and
/// the same measurement in all six slots.
pub open spec fn dummy_frame_bytes(machine_id: u16, status: u16, int_val: i16, frac: i16) -> Seq<
    u8,
> {
    seq![0xD0u8, 0x00u8, 0x00u8, 0xFFu8, 0xFFu8, 0x03u8, 0x00u8, 0x2Eu8, 0x00u8, 0x00u8, 0x00u8]
        + u16_le(machine_id) + u16_le(status) + Seq::new(16, |i: int| 0u8) + slot_bytes(
        int_val,
        frac,
    ) + slot_bytes(int_val, frac) + slot_bytes(int_val, frac) + slot_bytes(int_val, frac)
        + slot_bytes(int_val, frac) + slot_bytes(int_val, frac)
}

fn push_u16(out: &mut Vec<u8>, v: u16)
    ensures
        final(out)@ == old(out)@ + u16_le(v),
{
    out.push((v % 256) as u8);
    out.push((v / 256) as u8);
}

fn push_i16(out: &mut Vec<u8>, v: i16)
    ensures
        final(out)@ == old(out)@ + i16_le(v),
{
    if v < 0 {
        push_u16(out, (v as i32 + 65536) as u16);
    } else {
        push_u16(out, v as u16);
    }
}

fn push_slot(out: &mut Vec<u8>, int_val: i16, frac: i16)
    ensures
        final(out)@ == old(out)@ + slot_bytes(int_val, frac),
{
    push_i16(out, int_val);
    push_i16(out, frac);
}

/// Builds the response frame of the simulated gauge.
pub fn dummy_frame(machine_id: u16, status: u16, int_val: i16, frac: i16) -> (frame: Vec<u8>)
    ensures
        frame@ == dummy_frame_bytes(machine_id, status, int_val, frac),
{
    let mut frame: Vec<u8> = Vec::new();
    frame.push(0xD0);
    frame.push(0x00);
    frame.push(0x00);
    frame.push(0xFF);
    frame.push(0xFF);
    frame.push(0x03);
    frame.push(0x00);
    frame.push(0x2E);
    frame.push(0x00);
    frame.push(0x00);
    frame.push(0x00);
    assert(frame@ =~= seq![
        0xD0u8,
        0x00u8,
        0x00u8,
        0xFFu8,
        0xFFu8,
        0x03u8,
        0x00u8,
        0x2Eu8,
        0x00u8,
        0x00u8,
        0x00u8,
    ]);
    push_u16(&mut frame, machine_id);
    push_u16(&mut frame, status);
    let ghost head = frame@;
    let mut i: usize = 0;
    while i < 16
        invariant
            i <= 16,
            frame@ == head + Seq::new(i as nat, |k: int| 0u8),
        decreases 16 - i,
    {
        frame.push(0);
        i = i + 1;
    }
    push_slot(&mut frame, int_val, frac);
    push_slot(&mut frame, int_val, frac);
    push_slot(&mut frame, int_val, frac);
    push_slot(&mut frame, int_val, frac);
    push_slot(&mut frame, int_val, frac);
    push_slot(&mut frame, int_val, frac);
    frame
}

/// The bytes written by `u16_le` read back as the number.
pub proof fn u16_le_reads_back(v: u16)
    ensures
        u16_le(v).len() == 2,
        le_u16(u16_le(v)[0], u16_le(v)[1]) == v,
{
}

/// The bytes written by `i16_le` read back as the number.
pub proof fn i16_le_reads_back(v: i16)
    ensures
        i16_le(v).len() == 2,
        le_i16(i16_le(v)[0], i16_le(v)[1]) == v,
{
}

/// A frame of the simulated gauge is one whole frame, and decodes to the line,
/// the status and the measurement that it was built from.
pub proof fn dummy_frame_decodes(machine_id: u16, status: u16, int_val: i16, frac: i16)
    ensures
        ({
            let frame = dummy_frame_bytes(machine_id, status, int_val, frac);
            let value: i32 = (int_val * 10000 + frac) as i32;
            &&& frame.len() == PLC_RESPONSE_MIN_LEN
            &&& frame_ready(frame)
            &&& frame_len(frame) == frame.len()
            &&& decoded(frame) matches Some(response)
            &&& response.active_line == machine_id
            &&& response.plc_data_on == (status == PLC_MEASUREMENT_COMPLETE)
            &&& response.lines.len() == 3
            &&& forall|k: int|
                0 <= k < 3 ==> #[trigger] response.lines[k] == (LineMeasurement {
                    line_id: (k + 1) as u16,
                    value1: value,
                    value2: value,
                })
        }),
{
    let frame = dummy_frame_bytes(machine_id, status, int_val, frac);
    let slot = slot_bytes(int_val, frac);
    u16_le_reads_back(machine_id);
    u16_le_reads_back(status);
    i16_le_reads_back(int_val);
    i16_le_reads_back(frac);
    assert forall|j: int| 0 <= j < 24 implies #[trigger] frame[31 + j] == slot[j % 4] by {}
    assert forall|k: int| 0 <= k < 6 implies #[trigger] slot_value(frame, 31 + 4 * k) == int_val
        * 10000 + frac by {}
}

/// The simulated gauge that stands in for the real one in standalone mode.
/// It completes a measurement on every second frame, and goes round the
/// lines 1, 2 and 3, one line per completed measurement.
#[derive(Debug, Clone, Copy)]
pub struct DummyGauge {
    machine_id: u16,
    toggle_on: u16,
}

impl DummyGauge {
    /// The line that the next frame is about.
    pub closed spec fn line(&self) -> u16 {
        self.machine_id
    }

    /// The status word of the frame sent last.
    pub closed spec fn status(&self) -> u16 {
        self.toggle_on
    }

    /// A simulated gauge at line 1 that has sent nothing yet.
    pub fn new() -> (gauge: Self)
        ensures
            gauge.line() == 1,
            gauge.status() == 0,
    {
        DummyGauge { machine_id: 1, toggle_on: 0 }
    }

    /// The next frame to send. The status word alternates between complete
    /// and idle; the measurement is 48 and a fraction between -50 and 49
    /// ten-thousandths that is taken from the clock's milliseconds. After an
    /// idle frame the gauge moves on to the next line.
    pub fn next_frame(&mut self, subsec_millis: u32) -> (frame: Vec<u8>)
        ensures
            final(self).status() == if old(self).status() == 0 {
                PLC_MEASUREMENT_COMPLETE
            } else {
                0u16
            },
            frame@ == dummy_frame_bytes(
                old(self).line(),
                final(self).status(),
                48,
                ((subsec_millis % 100) - 50) as i16,
            ),
            final(self).line() == if final(self).status() != 0 {
                old(self).line()
            } else if old(self).line() >= 3 {
                1u16
            } else {
                (old(self).line() + 1) as u16
            },
    {
        self.toggle_on = if self.toggle_on == 0 {
            PLC_MEASUREMENT_COMPLETE
        } else {
            0
        };
        let frac: i16 = (subsec_millis % 100) as i16 - 50;
        let frame = dummy_frame(self.machine_id, self.toggle_on, 48, frac);
        if self.toggle_on == 0 {
            self.machine_id = if self.machine_id >= 3 {
                1
            } else {
                self.machine_id + 1
            };
        }
        frame
    }
}

} // verus!
