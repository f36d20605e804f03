//! The browser protocol: activity categories, commands, command results,
//! their JSON encoding, and the byte framing of native messages (a four-byte
//! native-endian length before the payload) and local messages (one line
//! each).

use vstd::endian::{endianness, Endian};
use vstd::prelude::*;
use vstd::string::StringSliceAdditionalSpecFns;

verus! {

pub const MAX_NATIVE_MESSAGE_SIZE: usize = 65536;

pub const MAX_LOCAL_MESSAGE_SIZE: usize = MAX_NATIVE_MESSAGE_SIZE;

/// Category of the active Firefox tab.
#[derive(Clone, Copy, Debug, PartialEq, Eq, Structural)]
pub enum BrowserActivity {
    YouTube,
    YouTubeShorts,
    Instagram,
    InstagramReels,
    Other,
}

#[derive(Clone, Copy, Debug, PartialEq, Eq, Structural)]
pub enum BrowserCommand {
    CloseActiveDistractionTab,
}

#[derive(Clone, Copy, Debug, PartialEq, Eq, Structural)]
pub enum BrowserCommandResult {
    Closed,
    IgnoredNotDistracting,
    NoActiveTab,
    Error,
}

/// A browser activity message: `{"type":"browser_activity","activity":...}`.
#[derive(Clone, Copy, Debug, PartialEq, Eq, Structural)]
pub struct BrowserActivityMessage {
    pub activity: BrowserActivity,
}

/// A browser command message: `{"type":"browser_command","command":...}`.
#[derive(Clone, Copy, Debug, PartialEq, Eq, Structural)]
pub struct BrowserCommandMessage {
    pub command: BrowserCommand,
}

/// Messages from Firefox to the native host.
#[derive(Clone, Copy, Debug, PartialEq, Eq, Structural)]
pub enum FirefoxMessage {
    Activity { activity: BrowserActivity },
    CommandResult { command: BrowserCommand, result: BrowserCommandResult },
}

/// Messages from the native host to Milo on the local socket.
#[derive(Clone, Copy, Debug, PartialEq, Eq, Structural)]
pub enum LocalBrowserMessage {
    Activity { activity: BrowserActivity },
    TrackingUnavailable,
    CommandResult { command: BrowserCommand, result: BrowserCommandResult },
}

impl BrowserActivityMessage {
    pub fn new(activity: BrowserActivity) -> (message: Self)
        ensures
            message.activity == activity,
    {
        BrowserActivityMessage { activity }
    }
}

impl BrowserCommandMessage {
    pub fn new(command: BrowserCommand) -> (message: Self)
        ensures
            message.command == command,
    {
        BrowserCommandMessage { command }
    }
}

/// The wire name of an activity.
pub open spec fn spec_activity_name(activity: BrowserActivity) -> &'static str {
    match activity {
        BrowserActivity::YouTube => "youtube",
        BrowserActivity::YouTubeShorts => "youtube_shorts",
        BrowserActivity::Instagram => "instagram",
        BrowserActivity::InstagramReels => "instagram_reels",
        BrowserActivity::Other => "other",
    }
}

pub fn activity_name(activity: BrowserActivity) -> (name: &'static str)
    ensures
        name == spec_activity_name(activity),
{
    match activity {
        BrowserActivity::YouTube => "youtube",
        BrowserActivity::YouTubeShorts => "youtube_shorts",
        BrowserActivity::Instagram => "instagram",
        BrowserActivity::InstagramReels => "instagram_reels",
        BrowserActivity::Other => "other",
    }
}

pub open spec fn spec_command_name(command: BrowserCommand) -> &'static str {
    match command {
        BrowserCommand::CloseActiveDistractionTab => "close_active_distraction_tab",
    }
}

pub fn command_name(command: BrowserCommand) -> (name: &'static str)
    ensures
        name == spec_command_name(command),
{
    match command {
        BrowserCommand::CloseActiveDistractionTab => "close_active_distraction_tab",
    }
}

impl BrowserCommandResult {
    pub open spec fn spec_as_str(self) -> &'static str {
        match self {
            BrowserCommandResult::Closed => "closed",
            BrowserCommandResult::IgnoredNotDistracting => "ignored_not_distracting",
            BrowserCommandResult::NoActiveTab => "no_active_tab",
            BrowserCommandResult::Error => "error",
        }
    }

    /// The wire name, which is also how a result is displayed.
    pub fn as_str(self) -> (name: &'static str)
        ensures
            name == self.spec_as_str(),
    {
        match self {
            BrowserCommandResult::Closed => "closed",
            BrowserCommandResult::IgnoredNotDistracting => "ignored_not_distracting",
            BrowserCommandResult::NoActiveTab => "no_active_tab",
            BrowserCommandResult::Error => "error",
        }
    }
}

/// Appends the UTF-8 bytes of `text`.
fn push_str(out: &mut Vec<u8>, text: &str)
    ensures
        final(out)@ == old(out)@ + text.spec_bytes(),
{
    let bytes = text.as_bytes();
    let mut index: usize = 0;
    while index < bytes.len()
        invariant
            bytes@ == text.spec_bytes(),
            0 <= index <= bytes@.len(),
            out@ == old(out)@ + bytes@.subrange(0, index as int),
        decreases bytes@.len() - index,
    {
        out.push(bytes[index]);
        assert(bytes@.subrange(0, index + 1) =~= bytes@.subrange(0, index as int).push(bytes@[index as int]));
        index = index + 1;
    }
    assert(bytes@.subrange(0, bytes@.len() as int) =~= bytes@);
}

/// The JSON of an activity message.
pub open spec fn activity_json(activity: BrowserActivity) -> Seq<u8> {
    "{\"type\":\"browser_activity\",\"activity\":\"".spec_bytes() + spec_activity_name(activity).spec_bytes()
        + "\"}".spec_bytes()
}

/// The JSON of a command message.
pub open spec fn command_json(command: BrowserCommand) -> Seq<u8> {
    "{\"type\":\"browser_command\",\"command\":\"".spec_bytes() + spec_command_name(command).spec_bytes()
        + "\"}".spec_bytes()
}

/// The JSON of a local message.
pub open spec fn local_json(message: LocalBrowserMessage) -> Seq<u8> {
    match message {
        LocalBrowserMessage::Activity { activity } => activity_json(activity),
        LocalBrowserMessage::TrackingUnavailable => "{\"type\":\"browser_tracking_unavailable\"}".spec_bytes(),
        LocalBrowserMessage::CommandResult { command, result } => "{\"type\":\"browser_command_result\",\"command\":\"".spec_bytes()
            + spec_command_name(command).spec_bytes() + "\",\"result\":\"".spec_bytes() + result.spec_as_str().spec_bytes()
            + "\"}".spec_bytes(),
    }
}

/// The JSON of a Firefox message.
pub open spec fn firefox_json(message: FirefoxMessage) -> Seq<u8> {
    match message {
        FirefoxMessage::Activity { activity } => local_json(LocalBrowserMessage::Activity { activity }),
        FirefoxMessage::CommandResult { command, result } => local_json(
            LocalBrowserMessage::CommandResult { command, result },
        ),
    }
}

pub fn encode_activity_message(message: &BrowserActivityMessage) -> (json: Vec<u8>)
    ensures
        json@ == activity_json(message.activity),
{
    let mut json = Vec::new();
    push_str(&mut json, "{\"type\":\"browser_activity\",\"activity\":\"");
    push_str(&mut json, activity_name(message.activity));
    push_str(&mut json, "\"}");
    json
}

pub fn encode_command_message(message: &BrowserCommandMessage) -> (json: Vec<u8>)
    ensures
        json@ == command_json(message.command),
{
    let mut json = Vec::new();
    push_str(&mut json, "{\"type\":\"browser_command\",\"command\":\"");
    push_str(&mut json, command_name(message.command));
    push_str(&mut json, "\"}");
    json
}

pub fn encode_local_message(message: &LocalBrowserMessage) -> (json: Vec<u8>)
    ensures
        json@ == local_json(*message),
{
    match message {
        LocalBrowserMessage::Activity { activity } => encode_activity_message(
            &BrowserActivityMessage { activity: *activity },
        ),
        LocalBrowserMessage::TrackingUnavailable => {
            let mut json = Vec::new();
            push_str(&mut json, "{\"type\":\"browser_tracking_unavailable\"}");
            assert(json@ =~= local_json(*message));
            json
        },
        LocalBrowserMessage::CommandResult { command, result } => {
            let mut json = Vec::new();
            push_str(&mut json, "{\"type\":\"browser_command_result\",\"command\":\"");
            push_str(&mut json, command_name(*command));
            push_str(&mut json, "\",\"result\":\"");
            push_str(&mut json, result.as_str());
            push_str(&mut json, "\"}");
            json
        },
    }
}

pub fn encode_firefox_message(message: &FirefoxMessage) -> (json: Vec<u8>)
    ensures
        json@ == firefox_json(*message),
{
    match message {
        FirefoxMessage::Activity { activity } => encode_local_message(
            &LocalBrowserMessage::Activity { activity: *activity },
        ),
        FirefoxMessage::CommandResult { command, result } => encode_local_message(
            &LocalBrowserMessage::CommandResult { command: *command, result: *result },
        ),
    }
}

/// How a framing error would be classified as an I/O error.
#[derive(Clone, Copy, Debug, PartialEq, Eq, Structural)]
pub enum FrameErrorKind {
    InvalidData,
    InvalidInput,
    UnexpectedEof,
}

/// Errors of the native message framing.
#[derive(Clone, Copy, Debug, PartialEq, Eq, Structural)]
pub enum NativeFrameError {
    /// The input ended inside a frame.
    UnexpectedEof,
    /// An incoming frame announced more than the maximum size.
    TooLarge { length: u32 },
    /// An outgoing payload is larger than the maximum size.
    PayloadTooLarge { size: usize },
}

impl NativeFrameError {
    pub open spec fn spec_kind(self) -> FrameErrorKind {
        match self {
            NativeFrameError::UnexpectedEof => FrameErrorKind::UnexpectedEof,
            NativeFrameError::TooLarge { .. } => FrameErrorKind::InvalidData,
            NativeFrameError::PayloadTooLarge { .. } => FrameErrorKind::InvalidInput,
        }
    }

    pub fn kind(&self) -> (kind: FrameErrorKind)
        ensures
            kind == self.spec_kind(),
    {
        match self {
            NativeFrameError::UnexpectedEof => FrameErrorKind::UnexpectedEof,
            NativeFrameError::TooLarge { .. } => FrameErrorKind::InvalidData,
            NativeFrameError::PayloadTooLarge { .. } => FrameErrorKind::InvalidInput,
        }
    }
}

pub open spec fn u32_from_le(b: Seq<u8>) -> u32 {
    (b[0] as u32) | ((b[1] as u32) << 8u32) | ((b[2] as u32) << 16u32) | ((b[3] as u32) << 24u32)
}

pub open spec fn u32_from_be(b: Seq<u8>) -> u32 {
    (b[3] as u32) | ((b[2] as u32) << 8u32) | ((b[1] as u32) << 16u32) | ((b[0] as u32) << 24u32)
}

pub open spec fn u32_to_le(value: u32) -> Seq<u8> {
    seq![
        (value & 0xffu32) as u8,
        ((value >> 8u32) & 0xffu32) as u8,
        ((value >> 16u32) & 0xffu32) as u8,
        ((value >> 24u32) & 0xffu32) as u8,
    ]
}

pub open spec fn u32_to_be(value: u32) -> Seq<u8> {
    seq![
        ((value >> 24u32) & 0xffu32) as u8,
        ((value >> 16u32) & 0xffu32) as u8,
        ((value >> 8u32) & 0xffu32) as u8,
        (value & 0xffu32) as u8,
    ]
}

/// Four bytes read in the byte order of the executing machine.
pub open spec fn native_u32(bytes: Seq<u8>) -> u32 {
    match endianness() {
        Endian::Little => u32_from_le(bytes),
        Endian::Big => u32_from_be(bytes),
    }
}

/// A `u32` written in the byte order of the executing machine.
pub open spec fn native_bytes(value: u32) -> Seq<u8> {
    match endianness() {
        Endian::Little => u32_to_le(value),
        Endian::Big => u32_to_be(value),
    }
}

/// Reading back the bytes of a value gives the value.
pub proof fn lemma_native_bytes_round_trip(value: u32)
    ensures
        native_bytes(value).len() == 4,
        native_u32(native_bytes(value)) == value,
{
    let b0 = (value & 0xffu32) as u8;
    let b1 = ((value >> 8u32) & 0xffu32) as u8;
    let b2 = ((value >> 16u32) & 0xffu32) as u8;
    let b3 = ((value >> 24u32) & 0xffu32) as u8;
    assert(((b0 as u32) | ((b1 as u32) << 8u32) | ((b2 as u32) << 16u32) | ((b3 as u32) << 24u32))
        == value) by (bit_vector)
        requires
            b0 == (value & 0xffu32) as u8,
            b1 == ((value >> 8u32) & 0xffu32) as u8,
            b2 == ((value >> 16u32) & 0xffu32) as u8,
            b3 == ((value >> 24u32) & 0xffu32) as u8,
    ;
    assert(u32_from_le(u32_to_le(value)) == value);
    assert(u32_from_be(u32_to_be(value)) == value);
}

/// `u32::from_ne_bytes`: the bytes read in the machine's byte order.
#[verifier::external_body]
fn u32_from_native_bytes(bytes: [u8; 4]) -> (value: u32)
    ensures
        value == native_u32(bytes@),
{
    u32::from_ne_bytes(bytes)
}

/// `u32::to_ne_bytes`: the value written in the machine's byte order.
#[verifier::external_body]
fn u32_to_native_bytes(value: u32) -> (bytes: [u8; 4])
    ensures
        bytes@ == native_bytes(value),
{
    value.to_ne_bytes()
}

/// The payload length a frame header announces, refused above the maximum
/// before any payload is read.
pub fn native_frame_length(header: [u8; 4]) -> (length: Result<usize, NativeFrameError>)
    ensures
        native_u32(header@) <= MAX_NATIVE_MESSAGE_SIZE ==> length == Ok::<usize, NativeFrameError>(
            native_u32(header@) as usize,
        ),
        native_u32(header@) > MAX_NATIVE_MESSAGE_SIZE ==> length == Err::<usize, NativeFrameError>(
            NativeFrameError::TooLarge { length: native_u32(header@) },
        ),
{
    let length = u32_from_native_bytes(header);
    if length as usize > MAX_NATIVE_MESSAGE_SIZE {
        return Err(NativeFrameError::TooLarge { length });
    }
    Ok(length as usize)
}

/// The frame of `payload`: its length in native byte order, then the payload.
pub open spec fn native_frame(payload: Seq<u8>) -> Seq<u8> {
    native_bytes(payload.len() as u32) + payload
}

/// Appends the frame of `payload`; payloads above the maximum are refused and
/// nothing is written.
pub fn write_native_message(writer: &mut Vec<u8>, payload: &[u8]) -> (result: Result<(), NativeFrameError>)
    ensures
        payload@.len() <= MAX_NATIVE_MESSAGE_SIZE ==> result is Ok && final(writer)@ == old(writer)@ + native_frame(payload@),
        payload@.len() > MAX_NATIVE_MESSAGE_SIZE ==> result == Err::<(), NativeFrameError>(
            NativeFrameError::PayloadTooLarge { size: payload@.len() as usize },
        ) && final(writer)@ == old(writer)@,
{
    if payload.len() > MAX_NATIVE_MESSAGE_SIZE {
        return Err(NativeFrameError::PayloadTooLarge { size: payload.len() });
    }
    let header = u32_to_native_bytes(payload.len() as u32);
    let ghost start = writer@;
    writer.push(header[0]);
    writer.push(header[1]);
    writer.push(header[2]);
    writer.push(header[3]);
    assert(writer@ =~= start + native_bytes(payload@.len() as u32));
    let ghost with_header = writer@;
    let mut index: usize = 0;
    while index < payload.len()
        invariant
            0 <= index <= payload@.len(),
            writer@ == with_header + payload@.subrange(0, index as int),
        decreases payload@.len() - index,
    {
        writer.push(payload[index]);
        assert(payload@.subrange(0, index + 1) =~= payload@.subrange(0, index as int).push(payload@[index as int]));
        index = index + 1;
    }
    assert(payload@.subrange(0, payload@.len() as int) =~= payload@);
    assert(writer@ =~= start + native_frame(payload@));
    Ok(())
}

/// Bytes read from memory one frame at a time.
pub struct ByteCursor {
    pub bytes: Vec<u8>,
    pub position: usize,
}

impl ByteCursor {
    pub fn new(bytes: Vec<u8>) -> (cursor: Self)
        ensures
            cursor.bytes@ == bytes@,
            cursor.position == 0,
    {
        ByteCursor { bytes, position: 0 }
    }

    /// The bytes not read yet.
    pub open spec fn remaining(self) -> Seq<u8> {
        if self.position <= self.bytes@.len() {
            self.bytes@.subrange(self.position as int, self.bytes@.len() as int)
        } else {
            Seq::empty()
        }
    }
}

/// Reading one frame from `input`: at the end of the input there is no
/// message; otherwise the header, the size check and the payload. The
/// second component is the number of bytes consumed (an incomplete frame
/// consumes the rest of the input).
pub open spec fn spec_read_native(input: Seq<u8>) -> (nat, Result<Option<Seq<u8>>, NativeFrameError>) {
    if input.len() == 0 {
        (0, Ok(None))
    } else if input.len() < 4 {
        (input.len(), Err(NativeFrameError::UnexpectedEof))
    } else {
        let length = native_u32(input.subrange(0, 4));
        if length > MAX_NATIVE_MESSAGE_SIZE {
            (4, Err(NativeFrameError::TooLarge { length }))
        } else if input.len() - 4 < length {
            (input.len(), Err(NativeFrameError::UnexpectedEof))
        } else {
            ((4 + length) as nat, Ok(Some(input.subrange(4, 4 + length))))
        }
    }
}

pub open spec fn payload_view(result: Result<Option<Vec<u8>>, NativeFrameError>) -> Result<Option<Seq<u8>>, NativeFrameError> {
    match result {
        Ok(Some(payload)) => Ok(Some(payload@)),
        Ok(None) => Ok(None),
        Err(error) => Err(error),
    }
}

/// Reads one native message (see `spec_read_native`).
pub fn read_native_message(input: &mut ByteCursor) -> (message: Result<Option<Vec<u8>>, NativeFrameError>)
    ensures
        final(input).bytes@ == old(input).bytes@,
        payload_view(message) == spec_read_native(old(input).remaining()).1,
        final(input).remaining() == old(input).remaining().subrange(
            spec_read_native(old(input).remaining()).0 as int,
            old(input).remaining().len() as int,
        ),
{
    let len = input.bytes.len();
    if input.position >= len {
        proof {
            assert(old(input).remaining() =~= Seq::<u8>::empty());
        }
        return Ok(None);
    }
    let start = input.position;
    let ghost rest = old(input).remaining();
    if len - start < 4 {
        input.position = len;
        assert(input.remaining() =~= rest.subrange(rest.len() as int, rest.len() as int));
        return Err(NativeFrameError::UnexpectedEof);
    }
    let header = [input.bytes[start], input.bytes[start + 1], input.bytes[start + 2], input.bytes[start + 3]];
    assert(header@ =~= rest.subrange(0, 4));
    match native_frame_length(header) {
        Err(error) => {
            input.position = start + 4;
            assert(input.remaining() =~= rest.subrange(4, rest.len() as int));
            Err(error)
        },
        Ok(length) => {
            if len - start - 4 < length {
                input.position = len;
                assert(input.remaining() =~= rest.subrange(rest.len() as int, rest.len() as int));
                return Err(NativeFrameError::UnexpectedEof);
            }
            let mut payload: Vec<u8> = Vec::new();
            let mut index: usize = 0;
            while index < length
                invariant
                    input.bytes@ == old(input).bytes@,
                    len == input.bytes@.len(),
                    start + 4 + length <= len,
                    0 <= index <= length,
                    payload@ == input.bytes@.subrange(start + 4, start + 4 + index),
                decreases length - index,
            {
                payload.push(input.bytes[start + 4 + index]);
                assert(input.bytes@.subrange(start + 4, start + 4 + index + 1) =~= input.bytes@.subrange(
                    start + 4,
                    start + 4 + index,
                ).push(input.bytes@[start + 4 + index]));
                index = index + 1;
            }
            input.position = start + 4 + length;
            assert(payload@ =~= rest.subrange(4, 4 + length));
            assert(input.remaining() =~= rest.subrange(4 + length, rest.len() as int));
            Ok(Some(payload))
        },
    }
}

/// What is written is read back: a frame written by `write_native_message`
/// reads back as exactly its payload, consuming exactly the frame, whatever
/// follows it; an empty input reads as the end of the messages.
pub proof fn lemma_native_round_trip(payload: Seq<u8>, rest: Seq<u8>)
    requires
        payload.len() <= MAX_NATIVE_MESSAGE_SIZE,
    ensures
        spec_read_native(native_frame(payload) + rest) == (
            native_frame(payload).len(),
            Ok::<Option<Seq<u8>>, NativeFrameError>(Some(payload)),
        ),
        native_frame(payload).len() == 4 + payload.len(),
        spec_read_native(Seq::empty()) == (0nat, Ok::<Option<Seq<u8>>, NativeFrameError>(None)),
{
    lemma_native_bytes_round_trip(payload.len() as u32);
    let input = native_frame(payload) + rest;
    assert(input.subrange(0, 4) =~= native_bytes(payload.len() as u32));
    assert(input.subrange(4, 4 + payload.len() as int) =~= payload);
}

/// The frames of `payloads`, one after another, as consecutive calls of
/// `write_native_message` append them.
pub open spec fn native_frames(payloads: Seq<Seq<u8>>) -> Seq<u8>
    decreases payloads.len(),
{
    if payloads.len() == 0 {
        Seq::empty()
    } else {
        native_frame(payloads[0]) + native_frames(payloads.drop_first())
    }
}

/// Writing one more frame after the frames of `payloads` gives the frames
/// of `payloads` with that payload appended: a buffer filled by successive
/// `write_native_message` calls holds `native_frames` of what was written.
pub proof fn lemma_native_frames_append(payloads: Seq<Seq<u8>>, payload: Seq<u8>)
    ensures
        native_frames(payloads.push(payload)) == native_frames(payloads) + native_frame(payload),
    decreases payloads.len(),
{
    if payloads.len() == 0 {
        let single = payloads.push(payload);
        assert(single.drop_first() =~= Seq::<Seq<u8>>::empty());
        assert(native_frames(single) =~= native_frame(payload) + native_frames(Seq::empty()));
        assert(native_frames(single) =~= native_frames(payloads) + native_frame(payload));
    } else {
        lemma_native_frames_append(payloads.drop_first(), payload);
        assert(payloads.push(payload).drop_first() =~= payloads.drop_first().push(payload));
        assert(native_frames(payloads.push(payload)) =~= native_frames(payloads) + native_frame(
            payload,
        ));
    }
}

/// What `count` consecutive reads of native messages from `input` return,
/// each read starting where the previous one stopped.
pub open spec fn native_reads(input: Seq<u8>, count: nat) -> Seq<
    Result<Option<Seq<u8>>, NativeFrameError>,
>
    decreases count,
{
    if count == 0 {
        Seq::empty()
    } else {
        let (consumed, message) = spec_read_native(input);
        seq![message] + native_reads(
            input.subrange(consumed as int, input.len() as int),
            (count - 1) as nat,
        )
    }
}

/// Messages written one after another are read back one after another:
/// reading the frames of k payloads, each within the size limit, gives the
/// k payloads in order and then the clean end of the input.
pub proof fn lemma_native_messages_read_back_in_order(payloads: Seq<Seq<u8>>)
    requires
        forall|i: int| 0 <= i < payloads.len() ==> #[trigger] payloads[i].len()
            <= MAX_NATIVE_MESSAGE_SIZE,
    ensures
        native_reads(native_frames(payloads), payloads.len() + 1) == Seq::new(
            payloads.len(),
            |i: int| Ok::<Option<Seq<u8>>, NativeFrameError>(Some(payloads[i])),
        ).push(Ok::<Option<Seq<u8>>, NativeFrameError>(None)),
    decreases payloads.len(),
{
    let expected = Seq::new(
        payloads.len(),
        |i: int| Ok::<Option<Seq<u8>>, NativeFrameError>(Some(payloads[i])),
    ).push(Ok::<Option<Seq<u8>>, NativeFrameError>(None));
    if payloads.len() == 0 {
        lemma_native_round_trip(Seq::empty(), Seq::empty());
        let after: Seq<Result<Option<Seq<u8>>, NativeFrameError>> = native_reads(
            Seq::<u8>::empty().subrange(0, 0),
            0,
        );
        assert(after =~= Seq::empty());
        assert(native_reads(native_frames(payloads), 1) =~= expected);
    } else {
        let rest = payloads.drop_first();
        assert forall|i: int| 0 <= i < rest.len() implies #[trigger] rest[i].len()
            <= MAX_NATIVE_MESSAGE_SIZE by {
            assert(rest[i] == payloads[i + 1]);
        }
        lemma_native_messages_read_back_in_order(rest);
        let first = native_frame(payloads[0]);
        let input = native_frames(payloads);
        lemma_native_round_trip(payloads[0], native_frames(rest));
        assert(input == first + native_frames(rest));
        assert(input.subrange(first.len() as int, input.len() as int) =~= native_frames(rest));
        assert(native_reads(input, payloads.len() + 1) == seq![
            Ok::<Option<Seq<u8>>, NativeFrameError>(Some(payloads[0])),
        ] + native_reads(native_frames(rest), rest.len() + 1));
        assert(native_reads(input, payloads.len() + 1) =~= expected);
    }
}

/// Errors of the local line framing.
#[derive(Clone, Copy, Debug, PartialEq, Eq, Structural)]
pub enum LocalFrameError {
    /// The line is longer than the maximum local message size.
    TooLarge,
    /// The input ended before the newline.
    MissingNewline,
}

impl LocalFrameError {
    pub fn kind(&self) -> (kind: FrameErrorKind)
        ensures
            kind == (match self {
                LocalFrameError::TooLarge => FrameErrorKind::InvalidData,
                LocalFrameError::MissingNewline => FrameErrorKind::UnexpectedEof,
            }),
    {
        match self {
            LocalFrameError::TooLarge => FrameErrorKind::InvalidData,
            LocalFrameError::MissingNewline => FrameErrorKind::UnexpectedEof,
        }
    }
}

/// The payload of one local line, given the bytes read up to and including
/// the first newline but no more than one byte past the maximum size: empty
/// input is the end of the stream, an overlong line and a line without its
/// newline are refused, otherwise the newline is removed.
pub open spec fn spec_local_line_payload(line: Seq<u8>) -> Result<Option<Seq<u8>>, LocalFrameError> {
    if line.len() == 0 {
        Ok(None)
    } else if line.len() > MAX_LOCAL_MESSAGE_SIZE {
        Err(LocalFrameError::TooLarge)
    } else if line.last() != 10u8 {
        Err(LocalFrameError::MissingNewline)
    } else {
        Ok(Some(line.drop_last()))
    }
}

pub fn local_line_payload(line: &[u8]) -> (payload: Result<Option<Vec<u8>>, LocalFrameError>)
    ensures
        match (payload, spec_local_line_payload(line@)) {
            (Ok(Some(p)), Ok(Some(q))) => p@ == q,
            (Ok(None), Ok(None)) => true,
            (Err(a), Err(b)) => a == b,
            _ => false,
        },
{
    let len = line.len();
    if len == 0 {
        return Ok(None);
    }
    if len > MAX_LOCAL_MESSAGE_SIZE {
        return Err(LocalFrameError::TooLarge);
    }
    if line[len - 1] != 10u8 {
        return Err(LocalFrameError::MissingNewline);
    }
    let mut payload: Vec<u8> = Vec::new();
    let mut index: usize = 0;
    while index < len - 1
        invariant
            len == line@.len(),
            len >= 1,
            0 <= index <= len - 1,
            payload@ == line@.subrange(0, index as int),
        decreases len - 1 - index,
    {
        payload.push(line[index]);
        assert(line@.subrange(0, index + 1) =~= line@.subrange(0, index as int).push(line@[index as int]));
        index = index + 1;
    }
    assert(payload@ =~= line@.drop_last());
    Ok(Some(payload))
}

/// Appends `json` and the newline that ends a local message.
pub fn write_local_line(writer: &mut Vec<u8>, json: &[u8])
    ensures
        final(writer)@ == old(writer)@ + json@ + seq![10u8],
{
    let mut index: usize = 0;
    while index < json.len()
        invariant
            0 <= index <= json@.len(),
            writer@ == old(writer)@ + json@.subrange(0, index as int),
        decreases json@.len() - index,
    {
        writer.push(json[index]);
        assert(json@.subrange(0, index + 1) =~= json@.subrange(0, index as int).push(json@[index as int]));
        index = index + 1;
    }
    assert(json@.subrange(0, json@.len() as int) =~= json@);
    writer.push(10u8);
}

/// The local line of a message: its JSON and a newline.
pub open spec fn local_line(json: Seq<u8>) -> Seq<u8> {
    json + seq![10u8]
}

pub fn write_local_message(writer: &mut Vec<u8>, message: &BrowserActivityMessage)
    ensures
        final(writer)@ == old(writer)@ + local_line(local_json(LocalBrowserMessage::Activity { activity: message.activity })),
{
    let json = encode_activity_message(message);
    write_local_line(writer, json.as_slice());
    assert(final(writer)@ =~= old(writer)@ + local_line(json@));
}

pub fn write_local_tracking_unavailable(writer: &mut Vec<u8>)
    ensures
        final(writer)@ == old(writer)@ + local_line(local_json(LocalBrowserMessage::TrackingUnavailable)),
{
    let json = encode_local_message(&LocalBrowserMessage::TrackingUnavailable);
    write_local_line(writer, json.as_slice());
    assert(final(writer)@ =~= old(writer)@ + local_line(json@));
}

pub fn write_local_command(writer: &mut Vec<u8>, command: BrowserCommand)
    ensures
        final(writer)@ == old(writer)@ + local_line(command_json(command)),
{
    let json = encode_command_message(&BrowserCommandMessage::new(command));
    write_local_line(writer, json.as_slice());
    assert(final(writer)@ =~= old(writer)@ + local_line(json@));
}

pub fn write_local_command_result(writer: &mut Vec<u8>, command: BrowserCommand, result: BrowserCommandResult)
    ensures
        final(writer)@ == old(writer)@ + local_line(local_json(LocalBrowserMessage::CommandResult { command, result })),
{
    let json = encode_local_message(&LocalBrowserMessage::CommandResult { command, result });
    write_local_line(writer, json.as_slice());
    assert(final(writer)@ =~= old(writer)@ + local_line(json@));
}

/// The length of the local line that starts `input`, counted from `index`:
/// reading stops after the first newline, after one byte past the maximum
/// message size, or at the end of the input.
pub open spec fn local_line_length(input: Seq<u8>, index: nat) -> nat
    decreases MAX_LOCAL_MESSAGE_SIZE + 1 - index,
{
    if index >= input.len() || index >= MAX_LOCAL_MESSAGE_SIZE + 1 {
        index
    } else if input[index as int] == 10u8 {
        index + 1
    } else {
        local_line_length(input, index + 1)
    }
}

/// Reading one local message from `input`: the line as `local_line_length`
/// delimits it, judged by `spec_local_line_payload`; the first component is
/// the number of bytes consumed.
pub open spec fn spec_read_local(input: Seq<u8>) -> (nat, Result<Option<Seq<u8>>, LocalFrameError>) {
    let length = local_line_length(input, 0);
    (length, spec_local_line_payload(input.take(length as int)))
}

proof fn lemma_local_line_length_bounds(input: Seq<u8>, index: nat)
    requires
        index <= input.len(),
        index <= MAX_LOCAL_MESSAGE_SIZE + 1,
    ensures
        index <= local_line_length(input, index) <= input.len(),
        local_line_length(input, index) <= MAX_LOCAL_MESSAGE_SIZE + 1,
    decreases MAX_LOCAL_MESSAGE_SIZE + 1 - index,
{
    if index < input.len() && index < MAX_LOCAL_MESSAGE_SIZE + 1 && input[index as int] != 10u8 {
        lemma_local_line_length_bounds(input, index + 1);
    }
}

fn read_local_line(input: &mut ByteCursor) -> (message: Result<Option<Vec<u8>>, LocalFrameError>)
    ensures
        final(input).bytes@ == old(input).bytes@,
        local_payload_view(message) == spec_read_local(old(input).remaining()).1,
        final(input).remaining() == old(input).remaining().subrange(
            spec_read_local(old(input).remaining()).0 as int,
            old(input).remaining().len() as int,
        ),
{
    let len = input.bytes.len();
    let ghost rest = old(input).remaining();
    if input.position >= len {
        proof {
            assert(rest =~= Seq::<u8>::empty());
            assert(rest.take(0) =~= Seq::<u8>::empty());
        }
        return Ok(None);
    }
    let start = input.position;
    assert(rest =~= input.bytes@.subrange(start as int, len as int));
    let mut count: usize = 0;
    let mut ended = false;
    while !ended && count < len - start && count < MAX_LOCAL_MESSAGE_SIZE + 1
        invariant
            input.bytes@ == old(input).bytes@,
            input.position == start,
            start < len,
            len == input.bytes@.len(),
            rest == input.bytes@.subrange(start as int, len as int),
            count <= len - start,
            count <= MAX_LOCAL_MESSAGE_SIZE + 1,
            !ended ==> local_line_length(rest, 0) == local_line_length(rest, count as nat),
            ended ==> count >= 1 && local_line_length(rest, 0) == count && rest[count - 1] == 10u8,
        decreases len - start - count, (if ended { 0int } else { 1int }),
    {
        let byte = input.bytes[start + count];
        count = count + 1;
        if byte == 10u8 {
            ended = true;
        }
    }
    proof {
        lemma_local_line_length_bounds(rest, 0);
        assert(local_line_length(rest, 0) == count);
    }
    input.position = start + count;
    assert(input.remaining() =~= rest.subrange(count as int, rest.len() as int));
    let ghost line = rest.take(count as int);
    if count > MAX_LOCAL_MESSAGE_SIZE {
        return Err(LocalFrameError::TooLarge);
    }
    if input.bytes[start + count - 1] != 10u8 {
        return Err(LocalFrameError::MissingNewline);
    }
    let mut payload: Vec<u8> = Vec::new();
    let mut index: usize = 0;
    while index < count - 1
        invariant
            input.bytes@ == old(input).bytes@,
            len == input.bytes@.len(),
            start + count <= len,
            count >= 1,
            0 <= index <= count - 1,
            payload@ == input.bytes@.subrange(start as int, start + index),
        decreases count - 1 - index,
    {
        payload.push(input.bytes[start + index]);
        assert(input.bytes@.subrange(start as int, start + index + 1) =~= input.bytes@.subrange(
            start as int,
            start + index,
        ).push(input.bytes@[start + index]));
        index = index + 1;
    }
    assert(payload@ =~= line.drop_last());
    Ok(Some(payload))
}

pub open spec fn local_payload_view(result: Result<Option<Vec<u8>>, LocalFrameError>) -> Result<Option<Seq<u8>>, LocalFrameError> {
    match result {
        Ok(Some(payload)) => Ok(Some(payload@)),
        Ok(None) => Ok(None),
        Err(error) => Err(error),
    }
}

/// Reads the JSON payload of one local browser message: the line up to its
/// newline (see `spec_read_local`). The JSON itself is decoded by the caller.
pub fn read_local_message(input: &mut ByteCursor) -> (message: Result<Option<Vec<u8>>, LocalFrameError>)
    ensures
        final(input).bytes@ == old(input).bytes@,
        local_payload_view(message) == spec_read_local(old(input).remaining()).1,
        final(input).remaining() == old(input).remaining().subrange(
            spec_read_local(old(input).remaining()).0 as int,
            old(input).remaining().len() as int,
        ),
{
    read_local_line(input)
}

/// Reads the JSON payload of one local browser command, framed as a local
/// message (see `spec_read_local`).
pub fn read_local_command(input: &mut ByteCursor) -> (command: Result<Option<Vec<u8>>, LocalFrameError>)
    ensures
        final(input).bytes@ == old(input).bytes@,
        local_payload_view(command) == spec_read_local(old(input).remaining()).1,
        final(input).remaining() == old(input).remaining().subrange(
            spec_read_local(old(input).remaining()).0 as int,
            old(input).remaining().len() as int,
        ),
{
    read_local_line(input)
}

/// What is written is read back: a local line written for a JSON text
/// without a newline reads back as exactly that text, consuming exactly the
/// line, whatever follows it.
pub proof fn lemma_local_round_trip(json: Seq<u8>, rest: Seq<u8>)
    requires
        json.len() < MAX_LOCAL_MESSAGE_SIZE,
        forall|i: int| 0 <= i < json.len() ==> json[i] != 10u8,
    ensures
        spec_read_local(local_line(json) + rest) == (
            json.len() + 1,
            Ok::<Option<Seq<u8>>, LocalFrameError>(Some(json)),
        ),
{
    let input = local_line(json) + rest;
    assert(input.take(json.len() + 1int) =~= local_line(json));
    lemma_local_line_length_of(input, json, 0);
    assert(local_line(json).drop_last() =~= json);
}

proof fn lemma_local_line_length_of(input: Seq<u8>, json: Seq<u8>, index: nat)
    requires
        json.len() < MAX_LOCAL_MESSAGE_SIZE,
        forall|i: int| 0 <= i < json.len() ==> json[i] != 10u8,
        input.len() > json.len(),
        input.take(json.len() + 1int) == local_line(json),
        index <= json.len(),
    ensures
        local_line_length(input, index) == json.len() + 1,
    decreases json.len() - index,
{
    assert(input[index as int] == input.take(json.len() + 1int)[index as int]);
    if index < json.len() {
        assert(input[index as int] == json[index as int]);
        lemma_local_line_length_of(input, json, index + 1);
    }
}

/// No byte of `bytes` is a newline.
pub open spec fn newline_free(bytes: Seq<u8>) -> bool {
    forall|i: int| 0 <= i < bytes.len() ==> bytes[i] != 10u8
}

/// ASCII text without a newline encodes to as many bytes, none a newline.
proof fn lemma_plain_text(s: &str)
    requires
        forall|i: int| 0 <= i < s@.len() ==> '\0' <= #[trigger] s@[i] <= '\u{7f}' && s@[i] != '\n',
    ensures
        newline_free(s.spec_bytes()),
        s.spec_bytes().len() == s@.len(),
{
    vstd::utf8::is_ascii_chars_encode_utf8(s@);
    assert forall|i: int| 0 <= i < s.spec_bytes().len() implies s.spec_bytes()[i] != 10u8 by {
        let c = s@[i];
        assert(c as u8 == s.spec_bytes()[i]);
        assert((c as u32) < 128);
    }
}

proof fn lemma_joined_newline_free(a: Seq<u8>, b: Seq<u8>)
    requires
        newline_free(a),
        newline_free(b),
    ensures
        newline_free(a + b),
{
    assert forall|i: int| 0 <= i < (a + b).len() implies (a + b)[i] != 10u8 by {
        if i >= a.len() {
            assert((a + b)[i] == b[i - a.len()]);
        }
    }
}

proof fn lemma_activity_name_text(activity: BrowserActivity)
    ensures
        newline_free(spec_activity_name(activity).spec_bytes()),
        spec_activity_name(activity).spec_bytes().len() <= 15,
{
    match activity {
        BrowserActivity::YouTube => {
            reveal_strlit("youtube");
            lemma_plain_text("youtube");
        },
        BrowserActivity::YouTubeShorts => {
            reveal_strlit("youtube_shorts");
            lemma_plain_text("youtube_shorts");
        },
        BrowserActivity::Instagram => {
            reveal_strlit("instagram");
            lemma_plain_text("instagram");
        },
        BrowserActivity::InstagramReels => {
            reveal_strlit("instagram_reels");
            lemma_plain_text("instagram_reels");
        },
        BrowserActivity::Other => {
            reveal_strlit("other");
            lemma_plain_text("other");
        },
    }
}

proof fn lemma_command_name_text(command: BrowserCommand)
    ensures
        newline_free(spec_command_name(command).spec_bytes()),
        spec_command_name(command).spec_bytes().len() <= 28,
{
    reveal_strlit("close_active_distraction_tab");
    lemma_plain_text("close_active_distraction_tab");
}

proof fn lemma_result_name_text(result: BrowserCommandResult)
    ensures
        newline_free(result.spec_as_str().spec_bytes()),
        result.spec_as_str().spec_bytes().len() <= 23,
{
    match result {
        BrowserCommandResult::Closed => {
            reveal_strlit("closed");
            lemma_plain_text("closed");
        },
        BrowserCommandResult::IgnoredNotDistracting => {
            reveal_strlit("ignored_not_distracting");
            lemma_plain_text("ignored_not_distracting");
        },
        BrowserCommandResult::NoActiveTab => {
            reveal_strlit("no_active_tab");
            lemma_plain_text("no_active_tab");
        },
        BrowserCommandResult::Error => {
            reveal_strlit("error");
            lemma_plain_text("error");
        },
    }
}

proof fn lemma_closing_text()
    ensures
        newline_free("\"}".spec_bytes()),
        "\"}".spec_bytes().len() == 2,
{
    reveal_strlit("\"}");
    lemma_plain_text("\"}");
}

/// Every local message encodes as one short line of JSON: no newline, and
/// well below the maximum local message size.
pub proof fn lemma_local_json_is_one_line(message: LocalBrowserMessage)
    ensures
        newline_free(local_json(message)),
        local_json(message).len() < 256,
{
    lemma_closing_text();
    match message {
        LocalBrowserMessage::Activity { activity } => {
            reveal_strlit("{\"type\":\"browser_activity\",\"activity\":\"");
            lemma_plain_text("{\"type\":\"browser_activity\",\"activity\":\"");
            lemma_activity_name_text(activity);
            lemma_joined_newline_free(
                "{\"type\":\"browser_activity\",\"activity\":\"".spec_bytes(),
                spec_activity_name(activity).spec_bytes(),
            );
            lemma_joined_newline_free(
                "{\"type\":\"browser_activity\",\"activity\":\"".spec_bytes()
                    + spec_activity_name(activity).spec_bytes(),
                "\"}".spec_bytes(),
            );
        },
        LocalBrowserMessage::TrackingUnavailable => {
            reveal_strlit("{\"type\":\"browser_tracking_unavailable\"}");
            lemma_plain_text("{\"type\":\"browser_tracking_unavailable\"}");
        },
        LocalBrowserMessage::CommandResult { command, result } => {
            reveal_strlit("{\"type\":\"browser_command_result\",\"command\":\"");
            lemma_plain_text("{\"type\":\"browser_command_result\",\"command\":\"");
            reveal_strlit("\",\"result\":\"");
            lemma_plain_text("\",\"result\":\"");
            lemma_command_name_text(command);
            lemma_result_name_text(result);
            let a = "{\"type\":\"browser_command_result\",\"command\":\"".spec_bytes();
            let b = spec_command_name(command).spec_bytes();
            let c = "\",\"result\":\"".spec_bytes();
            let d = result.spec_as_str().spec_bytes();
            let e = "\"}".spec_bytes();
            lemma_joined_newline_free(a, b);
            lemma_joined_newline_free(a + b, c);
            lemma_joined_newline_free(a + b + c, d);
            lemma_joined_newline_free(a + b + c + d, e);
        },
    }
}

/// Every command message encodes as one short line of JSON.
pub proof fn lemma_command_json_is_one_line(command: BrowserCommand)
    ensures
        newline_free(command_json(command)),
        command_json(command).len() < 256,
{
    lemma_closing_text();
    reveal_strlit("{\"type\":\"browser_command\",\"command\":\"");
    lemma_plain_text("{\"type\":\"browser_command\",\"command\":\"");
    lemma_command_name_text(command);
    lemma_joined_newline_free(
        "{\"type\":\"browser_command\",\"command\":\"".spec_bytes(),
        spec_command_name(command).spec_bytes(),
    );
    lemma_joined_newline_free(
        "{\"type\":\"browser_command\",\"command\":\"".spec_bytes() + spec_command_name(
            command,
        ).spec_bytes(),
        "\"}".spec_bytes(),
    );
}

/// What Milo's local socket carries is read back as written: the line that
/// the writer of a local message appends reads back as exactly that
/// message's JSON, consuming exactly the line, whatever follows it.
pub proof fn lemma_local_messages_read_back(message: LocalBrowserMessage, rest: Seq<u8>)
    ensures
        spec_read_local(local_line(local_json(message)) + rest) == (
            local_json(message).len() + 1,
            Ok::<Option<Seq<u8>>, LocalFrameError>(Some(local_json(message))),
        ),
{
    lemma_local_json_is_one_line(message);
    lemma_local_round_trip(local_json(message), rest);
}

/// A command line written for the native host reads back as the command's
/// JSON, consuming exactly the line.
pub proof fn lemma_local_commands_read_back(command: BrowserCommand, rest: Seq<u8>)
    ensures
        spec_read_local(local_line(command_json(command)) + rest) == (
            command_json(command).len() + 1,
            Ok::<Option<Seq<u8>>, LocalFrameError>(Some(command_json(command))),
        ),
{
    lemma_command_json_is_one_line(command);
    lemma_local_round_trip(command_json(command), rest);
}

/// A command framed for Firefox reads back as the command's JSON: the frame
/// fits the size limit, and reading consumes exactly the frame.
pub proof fn lemma_native_commands_read_back(command: BrowserCommand, rest: Seq<u8>)
    ensures
        command_json(command).len() <= MAX_NATIVE_MESSAGE_SIZE,
        spec_read_native(native_frame(command_json(command)) + rest) == (
            command_json(command).len() + 4,
            Ok::<Option<Seq<u8>>, NativeFrameError>(Some(command_json(command))),
        ),
{
    lemma_command_json_is_one_line(command);
    lemma_native_round_trip(command_json(command), rest);
}

} // verus!
