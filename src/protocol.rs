//! The session protocol: inbound frames decoded into commands, and command
//! output turned into outbound frames.
use vstd::prelude::*;
use vstd::string::StringSliceAdditionalSpecFns;
use vstd::utf8::encode_utf8;
use crate::command::{CommandStreamItem, StreamItemModel, TerminalSize};
use crate::decimal::{parse_unsigned, parse_unsigned_spec};

verus! {

/// The close code of a normal closure.
pub const NORMAL_CLOSURE: u16 = 1000;

/// The close code of a closure on an internal error.
pub const ERROR_CLOSURE: u16 = 1011;

/// The byte that separates the fields of a text frame (`;`).
pub const DELIMITER: u8 = 59;

/// The discriminant of a start frame (`0`).
pub const START_PREFIX: u8 = 48;

/// The discriminant of an input frame (`1`).
pub const INPUT_PREFIX: u8 = 49;

/// The discriminant of a resize frame (`2`).
pub const RESIZE_PREFIX: u8 = 50;

/// The code and the description that a close frame carries.
#[derive(Debug)]
pub struct CloseFrame {
    pub code: u16,
    pub reason: String,
}

/// One frame of the connection.
#[derive(Debug)]
pub enum WsMessage {
    Text(String),
    Binary(Vec<u8>),
    Ping(Vec<u8>),
    Pong(Vec<u8>),
    Close(Option<CloseFrame>),
}

/// The mathematical value of a `WsMessage`; a text frame is seen as its UTF-8 bytes.
pub enum FrameModel {
    Text(Seq<u8>),
    Binary(Seq<u8>),
    Ping(Seq<u8>),
    Pong(Seq<u8>),
    Close(Option<(u16, Seq<char>)>),
}

impl View for WsMessage {
    type V = FrameModel;

    open spec fn view(&self) -> FrameModel {
        match self {
            WsMessage::Text(t) => FrameModel::Text(encode_utf8(t@)),
            WsMessage::Binary(b) => FrameModel::Binary(b@),
            WsMessage::Ping(b) => FrameModel::Ping(b@),
            WsMessage::Pong(b) => FrameModel::Pong(b@),
            WsMessage::Close(f) => FrameModel::Close(
                match f {
                    Some(c) => Some((c.code, c.reason@)),
                    None => None,
                },
            ),
        }
    }
}

/// An inbound frame, decoded.
#[derive(Debug)]
pub enum CommandMessage {
    /// Start the command, at the given size if the frame gave one.
    Start(Option<TerminalSize>),
    /// Bytes for the command's input.
    Input(Vec<u8>),
    /// Resize the terminal.
    Resize(TerminalSize),
    /// A frame that carries no command.
    Irrelevant(WsMessage),
}

/// The mathematical value of a `CommandMessage`: of an irrelevant frame, only
/// whether it closes the connection.
pub enum CommandModel {
    Start(Option<TerminalSize>),
    Input(Seq<u8>),
    Resize(TerminalSize),
    Irrelevant(bool),
}

impl View for CommandMessage {
    type V = CommandModel;

    open spec fn view(&self) -> CommandModel {
        match self {
            CommandMessage::Start(s) => CommandModel::Start(*s),
            CommandMessage::Input(b) => CommandModel::Input(b@),
            CommandMessage::Resize(s) => CommandModel::Resize(*s),
            CommandMessage::Irrelevant(m) => CommandModel::Irrelevant(m is Close),
        }
    }
}

/// The index of the first delimiter at or after `from`, or the length of `b` if
/// there is none.
pub open spec fn find_delimiter(b: Seq<u8>, from: int) -> int
    decreases b.len() - from,
{
    if from >= b.len() {
        b.len() as int
    } else if b[from] == DELIMITER {
        from
    } else {
        find_delimiter(b, from + 1)
    }
}

/// The second field of a text frame, if it has one.
pub open spec fn second_field(b: Seq<u8>) -> Option<Seq<u8>> {
    let d0 = find_delimiter(b, 0);
    if d0 < b.len() {
        Some(b.subrange(d0 + 1, find_delimiter(b, d0 + 1)))
    } else {
        None
    }
}

/// The third field of a text frame, if it has one.
pub open spec fn third_field(b: Seq<u8>) -> Option<Seq<u8>> {
    let d0 = find_delimiter(b, 0);
    let d1 = find_delimiter(b, d0 + 1);
    if d0 < b.len() && d1 < b.len() {
        Some(b.subrange(d1 + 1, find_delimiter(b, d1 + 1)))
    } else {
        None
    }
}

/// A field read as a 16-bit unsigned integer.
pub open spec fn size_field(f: Option<Seq<u8>>) -> Option<u16> {
    match f {
        Some(s) => match parse_unsigned_spec(s, 65535) {
            Some(v) => Some(v as u16),
            None => None,
        },
        None => None,
    }
}

/// The size that the second and third fields of a text frame give, if both read
/// as 16-bit unsigned integers.
pub open spec fn frame_size(b: Seq<u8>) -> Option<TerminalSize> {
    match (size_field(second_field(b)), size_field(third_field(b))) {
        (Some(rows), Some(cols)) => Some(TerminalSize(rows, cols)),
        _ => None,
    }
}

/// What a text frame whose bytes are `b` means. A first field of exactly one byte
/// is a discriminant; any other frame is input, whole. An input frame carries
/// every byte after its discriminant and the delimiter that follows it. A start
/// frame without a readable size starts at no particular size; a resize frame
/// without one is input, whole.
pub open spec fn text_command(b: Seq<u8>) -> CommandModel {
    if find_delimiter(b, 0) != 1 {
        CommandModel::Input(b)
    } else if b[0] == INPUT_PREFIX {
        CommandModel::Input(if b.len() >= 2 { b.subrange(2, b.len() as int) } else { seq![] })
    } else if b[0] == START_PREFIX {
        CommandModel::Start(frame_size(b))
    } else if b[0] == RESIZE_PREFIX {
        match frame_size(b) {
            Some(s) => CommandModel::Resize(s),
            None => CommandModel::Input(b),
        }
    } else {
        CommandModel::Input(b)
    }
}

/// What an inbound frame means: binary frames are input, whole; text frames are
/// decoded; any other frame carries no command.
pub open spec fn frame_command(m: FrameModel) -> CommandModel {
    match m {
        FrameModel::Text(b) => text_command(b),
        FrameModel::Binary(b) => CommandModel::Input(b),
        FrameModel::Close(_) => CommandModel::Irrelevant(true),
        _ => CommandModel::Irrelevant(false),
    }
}

/// The index of the first delimiter of `b` at or after `from`.
fn find_delimiter_exec(b: &[u8], from: usize) -> (r: usize)
    requires
        from <= b@.len(),
    ensures
        r as int == find_delimiter(b@, from as int),
        from <= r <= b@.len(),
{
    let mut i = from;
    while i < b.len()
        invariant
            from <= i <= b@.len(),
            find_delimiter(b@, from as int) == find_delimiter(b@, i as int),
        decreases b@.len() - i,
    {
        if b[i] == DELIMITER {
            return i;
        }
        i = i + 1;
    }
    i
}

/// The bytes of `b` from `from` up to `to`.
fn copy_range(b: &[u8], from: usize, to: usize) -> (r: Vec<u8>)
    requires
        from <= to <= b@.len(),
    ensures
        r@ == b@.subrange(from as int, to as int),
{
    let mut out: Vec<u8> = Vec::new();
    let mut i = from;
    while i < to
        invariant
            from <= i <= to <= b@.len(),
            out@ == b@.subrange(from as int, i as int),
        decreases to - i,
    {
        out.push(b[i]);
        i = i + 1;
        assert(out@ =~= b@.subrange(from as int, i as int));
    }
    out
}

/// Reads the field of `b` that starts at `start` as a 16-bit unsigned integer.
fn read_size_field(b: &[u8], start: usize) -> (r: Option<u16>)
    requires
        start <= b@.len(),
    ensures
        r == size_field(Some(b@.subrange(start as int, find_delimiter(b@, start as int)))),
{
    let end = find_delimiter_exec(b, start);
    match parse_unsigned(&b[start..end], 65535) {
        Some(v) => Some(v as u16),
        None => None,
    }
}

/// The size that the second and third fields of `b` give; `d0` is the index of
/// its first delimiter.
fn read_frame_size(b: &[u8], d0: usize) -> (r: Option<TerminalSize>)
    requires
        d0 == find_delimiter(b@, 0),
        d0 <= b@.len(),
    ensures
        r == frame_size(b@),
{
    if d0 >= b.len() {
        return None;
    }
    let rows = read_size_field(b, d0 + 1);
    let d1 = find_delimiter_exec(b, d0 + 1);
    if d1 >= b.len() {
        return None;
    }
    let cols = read_size_field(b, d1 + 1);
    match (rows, cols) {
        (Some(r), Some(c)) => Some(TerminalSize(r, c)),
        _ => None,
    }
}

/// Decodes a text frame.
pub fn decode_text(value: &str) -> (r: CommandMessage)
    ensures
        r@ == text_command(value.spec_bytes()),
{
    let b = value.as_bytes();
    let n = b.len();
    let d0 = find_delimiter_exec(b, 0);
    assert(b@.subrange(0, n as int) =~= b@);
    if d0 != 1 {
        return CommandMessage::Input(copy_range(b, 0, n));
    }
    let prefix = b[0];
    if prefix == INPUT_PREFIX {
        let from: usize = if n >= 2 { 2 } else { n };
        assert(n < 2 ==> b@.subrange(from as int, n as int) =~= Seq::<u8>::empty());
        CommandMessage::Input(copy_range(b, from, n))
    } else if prefix == START_PREFIX {
        CommandMessage::Start(read_frame_size(b, d0))
    } else if prefix == RESIZE_PREFIX {
        match read_frame_size(b, d0) {
            Some(s) => CommandMessage::Resize(s),
            None => CommandMessage::Input(copy_range(b, 0, n)),
        }
    } else {
        CommandMessage::Input(copy_range(b, 0, n))
    }
}

impl CommandMessage {
    /// Decodes an inbound frame.
    pub fn from_message(value: WsMessage) -> (r: CommandMessage)
        ensures
            r@ == frame_command(value@),
    {
        match value {
            WsMessage::Binary(d) => CommandMessage::Input(d),
            WsMessage::Text(t) => decode_text(t.as_str()),
            other => CommandMessage::Irrelevant(other),
        }
    }
}

} // verus!
