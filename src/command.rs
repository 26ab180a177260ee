//! The command's side of a session: terminal sizes, spawn errors, and the events
//! that the command's output stream is made of.
use vstd::prelude::*;
use vstd::string::StringExecFns;
use crate::decimal::{signed_decimal_chars, signed_to_decimal};

verus! {

/// A terminal size: rows first, then columns.
#[derive(Debug, Clone, Copy, PartialEq, Eq, Structural)]
pub struct TerminalSize(pub u16, pub u16);

impl TerminalSize {
    pub fn rows(&self) -> (r: u16)
        ensures
            r == self.0,
    {
        self.0
    }

    pub fn cols(&self) -> (r: u16)
        ensures
            r == self.1,
    {
        self.1
    }
}

/// Why a command could not be started.
#[derive(Debug)]
pub enum CommandError {
    /// The terminal could not be allocated or the process could not be launched;
    /// the text is the operating system's message.
    Error(String),
}

/// The text that describes a spawn failure whose system message is `m`.
pub open spec fn spawn_error_text(m: Seq<char>) -> Seq<char> {
    "Failed to start command: "@ + m
}

impl CommandError {
    /// The error's description.
    pub fn to_string(&self) -> (r: String)
        ensures
            match self {
                CommandError::Error(m) => r@ == spawn_error_text(m@),
            },
    {
        match self {
            CommandError::Error(m) => String::from_str("Failed to start command: ").concat(
                m.as_str(),
            ),
        }
    }
}

/// One event of a command's output stream.
#[derive(Debug)]
pub enum CommandStreamItem {
    /// A chunk of the terminal's output.
    Output(Vec<u8>),
    /// A failure that does not end the stream.
    Error(String),
    /// The last event: the command is gone, for the reason given.
    Exit(String),
}

/// The mathematical value of a `CommandStreamItem`.
pub enum StreamItemModel {
    Output(Seq<u8>),
    Error(Seq<char>),
    Exit(Seq<char>),
}

impl View for CommandStreamItem {
    type V = StreamItemModel;

    open spec fn view(&self) -> StreamItemModel {
        match self {
            CommandStreamItem::Output(b) => StreamItemModel::Output(b@),
            CommandStreamItem::Error(m) => StreamItemModel::Error(m@),
            CommandStreamItem::Exit(m) => StreamItemModel::Exit(m@),
        }
    }
}

/// The operating-system error code that a terminal's reading side reports once
/// the process behind it has exited (EIO).
pub const DEVICE_CLOSED_ERROR: i32 = 5;

/// What became ready first while the output stream waited.
#[derive(Debug)]
pub enum StreamSource {
    /// The terminal produced output.
    Output(Vec<u8>),
    /// Reading the terminal failed, with the system's error code if there is one.
    ReadFailed(Option<i32>, String),
    /// The process exited, with its exit code if it has one.
    Exited(Option<i32>),
    /// Waiting for the process failed.
    WaitFailed(String),
    /// The session asked the command to stop.
    Aborted,
}

/// The mathematical value of a `StreamSource`.
pub enum SourceModel {
    Output(Seq<u8>),
    ReadFailed(Option<i32>, Seq<char>),
    Exited(Option<i32>),
    WaitFailed(Seq<char>),
    Aborted,
}

impl View for StreamSource {
    type V = SourceModel;

    open spec fn view(&self) -> SourceModel {
        match self {
            StreamSource::Output(b) => SourceModel::Output(b@),
            StreamSource::ReadFailed(c, m) => SourceModel::ReadFailed(*c, m@),
            StreamSource::Exited(c) => SourceModel::Exited(*c),
            StreamSource::WaitFailed(m) => SourceModel::WaitFailed(m@),
            StreamSource::Aborted => SourceModel::Aborted,
        }
    }
}

/// What the output stream does about one ready source.
#[derive(Debug)]
pub struct StreamStep {
    /// The event to hand on, if any.
    pub item: Option<CommandStreamItem>,
    /// Whether the process is to be killed.
    pub kill: bool,
    /// Whether the stream ends after this step.
    pub finished: bool,
}

/// The mathematical value of a `StreamStep`.
pub struct StepModel {
    pub item: Option<StreamItemModel>,
    pub kill: bool,
    pub finished: bool,
}

impl View for StreamStep {
    type V = StepModel;

    open spec fn view(&self) -> StepModel {
        StepModel {
            item: match self.item {
                Some(i) => Some(i@),
                None => None,
            },
            kill: self.kill,
            finished: self.finished,
        }
    }
}

/// The reason given when a process exits with `code` (no code counts as 0).
pub open spec fn exit_text(code: Option<i32>) -> Seq<char> {
    "Command exited with status code: "@ + signed_decimal_chars(
        match code {
            Some(c) => c as int,
            None => 0,
        },
    )
}

/// The reason given when the session stops the command.
pub open spec fn aborted_text() -> Seq<char> {
    "Aborted"@
}

/// What the output stream does when `source` becomes ready first.
pub open spec fn stream_step(source: SourceModel) -> StepModel {
    match source {
        SourceModel::Output(b) => StepModel {
            item: Some(StreamItemModel::Output(b)),
            kill: false,
            finished: false,
        },
        SourceModel::ReadFailed(code, m) => StepModel {
            item: if code == Some(DEVICE_CLOSED_ERROR) {
                None
            } else {
                Some(StreamItemModel::Error(m))
            },
            kill: false,
            finished: false,
        },
        SourceModel::Exited(code) => StepModel {
            item: Some(StreamItemModel::Exit(exit_text(code))),
            kill: false,
            finished: true,
        },
        SourceModel::WaitFailed(m) => StepModel {
            item: Some(StreamItemModel::Error(m)),
            kill: false,
            finished: false,
        },
        SourceModel::Aborted => StepModel {
            item: Some(StreamItemModel::Exit(aborted_text())),
            kill: true,
            finished: true,
        },
    }
}

/// Decides what the output stream does when `source` became ready first: output
/// is handed on, the read error that follows a process's exit is dropped, other
/// failures are reported without ending the stream, and an exit or an abort ends
/// it with one `Exit` event.
pub fn next_stream_step(source: StreamSource) -> (r: StreamStep)
    ensures
        r@ == stream_step(source@),
        r.finished <==> (r.item is Some && r.item->Some_0 is Exit),
{
    match source {
        StreamSource::Output(b) => StreamStep {
            item: Some(CommandStreamItem::Output(b)),
            kill: false,
            finished: false,
        },
        StreamSource::ReadFailed(code, m) => {
            let suppressed = match code {
                Some(c) => c == DEVICE_CLOSED_ERROR,
                None => false,
            };
            StreamStep {
                item: if suppressed {
                    None
                } else {
                    Some(CommandStreamItem::Error(m))
                },
                kill: false,
                finished: false,
            }
        },
        StreamSource::Exited(code) => {
            let c: i32 = match code {
                Some(c) => c,
                None => 0,
            };
            let text = String::from_str("Command exited with status code: ").concat(
                signed_to_decimal(c).as_str(),
            );
            StreamStep { item: Some(CommandStreamItem::Exit(text)), kill: false, finished: true }
        },
        StreamSource::WaitFailed(m) => StreamStep {
            item: Some(CommandStreamItem::Error(m)),
            kill: false,
            finished: false,
        },
        StreamSource::Aborted => StreamStep {
            item: Some(CommandStreamItem::Exit(String::from_str("Aborted"))),
            kill: true,
            finished: true,
        },
    }
}

} // verus!
