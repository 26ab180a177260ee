//! The decisions of one session: what each pump does with what it receives, and
//! the session's own states, from waiting for a start frame to termination.
use vstd::prelude::*;
use crate::command::{spawn_error_text, CommandError, CommandStreamItem, StreamItemModel, TerminalSize};
use crate::protocol::{
    frame_command, CloseFrame, CommandMessage, CommandModel, FrameModel, WsMessage,
    ERROR_CLOSURE, NORMAL_CLOSURE,
};

verus! {

/// What the inbound pump does with one frame.
#[derive(Debug)]
pub enum InboundAction {
    /// Write the bytes to the command's input.
    Write(Vec<u8>),
    /// Resize the terminal.
    Resize(TerminalSize),
    /// Drop the frame and read the next one.
    Skip,
    /// Stop: the remote side closed the connection.
    Stop,
}

/// The mathematical value of an `InboundAction`.
pub enum InboundModel {
    Write(Seq<u8>),
    Resize(TerminalSize),
    Skip,
    Stop,
}

impl View for InboundAction {
    type V = InboundModel;

    open spec fn view(&self) -> InboundModel {
        match self {
            InboundAction::Write(b) => InboundModel::Write(b@),
            InboundAction::Resize(s) => InboundModel::Resize(*s),
            InboundAction::Skip => InboundModel::Skip,
            InboundAction::Stop => InboundModel::Stop,
        }
    }
}

/// What the inbound pump does with a frame that means `c`: input is written only
/// where writes are allowed, resizes are always honoured, a close frame stops the
/// pump, and anything else is dropped.
pub open spec fn inbound_step(c: CommandModel, allow_write: bool) -> InboundModel {
    match c {
        CommandModel::Input(b) => if allow_write {
            InboundModel::Write(b)
        } else {
            InboundModel::Skip
        },
        CommandModel::Resize(s) => InboundModel::Resize(s),
        CommandModel::Start(_) => InboundModel::Skip,
        CommandModel::Irrelevant(closes) => if closes {
            InboundModel::Stop
        } else {
            InboundModel::Skip
        },
    }
}

/// Decides what the inbound pump does with the frame `msg`.
pub fn inbound_action(msg: WsMessage, allow_write: bool) -> (r: InboundAction)
    ensures
        r@ == inbound_step(frame_command(msg@), allow_write),
{
    match CommandMessage::from_message(msg) {
        CommandMessage::Input(d) => if allow_write {
            InboundAction::Write(d)
        } else {
            InboundAction::Skip
        },
        CommandMessage::Resize(s) => InboundAction::Resize(s),
        CommandMessage::Start(_) => InboundAction::Skip,
        CommandMessage::Irrelevant(m) => match m {
            WsMessage::Close(_) => InboundAction::Stop,
            _ => InboundAction::Skip,
        },
    }
}

/// The frame that the outbound pump sends for an event of the command's output
/// stream: output as a binary frame, the exit as a normal closure that gives the
/// reason, and no frame for an error.
pub open spec fn outbound_frame(item: StreamItemModel) -> Option<FrameModel> {
    match item {
        StreamItemModel::Output(b) => Some(FrameModel::Binary(b)),
        StreamItemModel::Error(_) => None,
        StreamItemModel::Exit(reason) => Some(FrameModel::Close(Some((NORMAL_CLOSURE, reason)))),
    }
}

/// The frame to send for `item`, if any.
pub fn outbound_message(item: CommandStreamItem) -> (r: Option<WsMessage>)
    ensures
        match r {
            Some(m) => outbound_frame(item@) == Some(m@),
            None => outbound_frame(item@) is None,
        },
{
    match item {
        CommandStreamItem::Output(b) => Some(WsMessage::Binary(b)),
        CommandStreamItem::Error(_) => None,
        CommandStreamItem::Exit(reason) => Some(
            WsMessage::Close(Some(CloseFrame { code: NORMAL_CLOSURE, reason })),
        ),
    }
}

/// The states of a session.
#[derive(Debug, Clone, Copy, PartialEq, Eq, Structural)]
pub enum SessionState {
    /// No command yet: waiting for a start frame.
    Waiting,
    /// The command runs and both pumps move data.
    Running,
    /// Both pumps have stopped.
    Terminated,
}

/// The position of a state in the session's one-way order.
pub open spec fn state_rank(s: SessionState) -> nat {
    match s {
        SessionState::Waiting => 0,
        SessionState::Running => 1,
        SessionState::Terminated => 2,
    }
}

/// What happened to a session.
#[derive(Debug)]
pub enum SessionEvent {
    /// A frame came in while no pump was reading.
    Received(WsMessage),
    /// The connection was closed or failed while no pump was reading.
    ConnectionLost,
    /// The attempt to start the command ended.
    Spawned(Result<(), CommandError>),
    /// The outbound pump ended: the command's output stream is over or the
    /// connection refused a frame.
    OutboundFinished,
    /// The inbound pump ended: the remote side closed or the connection failed.
    InboundFinished,
}

/// The mathematical value of a `SessionEvent`.
pub enum EventModel {
    Received(FrameModel),
    ConnectionLost,
    Spawned(Result<(), Seq<char>>),
    OutboundFinished,
    InboundFinished,
}

impl View for SessionEvent {
    type V = EventModel;

    open spec fn view(&self) -> EventModel {
        match self {
            SessionEvent::Received(m) => EventModel::Received(m@),
            SessionEvent::ConnectionLost => EventModel::ConnectionLost,
            SessionEvent::Spawned(Ok(())) => EventModel::Spawned(Ok(())),
            SessionEvent::Spawned(Err(CommandError::Error(m))) => EventModel::Spawned(Err(m@)),
            SessionEvent::OutboundFinished => EventModel::OutboundFinished,
            SessionEvent::InboundFinished => EventModel::InboundFinished,
        }
    }
}

/// What the session asks of its runner.
#[derive(Debug)]
pub enum SessionAction {
    /// Nothing to do.
    Nothing,
    /// Start the command, at the given size or at the terminal's own.
    Spawn(Option<TerminalSize>),
    /// Send this close frame and end the session.
    Close(CloseFrame),
    /// Start both pumps.
    StartPumps,
    /// Cancel the inbound pump and raise the abort signal.
    StopInbound,
    /// Cancel the outbound pump and raise the abort signal, which stops the command.
    StopOutbound,
}

/// The mathematical value of a `SessionAction`.
pub enum ActionModel {
    Nothing,
    Spawn(Option<TerminalSize>),
    Close(u16, Seq<char>),
    StartPumps,
    StopInbound,
    StopOutbound,
}

impl View for SessionAction {
    type V = ActionModel;

    open spec fn view(&self) -> ActionModel {
        match self {
            SessionAction::Nothing => ActionModel::Nothing,
            SessionAction::Spawn(s) => ActionModel::Spawn(*s),
            SessionAction::Close(f) => ActionModel::Close(f.code, f.reason@),
            SessionAction::StartPumps => ActionModel::StartPumps,
            SessionAction::StopInbound => ActionModel::StopInbound,
            SessionAction::StopOutbound => ActionModel::StopOutbound,
        }
    }
}

/// The size to start at: the one the start frame asked for, else the default.
pub open spec fn start_size(
    requested: Option<TerminalSize>,
    default_size: Option<TerminalSize>,
) -> Option<TerminalSize> {
    match requested {
        Some(s) => Some(s),
        None => default_size,
    }
}

/// The next state of a session in `state` on `event`, and what it asks for.
pub open spec fn session_step(
    state: SessionState,
    default_size: Option<TerminalSize>,
    event: EventModel,
) -> (SessionState, ActionModel) {
    match (state, event) {
        (SessionState::Waiting, EventModel::Received(m)) => match frame_command(m) {
            CommandModel::Start(s) => (
                SessionState::Waiting,
                ActionModel::Spawn(start_size(s, default_size)),
            ),
            _ => (SessionState::Waiting, ActionModel::Nothing),
        },
        (SessionState::Waiting, EventModel::ConnectionLost) => (
            SessionState::Terminated,
            ActionModel::Nothing,
        ),
        (SessionState::Waiting, EventModel::Spawned(Ok(()))) => (
            SessionState::Running,
            ActionModel::StartPumps,
        ),
        (SessionState::Waiting, EventModel::Spawned(Err(m))) => (
            SessionState::Terminated,
            ActionModel::Close(ERROR_CLOSURE, spawn_error_text(m)),
        ),
        (SessionState::Running, EventModel::OutboundFinished) => (
            SessionState::Terminated,
            ActionModel::StopInbound,
        ),
        (SessionState::Running, EventModel::InboundFinished) => (
            SessionState::Terminated,
            ActionModel::StopOutbound,
        ),
        (SessionState::Running, EventModel::ConnectionLost) => (
            SessionState::Terminated,
            ActionModel::StopOutbound,
        ),
        _ => (state, ActionModel::Nothing),
    }
}

/// One session's coordinator.
#[derive(Debug)]
pub struct Session {
    state: SessionState,
    default_size: Option<TerminalSize>,
}

impl Session {
    pub closed spec fn spec_state(&self) -> SessionState {
        self.state
    }

    pub closed spec fn spec_default_size(&self) -> Option<TerminalSize> {
        self.default_size
    }

    /// A session that waits for its start frame; a start frame without a size
    /// starts the command at `default_size`.
    pub fn new(default_size: Option<TerminalSize>) -> (r: Session)
        ensures
            r.spec_state() == SessionState::Waiting,
            r.spec_default_size() == default_size,
    {
        Session { state: SessionState::Waiting, default_size }
    }

    pub fn state(&self) -> (r: SessionState)
        ensures
            r == self.spec_state(),
    {
        self.state
    }

    /// Moves the session on `event` and says what it asks for.
    pub fn handle(&mut self, event: SessionEvent) -> (r: SessionAction)
        ensures
            (final(self).spec_state(), r@) == session_step(
                old(self).spec_state(),
                old(self).spec_default_size(),
                event@,
            ),
            final(self).spec_default_size() == old(self).spec_default_size(),
            state_rank(final(self).spec_state()) >= state_rank(old(self).spec_state()),
    {
        match (self.state, event) {
            (SessionState::Waiting, SessionEvent::Received(m)) => match CommandMessage::from_message(
                m,
            ) {
                CommandMessage::Start(s) => {
                    let size = match s {
                        Some(s) => Some(s),
                        None => self.default_size,
                    };
                    SessionAction::Spawn(size)
                },
                _ => SessionAction::Nothing,
            },
            (SessionState::Waiting, SessionEvent::ConnectionLost) => {
                self.state = SessionState::Terminated;
                SessionAction::Nothing
            },
            (SessionState::Waiting, SessionEvent::Spawned(Ok(()))) => {
                self.state = SessionState::Running;
                SessionAction::StartPumps
            },
            (SessionState::Waiting, SessionEvent::Spawned(Err(e))) => {
                self.state = SessionState::Terminated;
                SessionAction::Close(CloseFrame { code: ERROR_CLOSURE, reason: e.to_string() })
            },
            (SessionState::Running, SessionEvent::OutboundFinished) => {
                self.state = SessionState::Terminated;
                SessionAction::StopInbound
            },
            (SessionState::Running, SessionEvent::InboundFinished) => {
                self.state = SessionState::Terminated;
                SessionAction::StopOutbound
            },
            (SessionState::Running, SessionEvent::ConnectionLost) => {
                self.state = SessionState::Terminated;
                SessionAction::StopOutbound
            },
            _ => SessionAction::Nothing,
        }
    }
}

} // verus!
