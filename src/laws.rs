//! Properties that relate several of the library's functions, stated over the
//! models that their contracts use, and proved.
use vstd::prelude::*;
use crate::command::{
    aborted_text, exit_text, stream_step, SourceModel, StreamItemModel, TerminalSize,
};
use crate::decimal::{decimal_bytes, is_digit, lemma_decimal_bytes_round_trip};
use crate::protocol::{
    find_delimiter, frame_command, text_command, CommandModel, FrameModel, DELIMITER,
    INPUT_PREFIX, NORMAL_CLOSURE, RESIZE_PREFIX, START_PREFIX,
};
use crate::session::{
    inbound_step, outbound_frame, session_step, start_size, ActionModel, EventModel, InboundModel,
    SessionState,
};

verus! {

/// The bytes of a text frame with discriminant `prefix` and the size `rows`, `cols`.
pub open spec fn size_frame(prefix: u8, rows: u16, cols: u16) -> Seq<u8> {
    seq![prefix, DELIMITER] + decimal_bytes(rows as nat) + seq![DELIMITER] + decimal_bytes(
        cols as nat,
    )
}

/// The size of a terminal after the inbound pump acted on `a`.
pub open spec fn size_after(current: TerminalSize, a: InboundModel) -> TerminalSize {
    match a {
        InboundModel::Resize(s) => s,
        _ => current,
    }
}

/// The events that the output stream hands on when its sources become ready in
/// the order of `sources`; the stream ends at the first source that finishes it.
pub open spec fn stream_run(sources: Seq<SourceModel>) -> Seq<StreamItemModel>
    decreases sources.len(),
{
    if sources.len() == 0 {
        seq![]
    } else {
        let step = stream_step(sources[0]);
        let here: Seq<StreamItemModel> = match step.item {
            Some(i) => seq![i],
            None => seq![],
        };
        if step.finished {
            here
        } else {
            here + stream_run(sources.drop_first())
        }
    }
}

/// Whether some source of `sources` finishes the output stream.
pub open spec fn some_source_finishes(sources: Seq<SourceModel>) -> bool {
    exists|i: int| 0 <= i < sources.len() && #[trigger] stream_step(sources[i]).finished
}

/// The first delimiter at or after `from` is at `to` when none stands before it.
proof fn lemma_find_delimiter_at(b: Seq<u8>, from: int, to: int)
    requires
        0 <= from <= to <= b.len(),
        forall|i: int| from <= i < to ==> b[i] != DELIMITER,
        to == b.len() || b[to] == DELIMITER,
    ensures
        find_delimiter(b, from) == to,
    decreases to - from,
{
    if from < to {
        lemma_find_delimiter_at(b, from + 1, to);
    }
}

/// A decimal writing reads back as the 16-bit number it writes.
proof fn lemma_size_field_round_trip(n: u16)
    ensures
        crate::protocol::size_field(Some(decimal_bytes(n as nat))) == Some(n),
        forall|i: int| 0 <= i < decimal_bytes(n as nat).len() ==> decimal_bytes(n as nat)[i] != DELIMITER,
{
    lemma_decimal_bytes_round_trip(n as nat);
    let d = decimal_bytes(n as nat);
    assert forall|i: int| 0 <= i < d.len() implies d[i] != DELIMITER by {
        assert(is_digit(d[i]));
    }
}

/// A frame with a one-byte discriminant and two size fields carries that size.
proof fn lemma_size_frame(prefix: u8, rows: u16, cols: u16)
    requires
        prefix != DELIMITER,
    ensures
        find_delimiter(size_frame(prefix, rows, cols), 0) == 1,
        size_frame(prefix, rows, cols)[0] == prefix,
        crate::protocol::frame_size(size_frame(prefix, rows, cols)) == Some(TerminalSize(rows, cols)),
{
    let b = size_frame(prefix, rows, cols);
    let r = decimal_bytes(rows as nat);
    let c = decimal_bytes(cols as nat);
    lemma_size_field_round_trip(rows);
    lemma_size_field_round_trip(cols);
    let e1: int = 2 + r.len() as int;
    assert(b[0] == prefix);
    assert(b[1] == DELIMITER);
    lemma_find_delimiter_at(b, 0, 1);
    assert forall|i: int| 2 <= i < e1 implies b[i] != DELIMITER by {
        assert(b[i] == r[i - 2]);
    }
    assert(b[e1] == DELIMITER);
    lemma_find_delimiter_at(b, 2, e1);
    assert forall|i: int| e1 + 1 <= i < b.len() implies b[i] != DELIMITER by {
        assert(b[i] == c[i - e1 - 1]);
    }
    lemma_find_delimiter_at(b, e1 + 1, b.len() as int);
    assert(b.subrange(2, e1) =~= r);
    assert(b.subrange(e1 + 1, b.len() as int) =~= c);
}

/// A resize frame `2;rows;cols` resizes the terminal to exactly `rows` by `cols`,
/// whatever the write policy, and acting on it a second time changes nothing more.
pub proof fn resize_frame_sets_size(rows: u16, cols: u16, allow_write: bool, current: TerminalSize)
    ensures
        text_command(size_frame(RESIZE_PREFIX, rows, cols)) == CommandModel::Resize(
            TerminalSize(rows, cols),
        ),
        ({
            let a = inbound_step(
                frame_command(FrameModel::Text(size_frame(RESIZE_PREFIX, rows, cols))),
                allow_write,
            );
            &&& a == InboundModel::Resize(TerminalSize(rows, cols))
            &&& size_after(current, a) == TerminalSize(rows, cols)
            &&& size_after(size_after(current, a), a) == size_after(current, a)
        }),
{
    lemma_size_frame(RESIZE_PREFIX, rows, cols);
}

/// A start frame `0;rows;cols` received by a waiting session starts the command at
/// `rows` by `cols`; a bare `0` starts it at the session's default size.
pub proof fn start_frame_spawns_at_size(
    rows: u16,
    cols: u16,
    default_size: Option<TerminalSize>,
)
    ensures
        session_step(
            SessionState::Waiting,
            default_size,
            EventModel::Received(FrameModel::Text(size_frame(START_PREFIX, rows, cols))),
        ) == (SessionState::Waiting, ActionModel::Spawn(Some(TerminalSize(rows, cols)))),
        session_step(
            SessionState::Waiting,
            default_size,
            EventModel::Received(FrameModel::Text(seq![START_PREFIX])),
        ) == (SessionState::Waiting, ActionModel::Spawn(default_size)),
{
    lemma_size_frame(START_PREFIX, rows, cols);
    let bare = seq![START_PREFIX];
    lemma_find_delimiter_at(bare, 0, 1);
    assert(find_delimiter(bare, 1) == 1);
    assert(crate::protocol::second_field(bare) is None);
}

/// An input frame `1;` followed by any bytes writes exactly those bytes where writes
/// are allowed, and is dropped without error where they are not.
pub proof fn input_frame_writes_payload(payload: Seq<u8>, allow_write: bool)
    ensures
        inbound_step(
            frame_command(FrameModel::Text(seq![INPUT_PREFIX, DELIMITER] + payload)),
            allow_write,
        ) == if allow_write {
            InboundModel::Write(payload)
        } else {
            InboundModel::Skip
        },
{
    let b = seq![INPUT_PREFIX, DELIMITER] + payload;
    assert(b[0] == INPUT_PREFIX);
    assert(b[1] == DELIMITER);
    lemma_find_delimiter_at(b, 0, 1);
    assert(b.subrange(2, b.len() as int) =~= payload);
}

/// A binary frame is input, byte for byte, whatever its first byte.
pub proof fn binary_frame_is_raw_input(bytes: Seq<u8>, allow_write: bool)
    ensures
        frame_command(FrameModel::Binary(bytes)) == CommandModel::Input(bytes),
        allow_write ==> inbound_step(frame_command(FrameModel::Binary(bytes)), allow_write)
            == InboundModel::Write(bytes),
{
}

/// A text frame whose first field is not exactly one byte long is input, whole.
pub proof fn long_first_field_is_raw_input(b: Seq<u8>)
    requires
        find_delimiter(b, 0) != 1,
    ensures
        text_command(b) == CommandModel::Input(b),
{
}

/// When the process exits with `code`, the output stream ends with one `Exit`
/// event whose reason names the code, and the outbound pump closes the
/// connection normally with that reason.
pub proof fn exit_closes_normally(code: i32)
    ensures
        stream_step(SourceModel::Exited(Some(code))).finished,
        stream_step(SourceModel::Exited(Some(code))).item == Some(
            StreamItemModel::Exit(exit_text(Some(code))),
        ),
        exit_text(Some(code)).subrange(
            exit_text(Some(code)).len() - crate::decimal::signed_decimal_chars(code as int).len(),
            exit_text(Some(code)).len() as int,
        ) == crate::decimal::signed_decimal_chars(code as int),
        outbound_frame(StreamItemModel::Exit(exit_text(Some(code)))) == Some(
            FrameModel::Close(Some((NORMAL_CLOSURE, exit_text(Some(code))))),
        ),
{
    let t = exit_text(Some(code));
    let d = crate::decimal::signed_decimal_chars(code as int);
    assert(t.subrange(t.len() - d.len(), t.len() as int) =~= d);
}

/// When the remote side closes a running session, the inbound pump stops, the
/// session cancels the outbound pump and raises the abort signal, and the output
/// stream then kills the process and ends with `Exit("Aborted")`.
pub proof fn remote_close_kills_command(close: Option<(u16, Seq<char>)>, allow_write: bool, default_size: Option<TerminalSize>)
    ensures
        inbound_step(frame_command(FrameModel::Close(close)), allow_write) == InboundModel::Stop,
        session_step(SessionState::Running, default_size, EventModel::InboundFinished) == (
            SessionState::Terminated,
            ActionModel::StopOutbound,
        ),
        stream_step(SourceModel::Aborted).kill,
        stream_step(SourceModel::Aborted).finished,
        stream_step(SourceModel::Aborted).item == Some(StreamItemModel::Exit(aborted_text())),
{
}

/// The output stream hands on at most one `Exit` event, always as its last event,
/// and hands one on whenever some source finishes it.
pub proof fn stream_ends_with_one_exit(sources: Seq<SourceModel>)
    ensures
        forall|i: int|
            0 <= i < stream_run(sources).len() && #[trigger] stream_run(sources)[i] is Exit ==> i
                == stream_run(sources).len() - 1,
        some_source_finishes(sources) ==> stream_run(sources).len() > 0 && stream_run(
            sources,
        ).last() is Exit,
    decreases sources.len(),
{
    if sources.len() > 0 {
        let rest = sources.drop_first();
        stream_ends_with_one_exit(rest);
        let step = stream_step(sources[0]);
        let run = stream_run(sources);
        if !step.finished {
            assert(step.item is None || !(step.item->Some_0 is Exit));
            if some_source_finishes(sources) {
                let i = choose|i: int| 0 <= i < sources.len() && #[trigger] stream_step(sources[i]).finished;
                assert(i > 0);
                assert(rest[i - 1] == sources[i]);
                assert(some_source_finishes(rest));
            }
            let here: Seq<StreamItemModel> = match step.item {
                Some(x) => seq![x],
                None => seq![],
            };
            assert(run == here + stream_run(rest));
            assert forall|i: int| 0 <= i < run.len() && #[trigger] run[i] is Exit implies i == run.len() - 1 by {
                if i >= here.len() {
                    assert(run[i] == stream_run(rest)[i - here.len()]);
                }
            }
        }
    }
}

} // verus!
