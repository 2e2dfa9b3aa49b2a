//! The response reader: one frame at a time, header before payload, until
//! the read budget is spent, the read is cancelled or a fault ends it.
//!
//! The reader performs no input itself. It says what it needs next, is told
//! what came, and moves to its next state.

use crate::codec::{
    decode_header, decode_payload, header_outcome, payload_outcome, FrameError, HEADER_LEN,
};
use vstd::prelude::*;

verus! {

/// The number of frames that a reader consumes unless told otherwise.
pub const DEFAULT_READ_BUDGET: u64 = 100;

/// Why a reader gave up.
#[derive(Clone, Copy, Debug, PartialEq, Eq, Structural)]
pub enum Fault {
    /// A read failed for another reason than the end of the data.
    ReadFailed,
    /// What was read is no frame.
    Frame(FrameError),
    /// A report came that does not answer what the reader had asked for.
    OutOfTurn,
}

/// What the reader asks its driver to do next.
#[derive(Clone, Copy, Debug, PartialEq, Eq, Structural)]
pub enum Request {
    /// Read this many bytes, stopping early only where the data ends or the
    /// read fails.
    Read(usize),
    /// Show the decoded message.
    Present,
    /// Nothing more: the reader is done.
    Stop,
}

/// What the driver reports back.
#[derive(Debug, PartialEq, Eq)]
pub enum ReaderEvent {
    /// The bytes that came until the request was filled or the data ended.
    Received(Vec<u8>),
    /// The read failed for another reason than the end of the data.
    ReadFailed,
    /// The decoded message has been shown.
    Presented,
}

/// A driver's report as the contracts see it: a `ReaderEvent` with its
/// bytes as a sequence.
pub ghost enum Signal {
    /// The bytes that came until the request was filled or the data ended.
    Received(Seq<u8>),
    /// The read failed for another reason than the end of the data.
    ReadFailed,
    /// The decoded message has been shown.
    Presented,
}

impl View for ReaderEvent {
    type V = Signal;

    open spec fn view(&self) -> Signal {
        match self {
            ReaderEvent::Received(bytes) => Signal::Received(bytes@),
            ReaderEvent::ReadFailed => Signal::ReadFailed,
            ReaderEvent::Presented => Signal::Presented,
        }
    }
}

/// The reader's state. `budget` is the number of frames still to be
/// consumed, the one in progress included.
#[derive(Debug, PartialEq)]
pub enum ReaderState {
    /// Waiting for the eight bytes of a header.
    ReadingHeader { budget: u64 },
    /// Waiting for the payload that the header declared.
    ReadingPayload { budget: u64, declared_length: usize },
    /// A frame has been decoded and its message waits to be shown.
    Decoded { budget: u64, message: serde_json::Value },
    /// Done: the budget is spent.
    Exhausted,
    /// Done: the data ended before the first byte of a header.
    Cancelled,
    /// Done: a read failed or a frame was malformed.
    Faulted(Fault),
}

impl ReaderState {
    /// The reader is done and will ask for nothing more.
    pub open spec fn is_terminal(self) -> bool {
        self is Exhausted || self is Cancelled || self is Faulted
    }

    /// A state that still reads has budget left.
    pub open spec fn well_formed(self) -> bool {
        match self {
            ReaderState::ReadingHeader { budget } => budget > 0,
            ReaderState::ReadingPayload { budget, .. } => budget > 0,
            ReaderState::Decoded { budget, .. } => budget > 0,
            _ => true,
        }
    }
}

/// The state in which a reader with the given budget starts.
pub open spec fn initial_state(budget: u64) -> ReaderState {
    if budget == 0 {
        ReaderState::Exhausted
    } else {
        ReaderState::ReadingHeader { budget }
    }
}

/// The state after a frame has been consumed under the given budget: the
/// budget goes down by one, and the reader stops where none is left. A
/// budget that was already zero counts as spent.
pub open spec fn after_frame(budget: u64) -> ReaderState {
    if budget <= 1 {
        ReaderState::Exhausted
    } else {
        ReaderState::ReadingHeader { budget: (budget - 1) as u64 }
    }
}

/// The state that follows a state on a report. A reader that is done stays
/// as it is; for any other, a report that does not answer what it asked for
/// is a fault.
pub open spec fn next_state(state: ReaderState, signal: Signal) -> ReaderState {
    match (state, signal) {
        (ReaderState::ReadingHeader { budget }, Signal::Received(bytes)) => {
            if bytes.len() == 0 {
                ReaderState::Cancelled
            } else {
                match header_outcome(bytes) {
                    Ok(declared_length) => ReaderState::ReadingPayload { budget, declared_length },
                    Err(e) => ReaderState::Faulted(Fault::Frame(e)),
                }
            }
        },
        (ReaderState::ReadingHeader { .. }, Signal::ReadFailed) => ReaderState::Faulted(
            Fault::ReadFailed,
        ),
        (ReaderState::ReadingPayload { budget, declared_length }, Signal::Received(bytes)) => {
            match payload_outcome(declared_length, bytes) {
                Ok(message) => ReaderState::Decoded { budget, message },
                Err(e) => ReaderState::Faulted(Fault::Frame(e)),
            }
        },
        (ReaderState::ReadingPayload { .. }, Signal::ReadFailed) => ReaderState::Faulted(
            Fault::ReadFailed,
        ),
        (ReaderState::Decoded { budget, .. }, Signal::Presented) => after_frame(budget),
        _ => if state.is_terminal() {
            state
        } else {
            ReaderState::Faulted(Fault::OutOfTurn)
        },
    }
}

/// What a state asks its driver to do.
pub open spec fn request_of(state: ReaderState) -> Request {
    match state {
        ReaderState::ReadingHeader { .. } => Request::Read(HEADER_LEN),
        ReaderState::ReadingPayload { declared_length, .. } => Request::Read(declared_length),
        ReaderState::Decoded { .. } => Request::Present,
        _ => Request::Stop,
    }
}

/// The state reached from a state by a run of reports.
pub open spec fn run(state: ReaderState, signals: Seq<Signal>) -> ReaderState
    decreases signals.len(),
{
    if signals.len() == 0 {
        state
    } else {
        next_state(run(state, signals.drop_last()), signals.last())
    }
}

/// Starts a reader that will consume `budget` frames.
pub fn start(budget: u64) -> (state: ReaderState)
    ensures
        state == initial_state(budget),
        state.well_formed(),
{
    if budget == 0 {
        ReaderState::Exhausted
    } else {
        ReaderState::ReadingHeader { budget }
    }
}

/// What the reader needs next.
pub fn request(state: &ReaderState) -> (r: Request)
    ensures
        r == request_of(*state),
{
    match state {
        ReaderState::ReadingHeader { .. } => Request::Read(HEADER_LEN),
        ReaderState::ReadingPayload { declared_length, .. } => Request::Read(*declared_length),
        ReaderState::Decoded { .. } => Request::Present,
        _ => Request::Stop,
    }
}

/// Moves the reader on by one report.
///
/// While a header is awaited, data that ends before its first byte cancels
/// the reader; any other bytes are decoded as a header. While a payload is
/// awaited, the bytes are decoded under the declared length. A failed read
/// is a fault in both. Once a decoded message has been shown, the budget
/// goes down by one and the reader reads on or stops. A reader that is done
/// stays as it is; for any other, a report out of turn is a fault.
pub fn step(state: ReaderState, event: ReaderEvent) -> (next: ReaderState)
    ensures
        next == next_state(state, event@),
        state.well_formed() ==> next.well_formed(),
{
    match (state, event) {
        (ReaderState::ReadingHeader { budget }, ReaderEvent::Received(bytes)) => {
            if bytes.len() == 0 {
                ReaderState::Cancelled
            } else {
                match decode_header(bytes.as_slice()) {
                    Ok(declared_length) => ReaderState::ReadingPayload { budget, declared_length },
                    Err(e) => ReaderState::Faulted(Fault::Frame(e)),
                }
            }
        },
        (ReaderState::ReadingHeader { .. }, ReaderEvent::ReadFailed) => ReaderState::Faulted(
            Fault::ReadFailed,
        ),
        (ReaderState::ReadingPayload { budget, declared_length }, ReaderEvent::Received(bytes)) => {
            match decode_payload(declared_length, bytes.as_slice()) {
                Ok(message) => ReaderState::Decoded { budget, message },
                Err(e) => ReaderState::Faulted(Fault::Frame(e)),
            }
        },
        (ReaderState::ReadingPayload { .. }, ReaderEvent::ReadFailed) => ReaderState::Faulted(
            Fault::ReadFailed,
        ),
        (ReaderState::Decoded { budget, .. }, ReaderEvent::Presented) => {
            if budget <= 1 {
                ReaderState::Exhausted
            } else {
                ReaderState::ReadingHeader { budget: budget - 1 }
            }
        },
        (ReaderState::Exhausted, _) => ReaderState::Exhausted,
        (ReaderState::Cancelled, _) => ReaderState::Cancelled,
        (ReaderState::Faulted(fault), _) => ReaderState::Faulted(fault),
        _ => ReaderState::Faulted(Fault::OutOfTurn),
    }
}

/// A header and the bytes of a payload source that together make a frame
/// which decodes.
pub open spec fn valid_frame(header: Seq<u8>, payload: Seq<u8>) -> bool {
    header_outcome(header) matches Ok(declared_length) && payload_outcome(
        declared_length,
        payload,
    ) is Ok
}

/// The reports that one frame gives rise to: its header has come, its
/// payload has come, its message has been shown.
pub open spec fn frame_signals(header: Seq<u8>, payload: Seq<u8>) -> Seq<Signal> {
    seq![Signal::Received(header), Signal::Received(payload), Signal::Presented]
}

/// The reports that a run of frames gives rise to, each frame a pair of
/// header and payload.
pub open spec fn frames_signals(frames: Seq<(Seq<u8>, Seq<u8>)>) -> Seq<Signal>
    decreases frames.len(),
{
    if frames.len() == 0 {
        Seq::<Signal>::empty()
    } else {
        frames_signals(frames.drop_last()) + frame_signals(frames.last().0, frames.last().1)
    }
}

/// Running over two runs of reports in a row is running over the first and
/// then, from where that led, over the second.
pub proof fn lemma_run_concat(state: ReaderState, first: Seq<Signal>, second: Seq<Signal>)
    ensures
        run(state, first + second) == run(run(state, first), second),
    decreases second.len(),
{
    if second.len() == 0 {
        assert(first + second =~= first);
    } else {
        assert((first + second).drop_last() =~= first + second.drop_last());
        lemma_run_concat(state, first, second.drop_last());
    }
}

/// One valid frame takes a reader that awaits a header to the state that
/// follows a consumed frame.
pub proof fn lemma_frame_consumed(budget: u64, header: Seq<u8>, payload: Seq<u8>)
    requires
        valid_frame(header, payload),
    ensures
        run(ReaderState::ReadingHeader { budget }, frame_signals(header, payload)) == after_frame(
            budget,
        ),
{
    let start = ReaderState::ReadingHeader { budget };
    let none = Seq::<Signal>::empty();
    let one = seq![Signal::Received(header)];
    let two = seq![Signal::Received(header), Signal::Received(payload)];
    let all = frame_signals(header, payload);
    assert(one.drop_last() =~= none);
    assert(two.drop_last() =~= one);
    assert(all.drop_last() =~= two);
    assert(run(start, none) == start);
    assert(run(start, one) == next_state(start, Signal::Received(header)));
    assert(run(start, two) == next_state(run(start, one), Signal::Received(payload)));
    assert(run(start, all) == next_state(run(start, two), Signal::Presented));
}

/// After `consumed` valid frames, a reader that started with a larger
/// budget awaits a header with the budget less by `consumed`.
pub proof fn lemma_frames_consumed(budget: u64, frames: Seq<(Seq<u8>, Seq<u8>)>, consumed: nat)
    requires
        consumed <= frames.len(),
        consumed < budget,
        forall|i: int| 0 <= i < frames.len() ==> valid_frame(#[trigger] frames[i].0, frames[i].1),
    ensures
        run(initial_state(budget), frames_signals(frames.take(consumed as int)))
            == (ReaderState::ReadingHeader { budget: (budget - consumed) as u64 }),
    decreases consumed,
{
    let taken = frames.take(consumed as int);
    if consumed > 0 {
        let before = frames.take(consumed - 1);
        let last = frames[consumed - 1];
        assert(taken.drop_last() =~= before);
        lemma_frames_consumed(budget, frames, (consumed - 1) as nat);
        lemma_run_concat(
            initial_state(budget),
            frames_signals(before),
            frame_signals(last.0, last.1),
        );
        lemma_frame_consumed((budget - (consumed - 1)) as u64, last.0, last.1);
    }
}

/// A reader with budget N that is fed N valid frames in a row consumes all
/// of them and no more: after fewer frames it awaits the next header with
/// the budget less by their number, after the last one it is exhausted, and
/// an exhausted reader asks for no further read.
pub proof fn law_budget_exhaustion(budget: u64, frames: Seq<(Seq<u8>, Seq<u8>)>)
    requires
        frames.len() == budget,
        forall|i: int| 0 <= i < frames.len() ==> valid_frame(#[trigger] frames[i].0, frames[i].1),
    ensures
        forall|consumed: nat|
            consumed < budget ==> #[trigger] run(
                initial_state(budget),
                frames_signals(frames.take(consumed as int)),
            ) == (ReaderState::ReadingHeader { budget: (budget - consumed) as u64 }),
        run(initial_state(budget), frames_signals(frames)) == ReaderState::Exhausted,
        request_of(ReaderState::Exhausted) == Request::Stop,
{
    assert forall|consumed: nat| consumed < budget implies #[trigger] run(
        initial_state(budget),
        frames_signals(frames.take(consumed as int)),
    ) == (ReaderState::ReadingHeader { budget: (budget - consumed) as u64 }) by {
        lemma_frames_consumed(budget, frames, consumed);
    }
    if budget > 0 {
        let before = frames.drop_last();
        let last = frames.last();
        assert(before =~= frames.take(budget - 1));
        lemma_frames_consumed(budget, frames, (budget - 1) as nat);
        lemma_run_concat(
            initial_state(budget),
            frames_signals(before),
            frame_signals(last.0, last.1),
        );
        lemma_frame_consumed(1, last.0, last.1);
    }
}

/// Data that ends before the first byte of a header cancels the reader,
/// whatever its budget: the reader is done, and not by a fault.
pub proof fn law_end_of_data_cancels(budget: u64)
    ensures
        next_state(ReaderState::ReadingHeader { budget }, Signal::Received(Seq::<u8>::empty()))
            == ReaderState::Cancelled,
        ReaderState::Cancelled.is_terminal(),
        !(ReaderState::Cancelled is Faulted),
{
}

/// A reader that is done stays as it is on every report and asks for
/// nothing.
pub proof fn law_terminal_states_stay(state: ReaderState, signal: Signal)
    requires
        state.is_terminal(),
    ensures
        next_state(state, signal) == state,
        request_of(state) == Request::Stop,
{
}

} // verus!
