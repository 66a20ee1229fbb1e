use vstd::prelude::*;
use vstd::utf8::{valid_utf8, decode_utf8};
use crate::logs::text::utf8_string;

verus! {

/// Which way a relay buffer copies.
#[derive(Clone, Copy, Debug, PartialEq, Eq, Structural)]
pub enum Direction {
    /// From the client to the server.
    Request,
    /// From the server to the client.
    Response,
}

/// Where one direction of a relayed connection stands.
#[derive(Debug)]
pub enum TransferState {
    /// Still copying.
    Running,
    /// Copying is over; the writer is being shut down. `raw` is the text
    /// copied and `count` its length in bytes.
    ShuttingDown { count: u64, raw: String },
    /// Finished with `count` bytes copied, reading as `raw`.
    Done { count: u64, raw: String },
}

/// What the outside work of one step reported.
#[derive(Debug)]
pub enum TransferEvent {
    /// The copy completed; `data` holds the bytes copied.
    Copied { data: Vec<u8> },
    /// The copy met an unexpected end of input; `buffer` holds the bytes
    /// read up to then.
    CopyEof { buffer: Vec<u8> },
    /// The copy failed in any other way.
    CopyFailed,
    /// The writer was shut down, or shutting it down met an unexpected end
    /// of input, which counts as done.
    ShutdownDone,
    /// Shutting the writer down failed in any other way.
    ShutdownFailed,
}

/// What a step decides.
#[derive(Debug)]
pub enum TransferStep {
    /// Go on from this state.
    Continue(TransferState),
    /// This direction is over: `count` bytes copied, reading as `raw`.
    Finished { count: u64, raw: String },
    /// This direction fails with the error the outside work reported.
    Failed,
}

/// The step a direction takes from `state` when `event` comes in. A
/// finished direction reports its result whatever comes in; an event that
/// does not belong to the state leaves it as it is.
pub fn transfer_one_direction(state: TransferState, event: TransferEvent) -> (step: TransferStep)
    requires
        state is Running && event is Copied ==> valid_utf8(event->data@),
    ensures
        match (state, event) {
            (TransferState::Done { count, raw }, _) => step == (TransferStep::Finished { count, raw }),
            (TransferState::Running, TransferEvent::Copied { data }) => step matches TransferStep::Continue(
                TransferState::ShuttingDown { count: c, raw: r },
            ) && c == data@.len() && r@ == decode_utf8(data@),
            (TransferState::Running, TransferEvent::CopyEof { buffer }) => if valid_utf8(buffer@) {
                step matches TransferStep::Continue(TransferState::ShuttingDown { count: c, raw: r })
                    && c == buffer@.len() && r@ == decode_utf8(buffer@)
            } else {
                step is Failed
            },
            (TransferState::Running, TransferEvent::CopyFailed) => step is Failed,
            (TransferState::ShuttingDown { count, raw }, TransferEvent::ShutdownDone) => step == (
            TransferStep::Continue(TransferState::Done { count, raw })),
            (TransferState::ShuttingDown { .. }, TransferEvent::ShutdownFailed) => step is Failed,
            (s, _) => step == TransferStep::Continue(s),
        },
{
    match state {
        TransferState::Done { count, raw } => TransferStep::Finished { count, raw },
        TransferState::Running => match event {
            TransferEvent::Copied { data } => {
                let count = data.len() as u64;
                match utf8_string(data) {
                    Some(raw) => TransferStep::Continue(TransferState::ShuttingDown { count, raw }),
                    None => TransferStep::Failed,
                }
            },
            TransferEvent::CopyEof { buffer } => {
                let count = buffer.len() as u64;
                match utf8_string(buffer) {
                    Some(raw) => TransferStep::Continue(TransferState::ShuttingDown { count, raw }),
                    None => TransferStep::Failed,
                }
            },
            TransferEvent::CopyFailed => TransferStep::Failed,
            _ => TransferStep::Continue(TransferState::Running),
        },
        TransferState::ShuttingDown { count, raw } => match event {
            TransferEvent::ShutdownDone => TransferStep::Continue(TransferState::Done { count, raw }),
            TransferEvent::ShutdownFailed => TransferStep::Failed,
            _ => TransferStep::Continue(TransferState::ShuttingDown { count, raw }),
        },
    }
}

/// Where one direction of a relay stands after it was polled.
#[derive(Debug)]
pub enum Progress {
    /// Not finished yet.
    Pending,
    /// Finished with `count` bytes copied, reading as `raw`.
    Ready { count: u64, raw: String },
    /// Failed.
    Failed,
}

/// What polling both directions of a relay gives.
#[derive(Debug)]
pub enum Joined {
    /// At least one direction is not finished.
    Pending,
    /// Both finished: the client-to-server result, then the other.
    Ready { to_server: (u64, String), to_client: (u64, String) },
    /// The client-to-server direction failed.
    ToServerFailed,
    /// The server-to-client direction failed (and the other did not).
    ToClientFailed,
}

/// Combines the two directions: a failure is reported at once (the
/// client-to-server one first), and the relay is over only when both
/// directions are.
pub fn join_directions(to_server: Progress, to_client: Progress) -> (j: Joined)
    ensures
        match (to_server, to_client) {
            (Progress::Failed, _) => j is ToServerFailed,
            (_, Progress::Failed) => j is ToClientFailed,
            (Progress::Ready { count: c1, raw: r1 }, Progress::Ready { count: c2, raw: r2 }) => j
                == (Joined::Ready { to_server: (c1, r1), to_client: (c2, r2) }),
            _ => j is Pending,
        },
{
    match to_server {
        Progress::Failed => Joined::ToServerFailed,
        Progress::Pending => match to_client {
            Progress::Failed => Joined::ToClientFailed,
            _ => Joined::Pending,
        },
        Progress::Ready { count, raw } => match to_client {
            Progress::Failed => Joined::ToClientFailed,
            Progress::Pending => Joined::Pending,
            Progress::Ready { count: count2, raw: raw2 } => Joined::Ready {
                to_server: (count, raw),
                to_client: (count2, raw2),
            },
        },
    }
}

} // verus!
