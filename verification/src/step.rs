//! How a step of the pipe ends, given how its two reads and its two writes
//! ended.

use crate::event::IoOutcome;
use crate::packet::ProxyError;
use vstd::prelude::*;

verus! {

/// One of the four flows of bytes that a pipe keeps going.
#[derive(Clone, Copy, Debug, PartialEq, Eq, Structural)]
pub enum Flow {
    ClientRead,
    ClientWrite,
    ServerRead,
    ServerWrite,
}

/// How one step of the pipe ends.
#[derive(Clone, Copy, Debug, PartialEq, Eq, Structural)]
pub enum StepOutcome {
    /// All four flows are ready: take another step at once.
    Again,
    /// A flow waits for its socket: take the next step when one is ready.
    Pending,
    /// Both peers have ended their streams and nothing waits to be written.
    Done,
    /// A flow failed: the pipe ends with this error.
    Failed(Flow, ProxyError),
}

impl Flow {
    /// The flow takes bytes from a socket.
    pub open spec fn is_read(self) -> bool {
        self == Flow::ClientRead || self == Flow::ServerRead
    }
}

/// The peer of a read has ended its stream in good order.
pub open spec fn closed(read: IoOutcome) -> bool {
    read == IoOutcome::Failed(ProxyError::ConnectionClosed)
}

/// What the outcome of one flow settles about the step: nothing where the
/// flow is ready or a read has met the end of its stream, else that the step
/// waits or fails.
pub open spec fn verdict(flow: Flow, outcome: IoOutcome) -> Option<StepOutcome> {
    match outcome {
        IoOutcome::Ready => None,
        IoOutcome::Pending => Some(StepOutcome::Pending),
        IoOutcome::Failed(error) => if flow.is_read() && closed(outcome) {
            None
        } else {
            Some(StepOutcome::Failed(flow, error))
        },
    }
}

/// How the step ends. The flows are asked in the order client read, client
/// write, server read, server write, and the first that settles anything
/// settles the step. Where none does, the step is done if both peers have
/// ended their streams, and is taken again otherwise.
pub open spec fn step_result(
    client_read: IoOutcome,
    client_write: IoOutcome,
    server_read: IoOutcome,
    server_write: IoOutcome,
) -> StepOutcome {
    if let Some(end) = verdict(Flow::ClientRead, client_read) {
        end
    } else if let Some(end) = verdict(Flow::ClientWrite, client_write) {
        end
    } else if let Some(end) = verdict(Flow::ServerRead, server_read) {
        end
    } else if let Some(end) = verdict(Flow::ServerWrite, server_write) {
        end
    } else if closed(client_read) && closed(server_read) {
        StepOutcome::Done
    } else {
        StepOutcome::Again
    }
}

/// A read that ended like this calls for the socket opposite to be shut down
/// for writing: the read failed, the end of the stream included.
pub open spec fn half_close_due(read: IoOutcome) -> bool {
    read is Failed
}

/// Whether the socket opposite the one just read is to be shut down for
/// writing.
pub fn half_close_peer(read: IoOutcome) -> (shut: bool)
    ensures
        shut == half_close_due(read),
{
    match read {
        IoOutcome::Failed(_) => true,
        _ => false,
    }
}

fn is_closed(read: IoOutcome) -> (yes: bool)
    ensures
        yes == closed(read),
{
    match read {
        IoOutcome::Failed(ProxyError::ConnectionClosed) => true,
        _ => false,
    }
}

fn settle(flow: Flow, outcome: IoOutcome) -> (end: Option<StepOutcome>)
    ensures
        end == verdict(flow, outcome),
{
    match outcome {
        IoOutcome::Ready => None,
        IoOutcome::Pending => Some(StepOutcome::Pending),
        IoOutcome::Failed(error) => {
            let read = match flow {
                Flow::ClientRead | Flow::ServerRead => true,
                _ => false,
            };
            if read && is_closed(outcome) {
                None
            } else {
                Some(StepOutcome::Failed(flow, error))
            }
        },
    }
}

/// Decides how a step ends from the outcomes of its four flows.
pub fn step_outcome(
    client_read: IoOutcome,
    client_write: IoOutcome,
    server_read: IoOutcome,
    server_write: IoOutcome,
) -> (end: StepOutcome)
    ensures
        end == step_result(client_read, client_write, server_read, server_write),
{
    if let Some(end) = settle(Flow::ClientRead, client_read) {
        return end;
    }
    if let Some(end) = settle(Flow::ClientWrite, client_write) {
        return end;
    }
    if let Some(end) = settle(Flow::ServerRead, server_read) {
        return end;
    }
    if let Some(end) = settle(Flow::ServerWrite, server_write) {
        return end;
    }
    if is_closed(client_read) && is_closed(server_read) {
        StepOutcome::Done
    } else {
        StepOutcome::Again
    }
}

/// A step waits as soon as the first flow that is not ready waits, fails
/// only with the error of a flow that failed, and is done only when both
/// peers have ended their streams and neither writer has bytes waiting.
pub proof fn lemma_step_result(
    client_read: IoOutcome,
    client_write: IoOutcome,
    server_read: IoOutcome,
    server_write: IoOutcome,
)
    ensures
        ({
            let end = step_result(client_read, client_write, server_read, server_write);
            &&& end == StepOutcome::Again ==> client_write == IoOutcome::Ready && server_write
                == IoOutcome::Ready && (client_read == IoOutcome::Ready || server_read
                == IoOutcome::Ready)
            &&& end == StepOutcome::Done <==> closed(client_read) && closed(server_read)
                && client_write == IoOutcome::Ready && server_write == IoOutcome::Ready
            &&& end == StepOutcome::Pending ==> client_read == IoOutcome::Pending || client_write
                == IoOutcome::Pending || server_read == IoOutcome::Pending || server_write
                == IoOutcome::Pending
            &&& end matches StepOutcome::Failed(flow, error) ==> {
                let outcome = match flow {
                    Flow::ClientRead => client_read,
                    Flow::ClientWrite => client_write,
                    Flow::ServerRead => server_read,
                    Flow::ServerWrite => server_write,
                };
                outcome == IoOutcome::Failed(error) && !(flow.is_read() && closed(outcome))
            }
        }),
{
}

/// Half-close: when one peer has ended its stream, the socket of the other is
/// due to be shut down for writing, and the pipe keeps serving the other
/// direction: as long as the other peer has not ended its stream too and no
/// flow has failed, the step neither fails nor is done.
pub proof fn lemma_half_close_keeps_serving(
    client_write: IoOutcome,
    other_read: IoOutcome,
    server_write: IoOutcome,
)
    requires
        !(other_read is Failed),
        !(client_write is Failed),
        !(server_write is Failed),
    ensures
        ({
            let ended = IoOutcome::Failed(ProxyError::ConnectionClosed);
            let client_gone = step_result(ended, client_write, other_read, server_write);
            let server_gone = step_result(other_read, client_write, ended, server_write);
            &&& half_close_due(ended)
            &&& client_gone == StepOutcome::Pending || client_gone == StepOutcome::Again
            &&& server_gone == StepOutcome::Pending || server_gone == StepOutcome::Again
        }),
{
}

} // verus!
