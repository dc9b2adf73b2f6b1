//! The connection handler and the accept loop's decision: what one read from a
//! connection puts on the dispatch queue, and whether listening goes on.
use vstd::prelude::*;
use crate::codec::{decode, parse_message, Message, FRAME_LEN, SHUTDOWN};

verus! {

/// Milliseconds that a connection is given to send its frame.
pub const READ_TIMEOUT_MS: u64 = 5000;

/// The result of the single read made on a connection.
#[derive(Debug)]
pub enum ReadOutcome {
    /// The read failed or timed out.
    Failed,
    /// The bytes that the read returned, at most a frame's worth; empty when the
    /// peer closed without sending.
    Received(Vec<u8>),
}

impl ReadOutcome {
    /// The bytes received, or `None` when the read failed.
    pub open spec fn bytes(&self) -> Option<Seq<u8>> {
        match self {
            ReadOutcome::Failed => None,
            ReadOutcome::Received(v) => Some(v@),
        }
    }
}

/// What a handler hands back: the message it put on the queue, if any, and
/// whether a shutdown was asked for.
#[derive(Debug, Clone, Copy, PartialEq, Eq, Structural)]
pub struct Report {
    pub message: Option<Message>,
    pub shutdown: bool,
}

/// The bytes of a read, followed by zeros up to a whole frame.
pub open spec fn padded(data: Seq<u8>) -> Seq<u8> {
    data + Seq::new((FRAME_LEN - data.len()) as nat, |i: int| 0u8)
}

/// What a handler reports for a read: nothing for a failed or empty read;
/// otherwise the decoded (zero-padded) frame, with a shutdown exactly when its
/// command code is the shutdown code.
pub open spec fn report_of(read: Option<Seq<u8>>) -> Report {
    match read {
        None => Report { message: None, shutdown: false },
        Some(data) => if data.len() == 0 {
            Report { message: None, shutdown: false }
        } else {
            let m = decode(padded(data));
            Report { message: Some(m), shutdown: m.command == SHUTDOWN }
        },
    }
}

/// Copies the bytes of a read into a frame whose remaining bytes are zero.
pub fn frame_from(data: &[u8]) -> (f: [u8; 8])
    requires
        data@.len() <= FRAME_LEN,
    ensures
        f@ == padded(data@),
{
    let mut buf = [0u8; 8];
    let mut i: usize = 0;
    while i < data.len()
        invariant
            i <= data@.len() <= FRAME_LEN,
            buf@.len() == FRAME_LEN,
            forall|j: int| 0 <= j < i ==> buf@[j] == data@[j],
            forall|j: int| i <= j < FRAME_LEN ==> buf@[j] == 0,
        decreases data@.len() - i,
    {
        buf[i] = data[i];
        i = i + 1;
    }
    assert(buf@ =~= padded(data@));
    buf
}

/// Handles the one read made on a connection. A short read is decoded as it
/// stands, its missing bytes zero.
pub fn handle_read(read: &ReadOutcome) -> (r: Report)
    requires
        read matches ReadOutcome::Received(v) ==> v@.len() <= FRAME_LEN,
    ensures
        r == report_of(read.bytes()),
{
    match read {
        ReadOutcome::Failed => Report { message: None, shutdown: false },
        ReadOutcome::Received(data) => {
            if data.len() == 0 {
                Report { message: None, shutdown: false }
            } else {
                let frame = frame_from(data.as_slice());
                let m = parse_message(&frame);
                Report { message: Some(m), shutdown: m.is_shutdown() }
            }
        },
    }
}

/// What the accept loop learns of one attempt to serve a connection.
#[derive(Debug)]
pub enum AcceptEvent {
    /// The accept failed, or the handler did not finish.
    Failed,
    /// The handler ran to completion and reported.
    Handled(Report),
}

/// Whether the accept loop goes on to the next connection: always, except
/// after a handler that reported a shutdown.
pub fn keep_accepting(ev: &AcceptEvent) -> (r: bool)
    ensures
        r == !(ev matches AcceptEvent::Handled(rep) && rep.shutdown),
{
    match ev {
        AcceptEvent::Failed => true,
        AcceptEvent::Handled(rep) => !rep.shutdown,
    }
}

} // verus!
