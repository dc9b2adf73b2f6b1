//! The wire format: one frame of eight bytes per connection.
use vstd::prelude::*;

verus! {

/// Number of bytes in a frame.
pub const FRAME_LEN: usize = 8;

/// Command code of the no-op message.
pub const NOOP: u8 = 0;

/// Command code that asks the whole service to stop.
pub const SHUTDOWN: u8 = 255;

/// A decoded frame: a command code and its value (an index into a list).
#[derive(Debug, Clone, Copy, PartialEq, Eq, Structural)]
pub struct Message {
    pub command: u8,
    pub value: u8,
}

impl Message {
    /// The message that every malformed frame decodes to.
    pub open spec fn noop() -> Message {
        Message { command: NOOP, value: 0 }
    }

    pub fn is_shutdown(&self) -> (r: bool)
        ensures
            r == (self.command == SHUTDOWN),
    {
        self.command == SHUTDOWN
    }
}

/// Bytes 0 to 2 are zero.
pub open spec fn header_ok(buf: Seq<u8>) -> bool {
    buf[0] == 0 && buf[1] == 0 && buf[2] == 0
}

/// Bytes 5 to 7 are 255.
pub open spec fn trailer_ok(buf: Seq<u8>) -> bool {
    buf[5] == 255 && buf[6] == 255 && buf[7] == 255
}

pub open spec fn well_formed(buf: Seq<u8>) -> bool {
    buf.len() == FRAME_LEN && header_ok(buf) && trailer_ok(buf)
}

/// What a frame decodes to: its bytes 3 and 4 when it is well formed, the
/// no-op message otherwise.
pub open spec fn decode(buf: Seq<u8>) -> Message {
    if well_formed(buf) {
        Message { command: buf[3], value: buf[4] }
    } else {
        Message::noop()
    }
}

/// Decodes a frame. Malformed input is not an error: it is the no-op message.
pub fn parse_message(buf: &[u8; 8]) -> (m: Message)
    ensures
        m == decode(buf@),
{
    let mut out = Message { command: NOOP, value: 0 };
    if buf[0] == 0 && buf[1] == 0 && buf[2] == 0 && buf[5] == 255 && buf[6] == 255 && buf[7]
        == 255 {
        out.command = buf[3];
        out.value = buf[4];
    }
    out
}

/// A frame whose header or trailer is wrong decodes to the no-op message.
pub proof fn lemma_malformed_frame_is_noop(buf: Seq<u8>)
    requires
        buf.len() == FRAME_LEN,
        !header_ok(buf) || !trailer_ok(buf),
    ensures
        decode(buf) == Message::noop(),
{
}

/// A frame with the right header and trailer decodes to its bytes 3 and 4,
/// unchanged.
pub proof fn lemma_well_formed_frame_decodes_verbatim(buf: Seq<u8>)
    requires
        buf.len() == FRAME_LEN,
        header_ok(buf),
        trailer_ok(buf),
    ensures
        decode(buf) == (Message { command: buf[3], value: buf[4] }),
{
}

} // verus!
