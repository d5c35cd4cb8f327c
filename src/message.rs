//! Decoding of one message buffer (a status byte and its data bytes) into an
//! event record.

use vstd::prelude::*;

use crate::status::{data_len, status_channel, status_kind, MidiStatus};

verus! {

/// A decoded channel-voice message.
#[derive(Debug, Clone, Copy, PartialEq, Eq)]
pub struct Message {
    /// The kind that the status byte announces.
    pub status: MidiStatus,
    /// The channel, 0 to 15; 0 for `Unknown`.
    pub channel: u8,
    /// Key, controller, preset, pressure or fine bend; 0 for `Unknown`.
    pub byte_one: u8,
    /// Velocity, pressure, value or coarse bend, for the kinds with two data
    /// bytes.
    pub byte_two: Option<u8>,
}

/// Why a buffer could not be decoded.
#[derive(Debug, Clone, Copy, PartialEq, Eq)]
pub enum DecodeError {
    /// The buffer is empty, or holds fewer data bytes than its kind needs.
    MalformedBuffer,
}

impl Message {
    /// A message is well formed when its channel is a channel, its second data
    /// byte is there exactly for the kinds that carry two, and an `Unknown`
    /// message carries nothing.
    pub open spec fn wf(&self) -> bool {
        &&& self.channel < 16
        &&& (self.byte_two is Some <==> data_len(self.status) == 2)
        &&& (self.status is Unknown ==> self.channel == 0 && self.byte_one == 0)
    }

    /// Decodes `message`, whose first byte is the status byte, into a
    /// message; fails with `MalformedBuffer` where the buffer is empty or too
    /// short for the kind its status byte announces. Bytes beyond those the
    /// kind needs are ignored.
    pub fn parse(message: &[u8]) -> (r: Result<Message, DecodeError>)
        ensures
            r == decode(message@),
            r is Err <==> message@.len() == 0 || message@.len() < 1 + data_len(
                status_kind(message@[0]),
            ),
            r matches Ok(m) ==> m.wf(),
    {
        if message.len() == 0 {
            return Err(DecodeError::MalformedBuffer);
        }
        let (status, channel) = MidiStatus::get_status(&message[0]);
        let count = status.data_byte_count();
        if message.len() - 1 < count {
            return Err(DecodeError::MalformedBuffer);
        }
        let byte_one: u8 = if count >= 1 {
            message[1]
        } else {
            0
        };
        let byte_two: Option<u8> = if count == 2 {
            Some(message[2])
        } else {
            None
        };
        Ok(Message { status, channel, byte_one, byte_two })
    }
}

/// What decoding a buffer gives: the kind and channel of its first byte, as
/// many data bytes as that kind carries, or `MalformedBuffer` where the buffer
/// does not hold them.
pub open spec fn decode(buf: Seq<u8>) -> Result<Message, DecodeError> {
    if buf.len() == 0 {
        Err(DecodeError::MalformedBuffer)
    } else {
        let kind = status_kind(buf[0]);
        let n = data_len(kind);
        if buf.len() < 1 + n {
            Err(DecodeError::MalformedBuffer)
        } else {
            Ok(
                Message {
                    status: kind,
                    channel: status_channel(buf[0]),
                    byte_one: if n >= 1 {
                        buf[1]
                    } else {
                        0
                    },
                    byte_two: if n == 2 {
                        Some(buf[2])
                    } else {
                        None
                    },
                },
            )
        }
    }
}

/// A buffer whose status byte is a System-class byte (0xF0 and above)
/// decodes to an `Unknown` message with channel 0, no data, and whatever bytes
/// follow the status byte make no difference.
pub proof fn lemma_system_status_unknown(buf: Seq<u8>)
    requires
        buf.len() >= 1,
        buf[0] >= 0xF0,
    ensures
        decode(buf) == Ok::<Message, DecodeError>(
            Message { status: MidiStatus::Unknown, channel: 0, byte_one: 0, byte_two: None },
        ),
{
}

/// Decoding depends on the contents of the buffer alone: two buffers with the
/// same bytes, or one buffer decoded twice, give the same result.
pub proof fn lemma_decode_deterministic(a: Seq<u8>, b: Seq<u8>)
    requires
        a == b,
    ensures
        decode(a) == decode(b),
{
}

/// A buffer that holds only the status byte of a kind with two data bytes is
/// refused as malformed, never decoded with made-up data.
pub proof fn lemma_truncated_buffer_refused(buf: Seq<u8>)
    requires
        buf.len() == 1,
        data_len(status_kind(buf[0])) == 2,
    ensures
        decode(buf) == Err::<Message, DecodeError>(DecodeError::MalformedBuffer),
{
}

} // verus!
