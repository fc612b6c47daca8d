//! The control-channel codec: the small fixed set of signaling messages that
//! the two peers exchange over one ordered byte stream. Each message is one
//! discriminator byte; a voice-data message additionally carries a four-byte
//! little-endian length. The codec is symmetric and stateless: which message
//! is valid when is the session state machine's business, not the codec's.

use vstd::bytes::*;
use vstd::prelude::*;
use vstd::slice::slice_subrange;

verus! {

/// A wire-level signaling message of the call protocol.
#[derive(Clone, Copy, Debug, PartialEq, Eq, Structural)]
pub enum CallMessage {
    /// Dialer to listener: please start ringing.
    Invite,
    /// Listener to dialer: another call is already in progress.
    Busy,
    /// Either side: I am hanging up.
    Hangup,
    /// Either side: I saw your hangup; tearing down.
    HangupAck,
    /// Either side: a voice payload of `size` bytes follows (reserved).
    VoiceData { size: u32 },
}

/// Why a byte sequence failed to decode as a message.
#[derive(Clone, Copy, Debug, PartialEq, Eq, Structural)]
pub enum DecodeError {
    /// The first byte is not a known discriminator; it is carried verbatim.
    UnknownDiscriminator { byte: u8 },
    /// The input ended before the message was complete.
    Truncated,
}

/// The discriminator byte that opens the encoding of a message.
pub open spec fn spec_discriminator(m: CallMessage) -> u8 {
    match m {
        CallMessage::Invite => 0,
        CallMessage::Busy => 1,
        CallMessage::Hangup => 2,
        CallMessage::HangupAck => 3,
        CallMessage::VoiceData { .. } => 4,
    }
}

/// Whether a byte is the discriminator of some message.
pub open spec fn spec_known_discriminator(b: u8) -> bool {
    b == 0 || b == 1 || b == 2 || b == 3 || b == 4
}

/// The wire encoding of a message: its discriminator byte, followed, for
/// voice data only, by the four-byte little-endian payload length.
pub open spec fn spec_encode(m: CallMessage) -> Seq<u8> {
    match m {
        CallMessage::VoiceData { size } => seq![spec_discriminator(m)] + spec_u32_to_le_bytes(
            size,
        ),
        _ => seq![spec_discriminator(m)],
    }
}

/// Decoding a prefix of a byte stream: the first message in `bytes` together
/// with the number of bytes it occupies, or the reason none could be read.
pub open spec fn spec_decode(bytes: Seq<u8>) -> Result<(CallMessage, nat), DecodeError> {
    if bytes.len() == 0 {
        Err(DecodeError::Truncated)
    } else if bytes[0] == 0 {
        Ok((CallMessage::Invite, 1nat))
    } else if bytes[0] == 1 {
        Ok((CallMessage::Busy, 1nat))
    } else if bytes[0] == 2 {
        Ok((CallMessage::Hangup, 1nat))
    } else if bytes[0] == 3 {
        Ok((CallMessage::HangupAck, 1nat))
    } else if bytes[0] == 4 {
        if bytes.len() < 5 {
            Err(DecodeError::Truncated)
        } else {
            Ok(
                (
                    CallMessage::VoiceData {
                        size: spec_u32_from_le_bytes(bytes.subrange(1, 5)),
                    },
                    5nat,
                ),
            )
        }
    } else {
        Err(DecodeError::UnknownDiscriminator { byte: bytes[0] })
    }
}

/// How many bytes follow the given discriminator byte before the message is
/// complete, or `None` if the byte opens no message.
pub open spec fn spec_extra_len(first: u8) -> Option<usize> {
    if first == 4 {
        Some(4usize)
    } else if spec_known_discriminator(first) {
        Some(0usize)
    } else {
        None
    }
}

impl CallMessage {
    /// Encode this message for the wire.
    pub fn encode(&self) -> (out: Vec<u8>)
        ensures
            out@ == spec_encode(*self),
    {
        let mut out: Vec<u8> = Vec::new();
        match self {
            CallMessage::Invite => out.push(0u8),
            CallMessage::Busy => out.push(1u8),
            CallMessage::Hangup => out.push(2u8),
            CallMessage::HangupAck => out.push(3u8),
            CallMessage::VoiceData { size } => {
                out.push(4u8);
                let mut tail = u32_to_le_bytes(*size);
                out.append(&mut tail);
            },
        }
        proof {
            assert(out@ =~= spec_encode(*self));
        }
        out
    }

    /// Decode the first message in `bytes`, returning it with the number of
    /// bytes it consumed. An unknown discriminator is reported with the
    /// offending byte; input that ends mid-message is reported as truncated.
    pub fn decode(bytes: &[u8]) -> (r: Result<(CallMessage, usize), DecodeError>)
        ensures
            match r {
                Ok((m, n)) => spec_decode(bytes@) == Ok::<(CallMessage, nat), DecodeError>(
                    (m, n as nat),
                ),
                Err(e) => spec_decode(bytes@) == Err::<(CallMessage, nat), DecodeError>(e),
            },
    {
        if bytes.len() == 0 {
            return Err(DecodeError::Truncated);
        }
        let first = bytes[0];
        if first == 0 {
            Ok((CallMessage::Invite, 1))
        } else if first == 1 {
            Ok((CallMessage::Busy, 1))
        } else if first == 2 {
            Ok((CallMessage::Hangup, 1))
        } else if first == 3 {
            Ok((CallMessage::HangupAck, 1))
        } else if first == 4 {
            if bytes.len() < 5 {
                Err(DecodeError::Truncated)
            } else {
                let size = u32_from_le_bytes(slice_subrange(bytes, 1, 5));
                Ok((CallMessage::VoiceData { size }, 5))
            }
        } else {
            Err(DecodeError::UnknownDiscriminator { byte: first })
        }
    }

    /// How many further bytes a reader must fetch after seeing `first` as the
    /// discriminator byte, or `None` if `first` opens no known message.
    pub fn extra_len(first: u8) -> (r: Option<usize>)
        ensures
            r == spec_extra_len(first),
    {
        if first == 4 {
            Some(4)
        } else if first <= 3 {
            Some(0)
        } else {
            None
        }
    }
}

/// Round trip of the codec: decoding an encoded message, even with arbitrary
/// further stream bytes behind it, yields the same message back and consumes
/// exactly its encoding.
pub proof fn lemma_codec_round_trip(m: CallMessage, rest: Seq<u8>)
    ensures
        spec_decode(spec_encode(m) + rest) == Ok::<(CallMessage, nat), DecodeError>(
            (m, spec_encode(m).len()),
        ),
{
    let bytes = spec_encode(m) + rest;
    match m {
        CallMessage::VoiceData { size } => {
            lemma_auto_spec_u32_to_from_le_bytes();
            assert(bytes.subrange(1, 5) =~= spec_u32_to_le_bytes(size));
        },
        _ => {
            assert(bytes[0] == spec_discriminator(m));
        },
    }
}

/// Decoding input that opens with an unknown discriminator always fails with
/// an error carrying that byte verbatim, whatever follows it.
pub proof fn lemma_unknown_discriminator_reported(bytes: Seq<u8>)
    requires
        bytes.len() > 0,
        !spec_known_discriminator(bytes[0]),
    ensures
        spec_decode(bytes) == Err::<(CallMessage, nat), DecodeError>(
            DecodeError::UnknownDiscriminator { byte: bytes[0] },
        ),
{
}

/// Decoding never invents a message: a successful decode of a byte sequence
/// means the sequence begins with exactly the encoding of that message.
pub proof fn lemma_decode_inverts_encode(bytes: Seq<u8>, m: CallMessage, n: nat)
    requires
        spec_decode(bytes) == Ok::<(CallMessage, nat), DecodeError>((m, n)),
    ensures
        n == spec_encode(m).len(),
        bytes.subrange(0, n as int) == spec_encode(m),
{
    match m {
        CallMessage::VoiceData { size } => {
            lemma_auto_spec_u32_to_from_le_bytes();
            assert(bytes.subrange(0, 5).subrange(1, 5) =~= bytes.subrange(1, 5));
            assert(bytes.subrange(0, 5) =~= spec_encode(m));
        },
        _ => {
            assert(bytes.subrange(0, 1) =~= spec_encode(m));
        },
    }
}

} // verus!
