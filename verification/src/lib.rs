//! Peer-to-peer phone-call signaling: the admission gate that limits a
//! listener to one active call, the control-message codec, ringtone
//! selection with its fixed fallback, the media-sink control surface, and
//! the session state machines for both call roles.

pub mod audio;
pub mod call;
pub mod codec;
pub mod gate;
pub mod protocol;
pub mod ringtone;
pub mod session;
