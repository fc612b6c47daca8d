//! The media-sink control surface. Playback itself blocks on the audio
//! device and runs on a dedicated worker; the session only ever talks to a
//! cooperatively polled stop flag and the worker's poll decision, both
//! modeled and specified here.

use vstd::prelude::*;

verus! {

/// What the playback worker does next after one bounded-interval poll.
#[derive(Clone, Copy, Debug, PartialEq, Eq, Structural)]
pub enum PlaybackPoll {
    /// The payload is exhausted; playback ended naturally.
    Finished,
    /// A stop was requested; playback is cut off now.
    Stopped,
    /// Neither; keep playing and poll again after the interval.
    Continue,
}

/// The playback worker's poll decision: natural completion is noticed first,
/// then a pending stop request; otherwise playback continues.
pub open spec fn spec_playback_poll(stopped: bool, sink_empty: bool) -> PlaybackPoll {
    if sink_empty {
        PlaybackPoll::Finished
    } else if stopped {
        PlaybackPoll::Stopped
    } else {
        PlaybackPoll::Continue
    }
}

/// Control handle for one ringtone playback: a stop flag that the playback
/// worker polls at a bounded interval.
pub struct AudioManager {
    pub stopped: bool,
}

impl AudioManager {
    /// A fresh handle with no stop requested.
    pub fn new() -> (a: Self)
        ensures
            !a.stopped,
    {
        AudioManager { stopped: false }
    }

    /// Request an immediate stop. Idempotent: asking again, or after natural
    /// completion, changes nothing further.
    pub fn stop(&mut self)
        ensures
            final(self).stopped,
    {
        self.stopped = true;
    }

    /// Whether a stop has been requested.
    pub fn is_stopped(&self) -> (b: bool)
        ensures
            b == self.stopped,
    {
        self.stopped
    }

    /// One iteration of the playback worker's poll loop, deciding from the
    /// sink's emptiness and the stop flag what happens next.
    pub fn poll(&self, sink_empty: bool) -> (p: PlaybackPoll)
        ensures
            p == spec_playback_poll(self.stopped, sink_empty),
    {
        if sink_empty {
            PlaybackPoll::Finished
        } else if self.stopped {
            PlaybackPoll::Stopped
        } else {
            PlaybackPoll::Continue
        }
    }
}

impl Default for AudioManager {
    /// Same as `new`: no stop requested yet.
    fn default() -> (a: Self)
        ensures
            !a.stopped,
    {
        AudioManager::new()
    }
}

} // verus!
