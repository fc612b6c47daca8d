//! The call session state machines. One listener-side session runs from the
//! accepted stream to teardown: it reads the invite, consults the admission
//! gate, starts ringtone playback, races the four termination sources
//! (media finished, peer hangup, local hangup, local interrupt), acknowledges
//! a peer hangup, and releases the admission slot on every exit path. The
//! dialer-side machine mirrors it without ever touching the admission slot.
//!
//! The machines are pure: each step maps the current state and one observed
//! event to the next state and the actions the surrounding I/O layer must
//! perform, in order. All stream, audio and timer work stays outside.

use crate::gate::AdmissionGate;
use vstd::prelude::*;

verus! {

/// States of one call session on the listening side.
#[derive(Clone, Copy, Debug, PartialEq, Eq, Structural)]
pub enum CallState {
    /// No invite has been read yet.
    Idle,
    /// The invite marker arrived; admission has not been decided.
    Invited,
    /// Admission granted; the ringtone is being started.
    Ringing,
    /// Playback is underway (or its confirmation timed out); the
    /// termination race is on.
    Active,
    /// Admission was denied; the caller was told the line is busy.
    Rejected,
    /// The session is over.
    Ended,
}

/// Which of the competing termination sources won the session race.
#[derive(Clone, Copy, Debug, PartialEq, Eq, Structural)]
pub enum TerminationCause {
    /// The ringtone payload was exhausted; playback ended naturally.
    MediaFinished,
    /// The peer's hangup marker was read from the stream.
    PeerHangup,
    /// An operator or programmatic hangup on this side.
    LocalHangup,
    /// A process-level interrupt on this side.
    LocalInterrupt,
    /// The transport failed or delivered something unreadable; treated as an
    /// implicit hangup for this session only.
    Disconnected,
    /// The media payload could not be loaded or played, the fallback asset
    /// included; fatal for this session only.
    MediaFailed,
}

/// An observation handed to the listener machine by the I/O layer.
#[derive(Clone, Copy, Debug, PartialEq, Eq, Structural)]
pub enum ListenerEvent {
    /// The fixed-length invite read finished; `valid` says whether the bytes
    /// were the invite marker. A failed or short read is an invalid one.
    InviteRead { valid: bool },
    /// The session asks the admission gate for the call slot now.
    Admission,
    /// The playback-started wait finished; `confirmed` is false when the
    /// bounded wait timed out and the session proceeds degraded.
    PlaybackStarted { confirmed: bool },
    /// One of the termination sources fired.
    Terminated { cause: TerminationCause },
}

/// An instruction the machine hands back to the I/O layer, to be performed
/// in the order given.
#[derive(Clone, Copy, Debug, PartialEq, Eq, Structural)]
pub enum SessionAction {
    /// Resolve the ringtone preference, load it, start playback.
    StartSink,
    /// Request immediate stop of playback (idempotent).
    StopSink,
    /// Write the busy marker to the peer.
    WriteBusy,
    /// Write the invite marker to the peer.
    WriteInvite,
    /// Write the hangup marker to the peer.
    WriteHangup,
    /// Write the hangup acknowledgment to the peer; a failure here is soft.
    WriteHangupAck,
    /// Finish/close the send half of the stream.
    CloseSend,
    /// Free the admission gate slot.
    ReleaseGate,
}

/// One listener-side call session: its protocol state, and whether it is the
/// session currently holding the admission gate slot.
pub struct ListenerSession {
    pub state: CallState,
    pub holds_gate: bool,
}

/// The listener machine as a pure function: next session, next gate
/// occupancy, and the actions to perform. Events that cannot occur in the
/// current state leave everything unchanged.
pub open spec fn listener_step(s: ListenerSession, occupied: bool, ev: ListenerEvent) -> (
    ListenerSession,
    bool,
    Seq<SessionAction>,
) {
    match ev {
        ListenerEvent::InviteRead { valid } => {
            if s.state is Idle {
                if valid {
                    (
                        ListenerSession { state: CallState::Invited, holds_gate: s.holds_gate },
                        occupied,
                        Seq::<SessionAction>::empty(),
                    )
                } else {
                    (
                        ListenerSession { state: CallState::Ended, holds_gate: s.holds_gate },
                        occupied,
                        Seq::<SessionAction>::empty(),
                    )
                }
            } else {
                (s, occupied, Seq::<SessionAction>::empty())
            }
        },
        ListenerEvent::Admission => {
            if s.state is Invited {
                if !occupied {
                    (
                        ListenerSession { state: CallState::Ringing, holds_gate: true },
                        true,
                        seq![SessionAction::StartSink],
                    )
                } else {
                    (
                        ListenerSession { state: CallState::Rejected, holds_gate: s.holds_gate },
                        true,
                        seq![SessionAction::WriteBusy, SessionAction::CloseSend],
                    )
                }
            } else {
                (s, occupied, Seq::<SessionAction>::empty())
            }
        },
        ListenerEvent::PlaybackStarted { confirmed: _ } => {
            if s.state is Ringing {
                (
                    ListenerSession { state: CallState::Active, holds_gate: s.holds_gate },
                    occupied,
                    Seq::<SessionAction>::empty(),
                )
            } else {
                (s, occupied, Seq::<SessionAction>::empty())
            }
        },
        ListenerEvent::Terminated { cause } => {
            if s.state is Active {
                (
                    ListenerSession { state: CallState::Ended, holds_gate: false },
                    false,
                    termination_actions(cause),
                )
            } else if s.state is Ringing {
                (
                    ListenerSession { state: CallState::Ended, holds_gate: false },
                    false,
                    seq![
                        SessionAction::StopSink,
                        SessionAction::CloseSend,
                        SessionAction::ReleaseGate,
                    ],
                )
            } else if s.state is Invited {
                (
                    ListenerSession { state: CallState::Ended, holds_gate: s.holds_gate },
                    occupied,
                    seq![SessionAction::CloseSend],
                )
            } else if s.state is Idle {
                (
                    ListenerSession { state: CallState::Ended, holds_gate: s.holds_gate },
                    occupied,
                    Seq::<SessionAction>::empty(),
                )
            } else {
                (s, occupied, Seq::<SessionAction>::empty())
            }
        },
    }
}

/// The action sequence for an active session that just saw its termination
/// race resolve: stop playback unless it already finished on its own,
/// acknowledge a peer hangup, and on every path close the send half before
/// freeing the admission slot.
pub open spec fn termination_actions(cause: TerminationCause) -> Seq<SessionAction> {
    match cause {
        TerminationCause::MediaFinished => seq![
            SessionAction::CloseSend,
            SessionAction::ReleaseGate,
        ],
        TerminationCause::PeerHangup => seq![
            SessionAction::StopSink,
            SessionAction::WriteHangupAck,
            SessionAction::CloseSend,
            SessionAction::ReleaseGate,
        ],
        _ => seq![SessionAction::StopSink, SessionAction::CloseSend, SessionAction::ReleaseGate],
    }
}

/// A step wins the admission slot exactly when it turns a non-holding session
/// into a holding one.
pub open spec fn step_granted(s: ListenerSession, occupied: bool, ev: ListenerEvent) -> bool {
    !s.holds_gate && listener_step(s, occupied, ev).0.holds_gate
}

/// A step frees the admission slot exactly when it turns a holding session into a
/// non-holding one.
pub open spec fn step_released(s: ListenerSession, occupied: bool, ev: ListenerEvent) -> bool {
    s.holds_gate && !listener_step(s, occupied, ev).0.holds_gate
}

impl ListenerSession {
    /// The session holds the admission slot exactly in the states that admission
    /// success leads to.
    pub open spec fn wf(self) -> bool {
        self.holds_gate <==> (self.state is Ringing || self.state is Active)
    }

    /// The session can take no further step.
    pub open spec fn is_terminal(self) -> bool {
        self.state is Rejected || self.state is Ended
    }

    /// A fresh listener session, holding no admission slot.
    pub fn new() -> (s: Self)
        ensures
            s.state is Idle,
            !s.holds_gate,
            s.wf(),
    {
        ListenerSession { state: CallState::Idle, holds_gate: false }
    }

    /// Feed one observed event to the session. Returns the actions the I/O
    /// layer must perform, in order. The admission slot is consulted on admission and
    /// freed exactly when the session gives its slot up.
    pub fn step(&mut self, gate: &mut AdmissionGate, ev: ListenerEvent) -> (actions: Vec<
        SessionAction,
    >)
        requires
            old(self).wf(),
            old(self).holds_gate ==> old(gate).occupied,
        ensures
            *final(self) == listener_step(*old(self), old(gate).occupied, ev).0,
            final(gate).occupied == listener_step(*old(self), old(gate).occupied, ev).1,
            actions@ == listener_step(*old(self), old(gate).occupied, ev).2,
            final(self).wf(),
            final(self).holds_gate ==> final(gate).occupied,
            final(gate).grants@ == old(gate).grants@ + (if step_granted(
                *old(self),
                old(gate).occupied,
                ev,
            ) {
                1nat
            } else {
                0nat
            }),
            final(gate).releases@ == old(gate).releases@ + (if step_released(
                *old(self),
                old(gate).occupied,
                ev,
            ) {
                1nat
            } else {
                0nat
            }),
            old(gate).balanced() ==> final(gate).balanced(),
    {
        let ghost s0 = *self;
        let ghost occ0 = gate.occupied;
        let mut actions: Vec<SessionAction> = Vec::new();
        match ev {
            ListenerEvent::InviteRead { valid } => {
                if self.state == CallState::Idle {
                    if valid {
                        self.state = CallState::Invited;
                    } else {
                        self.state = CallState::Ended;
                    }
                }
            },
            ListenerEvent::Admission => {
                if self.state == CallState::Invited {
                    if gate.try_acquire() {
                        self.holds_gate = true;
                        self.state = CallState::Ringing;
                        actions.push(SessionAction::StartSink);
                    } else {
                        self.state = CallState::Rejected;
                        actions.push(SessionAction::WriteBusy);
                        actions.push(SessionAction::CloseSend);
                    }
                }
            },
            ListenerEvent::PlaybackStarted { confirmed: _ } => {
                if self.state == CallState::Ringing {
                    self.state = CallState::Active;
                }
            },
            ListenerEvent::Terminated { cause } => {
                if self.state == CallState::Active {
                    if cause == TerminationCause::PeerHangup {
                        actions.push(SessionAction::StopSink);
                        actions.push(SessionAction::WriteHangupAck);
                    } else if cause != TerminationCause::MediaFinished {
                        actions.push(SessionAction::StopSink);
                    }
                    actions.push(SessionAction::CloseSend);
                    gate.release();
                    actions.push(SessionAction::ReleaseGate);
                    self.holds_gate = false;
                    self.state = CallState::Ended;
                } else if self.state == CallState::Ringing {
                    actions.push(SessionAction::StopSink);
                    actions.push(SessionAction::CloseSend);
                    gate.release();
                    actions.push(SessionAction::ReleaseGate);
                    self.holds_gate = false;
                    self.state = CallState::Ended;
                } else if self.state == CallState::Invited {
                    actions.push(SessionAction::CloseSend);
                    self.state = CallState::Ended;
                } else if self.state == CallState::Idle {
                    self.state = CallState::Ended;
                }
            },
        }
        proof {
            assert(actions@ =~= listener_step(s0, occ0, ev).2);
        }
        actions
    }
}

/// The outcome of driving a listener session through a sequence of events:
/// the session and gate occupancy reached, and how many admission grants and
/// gate releases happened along the way.
pub struct RunResult {
    pub session: ListenerSession,
    pub occupied: bool,
    pub grants: nat,
    pub releases: nat,
}

/// Fold the listener machine over a whole event sequence.
pub open spec fn listener_run(
    s: ListenerSession,
    occupied: bool,
    evs: Seq<ListenerEvent>,
) -> RunResult
    decreases evs.len(),
{
    if evs.len() == 0 {
        RunResult { session: s, occupied, grants: 0nat, releases: 0nat }
    } else {
        let stepped = listener_step(s, occupied, evs[0]);
        let g: nat = if step_granted(s, occupied, evs[0]) {
            1nat
        } else {
            0nat
        };
        let r: nat = if step_released(s, occupied, evs[0]) {
            1nat
        } else {
            0nat
        };
        let rest = listener_run(stepped.0, stepped.1, evs.subrange(1, evs.len() as int));
        RunResult {
            session: rest.session,
            occupied: rest.occupied,
            grants: g + rest.grants,
            releases: r + rest.releases,
        }
    }
}

/// Every step preserves the session's gate-holding invariant.
pub proof fn lemma_step_preserves_wf(s: ListenerSession, occupied: bool, ev: ListenerEvent)
    requires
        s.wf(),
    ensures
        listener_step(s, occupied, ev).0.wf(),
{
}

/// Gate discipline across any event sequence: the grants a session run wins
/// and the releases it performs differ exactly by the slot held at the two
/// ends. In particular a session that starts and ends holding no slot
/// has released exactly once per successful acquisition.
pub proof fn lemma_listener_releases_every_grant(
    s: ListenerSession,
    occupied: bool,
    evs: Seq<ListenerEvent>,
)
    ensures
        listener_run(s, occupied, evs).grants + (if s.holds_gate {
            1nat
        } else {
            0nat
        }) == listener_run(s, occupied, evs).releases + (if listener_run(
            s,
            occupied,
            evs,
        ).session.holds_gate {
            1nat
        } else {
            0nat
        }),
    decreases evs.len(),
{
    if evs.len() > 0 {
        let stepped = listener_step(s, occupied, evs[0]);
        lemma_listener_releases_every_grant(
            stepped.0,
            stepped.1,
            evs.subrange(1, evs.len() as int),
        );
    }
}

/// A session that begins without the slot and no longer holds it at the end
/// of a run has matched every grant with exactly one release.
pub proof fn lemma_run_grants_match_releases(
    s: ListenerSession,
    occupied: bool,
    evs: Seq<ListenerEvent>,
)
    requires
        !s.holds_gate,
        !listener_run(s, occupied, evs).session.holds_gate,
    ensures
        listener_run(s, occupied, evs).grants == listener_run(s, occupied, evs).releases,
{
    lemma_listener_releases_every_grant(s, occupied, evs);
}

/// A well-formed session in a terminal state holds no slot; with the run
/// balance above, a session driven to a terminal state has matched every
/// grant with exactly one release, whichever exit path ended it.
pub proof fn lemma_terminal_session_holds_nothing(s: ListenerSession)
    requires
        s.wf(),
        s.is_terminal(),
    ensures
        !s.holds_gate,
{
}

/// A terminal listener session is inert: no event changes it, moves the
/// slot, or causes any further action.
pub proof fn lemma_terminal_listener_is_inert(
    s: ListenerSession,
    occupied: bool,
    ev: ListenerEvent,
)
    requires
        s.is_terminal(),
    ensures
        listener_step(s, occupied, ev).0 == s,
        listener_step(s, occupied, ev).1 == occupied,
        listener_step(s, occupied, ev).2 == Seq::<SessionAction>::empty(),
{
}

/// A session is granted admission at most once in its whole life: once it
/// has moved past the invited state it can never win the slot again.
pub proof fn lemma_granted_at_most_once(
    s: ListenerSession,
    occupied: bool,
    evs: Seq<ListenerEvent>,
)
    requires
        s.wf(),
    ensures
        listener_run(s, occupied, evs).grants <= (if s.state is Idle || s.state is Invited {
            1nat
        } else {
            0nat
        }),
    decreases evs.len(),
{
    if evs.len() > 0 {
        let stepped = listener_step(s, occupied, evs[0]);
        lemma_step_preserves_wf(s, occupied, evs[0]);
        lemma_granted_at_most_once(stepped.0, stepped.1, evs.subrange(1, evs.len() as int));
    }
}

/// States of one call attempt on the dialing side.
#[derive(Clone, Copy, Debug, PartialEq, Eq, Structural)]
pub enum DialerState {
    /// Nothing started yet.
    Idle,
    /// Connecting and opening the stream.
    Dialing,
    /// The invite is written; the termination race is on.
    CallSent,
    /// A local hangup was sent; waiting (bounded) for the acknowledgment.
    AwaitingAck,
    /// The attempt is over.
    Ended,
}

/// An observation handed to the dialer machine by the I/O layer.
#[derive(Clone, Copy, Debug, PartialEq, Eq, Structural)]
pub enum DialerEvent {
    /// The dial was initiated; the connection is being established.
    Started,
    /// The bidirectional stream is open and writable.
    StreamOpened,
    /// The peer's hangup marker was read.
    PeerHangup,
    /// The peer answered the invite with the busy marker.
    PeerBusy,
    /// An operator or programmatic hangup on this side.
    LocalHangup,
    /// A process-level interrupt on this side.
    LocalInterrupt,
    /// The bounded no-activity wait expired.
    Timeout,
    /// The acknowledgment read finished; `valid` says whether the bytes were
    /// the hangup-acknowledgment marker.
    AckRead { valid: bool },
    /// The bounded wait for the acknowledgment expired.
    AckTimeout,
    /// The transport failed; treated as an implicit hangup.
    Disconnected,
}

/// One dialer-side call attempt. The dialer never touches the admission
/// gate; that is visible here in the machine taking no gate at all.
pub struct DialerSession {
    pub state: DialerState,
}

/// The dialer machine as a pure function: next state and the actions to
/// perform. A local hangup or interrupt writes the hangup marker and then
/// waits for the acknowledgment; whatever that wait yields, including
/// nothing within the bound, the attempt ends. Events that cannot occur in
/// the current state change nothing.
pub open spec fn dialer_step(s: DialerSession, ev: DialerEvent) -> (
    DialerSession,
    Seq<SessionAction>,
) {
    match (s.state, ev) {
        (DialerState::Idle, DialerEvent::Started) => (
            DialerSession { state: DialerState::Dialing },
            Seq::<SessionAction>::empty(),
        ),
        (DialerState::Dialing, DialerEvent::StreamOpened) => (
            DialerSession { state: DialerState::CallSent },
            seq![SessionAction::WriteInvite],
        ),
        (DialerState::Dialing, DialerEvent::Disconnected) => (
            DialerSession { state: DialerState::Ended },
            Seq::<SessionAction>::empty(),
        ),
        (DialerState::CallSent, DialerEvent::LocalHangup) => (
            DialerSession { state: DialerState::AwaitingAck },
            seq![SessionAction::WriteHangup],
        ),
        (DialerState::CallSent, DialerEvent::LocalInterrupt) => (
            DialerSession { state: DialerState::AwaitingAck },
            seq![SessionAction::WriteHangup],
        ),
        (DialerState::CallSent, DialerEvent::PeerHangup) => (
            DialerSession { state: DialerState::Ended },
            seq![SessionAction::WriteHangupAck, SessionAction::CloseSend],
        ),
        (DialerState::CallSent, DialerEvent::PeerBusy) => (
            DialerSession { state: DialerState::Ended },
            seq![SessionAction::CloseSend],
        ),
        (DialerState::CallSent, DialerEvent::Timeout) => (
            DialerSession { state: DialerState::Ended },
            seq![SessionAction::CloseSend],
        ),
        (DialerState::CallSent, DialerEvent::Disconnected) => (
            DialerSession { state: DialerState::Ended },
            seq![SessionAction::CloseSend],
        ),
        (DialerState::AwaitingAck, DialerEvent::AckRead { valid: _ }) => (
            DialerSession { state: DialerState::Ended },
            seq![SessionAction::CloseSend],
        ),
        (DialerState::AwaitingAck, DialerEvent::AckTimeout) => (
            DialerSession { state: DialerState::Ended },
            seq![SessionAction::CloseSend],
        ),
        (DialerState::AwaitingAck, DialerEvent::Disconnected) => (
            DialerSession { state: DialerState::Ended },
            seq![SessionAction::CloseSend],
        ),
        _ => (s, Seq::<SessionAction>::empty()),
    }
}

/// A terminal dial attempt is inert: no event changes it or causes any
/// further action.
pub proof fn lemma_terminal_dialer_is_inert(s: DialerSession, ev: DialerEvent)
    requires
        s.is_terminal(),
    ensures
        dialer_step(s, ev).0 == s,
        dialer_step(s, ev).1 == Seq::<SessionAction>::empty(),
{
}

impl DialerSession {
    /// The attempt can take no further step.
    pub open spec fn is_terminal(self) -> bool {
        self.state is Ended
    }

    /// A fresh dial attempt.
    pub fn new() -> (s: Self)
        ensures
            s.state is Idle,
    {
        DialerSession { state: DialerState::Idle }
    }

    /// Feed one observed event to the attempt. Returns the actions the I/O
    /// layer must perform, in order.
    pub fn step(&mut self, ev: DialerEvent) -> (actions: Vec<SessionAction>)
        ensures
            *final(self) == dialer_step(*old(self), ev).0,
            actions@ == dialer_step(*old(self), ev).1,
    {
        let ghost s0 = *self;
        let mut actions: Vec<SessionAction> = Vec::new();
        match ev {
            DialerEvent::Started => {
                if self.state == DialerState::Idle {
                    self.state = DialerState::Dialing;
                }
            },
            DialerEvent::StreamOpened => {
                if self.state == DialerState::Dialing {
                    self.state = DialerState::CallSent;
                    actions.push(SessionAction::WriteInvite);
                }
            },
            DialerEvent::PeerHangup => {
                if self.state == DialerState::CallSent {
                    self.state = DialerState::Ended;
                    actions.push(SessionAction::WriteHangupAck);
                    actions.push(SessionAction::CloseSend);
                }
            },
            DialerEvent::PeerBusy => {
                if self.state == DialerState::CallSent {
                    self.state = DialerState::Ended;
                    actions.push(SessionAction::CloseSend);
                }
            },
            DialerEvent::LocalHangup => {
                if self.state == DialerState::CallSent {
                    self.state = DialerState::AwaitingAck;
                    actions.push(SessionAction::WriteHangup);
                }
            },
            DialerEvent::LocalInterrupt => {
                if self.state == DialerState::CallSent {
                    self.state = DialerState::AwaitingAck;
                    actions.push(SessionAction::WriteHangup);
                }
            },
            DialerEvent::Timeout => {
                if self.state == DialerState::CallSent {
                    self.state = DialerState::Ended;
                    actions.push(SessionAction::CloseSend);
                }
            },
            DialerEvent::AckRead { valid: _ } => {
                if self.state == DialerState::AwaitingAck {
                    self.state = DialerState::Ended;
                    actions.push(SessionAction::CloseSend);
                }
            },
            DialerEvent::AckTimeout => {
                if self.state == DialerState::AwaitingAck {
                    self.state = DialerState::Ended;
                    actions.push(SessionAction::CloseSend);
                }
            },
            DialerEvent::Disconnected => {
                if self.state == DialerState::Dialing {
                    self.state = DialerState::Ended;
                } else if self.state == DialerState::CallSent || self.state
                    == DialerState::AwaitingAck {
                    self.state = DialerState::Ended;
                    actions.push(SessionAction::CloseSend);
                }
            },
        }
        proof {
            assert(actions@ =~= dialer_step(s0, ev).1);
        }
        actions
    }
}

} // verus!
