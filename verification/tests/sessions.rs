use radyo::gate::AdmissionGate;
use radyo::session::{
    CallState, DialerEvent, DialerSession, DialerState, ListenerEvent, ListenerSession,
    SessionAction, TerminationCause,
};

fn ring(session: &mut ListenerSession, gate: &mut AdmissionGate) {
    let a = session.step(gate, ListenerEvent::InviteRead { valid: true });
    assert!(a.is_empty());
    let a = session.step(gate, ListenerEvent::Admission);
    assert_eq!(a, vec![SessionAction::StartSink]);
}

#[test]
fn listener_answers_invite_and_rings() {
    let mut gate = AdmissionGate::new();
    let mut session = ListenerSession::new();
    assert_eq!(session.state, CallState::Idle);

    let a = session.step(&mut gate, ListenerEvent::InviteRead { valid: true });
    assert_eq!(session.state, CallState::Invited);
    assert!(a.is_empty());

    let a = session.step(&mut gate, ListenerEvent::Admission);
    assert_eq!(session.state, CallState::Ringing);
    assert!(gate.occupied);
    assert!(session.holds_gate);
    assert_eq!(a, vec![SessionAction::StartSink]);

    let a = session.step(&mut gate, ListenerEvent::PlaybackStarted { confirmed: true });
    assert_eq!(session.state, CallState::Active);
    assert!(a.is_empty());
}

#[test]
fn listener_proceeds_degraded_on_confirmation_timeout() {
    let mut gate = AdmissionGate::new();
    let mut session = ListenerSession::new();
    ring(&mut session, &mut gate);
    let a = session.step(&mut gate, ListenerEvent::PlaybackStarted { confirmed: false });
    assert_eq!(session.state, CallState::Active);
    assert!(a.is_empty());
}

#[test]
fn second_caller_is_rejected_while_first_rings() {
    let mut gate = AdmissionGate::new();
    let mut first = ListenerSession::new();
    ring(&mut first, &mut gate);

    let mut second = ListenerSession::new();
    let a = second.step(&mut gate, ListenerEvent::InviteRead { valid: true });
    assert!(a.is_empty());
    let a = second.step(&mut gate, ListenerEvent::Admission);
    assert_eq!(second.state, CallState::Rejected);
    assert!(!second.holds_gate);
    assert_eq!(a, vec![SessionAction::WriteBusy, SessionAction::CloseSend]);
    assert!(!a.contains(&SessionAction::StartSink));
    assert!(gate.occupied);
    assert_eq!(first.state, CallState::Ringing);
}

#[test]
fn peer_hangup_stops_sink_acks_and_releases() {
    let mut gate = AdmissionGate::new();
    let mut listener = ListenerSession::new();
    ring(&mut listener, &mut gate);
    let a = listener.step(&mut gate, ListenerEvent::PlaybackStarted { confirmed: true });
    assert!(a.is_empty());

    let a = listener.step(
        &mut gate,
        ListenerEvent::Terminated { cause: TerminationCause::PeerHangup },
    );
    assert_eq!(listener.state, CallState::Ended);
    assert!(!gate.occupied);
    assert_eq!(
        a,
        vec![
            SessionAction::StopSink,
            SessionAction::WriteHangupAck,
            SessionAction::CloseSend,
            SessionAction::ReleaseGate,
        ]
    );

    let mut dialer = DialerSession::new();
    dialer.step(DialerEvent::Started);
    dialer.step(DialerEvent::StreamOpened);
    let a = dialer.step(DialerEvent::LocalHangup);
    assert_eq!(a, vec![SessionAction::WriteHangup]);
    let a = dialer.step(DialerEvent::AckRead { valid: true });
    assert_eq!(dialer.state, DialerState::Ended);
    assert_eq!(a, vec![SessionAction::CloseSend]);
}

#[test]
fn media_finished_releases_without_hangup_exchange() {
    let mut gate = AdmissionGate::new();
    let mut listener = ListenerSession::new();
    ring(&mut listener, &mut gate);
    listener.step(&mut gate, ListenerEvent::PlaybackStarted { confirmed: true });

    let a = listener.step(
        &mut gate,
        ListenerEvent::Terminated { cause: TerminationCause::MediaFinished },
    );
    assert_eq!(listener.state, CallState::Ended);
    assert!(!gate.occupied);
    assert_eq!(a, vec![SessionAction::CloseSend, SessionAction::ReleaseGate]);
    assert!(!a.contains(&SessionAction::WriteHangup));
    assert!(!a.contains(&SessionAction::WriteHangupAck));
}

#[test]
fn dialer_hangup_without_ack_ends_after_bounded_wait() {
    let mut dialer = DialerSession::new();
    dialer.step(DialerEvent::Started);
    assert_eq!(dialer.state, DialerState::Dialing);
    let a = dialer.step(DialerEvent::StreamOpened);
    assert_eq!(dialer.state, DialerState::CallSent);
    assert_eq!(a, vec![SessionAction::WriteInvite]);

    let a = dialer.step(DialerEvent::LocalHangup);
    assert_eq!(dialer.state, DialerState::AwaitingAck);
    assert_eq!(a, vec![SessionAction::WriteHangup]);

    let a = dialer.step(DialerEvent::AckTimeout);
    assert_eq!(dialer.state, DialerState::Ended);
    assert_eq!(a, vec![SessionAction::CloseSend]);
}

#[test]
fn invalid_invite_ends_session_without_side_effects() {
    let mut gate = AdmissionGate::new();
    let mut session = ListenerSession::new();
    let a = session.step(&mut gate, ListenerEvent::InviteRead { valid: false });
    assert_eq!(session.state, CallState::Ended);
    assert!(a.is_empty());
    assert!(!gate.occupied);
}

#[test]
fn local_interrupt_during_active_stops_and_releases() {
    let mut gate = AdmissionGate::new();
    let mut listener = ListenerSession::new();
    ring(&mut listener, &mut gate);
    listener.step(&mut gate, ListenerEvent::PlaybackStarted { confirmed: true });
    let a = listener.step(
        &mut gate,
        ListenerEvent::Terminated { cause: TerminationCause::LocalInterrupt },
    );
    assert_eq!(listener.state, CallState::Ended);
    assert!(!gate.occupied);
    assert_eq!(
        a,
        vec![SessionAction::StopSink, SessionAction::CloseSend, SessionAction::ReleaseGate]
    );
}

#[test]
fn disconnect_while_ringing_still_releases() {
    let mut gate = AdmissionGate::new();
    let mut listener = ListenerSession::new();
    ring(&mut listener, &mut gate);
    let a = listener.step(
        &mut gate,
        ListenerEvent::Terminated { cause: TerminationCause::Disconnected },
    );
    assert_eq!(listener.state, CallState::Ended);
    assert!(!gate.occupied);
    assert_eq!(
        a,
        vec![SessionAction::StopSink, SessionAction::CloseSend, SessionAction::ReleaseGate]
    );
}

#[test]
fn gate_slot_is_reusable_across_sessions() {
    let mut gate = AdmissionGate::new();

    let mut first = ListenerSession::new();
    ring(&mut first, &mut gate);
    first.step(&mut gate, ListenerEvent::PlaybackStarted { confirmed: true });
    first.step(&mut gate, ListenerEvent::Terminated { cause: TerminationCause::MediaFinished });
    assert!(!gate.occupied);

    let mut second = ListenerSession::new();
    ring(&mut second, &mut gate);
    assert_eq!(second.state, CallState::Ringing);
    assert!(gate.occupied);
}

#[test]
fn dialer_sees_busy_and_gives_up() {
    let mut dialer = DialerSession::new();
    dialer.step(DialerEvent::Started);
    dialer.step(DialerEvent::StreamOpened);
    let a = dialer.step(DialerEvent::PeerBusy);
    assert_eq!(dialer.state, DialerState::Ended);
    assert_eq!(a, vec![SessionAction::CloseSend]);
}

#[test]
fn dialer_times_out_without_activity() {
    let mut dialer = DialerSession::new();
    dialer.step(DialerEvent::Started);
    dialer.step(DialerEvent::StreamOpened);
    let a = dialer.step(DialerEvent::Timeout);
    assert_eq!(dialer.state, DialerState::Ended);
    assert_eq!(a, vec![SessionAction::CloseSend]);
}

#[test]
fn dialer_acks_peer_hangup() {
    let mut dialer = DialerSession::new();
    dialer.step(DialerEvent::Started);
    dialer.step(DialerEvent::StreamOpened);
    let a = dialer.step(DialerEvent::PeerHangup);
    assert_eq!(dialer.state, DialerState::Ended);
    assert_eq!(a, vec![SessionAction::WriteHangupAck, SessionAction::CloseSend]);
}

#[test]
fn terminal_states_ignore_further_events() {
    let mut gate = AdmissionGate::new();
    let mut session = ListenerSession::new();
    session.step(&mut gate, ListenerEvent::InviteRead { valid: false });
    let a = session.step(&mut gate, ListenerEvent::Admission);
    assert_eq!(session.state, CallState::Ended);
    assert!(a.is_empty());
    assert!(!gate.occupied);

    let mut dialer = DialerSession::new();
    dialer.step(DialerEvent::Started);
    dialer.step(DialerEvent::StreamOpened);
    dialer.step(DialerEvent::Timeout);
    let a = dialer.step(DialerEvent::LocalHangup);
    assert_eq!(dialer.state, DialerState::Ended);
    assert!(a.is_empty());
}

#[test]
fn media_failure_while_ringing_aborts_and_releases() {
    let mut gate = AdmissionGate::new();
    let mut listener = ListenerSession::new();
    ring(&mut listener, &mut gate);
    let a = listener.step(
        &mut gate,
        ListenerEvent::Terminated { cause: TerminationCause::MediaFailed },
    );
    assert_eq!(listener.state, CallState::Ended);
    assert!(!gate.occupied);
    assert_eq!(
        a,
        vec![SessionAction::StopSink, SessionAction::CloseSend, SessionAction::ReleaseGate]
    );
}
