use radyo::audio::{AudioManager, PlaybackPoll};
use radyo::call::{CallError, CallManager, CallState};
use radyo::protocol::RadyoProtocol;
use radyo::ringtone::{LoadError, Ringtone};

#[test]
fn ringtone_preference_is_write_once() {
    let mut manager = CallManager::new();
    assert_eq!(manager.get_ringtone(), "lost_woods");
    assert!(manager.set_ringtone("zelda_theme".to_string()).is_ok());
    assert_eq!(manager.get_ringtone(), "zelda_theme");
    assert_eq!(
        manager.set_ringtone("other".to_string()),
        Err(CallError::RingtoneAlreadySet)
    );
    assert_eq!(manager.get_ringtone(), "zelda_theme");
}

#[test]
fn call_slot_round_trip() {
    let mut manager = CallManager::new();
    assert!(!manager.is_call_in_progress());
    assert!(manager.try_acquire_call());
    assert!(manager.is_call_in_progress());
    assert!(!manager.try_acquire_call());
    manager.release_call();
    assert!(!manager.is_call_in_progress());
    assert!(manager.try_acquire_call());
}

#[test]
fn call_id_is_short() {
    let state = CallState::new();
    assert!(state.call_id < 10000);
}

#[test]
fn requested_asset_wins() {
    let r = Ringtone::resolve(
        "zelda_theme".to_string(),
        Some(vec![1, 2, 3]),
        Some(vec![9, 9]),
    )
    .expect("requested asset present");
    assert_eq!(r.name, "zelda_theme");
    assert_eq!(r.data, vec![1, 2, 3]);
}

#[test]
fn missing_asset_degrades_to_fallback() {
    let r = Ringtone::resolve("no_such_tune".to_string(), None, Some(vec![9, 9]))
        .expect("fallback asset present");
    assert_eq!(r.name, "no_such_tune");
    assert_eq!(r.data, vec![9, 9]);
}

#[test]
fn missing_fallback_is_a_load_error() {
    let r = Ringtone::resolve("no_such_tune".to_string(), None, None);
    assert_eq!(r.err(), Some(LoadError::NoAsset));
}

#[test]
fn stop_flag_is_sticky() {
    let mut audio = AudioManager::new();
    assert!(!audio.is_stopped());
    audio.stop();
    assert!(audio.is_stopped());
    audio.stop();
    assert!(audio.is_stopped());
}

#[test]
fn default_audio_manager_is_running() {
    let audio = AudioManager::default();
    assert!(!audio.is_stopped());
}

#[test]
fn playback_poll_decisions() {
    let mut audio = AudioManager::new();
    assert_eq!(audio.poll(false), PlaybackPoll::Continue);
    assert_eq!(audio.poll(true), PlaybackPoll::Finished);
    audio.stop();
    assert_eq!(audio.poll(false), PlaybackPoll::Stopped);
    // Natural completion is noticed before a pending stop request.
    assert_eq!(audio.poll(true), PlaybackPoll::Finished);
}

#[test]
fn alpn_is_the_fixed_tag() {
    assert_eq!(RadyoProtocol::alpn(), b"radyo/1.0".to_vec());
}
