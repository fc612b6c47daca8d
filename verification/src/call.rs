//! Per-process call management: the stored ringtone preference, the
//! admission gate it guards calls with, and the per-call identifier used for
//! diagnostics.

use crate::gate::AdmissionGate;
use vstd::prelude::*;

verus! {

/// An error of the call manager.
#[derive(Clone, Copy, Debug, PartialEq, Eq, Structural)]
pub enum CallError {
    /// The ringtone preference can be set only once.
    RingtoneAlreadySet,
}

/// The ringtone name used when no preference has been stored.
pub open spec fn spec_default_ringtone() -> Seq<char> {
    "lost_woods"@
}

/// The call manager that the listening side owns: the write-once ringtone
/// preference and the single-slot admission gate. One instance is passed to
/// every session rather than shared through process globals, so sessions
/// stay isolated and testable.
pub struct CallManager {
    pub ringtone: Option<String>,
    pub gate: AdmissionGate,
}

impl CallManager {
    /// A fresh manager: no preference stored, gate free, empty history.
    pub fn new() -> (m: Self)
        ensures
            m.ringtone is None,
            !m.gate.occupied,
            m.gate.grants@ == 0,
            m.gate.releases@ == 0,
            m.gate.balanced(),
    {
        CallManager { ringtone: None, gate: AdmissionGate::new() }
    }

    /// Store the ringtone preference. It can be stored once; a second call
    /// fails and changes nothing.
    pub fn set_ringtone(&mut self, ringtone: String) -> (r: Result<(), CallError>)
        ensures
            match old(self).ringtone {
                None => {
                    &&& r is Ok
                    &&& final(self).ringtone == Some(ringtone)
                    &&& final(self).gate == old(self).gate
                },
                Some(_) => {
                    &&& r == Err::<(), CallError>(CallError::RingtoneAlreadySet)
                    &&& *final(self) == *old(self)
                },
            },
    {
        match self.ringtone {
            None => {
                self.ringtone = Some(ringtone);
                Ok(())
            },
            Some(_) => Err(CallError::RingtoneAlreadySet),
        }
    }

    /// The ringtone to play: the stored preference, or the fixed default
    /// when none was stored.
    pub fn get_ringtone(&self) -> (r: String)
        ensures
            match self.ringtone {
                Some(s) => r@ == s@,
                None => r@ == spec_default_ringtone(),
            },
    {
        match &self.ringtone {
            Some(s) => s.clone(),
            None => "lost_woods".to_owned(),
        }
    }

    /// Whether a call currently holds the admission slot.
    pub fn is_call_in_progress(&self) -> (b: bool)
        ensures
            b == self.gate.occupied,
    {
        self.gate.occupied
    }

    /// Attempt to take the call slot; succeeds exactly when no call was in
    /// progress. The stored preference is untouched.
    pub fn try_acquire_call(&mut self) -> (granted: bool)
        ensures
            granted == !old(self).gate.occupied,
            final(self).gate.occupied,
            granted ==> final(self).gate.grants@ == old(self).gate.grants@ + 1,
            !granted ==> final(self).gate.grants@ == old(self).gate.grants@,
            final(self).gate.releases@ == old(self).gate.releases@,
            old(self).gate.balanced() ==> final(self).gate.balanced(),
            final(self).ringtone == old(self).ringtone,
    {
        self.gate.try_acquire()
    }

    /// Free the call slot unconditionally. The stored preference is
    /// untouched.
    pub fn release_call(&mut self)
        ensures
            !final(self).gate.occupied,
            final(self).gate.grants@ == old(self).gate.grants@,
            old(self).gate.occupied ==> final(self).gate.releases@ == old(self).gate.releases@
                + 1,
            !old(self).gate.occupied ==> final(self).gate.releases@ == old(self).gate.releases@,
            old(self).gate.balanced() ==> final(self).gate.balanced(),
            final(self).ringtone == old(self).ringtone,
    {
        self.gate.release()
    }
}

/// Per-call bookkeeping: a short identifier used only for diagnostics and
/// log correlation, never as a protocol field.
pub struct CallState {
    pub call_id: u128,
}

impl CallState {
    /// A fresh call record with a short identifier taken from the clock.
    pub fn new() -> (s: Self)
        ensures
            s.call_id < 10000,
    {
        let millis = now_unix_millis();
        CallState { call_id: millis % 10000 }
    }
}

/// Relies on std::time::SystemTime::now: the milliseconds elapsed since the
/// Unix epoch, or zero when the clock reads earlier than the epoch. The
/// result depends on the wall clock, so nothing is promised of it.
#[verifier::external_body]
fn now_unix_millis() -> (ms: u128) {
    match std::time::SystemTime::now().duration_since(std::time::UNIX_EPOCH) {
        Ok(d) => d.as_millis(),
        Err(_) => 0,
    }
}

} // verus!
