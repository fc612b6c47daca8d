//! Ringtone selection: an immutable payload, chosen from the requested asset
//! when it is available and otherwise from the one fixed fallback asset.
//! Reading the asset bytes from disk is the caller's business; the choice
//! between them is decided and specified here.

use vstd::prelude::*;

verus! {

/// Why no ringtone payload could be produced.
#[derive(Clone, Copy, Debug, PartialEq, Eq, Structural)]
pub enum LoadError {
    /// Neither the requested asset nor the fallback asset was available.
    NoAsset,
}

/// An immutable ringtone payload: the name that was asked for, and the bytes
/// that will be played for it.
pub struct Ringtone {
    pub name: String,
    pub data: Vec<u8>,
}

impl Ringtone {
    /// Choose the payload for a requested ringtone. The requested asset's
    /// bytes win when they exist; a missing requested asset degrades
    /// transparently to the fallback asset's bytes; only when neither asset
    /// is available does loading fail. The payload keeps the requested name
    /// either way.
    pub fn resolve(name: String, requested: Option<Vec<u8>>, fallback: Option<Vec<u8>>) -> (r:
        Result<Ringtone, LoadError>)
        ensures
            match r {
                Ok(rt) => {
                    &&& rt.name@ == name@
                    &&& (requested matches Some(d) ==> rt.data@ == d@)
                    &&& (requested is None ==> (fallback matches Some(d) && rt.data@ == d@))
                },
                Err(e) => {
                    &&& e == LoadError::NoAsset
                    &&& requested is None
                    &&& fallback is None
                },
            },
            r is Ok <==> (requested is Some || fallback is Some),
    {
        match requested {
            Some(data) => Ok(Ringtone { name, data }),
            None => match fallback {
                Some(data) => Ok(Ringtone { name, data }),
                None => Err(LoadError::NoAsset),
            },
        }
    }
}

} // verus!
