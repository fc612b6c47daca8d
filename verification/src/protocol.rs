//! The application-level protocol identifier. One fixed tag distinguishes
//! the call protocol from any co-hosted protocols on the same listening
//! endpoint.

use vstd::prelude::*;

verus! {

/// The protocol tag bytes: the ASCII of "radyo/1.0".
pub open spec fn spec_alpn() -> Seq<u8> {
    seq![114u8, 97u8, 100u8, 121u8, 111u8, 47u8, 49u8, 46u8, 48u8]
}

/// The call protocol, named by its fixed wire tag.
#[derive(Clone, Copy, Debug, PartialEq, Eq, Structural)]
pub struct RadyoProtocol;

impl RadyoProtocol {
    /// The application-level protocol tag to register the call protocol
    /// under and to dial with.
    pub fn alpn() -> (v: Vec<u8>)
        ensures
            v@ == spec_alpn(),
    {
        let mut v: Vec<u8> = Vec::new();
        v.push(114u8);
        v.push(97u8);
        v.push(100u8);
        v.push(121u8);
        v.push(111u8);
        v.push(47u8);
        v.push(49u8);
        v.push(46u8);
        v.push(48u8);
        proof {
            assert(v@ =~= spec_alpn());
        }
        v
    }
}

} // verus!
