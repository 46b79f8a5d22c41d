//! The contract-side verdict on a verifier response.
//!
//! The host environment hands the proof-bundle envelope to an external
//! pairing-check verifier and receives a byte string back. Acceptance is
//! exactly the single byte one; anything else — empty, longer, or a
//! different byte — rejects the proof, and the host reverts with the
//! `InvalidProof` error code.

use vstd::prelude::*;
use crate::error::CircomError;

verus! {

/// Whether a verifier response signals acceptance: the single byte one,
/// and nothing else.
pub fn verifier_accepts(response: &Vec<u8>) -> (r: bool)
    ensures
        r == (response@ == seq![1u8]),
{
    let ok = response.len() == 1 && response[0] == 1;
    proof {
        if ok {
            assert(response@ =~= seq![1u8]);
        } else {
            if response@ == seq![1u8] {
                assert(response@.len() == 1 && response@[0] == 1);
            }
        }
    }
    ok
}

/// The verdict a host should act on: accept, or revert with the
/// `InvalidProof` error.
pub fn verifier_verdict(response: &Vec<u8>) -> (r: Result<(), CircomError>)
    ensures
        response@ == seq![1u8] <==> r is Ok,
        r is Err ==> r == Err::<(), CircomError>(CircomError::InvalidProof),
{
    if verifier_accepts(response) {
        Ok(())
    } else {
        Err(CircomError::InvalidProof)
    }
}

} // verus!
