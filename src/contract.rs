use vstd::prelude::*;

use crate::client::{register_key, verify_proof};
use crate::ids::{STORE_KEY_EXT_ID, VERIFY_EXT_ID};
use crate::outcome::{
    store_key_result, verify_result, CallError, ProtocolError, RegisterKeyError, VerifyError,
};
use crate::registry::{substitute_status, SubstituteRegistry};
use crate::wire::{store_key_input, verify_input};

verus! {

/// `n` zero bytes.
pub open spec fn zeros(n: nat) -> Seq<u8> {
    Seq::new(n, |i: int| 0u8)
}

/// A contract with two entry points, each of which issues one call with
/// all-zero arguments.
pub struct TestContract {}

impl TestContract {
    /// The contract holds no state.
    pub fn new() -> Self {
        TestContract {}
    }

    /// Registers 32 zero bytes as a key under the all-zero identifier for
    /// `caller`.
    pub fn call_store_key(&self, reg: &mut SubstituteRegistry, caller: &[u8; 32]) -> (r: Result<
        (),
        CallError<RegisterKeyError>,
    >)
        ensures
            final(reg).handlers() == old(reg).handlers(),
            old(reg).handlers().contains_key(STORE_KEY_EXT_ID) ==> {
                &&& r == store_key_result(
                substitute_status(old(reg).handlers()[STORE_KEY_EXT_ID], store_key_input(caller@, zeros(8), zeros(32))),
            )
                &&& final(reg).received() == old(reg).received().push(
                    (STORE_KEY_EXT_ID, store_key_input(caller@, zeros(8), zeros(32))),
                )
            },
            !old(reg).handlers().contains_key(STORE_KEY_EXT_ID) ==> {
                &&& r == Err::<(), _>(
                    CallError::<RegisterKeyError>::Protocol(
                        ProtocolError::Unregistered { op: STORE_KEY_EXT_ID },
                    ),
                )
                &&& final(reg).received() == old(reg).received()
            },
    {
        let id: [u8; 8] = [0u8; 8];
        let key: Vec<u8> = vec![0u8; 32];
        assert(id@ =~= zeros(8));
        assert(key@ =~= zeros(32));
        register_key(reg, caller, &id, &key)
    }

    /// Verifies a proof of 41 zero bytes with a public input of 82 zero
    /// bytes under the all-zero identifier.
    pub fn call_verify(&self, reg: &mut SubstituteRegistry) -> (r: Result<(), CallError<VerifyError>>)
        ensures
            final(reg).handlers() == old(reg).handlers(),
            old(reg).handlers().contains_key(VERIFY_EXT_ID) ==> {
                &&& r == verify_result(
                substitute_status(old(reg).handlers()[VERIFY_EXT_ID], verify_input(zeros(8), zeros(41), zeros(82))),
            )
                &&& final(reg).received() == old(reg).received().push(
                    (VERIFY_EXT_ID, verify_input(zeros(8), zeros(41), zeros(82))),
                )
            },
            !old(reg).handlers().contains_key(VERIFY_EXT_ID) ==> {
                &&& r == Err::<(), _>(
                    CallError::<VerifyError>::Protocol(
                        ProtocolError::Unregistered { op: VERIFY_EXT_ID },
                    ),
                )
                &&& final(reg).received() == old(reg).received()
            },
    {
        let id: [u8; 8] = [0u8; 8];
        let proof: Vec<u8> = vec![0u8; 41];
        let public_input: Vec<u8> = vec![0u8; 82];
        assert(id@ =~= zeros(8));
        assert(proof@ =~= zeros(41));
        assert(public_input@ =~= zeros(82));
        verify_proof(reg, &id, &proof, &public_input)
    }
}

} // verus!
