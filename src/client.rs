use vstd::prelude::*;

use crate::ids::{STORE_KEY_EXT_ID, VERIFY_EXT_ID};
use crate::outcome::{
    store_key_outcome, store_key_result, verify_outcome, verify_result, CallError,
    ProtocolError, RegisterKeyError, VerifyError,
};
use crate::registry::{substitute_status, SubstituteRegistry};
use crate::wire::{encode_store_key, encode_verify, store_key_input, verify_input};

verus! {

/// Asks the host, here answered by `reg`, to register `key` under `id` for
/// `caller`.
///
/// With a substitute for "register key" the call reaches it with the encoded
/// arguments, and its status comes back translated: the success status as
/// `Ok(())`, any other status as the operation's failure carrying that
/// status. Without
/// one the call reaches nothing and fails as a protocol error.
pub fn register_key(
    reg: &mut SubstituteRegistry,
    caller: &[u8; 32],
    id: &[u8; 8],
    key: &Vec<u8>,
) -> (r: Result<(), CallError<RegisterKeyError>>)
    requires
        key@.len() <= u32::MAX,
    ensures
        final(reg).handlers() == old(reg).handlers(),
        old(reg).handlers().contains_key(STORE_KEY_EXT_ID) ==> {
            &&& r == store_key_result(
                substitute_status(old(reg).handlers()[STORE_KEY_EXT_ID], store_key_input(caller@, id@, key@)),
            )
            &&& final(reg).received() == old(reg).received().push(
                (STORE_KEY_EXT_ID, store_key_input(caller@, id@, key@)),
            )
        },
        !old(reg).handlers().contains_key(STORE_KEY_EXT_ID) ==> {
            &&& r == Err::<(), _>(
                CallError::<RegisterKeyError>::Protocol(
                    ProtocolError::Unregistered { op: STORE_KEY_EXT_ID },
                ),
            )
            &&& final(reg).received() == old(reg).received()
        },
{
    let req = encode_store_key(caller, id, key);
    let answer = reg.dispatch(req);
    store_key_outcome(answer)
}

/// Asks the host, here answered by `reg`, whether `proof` with
/// `public_input` is valid under the key registered as `id`.
///
/// With a substitute for "verify proof" the call reaches it with the encoded
/// arguments, and its status comes back translated: the success status as
/// `Ok(())`, any other status as the operation's failure carrying that
/// status. Without
/// one the call reaches nothing and fails as a protocol error.
pub fn verify_proof(
    reg: &mut SubstituteRegistry,
    id: &[u8; 8],
    proof: &Vec<u8>,
    public_input: &Vec<u8>,
) -> (r: Result<(), CallError<VerifyError>>)
    requires
        proof@.len() <= u32::MAX,
        public_input@.len() <= u32::MAX,
    ensures
        final(reg).handlers() == old(reg).handlers(),
        old(reg).handlers().contains_key(VERIFY_EXT_ID) ==> {
            &&& r == verify_result(
                substitute_status(old(reg).handlers()[VERIFY_EXT_ID], verify_input(id@, proof@, public_input@)),
            )
            &&& final(reg).received() == old(reg).received().push(
                (VERIFY_EXT_ID, verify_input(id@, proof@, public_input@)),
            )
        },
        !old(reg).handlers().contains_key(VERIFY_EXT_ID) ==> {
            &&& r == Err::<(), _>(
                CallError::<VerifyError>::Protocol(
                    ProtocolError::Unregistered { op: VERIFY_EXT_ID },
                ),
            )
            &&& final(reg).received() == old(reg).received()
        },
{
    let req = encode_verify(id, proof, public_input);
    let answer = reg.dispatch(req);
    verify_outcome(answer)
}

} // verus!
