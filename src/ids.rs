use vstd::prelude::*;

verus! {

/// Number of the extension that groups the operations below.
pub const EXTENSION_ID: u32 = 41;

/// Operation number of "register key" within the extension.
pub const STORE_KEY_FUNC_ID: u32 = 1;

/// Operation number of "verify proof" within the extension.
pub const VERIFY_FUNC_ID: u32 = 2;

/// Selector of "register key": the extension number in the high half,
/// the operation number in the low half.
pub const STORE_KEY_EXT_ID: u32 = 2686977;

/// Selector of "verify proof".
pub const VERIFY_EXT_ID: u32 = 2686978;

/// Status with which the host answers a key that it has registered.
pub const STORE_KEY_SUCCESS: u32 = 10000;

/// Status with which the host answers a proof that it has accepted.
pub const VERIFY_SUCCESS: u32 = 11000;

/// The selector of an operation, made of its extension and function numbers.
pub open spec fn selector(extension: u32, function: u32) -> int {
    extension * 65536 + function
}

/// The selectors are built from their parts and differ from each other.
pub proof fn lemma_selectors()
    ensures
        STORE_KEY_EXT_ID == selector(EXTENSION_ID, STORE_KEY_FUNC_ID),
        VERIFY_EXT_ID == selector(EXTENSION_ID, VERIFY_FUNC_ID),
        STORE_KEY_EXT_ID != VERIFY_EXT_ID,
{
}

} // verus!
