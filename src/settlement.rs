//! A stand-in for the settlement step: a fresh transaction hash and a fixed
//! block height.

use vstd::prelude::*;
use crate::text::join;

verus! {

/// The block height that the stand-in settlement reports.
pub const MOCK_BLOCK_HEIGHT: u64 = 1_948_201;

pub open spec fn is_lower_hex(c: char) -> bool {
    ('0' <= c && c <= '9') || ('a' <= c && c <= 'f')
}

/// Relies on `uuid::Uuid::new_v4` and its simple format, which is 32
/// lowercase hexadecimal digits.
#[verifier::external_body]
fn random_uuid_hex() -> (r: String)
    ensures
        r@.len() == 32,
        forall|i: int| 0 <= i < 32 ==> is_lower_hex(#[trigger] r@[i]),
{
    uuid::Uuid::new_v4().simple().to_string()
}

/// Settles through the stand-in network: a random transaction hash, `0x`
/// and 32 lowercase hexadecimal digits, at the fixed block height.
pub fn mock_settlement() -> (r: (String, u64))
    ensures
        r.0@.len() == 34,
        r.0@.subrange(0, 2) == "0x"@,
        forall|i: int| 2 <= i < 34 ==> is_lower_hex(#[trigger] r.0@[i]),
        r.1 == MOCK_BLOCK_HEIGHT,
{
    let digits = random_uuid_hex();
    let hash = join("0x", digits.as_str());
    proof {
        reveal_strlit("0x");
        assert(hash@.subrange(0, 2) =~= "0x"@);
        assert(forall|i: int| 2 <= i < 34 ==> hash@[i] == digits@[i - 2]);
    }
    (hash, MOCK_BLOCK_HEIGHT)
}

} // verus!
