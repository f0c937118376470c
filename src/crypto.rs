//! The text form of ECDSA signatures: `0x` and the hexadecimal of the
//! 64-byte `r ‖ s` encoding. Signing and checking themselves happen where
//! the secp256k1 keys live, outside this library.

use vstd::prelude::*;
use vstd::string::*;
use vstd::utf8::encode_utf8;
use crate::codec::{hex_decode, hex_decoded, hex_encode, hex_of};
use crate::text::{decimal, decimal_string, join};

verus! {

/// The length of a fixed-size ECDSA signature, in bytes.
pub const SIGNATURE_LEN: usize = 64;

/// The text of a signature: `0x` and its lowercase hexadecimal.
pub open spec fn signature_text(signature: Seq<u8>) -> Seq<char> {
    "0x"@ + hex_of(signature)
}

/// Writes signature bytes as text.
pub fn signature_to_hex(signature: &[u8]) -> (r: String)
    ensures
        r@ == signature_text(signature@),
{
    join("0x", hex_encode(signature).as_str())
}

/// A signature text without its `0x` prefix, if it has one.
pub open spec fn without_hex_prefix(s: Seq<char>) -> Seq<char> {
    if s.len() >= 2 && s[0] == '0' && s[1] == 'x' {
        s.subrange(2, s.len() as int)
    } else {
        s
    }
}

/// The bytes that a signature text stands for, if its digits are well formed.
pub open spec fn signature_bytes(s: Seq<char>) -> Option<Seq<u8>> {
    hex_decoded(encode_utf8(without_hex_prefix(s)))
}

fn strip_hex_prefix(s: &str) -> (r: &str)
    ensures
        r@ == without_hex_prefix(s@),
{
    let n = s.unicode_len();
    if n >= 2 && s.get_char(0) == '0' && s.get_char(1) == 'x' {
        s.substring_char(2, n)
    } else {
        s
    }
}

/// Reads a signature text, with or without `0x`: malformed hexadecimal and
/// a length other than 64 bytes are errors.
pub fn decode_signature(signature_hex: &str) -> (r: Result<Vec<u8>, String>)
    ensures
        signature_bytes(signature_hex@) is None ==> r is Err && r->Err_0@.subrange(0, 13)
            == "invalid hex: "@,
        signature_bytes(signature_hex@) is Some && signature_bytes(signature_hex@)->0.len() != 64
            ==> r is Err && r->Err_0@ == "invalid signature length: expected 64 bytes, got "@
            + decimal(signature_bytes(signature_hex@)->0.len()),
        signature_bytes(signature_hex@) is Some && signature_bytes(signature_hex@)->0.len() == 64
            ==> (r matches Ok(b) && b@ == signature_bytes(signature_hex@)->0),
{
    let digits = strip_hex_prefix(signature_hex);
    let bytes = match hex_decode(digits) {
        Ok(b) => b,
        Err(e) => {
            proof {
                reveal_strlit("invalid hex: ");
            }
            let m = join("invalid hex: ", e.as_str());
            assert(m@.subrange(0, 13) =~= "invalid hex: "@);
            return Err(m);
        },
    };
    if bytes.len() != SIGNATURE_LEN {
        let m = String::from_str("invalid signature length: expected 64 bytes, got ");
        return Err(m.concat(decimal_string(bytes.len() as u64).as_str()));
    }
    Ok(bytes)
}

} // verus!
