//! Content hashing for indexed symbols, delegated to an outside digest crate.

use vstd::prelude::*;

verus! {

/// The lowercase hexadecimal rendering of the MD5 digest of `bytes`.  The
/// digest is far too long to state here; the name records only that it is a
/// function of the input bytes alone.
pub uninterp spec fn md5_hex_of(bytes: Seq<u8>) -> Seq<char>;

/// Relies on `md5::compute`, the RFC 1321 digest of the input bytes, and on
/// the digest type's lowercase-hex formatting: each of the 16 digest bytes is
/// rendered as two hex digits, so the result has 32 characters and depends on
/// the input bytes alone.
#[verifier::external_body]
pub(crate) fn md5_hex(bytes: &[u8]) -> (r: String)
    ensures
        r@ == md5_hex_of(bytes@),
        r@.len() == 32,
{
    format!("{:x}", md5::compute(bytes))
}

} // verus!
