//! Key derivation: a user identifier (an arbitrary non-empty string) is
//! mapped to the fixed-form storage key `settings:<checksum>`, where
//! `<checksum>` is the decimal rendering of a 32-bit non-cryptographic
//! checksum of the identifier's bytes.
//!
//! The mapping is deterministic and stateless, but not reversible and not
//! collision-free: two distinct identifiers may share a key. The storage
//! layer does not defend against such collisions; that trade-off is
//! inherited from the service's design.

use vstd::prelude::*;
use vstd::string::StringExecFns;

use crate::decimal::spec_dec;
use crate::decimal::u64_to_dec;

verus! {

/// The 32-bit checksum of a user identifier. The value is determined by the
/// identifier's characters alone; nothing else is assumed of it, so a
/// collision between two identifiers remains possible as far as the
/// specifications are concerned.
pub uninterp spec fn checksum_of(user_id: Seq<char>) -> u32;

/// Relies on `crc32fast::hash`: a pure CRC-32 checksum of the identifier's
/// UTF-8 bytes, a function of the string's characters alone.
#[verifier::external_body]
pub(crate) fn checksum(user_id: &str) -> (r: u32)
    ensures
        r == checksum_of(user_id@),
{
    crc32fast::hash(user_id.as_bytes())
}

/// The storage key that indexes a user's settings row.
pub open spec fn spec_storage_key(user_id: Seq<char>) -> Seq<char> {
    "settings:"@ + spec_dec(checksum_of(user_id) as nat)
}

/// Derives the storage key for a user identifier.
///
/// Deterministic: the result is a function of the identifier alone, so
/// repeated calls on the same identifier yield identical keys.
pub fn derive_key(user_id: &str) -> (r: String)
    requires
        user_id@.len() > 0,
    ensures
        r@ == spec_storage_key(user_id@),
{
    let h = checksum(user_id);
    let mut out = String::new();
    out.append("settings:");
    let digits = u64_to_dec(h as u64);
    out.append(digits.as_str());
    out
}

/// Key derivation is deterministic: two keys derived from the same
/// identifier are equal.
pub proof fn lemma_derive_key_deterministic(u: Seq<char>, k1: Seq<char>, k2: Seq<char>)
    requires
        k1 == spec_storage_key(u),
        k2 == spec_storage_key(u),
    ensures
        k1 == k2,
{
}

} // verus!
