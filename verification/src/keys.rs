//! Server identity and signing-key material.

use vstd::prelude::*;
use vstd::string::StringExecFns;

verus! {

/// The local server's signing key: a PKCS#8 DER document together with the
/// key version that names it in signatures.
pub struct ServerSigningKey {
    pub der: Vec<u8>,
    pub version: String,
}

/// The key identifier under which an Ed25519 key of a given version appears
/// in a signature object.
pub open spec fn key_id_of(key_version: Seq<char>) -> Seq<char> {
    "ed25519:"@ + key_version
}

/// Builds the key identifier for an Ed25519 key version.
pub fn key_id_for(version: &str) -> (r: String)
    ensures
        r@ == key_id_of(version@),
{
    let s = String::from_str("ed25519:");
    s.concat(version)
}

} // verus!
