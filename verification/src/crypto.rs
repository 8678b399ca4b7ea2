//! The trusted cryptographic layer.
//!
//! Hashing, signing and signature verification of canonical events are done
//! by the `ruma-signatures` crate.  Their results are functions of their
//! arguments alone (Ed25519 signatures are deterministic), so each is given a
//! name here and every wrapper's contract speaks over those names.  Nothing
//! else in the crate is trusted to know what a signature or a hash looks
//! like.

use vstd::prelude::*;

use crate::json::{doc_model, CanonicalDoc, JsonAbs};
use crate::keys::{key_id_of, ServerSigningKey};

verus! {

/// Whether hashing-and-signing an event succeeds for these arguments.
pub uninterp spec fn sign_ok(
    entity: Seq<char>,
    key_der: Seq<u8>,
    key_version: Seq<char>,
    doc: Map<Seq<char>, JsonAbs>,
    ver: Seq<char>,
) -> bool;

/// The signed form of an event: the input document with its content hash and
/// the signing entity's signature folded in.
pub uninterp spec fn signed_event_of(
    entity: Seq<char>,
    key_der: Seq<u8>,
    key_version: Seq<char>,
    doc: Map<Seq<char>, JsonAbs>,
    ver: Seq<char>,
) -> Map<Seq<char>, JsonAbs>;

/// Whether the reference hash of a document can be computed.
pub uninterp spec fn event_id_ok(doc: Map<Seq<char>, JsonAbs>, ver: Seq<char>) -> bool;

/// The reference hash of a document: the base64 body of its derived event id.
pub uninterp spec fn event_id_hash_of(doc: Map<Seq<char>, JsonAbs>, ver: Seq<char>) -> Seq<char>;

/// Whether an event carries all required valid signatures under the given
/// public-key map (server name to key identifier to base64 public key).
pub uninterp spec fn verify_outcome(
    keys: Map<Seq<char>, Map<Seq<char>, Seq<char>>>,
    doc: Map<Seq<char>, JsonAbs>,
    ver: Seq<char>,
) -> bool;

/// Whether a PKCS#8 DER document parses as an Ed25519 key pair.
pub uninterp spec fn key_der_ok(key_der: Seq<u8>) -> bool;

/// The base64-encoded public half of an Ed25519 key pair.
pub uninterp spec fn public_key_of(key_der: Seq<u8>) -> Seq<char>;

/// Whether a string is valid unpadded base64.
pub uninterp spec fn b64_ok(s: Seq<char>) -> bool;

/// The server name of a well-formed Matrix user id, if it is one.
pub uninterp spec fn user_server_of(user_id: Seq<char>) -> Option<Seq<char>>;

/// A public-key map with exactly one key for one server.
pub open spec fn singleton_keys(
    server: Seq<char>,
    key_id: Seq<char>,
    public_key: Seq<char>,
) -> Map<Seq<char>, Map<Seq<char>, Seq<char>>> {
    map![server => map![key_id => public_key]]
}

/// The conditions under which an event signed by `entity` carries `entity`'s
/// signature as its only required one, so that it verifies against a key map
/// holding `entity`'s public key alone: the room version derives event ids,
/// the sender's server is `entity`, the event's type is a string, a
/// membership event carries its membership string, and the content names no
/// third-party invite and no authorizing user outside `entity`.
pub open spec fn self_signed_verifiable(
    doc: Map<Seq<char>, JsonAbs>,
    entity: Seq<char>,
    ver: Seq<char>,
) -> bool {
    &&& ver != "1"@ && ver != "2"@
    &&& doc.contains_key("sender"@)
    &&& doc["sender"@] matches JsonAbs::Str(s) && user_server_of(s) == Some(entity)
    &&& doc.contains_key("type"@) && doc["type"@] is Str
    &&& doc.contains_key("content"@) ==> content_self_authorized(doc["content"@], entity)
    &&& doc["type"@] == JsonAbs::Str("m.room.member"@) ==> (doc.contains_key("content"@) && (
    doc["content"@] matches JsonAbs::Obj(c) && c.contains_key("membership"@) && c["membership"@]
        is Str))
}

/// The content part of [`self_signed_verifiable`]: the content is an object
/// that requires no signature from any server but `entity`.
pub open spec fn content_self_authorized(content: JsonAbs, entity: Seq<char>) -> bool {
    content matches JsonAbs::Obj(m) && !m.contains_key("third_party_invite"@) && (m.contains_key(
        "join_authorised_via_users_server"@,
    ) ==> (m["join_authorised_via_users_server"@] matches JsonAbs::Str(u) && user_server_of(u)
        == Some(entity)))
}

/// Relies on ruma's `hash_and_sign_event`: adds the content hash under
/// `hashes` and the entity's signature under `signatures`, leaving every
/// other key untouched; the produced signature is deterministic (RFC 8032)
/// and, per ruma's own examples, `verify_event` accepts the signed event
/// under the matching public key when the entity is its only required signer.
#[verifier::external_body]
pub fn sign_doc(d: &CanonicalDoc, entity: &str, key: &ServerSigningKey, ver: &str) -> (r: Option<
    CanonicalDoc,
>)
    ensures
        r is Some <==> sign_ok(entity@, key.der@, key.version@, doc_model(*d), ver@),
        r matches Some(sd) ==> doc_model(sd) == signed_event_of(
            entity@,
            key.der@,
            key.version@,
            doc_model(*d),
            ver@,
        ),
        r matches Some(sd) ==> doc_model(sd).contains_key("hashes"@) && doc_model(
            sd,
        ).contains_key("signatures"@),
        r matches Some(sd) ==> forall|k: Seq<char>|
            k != "hashes"@ && k != "signatures"@ ==> #[trigger] doc_model(sd).contains_key(k)
                == doc_model(*d).contains_key(k),
        r matches Some(sd) ==> forall|k: Seq<char>|
            k != "hashes"@ && k != "signatures"@ && doc_model(*d).contains_key(k)
                ==> #[trigger] doc_model(sd)[k] == doc_model(*d)[k],
        r matches Some(sd) ==> (self_signed_verifiable(doc_model(*d), entity@, ver@)
            ==> verify_outcome(
            singleton_keys(entity@, key_id_of(key.version@), public_key_of(key.der@)),
            doc_model(sd),
            ver@,
        )),
{
    let id = ruma::RoomVersionId::try_from(ver).ok()?;
    let rules = id.rules()?;
    let pair = ruma::signatures::Ed25519KeyPair::from_der(
        key.der.as_slice(),
        key.version.clone(),
    ).ok()?;
    let mut obj = d.obj.clone();
    ruma::signatures::hash_and_sign_event(entity, &pair, &mut obj, &rules.redaction).ok()?;
    Some(CanonicalDoc { obj })
}

/// Relies on ruma's `reference_hash`: the derived event id of a canonical
/// event is `$` followed by the base64 reference hash, a deterministic
/// function of the document and the room version.
#[verifier::external_body]
pub fn derive_event_id(d: &CanonicalDoc, ver: &str) -> (r: Option<String>)
    ensures
        r is Some <==> event_id_ok(doc_model(*d), ver@),
        r matches Some(s) ==> s@ == seq!['$'] + event_id_hash_of(doc_model(*d), ver@),
{
    let id = ruma::RoomVersionId::try_from(ver).ok()?;
    let rules = id.rules()?;
    let hash = ruma::signatures::reference_hash(&d.obj, &rules).ok()?;
    Some(format!("${hash}"))
}

/// The public-key map handed to signature verification: server name to key
/// identifier to base64 public key.  Opaque; modeled by [`key_model`].
#[verifier::external_body]
pub struct KeyStore {
    map: ruma::signatures::PublicKeyMap,
}

/// The contents of a key store.
pub uninterp spec fn key_model(ks: KeyStore) -> Map<Seq<char>, Map<Seq<char>, Seq<char>>>;

/// A key store with no keys.
pub open spec fn empty_key_model() -> Map<Seq<char>, Map<Seq<char>, Seq<char>>> {
    Map::empty()
}

/// What adding one key does to a key store's model.
pub open spec fn key_model_insert(
    m: Map<Seq<char>, Map<Seq<char>, Seq<char>>>,
    server: Seq<char>,
    key_id: Seq<char>,
    public_key: Seq<char>,
) -> Map<Seq<char>, Map<Seq<char>, Seq<char>>> {
    let inner = if m.contains_key(server) {
        m[server]
    } else {
        Map::empty()
    };
    m.insert(server, inner.insert(key_id, public_key))
}

impl KeyStore {
    /// Relies on std's `BTreeMap::new`: the new map is empty.
    #[verifier::external_body]
    pub fn new() -> (r: KeyStore)
        ensures
            key_model(r) == empty_key_model(),
    {
        KeyStore { map: ruma::signatures::PublicKeyMap::new() }
    }

    /// Relies on ruma's `Base64::parse` and std's `BTreeMap::insert`: a valid
    /// base64 key is stored under its server and key id; an invalid one
    /// leaves the store unchanged.
    #[verifier::external_body]
    pub fn add_key(&mut self, server: &str, key_id: &str, key_b64: &str) -> (r: bool)
        ensures
            r == b64_ok(key_b64@),
            r ==> key_model(*final(self)) == key_model_insert(
                key_model(*old(self)),
                server@,
                key_id@,
                key_b64@,
            ),
            !r ==> key_model(*final(self)) == key_model(*old(self)),
    {
        let parsed = match ruma::serde::Base64::parse(key_b64) {
            Ok(b) => b,
            Err(_) => return false,
        };
        self.map.entry(server.to_owned()).or_default().insert(key_id.to_owned(), parsed);
        true
    }
}

/// Relies on ruma's `verify_event`: checks every required signature of the
/// event against the supplied public keys; a deterministic function of the
/// key map, the document and the room version.
#[verifier::external_body]
pub fn verify_doc(keys: &KeyStore, d: &CanonicalDoc, ver: &str) -> (r: bool)
    ensures
        r == verify_outcome(key_model(*keys), doc_model(*d), ver@),
{
    let Ok(id) = ruma::RoomVersionId::try_from(ver) else { return false };
    let Some(rules) = id.rules() else { return false };
    ruma::signatures::verify_event(&keys.map, &d.obj, &rules).is_ok()
}

/// Relies on ruma's `Ed25519KeyPair::from_der` and `public_key`: the base64
/// encoding of the key pair's public half; encoding always yields valid
/// base64.
#[verifier::external_body]
pub fn public_key_base64(key: &ServerSigningKey) -> (r: Option<String>)
    ensures
        r is Some <==> key_der_ok(key.der@),
        r matches Some(s) ==> s@ == public_key_of(key.der@),
        r is Some ==> b64_ok(public_key_of(key.der@)),
{
    let pair = ruma::signatures::Ed25519KeyPair::from_der(
        key.der.as_slice(),
        key.version.clone(),
    ).ok()?;
    Some(ruma::serde::Base64::<ruma::serde::base64::Standard>::new(pair.public_key().to_vec()).encode())
}

/// Relies on ruma's `UserId` parsing: the server part of a well-formed user
/// id, a deterministic function of the string.
#[verifier::external_body]
pub fn user_server(user_id: &str) -> (r: Option<String>)
    ensures
        r is Some <==> user_server_of(user_id@) is Some,
        r matches Some(s) ==> user_server_of(user_id@) == Some(s@),
{
    let parsed = ruma::OwnedUserId::try_from(user_id).ok()?;
    Some(parsed.server_name().as_str().to_owned())
}

} // verus!
