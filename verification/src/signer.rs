//! The event canonicalizer and signer.
//!
//! A membership event starts as a draft document (local, or a remote server's
//! `prepare_join` / `prepare_leave` stub).  The engine stamps the local
//! origin and timestamp, overlays the membership content, strips any carried
//! `event_id` where the room version derives ids, hashes and signs the
//! canonical form, derives the event id from the reference hash, and puts the
//! id back into the document only where the room version keeps it there.

use vstd::prelude::*;

use crate::crypto;
use crate::errors::EngineError;
use crate::json::{doc_model, CanonicalDoc, JsonAbs};
use crate::keys::{key_id_of, ServerSigningKey};
use crate::room_version::RoomVersion;

verus! {

/// The largest value a canonical JSON integer holds; timestamps must fit.
pub const MAX_CANONICAL_INT: u64 = 9007199254740991;

/// A signed canonical event together with its derived id.
pub struct SignedEvent {
    pub doc: CanonicalDoc,
    pub event_id: String,
}

/// The canonical document as it stands just before hashing: the draft with
/// `origin` and `origin_server_ts` stamped, the content overlaid when one is
/// given, and the `event_id` key stripped for every room version that
/// derives event ids instead of carrying them.
pub open spec fn prepared_event_model(
    stub: Map<Seq<char>, JsonAbs>,
    origin: Seq<char>,
    now_ms: u64,
    content: Option<Map<Seq<char>, JsonAbs>>,
    ver: RoomVersion,
) -> Map<Seq<char>, JsonAbs> {
    let m = stub.insert("origin"@, JsonAbs::Str(origin)).insert(
        "origin_server_ts"@,
        JsonAbs::Int(now_ms as int),
    );
    let m = match content {
        Some(c) => m.insert("content"@, JsonAbs::Obj(c)),
        None => m,
    };
    if ver.spec_keeps_event_id() {
        m
    } else {
        m.remove("event_id"@)
    }
}

/// The signed form of the prepared document.
pub open spec fn signed_model(
    stub: Map<Seq<char>, JsonAbs>,
    origin: Seq<char>,
    now_ms: u64,
    content: Option<Map<Seq<char>, JsonAbs>>,
    key: ServerSigningKey,
    ver: RoomVersion,
) -> Map<Seq<char>, JsonAbs> {
    crypto::signed_event_of(
        origin,
        key.der@,
        key.version@,
        prepared_event_model(stub, origin, now_ms, content, ver),
        ver.spec_as_str(),
    )
}

/// Whether the whole pipeline succeeds on these inputs: the prepared
/// document signs, and the signed document has a reference hash.
pub open spec fn build_ok(
    stub: Map<Seq<char>, JsonAbs>,
    origin: Seq<char>,
    now_ms: u64,
    content: Option<Map<Seq<char>, JsonAbs>>,
    key: ServerSigningKey,
    ver: RoomVersion,
) -> bool {
    &&& crypto::sign_ok(
        origin,
        key.der@,
        key.version@,
        prepared_event_model(stub, origin, now_ms, content, ver),
        ver.spec_as_str(),
    )
    &&& crypto::event_id_ok(
        signed_model(stub, origin, now_ms, content, key, ver),
        ver.spec_as_str(),
    )
}

/// The derived event id of the signed document: `$` and the reference hash.
pub open spec fn derived_event_id(
    stub: Map<Seq<char>, JsonAbs>,
    origin: Seq<char>,
    now_ms: u64,
    content: Option<Map<Seq<char>, JsonAbs>>,
    key: ServerSigningKey,
    ver: RoomVersion,
) -> Seq<char> {
    seq!['$'] + crypto::event_id_hash_of(
        signed_model(stub, origin, now_ms, content, key, ver),
        ver.spec_as_str(),
    )
}

/// The finished event document: the signed document, with the derived event
/// id put back in for the room versions that carry it.
pub open spec fn final_event_model(
    stub: Map<Seq<char>, JsonAbs>,
    origin: Seq<char>,
    now_ms: u64,
    content: Option<Map<Seq<char>, JsonAbs>>,
    key: ServerSigningKey,
    ver: RoomVersion,
) -> Map<Seq<char>, JsonAbs> {
    let signed = signed_model(stub, origin, now_ms, content, key, ver);
    if ver.spec_keeps_event_id() {
        signed.insert(
            "event_id"@,
            JsonAbs::Str(derived_event_id(stub, origin, now_ms, content, key, ver)),
        )
    } else {
        signed
    }
}

/// Canonicalizes, signs and stamps one event.  All inputs are locally
/// trusted, so a failure to sign or hash is an internal invariant violation,
/// never a recoverable request error.
pub fn build_signed_event(
    stub: &CanonicalDoc,
    content: Option<&CanonicalDoc>,
    origin: &str,
    now_ms: u64,
    key: &ServerSigningKey,
    ver: RoomVersion,
) -> (r: Result<SignedEvent, EngineError>)
    requires
        now_ms <= MAX_CANONICAL_INT,
    ensures
        ({
            let content_m = match content {
                Some(c) => Some(doc_model(*c)),
                None => None,
            };
            let prep = prepared_event_model(doc_model(*stub), origin@, now_ms, content_m, ver);
            let signed = signed_model(doc_model(*stub), origin@, now_ms, content_m, *key, ver);
            match r {
                Ok(se) => {
                    &&& build_ok(doc_model(*stub), origin@, now_ms, content_m, *key, ver)
                    &&& se.event_id@ == derived_event_id(
                        doc_model(*stub),
                        origin@,
                        now_ms,
                        content_m,
                        *key,
                        ver,
                    )
                    &&& doc_model(se.doc) == if ver.spec_keeps_event_id() {
                        signed.insert("event_id"@, JsonAbs::Str(se.event_id@))
                    } else {
                        signed
                    }
                    &&& !ver.spec_keeps_event_id() ==> !prep.contains_key("event_id"@)
                        && !doc_model(se.doc).contains_key("event_id"@)
                    &&& ver.spec_keeps_event_id() ==> doc_model(se.doc).contains_key("event_id"@)
                    &&& !ver.spec_keeps_event_id() && crypto::self_signed_verifiable(
                        prep,
                        origin@,
                        ver.spec_as_str(),
                    ) ==> crypto::verify_outcome(
                        crypto::singleton_keys(
                            origin@,
                            key_id_of(key.version@),
                            crypto::public_key_of(key.der@),
                        ),
                        doc_model(se.doc),
                        ver.spec_as_str(),
                    )
                },
                Err(e) => e == EngineError::InternalInvariant && !build_ok(
                    doc_model(*stub),
                    origin@,
                    now_ms,
                    content_m,
                    *key,
                    ver,
                ),
            }
        }),
{
    proof {
        reveal_strlit("event_id");
        reveal_strlit("origin");
        reveal_strlit("origin_server_ts");
        reveal_strlit("content");
        reveal_strlit("hashes");
        reveal_strlit("signatures");
        assert("event_id"@.len() == 8 && "origin"@.len() == 6 && "origin_server_ts"@.len() == 16
            && "content"@.len() == 7 && "hashes"@.len() == 6 && "signatures"@.len() == 10);
        assert("origin"@[0] == 'o' && "hashes"@[0] == 'h');
    }
    let mut d = stub.duplicate();
    d.insert_str("origin", origin);
    d.insert_int("origin_server_ts", now_ms);
    if let Some(c) = content {
        d.insert_doc("content", c);
    }
    if !ver.keeps_event_id() {
        d.remove_key("event_id");
    }
    let signed = match crypto::sign_doc(&d, origin, key, ver.as_str()) {
        Some(s) => s,
        None => {
            return Err(EngineError::InternalInvariant);
        },
    };
    let event_id = match crypto::derive_event_id(&signed, ver.as_str()) {
        Some(e) => e,
        None => {
            return Err(EngineError::InternalInvariant);
        },
    };
    let mut doc = signed;
    if ver.keeps_event_id() {
        doc.insert_str("event_id", event_id.as_str());
    }
    Ok(SignedEvent { doc, event_id })
}

/// A produced canonical event carries no `event_id` key before hashing for
/// any room version that derives event ids; for the two earliest versions it
/// keeps whatever the draft carried.
pub proof fn lemma_event_id_retention(
    stub: Map<Seq<char>, JsonAbs>,
    origin: Seq<char>,
    now_ms: u64,
    content: Option<Map<Seq<char>, JsonAbs>>,
    ver: RoomVersion,
)
    ensures
        !ver.spec_keeps_event_id() ==> !prepared_event_model(
            stub,
            origin,
            now_ms,
            content,
            ver,
        ).contains_key("event_id"@),
        ver.spec_keeps_event_id() ==> (prepared_event_model(
            stub,
            origin,
            now_ms,
            content,
            ver,
        ).contains_key("event_id"@) <==> stub.contains_key("event_id"@)),
{
    reveal_strlit("event_id");
    reveal_strlit("origin");
    reveal_strlit("origin_server_ts");
    reveal_strlit("content");
    assert("event_id"@.len() == 8 && "origin"@.len() == 6 && "origin_server_ts"@.len() == 16
        && "content"@.len() == 7);
}

/// The sign-and-derive half of the round trip that the signer itself can
/// settle: an event built by `build_signed_event` carries, as its id, the one
/// deterministic function of its own signed document, so re-deriving the id
/// from the identical canonical document always yields the same id.  (That
/// the signature itself verifies against the origin's own public key is
/// stated by `build_signed_event`'s contract, where the signing happens.)
pub proof fn lemma_event_id_round_trip(
    stub: Map<Seq<char>, JsonAbs>,
    origin: Seq<char>,
    now_ms: u64,
    content: Option<Map<Seq<char>, JsonAbs>>,
    key: ServerSigningKey,
    ver: RoomVersion,
    first: SignedEvent,
    second: SignedEvent,
)
    requires
        !ver.spec_keeps_event_id(),
        doc_model(first.doc) == signed_model(stub, origin, now_ms, content, key, ver),
        first.event_id@ == derived_event_id(stub, origin, now_ms, content, key, ver),
        doc_model(second.doc) == doc_model(first.doc),
        second.event_id@ == seq!['$'] + crypto::event_id_hash_of(
            doc_model(second.doc),
            ver.spec_as_str(),
        ),
    ensures
        first.event_id@ == seq!['$'] + crypto::event_id_hash_of(
            doc_model(first.doc),
            ver.spec_as_str(),
        ),
        second.event_id@ == first.event_id@,
{
}

} // verus!
