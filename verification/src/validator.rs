//! The remote event validator.
//!
//! A raw event from another server is parsed into canonical form, its event
//! id is derived from the reference hash (the remote's own claim is never
//! trusted), the bad-event table is consulted, and only then are its
//! signatures verified.  A verification failure is booked into the table; an
//! event still inside its backoff window is rejected before any verification
//! work.

use vstd::prelude::*;

use crate::crypto;
use crate::errors::EngineError;
use crate::json::{doc_model, parsed_json_of, CanonicalDoc, JsonAbs};
use crate::limiter::BadEventTable;
use crate::room_version::RoomVersion;

verus! {

/// The event id derived for a parsed document.
pub open spec fn spec_event_id(m: Map<Seq<char>, JsonAbs>, ver: RoomVersion) -> Seq<char> {
    seq!['$'] + crypto::event_id_hash_of(m, ver.spec_as_str())
}

/// What the validator decides for a raw event against a given key map,
/// limiter state and time.
pub open spec fn spec_validate(
    raw: Seq<char>,
    ver: RoomVersion,
    keys: Map<Seq<char>, Map<Seq<char>, Seq<char>>>,
    lim: Map<Seq<char>, (u64, u32)>,
    now_ms: u64,
) -> Result<(Seq<char>, Map<Seq<char>, JsonAbs>), EngineError> {
    match parsed_json_of(raw) {
        None => Err(EngineError::BadServerResponse),
        Some(m) => {
            if !crypto::event_id_ok(m, ver.spec_as_str()) {
                Err(EngineError::BadServerResponse)
            } else {
                let eid = spec_event_id(m, ver);
                if BadEventTable::spec_should_skip(lim, eid, now_ms) {
                    Err(EngineError::BackedOff)
                } else if !crypto::verify_outcome(keys, m, ver.spec_as_str()) {
                    Err(EngineError::VerificationFailed)
                } else {
                    Ok((eid, m.insert("event_id"@, JsonAbs::Str(eid))))
                }
            }
        },
    }
}

/// The limiter contents after the validator has handled a raw event: only a
/// verification failure books a new attempt.
pub open spec fn spec_validate_limiter(
    raw: Seq<char>,
    ver: RoomVersion,
    keys: Map<Seq<char>, Map<Seq<char>, Seq<char>>>,
    lim: Map<Seq<char>, (u64, u32)>,
    now_ms: u64,
) -> Map<Seq<char>, (u64, u32)> {
    if spec_validate(raw, ver, keys, lim, now_ms) == Err::<
        (Seq<char>, Map<Seq<char>, JsonAbs>),
        EngineError,
    >(EngineError::VerificationFailed) {
        let eid = spec_event_id(parsed_json_of(raw).unwrap(), ver);
        lim.insert(
            eid,
            (
                now_ms,
                if lim.contains_key(eid) {
                    if lim[eid].1 == u32::MAX {
                        u32::MAX
                    } else {
                        (lim[eid].1 + 1) as u32
                    }
                } else {
                    1u32
                },
            ),
        )
    } else {
        lim
    }
}

/// Validates one raw remote event: parses it, derives its event id, consults
/// the backoff table, verifies its signatures, and stamps the derived id into
/// the document.  A backed-off event is rejected without verification; a
/// verification failure is recorded into the table.
pub fn validate_and_add_event_id(
    raw: &str,
    ver: RoomVersion,
    keys: &crypto::KeyStore,
    limiter: &mut BadEventTable,
    now_ms: u64,
) -> (r: Result<(String, CanonicalDoc), EngineError>)
    requires
        old(limiter).wf(),
    ensures
        final(limiter).wf(),
        final(limiter)@ == spec_validate_limiter(
            raw@,
            ver,
            crypto::key_model(*keys),
            old(limiter)@,
            now_ms,
        ),
        match r {
            Ok((eid, doc)) => spec_validate(
                raw@,
                ver,
                crypto::key_model(*keys),
                old(limiter)@,
                now_ms,
            ) == Ok::<(Seq<char>, Map<Seq<char>, JsonAbs>), EngineError>((eid@, doc_model(doc))),
            Err(e) => spec_validate(raw@, ver, crypto::key_model(*keys), old(limiter)@, now_ms)
                == Err::<(Seq<char>, Map<Seq<char>, JsonAbs>), EngineError>(e),
        },
{
    let mut value = match CanonicalDoc::parse(raw) {
        Some(d) => d,
        None => {
            return Err(EngineError::BadServerResponse);
        },
    };
    let event_id = match crypto::derive_event_id(&value, ver.as_str()) {
        Some(e) => e,
        None => {
            return Err(EngineError::BadServerResponse);
        },
    };
    if limiter.should_skip(event_id.as_str(), now_ms) {
        return Err(EngineError::BackedOff);
    }
    if !crypto::verify_doc(keys, &value, ver.as_str()) {
        limiter.record_failure(event_id.as_str(), now_ms);
        return Err(EngineError::VerificationFailed);
    }
    value.insert_str("event_id", event_id.as_str());
    Ok((event_id, value))
}

/// An event inside its backoff window is rejected as backed off, with the
/// table untouched: no verification outcome enters the decision.
pub proof fn lemma_backoff_short_circuit(
    raw: Seq<char>,
    ver: RoomVersion,
    keys: Map<Seq<char>, Map<Seq<char>, Seq<char>>>,
    lim: Map<Seq<char>, (u64, u32)>,
    now_ms: u64,
)
    requires
        parsed_json_of(raw) matches Some(m) && crypto::event_id_ok(m, ver.spec_as_str())
            && BadEventTable::spec_should_skip(lim, spec_event_id(m, ver), now_ms),
    ensures
        spec_validate(raw, ver, keys, lim, now_ms) == Err::<
            (Seq<char>, Map<Seq<char>, JsonAbs>),
            EngineError,
        >(EngineError::BackedOff),
        spec_validate_limiter(raw, ver, keys, lim, now_ms) == lim,
{
}

/// The full round trip of a locally signed event through the validator: an
/// event whose serialization parses back to its signed document (as the
/// engine's serializer guarantees), whose reference hash exists, that is not
/// inside a backoff window, and whose signatures verify under the given keys
/// — in particular, under the signing server's own public key, as the signer
/// guarantees for a self-signed event — is accepted with exactly the derived
/// event id stamped in, and the backoff table is left untouched.
pub proof fn lemma_signed_event_validates(
    raw: Seq<char>,
    signed: Map<Seq<char>, JsonAbs>,
    ver: RoomVersion,
    keys: Map<Seq<char>, Map<Seq<char>, Seq<char>>>,
    lim: Map<Seq<char>, (u64, u32)>,
    now_ms: u64,
)
    requires
        parsed_json_of(raw) == Some(signed),
        crypto::event_id_ok(signed, ver.spec_as_str()),
        !BadEventTable::spec_should_skip(lim, spec_event_id(signed, ver), now_ms),
        crypto::verify_outcome(keys, signed, ver.spec_as_str()),
    ensures
        spec_validate(raw, ver, keys, lim, now_ms) == Ok::<
            (Seq<char>, Map<Seq<char>, JsonAbs>),
            EngineError,
        >(
            (
                spec_event_id(signed, ver),
                signed.insert("event_id"@, JsonAbs::Str(spec_event_id(signed, ver))),
            ),
        ),
        spec_validate_limiter(raw, ver, keys, lim, now_ms) == lim,
{
}

} // verus!
