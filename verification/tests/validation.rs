use membership_engine::admission::{validate_auth_chain, validate_state_events};
use membership_engine::crypto::{public_key_base64, sign_doc, KeyStore};
use membership_engine::errors::EngineError;
use membership_engine::json::CanonicalDoc;
use membership_engine::keys::{key_id_for, ServerSigningKey};
use membership_engine::limiter::BadEventTable;
use membership_engine::orchestrator::{inbound_invite_check, invite_response_check, InboundInvitePolicy};
use membership_engine::room_version::RoomVersion;
use membership_engine::validator::validate_and_add_event_id;

const NOW_MS: u64 = 1700000000000;

fn remote_key() -> ServerSigningKey {
    let der = ruma::signatures::Ed25519KeyPair::generate().to_vec();
    ServerSigningKey { der, version: "r1".to_owned() }
}

fn keystore_for(server: &str, key: &ServerSigningKey) -> KeyStore {
    let pk = public_key_base64(key).unwrap();
    let mut keys = KeyStore::new();
    assert!(keys.add_key(server, key_id_for(key.version.as_str()).as_str(), pk.as_str()));
    keys
}

fn signed_state_event(key: &ServerSigningKey, kind: &str, state_key: Option<&str>) -> String {
    let state_part = match state_key {
        Some(sk) => format!("\"state_key\":\"{sk}\","),
        None => String::new(),
    };
    // A membership event must carry its membership string to verify.
    let content = if kind == "m.room.member" { "{\"membership\":\"join\"}" } else { "{}" };
    let raw = format!(
        "{{\"auth_events\":[],\"content\":{content},\"depth\":1,\"prev_events\":[],\
         \"room_id\":\"!room:remote.example\",\"sender\":\"@server:remote.example\",\
         {state_part}\"type\":\"{kind}\"}}"
    );
    let doc = CanonicalDoc::parse(&raw).unwrap();
    sign_doc(&doc, "remote.example", key, "10").expect("signs").to_json()
}

#[test]
fn a_valid_remote_event_is_accepted_and_stamped() {
    let key = remote_key();
    let keys = keystore_for("remote.example", &key);
    let raw = signed_state_event(&key, "m.room.create", Some(""));
    let mut limiter = BadEventTable::new();

    let (event_id, doc) =
        validate_and_add_event_id(&raw, RoomVersion::V10, &keys, &mut limiter, NOW_MS)
            .expect("validates");
    assert!(event_id.starts_with('$'));
    assert_eq!(doc.get_str("event_id"), Some(event_id.clone()));
    // Nothing was booked for a good event.
    assert!(limiter.lookup(event_id.as_str()).is_none());
}

#[test]
fn a_forged_event_is_booked_and_then_backed_off() {
    let key = remote_key();
    let other = remote_key();
    // The key store holds the wrong public key for the claimed server.
    let keys = keystore_for("remote.example", &other);
    let raw = signed_state_event(&key, "m.room.create", Some(""));
    let mut limiter = BadEventTable::new();

    let err = validate_and_add_event_id(&raw, RoomVersion::V10, &keys, &mut limiter, NOW_MS)
        .err().unwrap();
    assert_eq!(err, EngineError::VerificationFailed);

    // The failure was booked: an immediate retry is rejected without any
    // verification, even under a key store that would now accept it.
    let good_keys = keystore_for("remote.example", &key);
    let err2 =
        validate_and_add_event_id(&raw, RoomVersion::V10, &good_keys, &mut limiter, NOW_MS + 1)
            .err().unwrap();
    assert_eq!(err2, EngineError::BackedOff);

    // Once the five-minute delay has elapsed, the event is verified again.
    let ok = validate_and_add_event_id(
        &raw,
        RoomVersion::V10,
        &good_keys,
        &mut limiter,
        NOW_MS + 300000,
    );
    assert!(ok.is_ok());
}

#[test]
fn malformed_bytes_are_a_bad_server_response() {
    let keys = KeyStore::new();
    let mut limiter = BadEventTable::new();
    let err = validate_and_add_event_id("{oops", RoomVersion::V10, &keys, &mut limiter, NOW_MS)
        .err().unwrap();
    assert_eq!(err, EngineError::BadServerResponse);
}

#[test]
fn the_state_fold_keeps_good_events_and_skips_bad_ones() {
    let key = remote_key();
    let keys = keystore_for("remote.example", &key);
    let mut limiter = BadEventTable::new();

    let create = signed_state_event(&key, "m.room.create", Some(""));
    let member = signed_state_event(&key, "m.room.member", Some("@server:remote.example"));
    let unsigned_raw = "{\"content\":{},\"room_id\":\"!room:remote.example\",\
                        \"sender\":\"@server:remote.example\",\"type\":\"m.room.power_levels\",\
                        \"state_key\":\"\"}"
        .to_owned();
    let raws = vec![create.clone(), unsigned_raw, member];

    let fold = validate_state_events(&raws, RoomVersion::V10, &keys, &mut limiter, NOW_MS)
        .expect("fold succeeds");
    // The unsigned event was skipped, the two signed ones kept.
    assert_eq!(fold.outliers.len(), 2);
    let create_id = fold.snapshot.get("m.room.create", "").expect("create is in the snapshot");
    assert_eq!(create_id.as_str(), fold.outliers[0].0.as_str());
    assert!(fold.snapshot.get("m.room.member", "@server:remote.example").is_some());
    assert!(fold.snapshot.get("m.room.member", "@nobody:remote.example").is_none());
}

#[test]
fn the_auth_chain_fold_collects_outliers_only() {
    let key = remote_key();
    let keys = keystore_for("remote.example", &key);
    let mut limiter = BadEventTable::new();

    let create = signed_state_event(&key, "m.room.create", Some(""));
    let raws = vec![create, "not json at all".to_owned()];
    let outliers = validate_auth_chain(&raws, RoomVersion::V10, &keys, &mut limiter, NOW_MS);
    assert_eq!(outliers.len(), 1);
}

#[test]
fn an_inbound_invite_is_countersigned() {
    let key = remote_key();
    let event_raw = "{\"content\":{\"membership\":\"invite\"},\"origin\":\"room.example\",\
                     \"origin_server_ts\":1700000000000,\"room_id\":\"!room:room.example\",\
                     \"sender\":\"@alice:room.example\",\"state_key\":\"@bob:our.example\",\
                     \"type\":\"m.room.member\"}";
    let policy = InboundInvitePolicy {
        origin_acl_ok: true,
        room_server_forbidden: false,
        origin_forbidden: false,
        invited_acl_ok: true,
        room_banned: false,
        invited_is_admin: false,
        block_non_admin_invites: false,
        server_in_room: false,
    };
    let accepted = inbound_invite_check("10", event_raw, Some(false), "our.example", &policy, &key)
        .expect("accepted");
    assert_eq!(accepted.invited_user.as_str(), "@bob:our.example");
    assert_eq!(accepted.sender.as_str(), "@alice:room.example");
    assert!(accepted.update_membership);
    assert_eq!(accepted.response_doc.get_str("event_id"), Some(accepted.event_id.clone()));
    let sigs = accepted.response_doc.get_doc("signatures").expect("countersigned");
    assert!(sigs.get_value("our.example").is_some());
}

#[test]
fn inbound_invites_hit_every_gate_in_order() {
    let key = remote_key();
    let event_raw = "{\"content\":{\"membership\":\"invite\"},\"origin\":\"room.example\",\
                     \"room_id\":\"!room:room.example\",\"sender\":\"@alice:room.example\",\
                     \"state_key\":\"@bob:our.example\",\"type\":\"m.room.member\"}";
    let ok_policy = InboundInvitePolicy {
        origin_acl_ok: true,
        room_server_forbidden: false,
        origin_forbidden: false,
        invited_acl_ok: true,
        room_banned: false,
        invited_is_admin: false,
        block_non_admin_invites: false,
        server_in_room: true,
    };

    let mut p = ok_policy;
    p.origin_acl_ok = false;
    assert_eq!(
        inbound_invite_check("10", event_raw, None, "our.example", &p, &key).err().unwrap(),
        EngineError::Forbidden,
    );

    assert_eq!(
        inbound_invite_check("999", event_raw, None, "our.example", &ok_policy, &key).err().unwrap(),
        EngineError::UnsupportedRoomVersion,
    );

    let mut p = ok_policy;
    p.origin_forbidden = true;
    assert_eq!(
        inbound_invite_check("10", event_raw, None, "our.example", &p, &key).err().unwrap(),
        EngineError::BannedServer,
    );

    assert_eq!(
        inbound_invite_check("10", event_raw, Some(true), "our.example", &ok_policy, &key)
            .err().unwrap(),
        EngineError::InvalidParam,
    );

    // A state_key naming a user of another server is not ours to accept.
    assert_eq!(
        inbound_invite_check("10", event_raw, None, "elsewhere.example", &ok_policy, &key)
            .err().unwrap(),
        EngineError::InvalidParam,
    );

    let mut p = ok_policy;
    p.room_banned = true;
    assert_eq!(
        inbound_invite_check("10", event_raw, None, "our.example", &p, &key).err().unwrap(),
        EngineError::BannedRoom,
    );

    let mut p = ok_policy;
    p.block_non_admin_invites = true;
    assert_eq!(
        inbound_invite_check("10", event_raw, None, "our.example", &p, &key).err().unwrap(),
        EngineError::InvitesBlocked,
    );

    // With this server already in the room no membership write is planned.
    let accepted =
        inbound_invite_check("10", event_raw, None, "our.example", &ok_policy, &key).unwrap();
    assert!(!accepted.update_membership);
}

#[test]
fn the_invite_answer_is_the_event_of_record() {
    let key = remote_key();
    let raw = signed_state_event(&key, "m.room.member", Some("@bob:room.example"));
    let doc = CanonicalDoc::parse(&raw).unwrap();
    let derived = membership_engine::crypto::derive_event_id(&doc, "10").unwrap();

    // An answer under any other derived event id is a protocol violation.
    let err = invite_response_check("$somethingelse", &raw, RoomVersion::V10).err().unwrap();
    assert_eq!(err, EngineError::EventIdMismatch);

    // An answer under the right id must still carry an origin.
    let err2 = invite_response_check(derived.as_str(), &raw, RoomVersion::V10).err().unwrap();
    assert_eq!(err2, EngineError::InvalidParam);

    let mut with_origin = doc.duplicate();
    with_origin.insert_str("origin", "room.example");
    let answer_raw = with_origin.to_json();
    // The origin insertion leaves the reference hash alone only if "origin"
    // was already redacted away; recompute the id the answer carries.
    let answer_id =
        membership_engine::crypto::derive_event_id(&with_origin, "10").unwrap();
    let answer = invite_response_check(answer_id.as_str(), &answer_raw, RoomVersion::V10)
        .expect("accepted");
    assert_eq!(answer.origin.as_str(), "room.example");
    assert_eq!(answer.event_id, answer_id);
}
