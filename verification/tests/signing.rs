use membership_engine::crypto::{
    derive_event_id, public_key_base64, sign_doc, user_server, verify_doc, KeyStore,
};
use membership_engine::json::CanonicalDoc;
use membership_engine::keys::{key_id_for, ServerSigningKey};
use membership_engine::member::{MemberContent, Membership};
use membership_engine::orchestrator::{
    merge_restricted_join_signature, prepare_remote_join, prepare_remote_leave,
};
use membership_engine::room_version::RoomVersion;
use membership_engine::signer::build_signed_event;

const NOW_MS: u64 = 1700000000000;

fn new_key(version: &str) -> ServerSigningKey {
    let der = ruma::signatures::Ed25519KeyPair::generate().to_vec();
    ServerSigningKey { der, version: version.to_owned() }
}

fn join_stub(sender: &str) -> String {
    format!(
        "{{\"auth_events\":[],\"content\":{{\"membership\":\"join\"}},\"depth\":3,\
         \"prev_events\":[],\"room_id\":\"!room:remote.example\",\"sender\":\"{sender}\",\
         \"state_key\":\"{sender}\",\"type\":\"m.room.member\"}}"
    )
}

#[test]
fn sign_then_verify_round_trips_with_own_key() {
    let key = new_key("1");
    let origin = "our.example";
    let stub = CanonicalDoc::parse(&join_stub("@alice:our.example")).unwrap();
    let event = build_signed_event(&stub, None, origin, NOW_MS, &key, RoomVersion::V10)
        .expect("locally built event signs");

    let pk = public_key_base64(&key).expect("valid key has a public half");
    let mut keys = KeyStore::new();
    assert!(keys.add_key(origin, key_id_for("1").as_str(), pk.as_str()));
    assert!(verify_doc(&keys, &event.doc, "10"));
}

#[test]
fn verify_fails_under_the_wrong_key() {
    let key = new_key("1");
    let other = new_key("1");
    let origin = "our.example";
    let stub = CanonicalDoc::parse(&join_stub("@alice:our.example")).unwrap();
    let event = build_signed_event(&stub, None, origin, NOW_MS, &key, RoomVersion::V10)
        .expect("locally built event signs");

    let wrong_pk = public_key_base64(&other).unwrap();
    let mut keys = KeyStore::new();
    assert!(keys.add_key(origin, key_id_for("1").as_str(), wrong_pk.as_str()));
    assert!(!verify_doc(&keys, &event.doc, "10"));

    // A key store without the sender's server fails too.
    let empty = KeyStore::new();
    assert!(!verify_doc(&empty, &event.doc, "10"));
}

#[test]
fn event_id_is_stable_under_rederivation() {
    let key = new_key("1");
    let stub = CanonicalDoc::parse(&join_stub("@alice:our.example")).unwrap();
    let event = build_signed_event(&stub, None, "our.example", NOW_MS, &key, RoomVersion::V10)
        .expect("signs");

    // Deriving again from the identical canonical document gives the same id.
    let again = derive_event_id(&event.doc, "10").unwrap();
    assert_eq!(event.event_id, again);
    assert!(event.event_id.starts_with('$'));

    // The id survives a serialize/parse round trip of the document.
    let reparsed = CanonicalDoc::parse(event.doc.to_json().as_str()).unwrap();
    assert_eq!(derive_event_id(&reparsed, "10").unwrap(), event.event_id);
}

#[test]
fn event_id_key_kept_only_in_earliest_versions() {
    let key = new_key("1");
    let stub = CanonicalDoc::parse(&join_stub("@alice:our.example")).unwrap();

    for ver in [
        RoomVersion::V3,
        RoomVersion::V6,
        RoomVersion::V9,
        RoomVersion::V10,
        RoomVersion::V11,
    ] {
        let event = build_signed_event(&stub, None, "our.example", NOW_MS, &key, ver)
            .expect("signs");
        assert!(!event.doc.contains_key("event_id"), "{:?} must derive ids", ver);
    }
    for ver in [RoomVersion::V1, RoomVersion::V2] {
        let event = build_signed_event(&stub, None, "our.example", NOW_MS, &key, ver)
            .expect("signs");
        assert!(event.doc.contains_key("event_id"), "{:?} must carry ids", ver);
    }
}

#[test]
fn prepare_remote_join_overlays_profile_and_authorization() {
    let key = new_key("1");
    let stub_raw = format!(
        "{{\"auth_events\":[],\"content\":{{\"join_authorised_via_users_server\":\
         \"@helper:room.example\",\"membership\":\"join\"}},\"depth\":3,\"prev_events\":[],\
         \"room_id\":\"!room:room.example\",\"sender\":\"@alice:our.example\",\
         \"state_key\":\"@alice:our.example\",\"type\":\"m.room.member\"}}"
    );
    let prepared = prepare_remote_join(
        "10",
        &stub_raw,
        Some("Alice".to_owned()),
        None,
        None,
        Some("curiosity".to_owned()),
        "our.example",
        NOW_MS,
        &key,
    )
    .expect("prepares");
    assert_eq!(prepared.ver, RoomVersion::V10);
    assert_eq!(prepared.join_authorized.as_deref(), Some("@helper:room.example"));

    let content = prepared.event.doc.get_doc("content").expect("content is an object");
    assert_eq!(content.get_str("membership").as_deref(), Some("join"));
    assert_eq!(content.get_str("displayname").as_deref(), Some("Alice"));
    assert_eq!(content.get_str("reason").as_deref(), Some("curiosity"));
    assert_eq!(
        content.get_str("join_authorised_via_users_server").as_deref(),
        Some("@helper:room.example"),
    );
    assert_eq!(prepared.event.doc.get_str("origin").as_deref(), Some("our.example"));
}

#[test]
fn prepare_remote_join_rejects_unsupported_versions() {
    let key = new_key("1");
    let err = prepare_remote_join(
        "999",
        &join_stub("@alice:our.example"),
        None,
        None,
        None,
        None,
        "our.example",
        NOW_MS,
        &key,
    )
    .err().unwrap();
    assert_eq!(err, membership_engine::errors::EngineError::UnsupportedRoomVersion);

    let err2 = prepare_remote_join(
        "10",
        "this is not json",
        None,
        None,
        None,
        None,
        "our.example",
        NOW_MS,
        &key,
    )
    .err().unwrap();
    assert_eq!(err2, membership_engine::errors::EngineError::BadServerResponse);
}

#[test]
fn prepare_remote_leave_keeps_the_drafts_content() {
    let key = new_key("1");
    let stub_raw = format!(
        "{{\"auth_events\":[],\"content\":{{\"membership\":\"leave\"}},\"depth\":7,\
         \"prev_events\":[],\"room_id\":\"!room:remote.example\",\
         \"sender\":\"@alice:our.example\",\"state_key\":\"@alice:our.example\",\
         \"type\":\"m.room.member\"}}"
    );
    let prepared = prepare_remote_leave("10", &stub_raw, "our.example", NOW_MS, &key)
        .expect("prepares");
    let content = prepared.event.doc.get_doc("content").expect("content kept");
    assert_eq!(content.get_str("membership").as_deref(), Some("leave"));
    assert!(prepared.join_authorized.is_none());
}

#[test]
fn merged_signature_is_taken_from_the_answer() {
    let our_key = new_key("1");
    let remote_key = new_key("k2");
    let stub = CanonicalDoc::parse(&join_stub("@alice:our.example")).unwrap();
    let event = build_signed_event(&stub, None, "our.example", NOW_MS, &our_key, RoomVersion::V10)
        .expect("signs");

    // The answering server signs the same event; the reference hash ignores
    // signatures, so the derived id is identical.
    let reparsed = CanonicalDoc::parse(event.doc.to_json().as_str()).unwrap();
    let remote_signed = sign_doc(&reparsed, "room.example", &remote_key, "10")
        .expect("remote signs");
    let remote_raw = remote_signed.to_json();

    let before = event.doc.get_doc("signatures").unwrap();
    assert!(before.get_value("room.example").is_none());

    let merged = merge_restricted_join_signature(event, RoomVersion::V10, "room.example", &remote_raw)
        .expect("merges");
    let sigs = merged.doc.get_doc("signatures").unwrap();
    assert!(sigs.get_value("room.example").is_some());
    assert!(sigs.get_value("our.example").is_some());
}

#[test]
fn answer_under_a_different_event_id_is_a_protocol_violation() {
    let our_key = new_key("1");
    let stub = CanonicalDoc::parse(&join_stub("@alice:our.example")).unwrap();
    let event = build_signed_event(&stub, None, "our.example", NOW_MS, &our_key, RoomVersion::V10)
        .expect("signs");

    let other_stub = CanonicalDoc::parse(&join_stub("@bob:our.example")).unwrap();
    let other =
        build_signed_event(&other_stub, None, "our.example", NOW_MS, &our_key, RoomVersion::V10)
            .expect("signs");
    let err = merge_restricted_join_signature(
        event,
        RoomVersion::V10,
        "room.example",
        &other.doc.to_json(),
    )
    .err().unwrap();
    assert_eq!(err, membership_engine::errors::EngineError::EventIdMismatch);
}

#[test]
fn member_content_survives_its_canonical_form() {
    let content = MemberContent {
        membership: Membership::Join,
        displayname: Some("Alice".to_owned()),
        avatar_url: Some("mxc://our.example/abc".to_owned()),
        is_direct: Some(true),
        blurhash: None,
        reason: Some("hello".to_owned()),
        join_authorized_via_users_server: Some("@helper:room.example".to_owned()),
    };
    let doc = membership_engine::member::member_content_doc(&content, RoomVersion::V10);
    let reparsed = CanonicalDoc::parse(doc.to_json().as_str()).unwrap();
    let back = membership_engine::member::member_content_from_doc(&reparsed).unwrap();
    assert_eq!(back.membership, Membership::Join);
    assert_eq!(back.displayname.as_deref(), Some("Alice"));
    assert_eq!(back.avatar_url.as_deref(), Some("mxc://our.example/abc"));
    assert_eq!(back.is_direct, Some(true));
    assert_eq!(back.blurhash, None);
    assert_eq!(back.reason.as_deref(), Some("hello"));
    assert_eq!(back.join_authorized_via_users_server.as_deref(), Some("@helper:room.example"));
}

#[test]
fn authorization_field_is_cleared_below_version_eight() {
    let content = MemberContent {
        membership: Membership::Join,
        displayname: None,
        avatar_url: None,
        is_direct: None,
        blurhash: None,
        reason: None,
        join_authorized_via_users_server: Some("@helper:room.example".to_owned()),
    };
    let doc = membership_engine::member::member_content_doc(&content, RoomVersion::V7);
    assert!(!doc.contains_key("join_authorised_via_users_server"));
    let doc8 = membership_engine::member::member_content_doc(&content, RoomVersion::V8);
    assert!(doc8.contains_key("join_authorised_via_users_server"));
}

#[test]
fn user_server_reads_the_domain() {
    assert_eq!(user_server("@alice:our.example").as_deref(), Some("our.example"));
    assert_eq!(user_server("not a user id"), None);
}
