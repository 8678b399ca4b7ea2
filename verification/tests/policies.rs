use membership_engine::admission::{admission_plan, AdmissionStep, StateSnapshot};
use membership_engine::errors::EngineError;
use membership_engine::limiter::{backoff_delay, BadEventTable};
use membership_engine::member::{MemberContent, Membership};
use membership_engine::negotiator::{Negotiation, NegotiationStatus};
use membership_engine::orchestrator::{
    any_remote_server, ban_member, banned_room_check, candidate_servers_from_senders, forget_room,
    invite_policy_check, join_room_by_id_helper, kick_member, leave_all_rooms, leave_room,
    local_join_followup, pick_authorized_user, remote_leave_candidates, restriction_rooms,
    route_candidate_servers, unban_member, JoinPath, LeavePlan, LocalJoinNext, RoomBanState,
};
use membership_engine::room_version::RoomVersion;
use membership_engine::util::{escape_html, get_room_info, server_of};

#[test]
fn backoff_delay_follows_the_quadratic_formula() {
    assert_eq!(backoff_delay(0), 0);
    assert_eq!(backoff_delay(1), 300000);
    assert_eq!(backoff_delay(2), 1200000);
    assert_eq!(backoff_delay(3), 2700000);
    assert_eq!(backoff_delay(16), 76800000);
    // From the seventeenth failure on, the day-long ceiling applies.
    assert_eq!(backoff_delay(17), 86400000);
    assert_eq!(backoff_delay(1000000), 86400000);
    assert_eq!(backoff_delay(u32::MAX), 86400000);
}

#[test]
fn early_attempts_are_skipped_late_ones_pass() {
    let mut table = BadEventTable::new();
    let id = "$someevent";
    assert!(!table.should_skip(id, 5000));

    table.record_failure(id, 1000);
    assert_eq!(table.lookup(id), Some((1000, 1)));
    // One failure: five minutes of backoff, to the millisecond.
    assert!(table.should_skip(id, 1000 + 299999));
    assert!(!table.should_skip(id, 1000 + 300000));

    table.record_failure(id, 400000);
    assert_eq!(table.lookup(id), Some((400000, 2)));
    // Two failures: twenty minutes.
    assert!(table.should_skip(id, 400000 + 1199999));
    assert!(!table.should_skip(id, 400000 + 1200000));

    // Another event id is untouched.
    assert!(!table.should_skip("$other", 400001));
}

#[test]
fn negotiation_aborts_on_the_sixteenth_incompatible_response() {
    let mut n = Negotiation::new(Vec::new(), "our.example".to_owned());
    for i in 1..=15u32 {
        let status = n.record_failure(true);
        assert_eq!(status, NegotiationStatus::Continue, "failure {i} must not abort");
    }
    assert_eq!(n.record_failure(true), NegotiationStatus::AbortUnsupported);
}

#[test]
fn negotiation_aborts_on_the_fifty_first_failure() {
    let mut n = Negotiation::new(Vec::new(), "our.example".to_owned());
    for i in 1..=50u32 {
        let status = n.record_failure(false);
        assert_eq!(status, NegotiationStatus::Continue, "failure {i} must not abort");
    }
    assert_eq!(n.record_failure(false), NegotiationStatus::AbortUnavailable);
}

#[test]
fn negotiation_skips_the_local_server() {
    let candidates =
        vec!["our.example".to_owned(), "one.example".to_owned(), "our.example".to_owned(), "two.example".to_owned()];
    let mut n = Negotiation::new(candidates, "our.example".to_owned());
    assert_eq!(n.next_candidate().as_deref(), Some("one.example"));
    assert_eq!(n.next_candidate().as_deref(), Some("two.example"));
    assert_eq!(n.next_candidate(), None);
}

#[test]
fn admission_writes_in_the_one_safe_order() {
    let plan = admission_plan(
        true,
        StateSnapshot::new(),
        dummy_event(),
    )
    .expect("authorized join is admitted");
    assert_eq!(
        plan.steps,
        vec![
            AdmissionStep::SaveStateBefore,
            AdmissionStep::ForceStateBefore,
            AdmissionStep::UpdateJoinedCount,
            AdmissionStep::AppendToStateAfter,
            AdmissionStep::AppendJoinEvent,
            AdmissionStep::PublishStateAfter,
        ],
    );

    let err = admission_plan(false, StateSnapshot::new(), dummy_event()).err().unwrap();
    assert_eq!(err, EngineError::Forbidden);
}

fn dummy_event() -> membership_engine::signer::SignedEvent {
    let der = ruma::signatures::Ed25519KeyPair::generate().to_vec();
    let key = membership_engine::keys::ServerSigningKey { der, version: "1".to_owned() };
    let stub = membership_engine::json::CanonicalDoc::parse(
        "{\"content\":{},\"room_id\":\"!r:x.example\",\"sender\":\"@a:x.example\",\
         \"type\":\"m.room.member\"}",
    )
    .unwrap();
    membership_engine::signer::build_signed_event(
        &stub,
        None,
        "x.example",
        1700000000000,
        &key,
        RoomVersion::V10,
    )
    .unwrap()
}

#[test]
fn ban_then_unban_of_an_unknown_user_leaves_a_bare_leave() {
    let banned = ban_member(None, None, Some("spam".to_owned()));
    assert_eq!(banned.membership, Membership::Ban);
    let unbanned = unban_member(Some(banned), None).expect("banned users can be unbanned");
    assert_eq!(unbanned.membership, Membership::Leave);
    assert!(unbanned.join_authorized_via_users_server.is_none());
    assert!(unbanned.displayname.is_none());
    assert!(unbanned.avatar_url.is_none());
    assert!(unbanned.is_direct.is_none());
}

#[test]
fn kick_needs_a_record_and_keeps_the_profile() {
    assert_eq!(kick_member(None, None).err().unwrap(), EngineError::BadState);
    let record = MemberContent {
        membership: Membership::Join,
        displayname: Some("Bob".to_owned()),
        avatar_url: None,
        is_direct: None,
        blurhash: None,
        reason: None,
        join_authorized_via_users_server: None,
    };
    let kicked = kick_member(Some(record), Some("be nice".to_owned())).unwrap();
    assert_eq!(kicked.membership, Membership::Leave);
    assert_eq!(kicked.displayname.as_deref(), Some("Bob"));
    assert_eq!(kicked.reason.as_deref(), Some("be nice"));
}

#[test]
fn leave_without_local_participation_is_forced_locally() {
    let plan = leave_room(false, None, None);
    assert!(matches!(
        plan,
        LeavePlan::RemoteThenForce { ref forced } if forced.membership == Membership::Leave
    ));

    let record = MemberContent {
        membership: Membership::Join,
        displayname: None,
        avatar_url: None,
        is_direct: None,
        blurhash: None,
        reason: None,
        join_authorized_via_users_server: None,
    };
    let plan2 = leave_room(true, Some(record), Some("bye".to_owned()));
    assert!(matches!(
        plan2,
        LeavePlan::AppendLeave { ref content }
            if content.membership == Membership::Leave && content.reason.as_deref() == Some("bye")
    ));

    let plan3 = leave_room(true, None, None);
    assert!(matches!(plan3, LeavePlan::ForceLeave { .. }));
}

#[test]
fn restricted_join_falls_back_exactly_once_remote_help_exists() {
    assert_eq!(local_join_followup(true, true, true), LocalJoinNext::Done);
    assert_eq!(local_join_followup(false, true, true), LocalJoinNext::RemoteAssist);
    assert_eq!(local_join_followup(false, false, true), LocalJoinNext::SurfaceError);
    assert_eq!(local_join_followup(false, true, false), LocalJoinNext::SurfaceError);
}

#[test]
fn the_first_capable_member_authorizes_a_restricted_join() {
    let members = vec!["@m1:our.example".to_owned(), "@m2:our.example".to_owned(), "@m3:our.example".to_owned()];
    let can_invite = vec![false, true, true];
    assert_eq!(
        pick_authorized_user(true, &members, &can_invite).as_deref(),
        Some("@m2:our.example"),
    );
    assert_eq!(pick_authorized_user(false, &members, &can_invite), None);
    assert_eq!(pick_authorized_user(true, &members, &vec![false, false, false]), None);
}

#[test]
fn join_rules_yield_their_restriction_rooms() {
    let raw = "{\"allow\":[{\"room_id\":\"!a:x.example\",\"type\":\"m.room_membership\"},\
               {\"type\":\"m.other\"},{\"room_id\":\"!b:y.example\",\
               \"type\":\"m.room_membership\"}],\"join_rule\":\"restricted\"}"
        .to_owned();
    let rooms = restriction_rooms(Some(&raw)).unwrap();
    assert_eq!(rooms, vec!["!a:x.example".to_owned(), "!b:y.example".to_owned()]);

    let public = "{\"join_rule\":\"public\"}".to_owned();
    assert!(restriction_rooms(Some(&public)).unwrap().is_empty());
    assert!(restriction_rooms(None).unwrap().is_empty());
    assert_eq!(
        restriction_rooms(Some(&"not json".to_owned())).err().unwrap(),
        EngineError::BadDatabase,
    );
}

#[test]
fn join_path_depends_on_participation() {
    assert_eq!(join_room_by_id_helper(true, false), JoinPath::AlreadyJoined);
    assert_eq!(join_room_by_id_helper(false, true), JoinPath::Local);
    assert_eq!(join_room_by_id_helper(false, false), JoinPath::Remote);
}

#[test]
fn banned_rooms_reject_non_admins_only() {
    let banned = RoomBanState { room_banned: true, room_server_forbidden: false };
    let check = banned_room_check(false, Some(&banned), None, true);
    assert_eq!(check.rejection, Some(EngineError::BannedRoom));
    assert!(check.deactivate);

    let admin = banned_room_check(true, Some(&banned), None, true);
    assert_eq!(admin.rejection, None);
    assert!(!admin.deactivate);

    let server = banned_room_check(false, None, Some(true), false);
    assert_eq!(server.rejection, Some(EngineError::BannedServer));
    assert!(!server.deactivate);

    let clean = RoomBanState { room_banned: false, room_server_forbidden: false };
    assert_eq!(banned_room_check(false, Some(&clean), None, true).rejection, None);
}

#[test]
fn forget_and_invite_policies() {
    assert_eq!(forget_room(true).err().unwrap(), EngineError::MustLeaveFirst);
    assert!(forget_room(false).is_ok());
    assert_eq!(invite_policy_check(false, true).err().unwrap(), EngineError::InvitesBlocked);
    assert!(invite_policy_check(true, true).is_ok());
    assert!(invite_policy_check(false, false).is_ok());
}

#[test]
fn candidate_servers_come_from_invite_senders() {
    let senders = vec![
        "@a:one.example".to_owned(),
        "@b:two.example".to_owned(),
        "@c:one.example".to_owned(),
        "not a user id".to_owned(),
    ];
    let servers = candidate_servers_from_senders(&senders);
    assert_eq!(servers, vec!["one.example".to_owned(), "two.example".to_owned()]);
}

#[test]
fn remote_candidates_are_recognized() {
    let servers = vec!["our.example".to_owned(), "far.example".to_owned()];
    assert!(any_remote_server(&servers, "our.example"));
    let only_ours = vec!["our.example".to_owned()];
    assert!(!any_remote_server(&only_ours, "our.example"));
}

#[test]
fn leaving_everything_covers_joined_and_invited_rooms() {
    let joined = vec!["!a:x.example".to_owned()];
    let invited = vec!["!b:y.example".to_owned(), "!c:z.example".to_owned()];
    assert_eq!(
        leave_all_rooms(&joined, &invited),
        vec!["!a:x.example".to_owned(), "!b:y.example".to_owned(), "!c:z.example".to_owned()],
    );
}

#[test]
fn room_versions_carry_their_capabilities() {
    assert_eq!(RoomVersion::parse("10"), Some(RoomVersion::V10));
    assert_eq!(RoomVersion::parse("1"), Some(RoomVersion::V1));
    assert_eq!(RoomVersion::parse("999"), None);
    assert_eq!(RoomVersion::parse(""), None);
    assert!(RoomVersion::V1.keeps_event_id());
    assert!(RoomVersion::V2.keeps_event_id());
    assert!(!RoomVersion::V3.keeps_event_id());
    assert!(!RoomVersion::V7.supports_restricted_join());
    assert!(RoomVersion::V8.supports_restricted_join());
    assert_eq!(RoomVersion::V11.as_str(), "11");
}

#[test]
fn html_is_escaped_character_by_character() {
    assert_eq!(escape_html("a&b<c>d").as_str(), "a&amp;b&lt;c&gt;d");
    assert_eq!(escape_html("").as_str(), "");
    assert_eq!(escape_html("<<&").as_str(), "&lt;&lt;&amp;");
    assert_eq!(escape_html("plain").as_str(), "plain");
}

#[test]
fn room_info_fills_in_defaults() {
    let info = get_room_info("!r:x.example", None, None);
    assert_eq!(info.room_id.as_str(), "!r:x.example");
    assert_eq!(info.joined_count, 0);
    assert_eq!(info.name.as_str(), "!r:x.example");

    let named = get_room_info("!r:x.example", Some(7), Some("The Room".to_owned()));
    assert_eq!(named.joined_count, 7);
    assert_eq!(named.name.as_str(), "The Room");
}

#[test]
fn server_part_follows_the_first_colon() {
    assert_eq!(server_of("@alice:our.example").as_deref(), Some("our.example"));
    assert_eq!(server_of("!room:x:8448").as_deref(), Some("x:8448"));
    assert_eq!(server_of("nocolon"), None);
}

#[test]
fn errors_carry_their_descriptions() {
    assert_eq!(
        EngineError::NoServerAvailable.message(),
        "No server available to assist.",
    );
    assert_eq!(EngineError::BackedOff.message(), "Bad event, still backing off.");
    assert_ne!(
        EngineError::BannedRoom.message(),
        EngineError::BannedServer.message(),
    );
}

#[test]
fn a_remote_leave_needs_a_stored_invite() {
    assert_eq!(remote_leave_candidates(None).err().unwrap(), EngineError::BadState);
    let servers =
        remote_leave_candidates(Some(vec!["@a:one.example".to_owned(), "@b:two.example".to_owned()]))
            .unwrap();
    assert_eq!(servers, vec!["one.example".to_owned(), "two.example".to_owned()]);
}

#[test]
fn route_candidates_follow_hints_then_vias_then_the_room() {
    let hints = vec!["hint.example".to_owned()];
    let senders = vec!["@a:sender.example".to_owned()];
    let room_server = "room.example".to_owned();

    let with_vias = route_candidate_servers(
        &hints,
        Some(&vec!["via.example".to_owned()]),
        &senders,
        Some(&room_server),
    );
    assert_eq!(
        with_vias,
        vec!["hint.example".to_owned(), "via.example".to_owned(), "room.example".to_owned()],
    );

    let without_vias = route_candidate_servers(&hints, None, &senders, None);
    assert_eq!(without_vias, vec!["hint.example".to_owned(), "sender.example".to_owned()]);
}
