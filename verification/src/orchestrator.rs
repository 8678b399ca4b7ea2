//! The membership orchestrator.
//!
//! Every client-facing membership operation maps onto one decision here.  The
//! orchestrator never talks to storage or to the network itself: callers hand
//! in what they read (membership records, join rules, ban flags, candidate
//! servers, remote responses) and get back either an error or a plan naming
//! exactly what to write and whom to ask.

use vstd::prelude::*;
use vstd::string::StringExecFns;

use crate::crypto;
use crate::errors::EngineError;
use crate::json::{doc_model, parsed_json_of, str_field, CanonicalDoc, JsonAbs};
use crate::keys::ServerSigningKey;
use crate::member::{
    opt_view, spec_ban, spec_kick, spec_leave, spec_synthesized_ban, spec_unban, MemberContent,
    MemberView, Membership,
};
use crate::room_version::RoomVersion;
use crate::signer::{build_signed_event, SignedEvent};

verus! {

/// What a banned-room check decides.
pub struct BannedCheck {
    /// The rejection, if the operation is rejected.
    pub rejection: Option<EngineError>,
    /// Whether the attempting account is to be deactivated and dropped from
    /// all its rooms.
    pub deactivate: bool,
}

/// The ban state around a room: whether the room itself is banned here and
/// whether its server is on the forbidden list.
pub struct RoomBanState {
    pub room_banned: bool,
    pub room_server_forbidden: bool,
}

/// Checks whether a room or server ban blocks an operation.  Admins pass
/// every ban; a non-admin hitting a ban is rejected, and deactivated when the
/// server is configured to deactivate accounts that try banned rooms.
pub fn banned_room_check(
    sender_is_admin: bool,
    room: Option<&RoomBanState>,
    target_server_forbidden: Option<bool>,
    auto_deactivate: bool,
) -> (r: BannedCheck)
    ensures
        sender_is_admin ==> r.rejection is None,
        r.rejection is None ==> !r.deactivate,
        !sender_is_admin ==> match room {
            Some(b) => if b.room_banned || b.room_server_forbidden {
                r.rejection == Some(EngineError::BannedRoom) && r.deactivate == auto_deactivate
            } else {
                r.rejection is None
            },
            None => match target_server_forbidden {
                Some(f) => if f {
                    r.rejection == Some(EngineError::BannedServer) && r.deactivate
                        == auto_deactivate
                } else {
                    r.rejection is None
                },
                None => r.rejection is None,
            },
        },
{
    if sender_is_admin {
        return BannedCheck { rejection: None, deactivate: false };
    }
    match room {
        Some(b) => {
            if b.room_banned || b.room_server_forbidden {
                BannedCheck { rejection: Some(EngineError::BannedRoom), deactivate: auto_deactivate }
            } else {
                BannedCheck { rejection: None, deactivate: false }
            }
        },
        None => {
            match target_server_forbidden {
                Some(f) => {
                    if f {
                        BannedCheck {
                            rejection: Some(EngineError::BannedServer),
                            deactivate: auto_deactivate,
                        }
                    } else {
                        BannedCheck { rejection: None, deactivate: false }
                    }
                },
                None => BannedCheck { rejection: None, deactivate: false },
            }
        },
    }
}

/// The path a join takes.
#[derive(Clone, Copy, Debug, PartialEq, Eq, Structural)]
pub enum JoinPath {
    /// The user is already joined: nothing to do.
    AlreadyJoined,
    /// The local server participates in the room: join locally.
    Local,
    /// No local participant: ask remote servers over federation.
    Remote,
}

/// Decides how a join proceeds: a no-op when already joined, locally when
/// this server participates in the room, remotely otherwise.
pub fn join_room_by_id_helper(already_joined: bool, server_in_room: bool) -> (r: JoinPath)
    ensures
        r == if already_joined {
            JoinPath::AlreadyJoined
        } else if server_in_room {
            JoinPath::Local
        } else {
            JoinPath::Remote
        },
{
    if already_joined {
        JoinPath::AlreadyJoined
    } else if server_in_room {
        JoinPath::Local
    } else {
        JoinPath::Remote
    }
}

/// Forgetting a room is only legal once the user has left it.
pub fn forget_room(is_joined: bool) -> (r: Result<(), EngineError>)
    ensures
        r matches Err(e) ==> e == EngineError::MustLeaveFirst,
        r is Err <==> is_joined,
{
    if is_joined {
        Err(EngineError::MustLeaveFirst)
    } else {
        Ok(())
    }
}

/// How a leave is carried out.
pub enum LeavePlan {
    /// No local participant: negotiate the leave remotely, best effort, and
    /// force the local record to the given content regardless of the
    /// outcome.
    RemoteThenForce { forced: MemberContent },
    /// The user has a membership record here: append it rewritten to leave.
    AppendLeave { content: MemberContent },
    /// No record exists (a broken room): force the local record to leave
    /// without producing an event.
    ForceLeave { forced: MemberContent },
}

/// The plan a leave yields.
pub open spec fn spec_leave_plan(
    server_in_room: bool,
    member_record: Option<MemberContent>,
    reason: Option<String>,
) -> LeavePlan {
    if !server_in_room {
        LeavePlan::RemoteThenForce { forced: spec_bare_leave() }
    } else {
        match member_record {
            Some(record) => LeavePlan::AppendLeave { content: spec_leave(record, reason) },
            None => LeavePlan::ForceLeave { forced: spec_bare_leave() },
        }
    }
}

/// A membership record holding nothing but `leave`.
pub open spec fn spec_bare_leave() -> MemberContent {
    MemberContent {
        membership: Membership::Leave,
        displayname: None,
        avatar_url: None,
        is_direct: None,
        blurhash: None,
        reason: None,
        join_authorized_via_users_server: None,
    }
}

/// Plans a leave.  When the local server does not participate in the room
/// the remote negotiation is best effort: whatever it yields, the local
/// membership record is forced to `leave`, because dropping a room must
/// never depend on remote cooperation.
pub fn leave_room(
    server_in_room: bool,
    member_record: Option<MemberContent>,
    reason: Option<String>,
) -> (r: LeavePlan)
    ensures
        r == spec_leave_plan(server_in_room, member_record, reason),
        !server_in_room ==> (r matches LeavePlan::RemoteThenForce { forced } && forced.membership
            == Membership::Leave),
        server_in_room && member_record is Some ==> (r matches LeavePlan::AppendLeave { content }
            && content.membership == Membership::Leave && content == spec_leave(member_record.unwrap(), reason)),
        server_in_room && member_record is None ==> (r matches LeavePlan::ForceLeave { forced }
            && forced.membership == Membership::Leave),
{
    if !server_in_room {
        LeavePlan::RemoteThenForce { forced: MemberContent::new(Membership::Leave) }
    } else {
        match member_record {
            Some(record) => LeavePlan::AppendLeave { content: record.left(reason) },
            None => LeavePlan::ForceLeave { forced: MemberContent::new(Membership::Leave) },
        }
    }
}

/// A leave of a room without a local participant forces the local membership
/// record to `leave` whatever the remote negotiation came to — success,
/// exhaustion or a version abort make no difference to the plan.
pub proof fn lemma_leave_is_unconditional(
    member_record: Option<MemberContent>,
    reason: Option<String>,
    negotiation_outcome: crate::negotiator::NegotiationStatus,
)
    ensures
        spec_leave_plan(false, member_record, reason) matches LeavePlan::RemoteThenForce { forced }
            && forced.membership == Membership::Leave,
{
}

/// The rooms a user drops when leaving everything: all joined and all
/// invited rooms, each forgotten and left, errors ignored.
pub fn leave_all_rooms(joined: &Vec<String>, invited: &Vec<String>) -> (r: Vec<String>)
    ensures
        crate::util::seq_views(r@) == crate::util::seq_views(joined@) + crate::util::seq_views(
            invited@,
        ),
{
    let mut rooms: Vec<String> = Vec::new();
    proof {
        assert(crate::util::seq_views(rooms@) =~= Seq::<Seq<char>>::empty());
    }
    crate::util::extend_strings(&mut rooms, joined);
    crate::util::extend_strings(&mut rooms, invited);
    proof {
        assert(crate::util::seq_views(rooms@) =~= crate::util::seq_views(joined@)
            + crate::util::seq_views(invited@));
    }
    rooms
}

/// Rewrites a membership record for a kick; a user without a record cannot
/// be kicked.
pub fn kick_member(member_record: Option<MemberContent>, reason: Option<String>) -> (r: Result<
    MemberContent,
    EngineError,
>)
    ensures
        match r {
            Ok(c) => member_record is Some && c == spec_kick(member_record.unwrap(), reason),
            Err(e) => member_record is None && e == EngineError::BadState,
        },
{
    match member_record {
        Some(record) => Ok(record.kicked(reason)),
        None => Err(EngineError::BadState),
    }
}

/// Rewrites a membership record for a ban, synthesizing a bare ban record
/// when the user has none yet.
pub fn ban_member(
    member_record: Option<MemberContent>,
    blurhash: Option<String>,
    reason: Option<String>,
) -> (r: MemberContent)
    ensures
        match member_record {
            Some(record) => r == spec_ban(record, blurhash, reason),
            None => r == spec_synthesized_ban(blurhash, reason),
        },
{
    match member_record {
        Some(record) => record.banned(blurhash, reason),
        None => MemberContent::synthesized_ban(blurhash, reason),
    }
}

/// Rewrites a membership record for an unban; a user without a record is not
/// banned.
pub fn unban_member(member_record: Option<MemberContent>, reason: Option<String>) -> (r: Result<
    MemberContent,
    EngineError,
>)
    ensures
        match r {
            Ok(c) => member_record is Some && c == spec_unban(member_record.unwrap(), reason),
            Err(e) => member_record is None && e == EngineError::BadState,
        },
{
    match member_record {
        Some(record) => Ok(record.unbanned(reason)),
        None => Err(EngineError::BadState),
    }
}

/// The servers worth asking about a room, read off the senders of the stored
/// invite events: each well-formed sender contributes its server, first
/// occurrence first, without duplicates.
pub open spec fn spec_sender_servers(senders: Seq<Seq<char>>) -> Seq<Seq<char>>
    decreases senders.len(),
{
    if senders.len() == 0 {
        Seq::empty()
    } else {
        let rest = spec_sender_servers(senders.drop_last());
        match crypto::user_server_of(senders.last()) {
            Some(s) => if rest.contains(s) {
                rest
            } else {
                rest.push(s)
            },
            None => rest,
        }
    }
}

/// Collects the candidate servers out of a list of invite senders.
pub fn candidate_servers_from_senders(senders: &Vec<String>) -> (r: Vec<String>)
    ensures
        crate::util::seq_views(r@) == spec_sender_servers(crate::util::seq_views(senders@)),
{
    let ghost all = crate::util::seq_views(senders@);
    let mut out: Vec<String> = Vec::new();
    let n = senders.len();
    proof {
        assert(crate::util::seq_views(out@) =~= spec_sender_servers(all.take(0)));
    }
    let mut i: usize = 0;
    while i < n
        invariant
            n == senders@.len(),
            all == crate::util::seq_views(senders@),
            all.len() == n,
            i <= n,
            crate::util::seq_views(out@) =~= spec_sender_servers(all.take(i as int)),
        decreases n - i,
    {
        proof {
            assert(all.take(i + 1).drop_last() =~= all.take(i as int));
            assert(all.take(i + 1).last() == all[i as int]);
            assert(all[i as int] == senders@[i as int]@);
        }
        match crypto::user_server(senders[i].as_str()) {
            Some(server) => {
                let mut seen = false;
                let m = out.len();
                let ghost out_views = crate::util::seq_views(out@);
                let mut k: usize = 0;
                while k < m
                    invariant
                        m == out@.len(),
                        k <= m,
                        out_views == crate::util::seq_views(out@),
                        out_views.len() == m,
                        seen <==> exists|t: int| 0 <= t < k && #[trigger] out_views[t] == server@,
                    decreases m - k,
                {
                    if crate::util::str_eq(out[k].as_str(), server.as_str()) {
                        proof {
                            assert(out_views[k as int] == server@);
                        }
                        seen = true;
                    }
                    k = k + 1;
                }
                proof {
                    assert(seen == out_views.contains(server@));
                }
                if !seen {
                    let ghost prev = crate::util::seq_views(out@);
                    out.push(server);
                    proof {
                        assert(crate::util::seq_views(out@) =~= prev.push(out@.last()@));
                    }
                }
            },
            None => {},
        }
        i = i + 1;
    }
    proof {
        assert(all.take(n as int) =~= all);
    }
    out
}


/// The candidate servers for a remote leave, read off the stored invite: a
/// user without an invite record has no server to negotiate the leave with.
pub fn remote_leave_candidates(invite_senders: Option<Vec<String>>) -> (r: Result<
    Vec<String>,
    EngineError,
>)
    ensures
        match r {
            Ok(servers) => (invite_senders matches Some(s) && crate::util::seq_views(servers@)
                == spec_sender_servers(crate::util::seq_views(s@))),
            Err(e) => invite_senders is None && e == EngineError::BadState,
        },
{
    match invite_senders {
        Some(senders) => Ok(candidate_servers_from_senders(&senders)),
        None => Err(EngineError::BadState),
    }
}

/// The candidate-server list a join request works through: the request's own
/// hints first, then the room's stored routing servers — or, where none are
/// stored, the servers of the stored invite senders — and the room's own
/// server last.  The order is a probing policy, not a correctness
/// requirement.
pub fn route_candidate_servers(
    hints: &Vec<String>,
    via_servers: Option<&Vec<String>>,
    invite_senders: &Vec<String>,
    room_server: Option<&String>,
) -> (r: Vec<String>)
    ensures
        crate::util::seq_views(r@) == crate::util::seq_views(hints@) + (match via_servers {
            Some(v) => crate::util::seq_views(v@),
            None => spec_sender_servers(crate::util::seq_views(invite_senders@)),
        }) + (match room_server {
            Some(s) => seq![s@],
            None => Seq::empty(),
        }),
{
    let mut servers: Vec<String> = Vec::new();
    proof {
        assert(crate::util::seq_views(servers@) =~= Seq::<Seq<char>>::empty());
    }
    crate::util::extend_strings(&mut servers, hints);
    match via_servers {
        Some(vias) => {
            crate::util::extend_strings(&mut servers, vias);
        },
        None => {
            let derived = candidate_servers_from_senders(invite_senders);
            crate::util::extend_strings(&mut servers, &derived);
        },
    }
    match room_server {
        Some(s) => {
            let ghost prev = crate::util::seq_views(servers@);
            servers.push(String::from_str(s.as_str()));
            proof {
                assert(crate::util::seq_views(servers@) =~= prev.push(servers@.last()@));
            }
        },
        None => {
            proof {
                assert(crate::util::seq_views(servers@) =~= crate::util::seq_views(servers@)
                    + Seq::<Seq<char>>::empty());
            }
        },
    }
    servers
}

/// The room ids that a restricted join rule admits members of: the `allow`
/// entries of kind `m.room_membership`, in order.
pub open spec fn spec_allow_rooms(elems: Seq<crate::json::JsonAbs>) -> Seq<Seq<char>>
    decreases elems.len(),
{
    if elems.len() == 0 {
        Seq::empty()
    } else {
        let rest = spec_allow_rooms(elems.drop_last());
        match elems.last() {
            crate::json::JsonAbs::Obj(o) => if o.contains_key("type"@) && o["type"@]
                == crate::json::JsonAbs::Str("m.room_membership"@) && o.contains_key("room_id"@)
                && o["room_id"@] is Str {
                rest.push(crate::json::json_str(o["room_id"@]))
            } else {
                rest
            },
            _ => rest,
        }
    }
}

/// The restriction rooms a join-rules content names: nothing unless the rule
/// is `restricted` or `knock_restricted` with an `allow` array.
pub open spec fn spec_restriction_rooms(m: Map<Seq<char>, crate::json::JsonAbs>) -> Seq<Seq<char>> {
    if (crate::json::str_field(m, "join_rule"@) == Some("restricted"@) || crate::json::str_field(
        m,
        "join_rule"@,
    ) == Some("knock_restricted"@)) && m.contains_key("allow"@) && m["allow"@] is Arr {
        spec_allow_rooms(m["allow"@]->Arr_0)
    } else {
        Seq::empty()
    }
}

/// Reads the restriction rooms out of a room's join-rules content.  A room
/// without a join-rules event restricts nothing; a join-rules content that is
/// not canonical JSON is a storage corruption.
pub fn restriction_rooms(join_rules_raw: Option<&String>) -> (r: Result<Vec<String>, EngineError>)
    ensures
        match r {
            Ok(rooms) => match join_rules_raw {
                None => crate::util::seq_views(rooms@) == Seq::<Seq<char>>::empty(),
                Some(raw) => crate::json::parsed_json_of(raw@) matches Some(m)
                    && crate::util::seq_views(rooms@) == spec_restriction_rooms(m),
            },
            Err(e) => e == EngineError::BadDatabase && (join_rules_raw matches Some(raw)
                && crate::json::parsed_json_of(raw@) is None),
        },
{
    let raw = match join_rules_raw {
        None => {
            let empty: Vec<String> = Vec::new();
            proof {
                assert(crate::util::seq_views(empty@) =~= Seq::<Seq<char>>::empty());
            }
            return Ok(empty);
        },
        Some(raw) => raw,
    };
    let doc = match crate::json::CanonicalDoc::parse(raw.as_str()) {
        Some(d) => d,
        None => {
            return Err(EngineError::BadDatabase);
        },
    };
    let mut rooms: Vec<String> = Vec::new();
    proof {
        reveal_strlit("restricted");
        reveal_strlit("knock_restricted");
        assert(crate::util::seq_views(rooms@) =~= Seq::<Seq<char>>::empty());
    }
    let restricted = match doc.get_str("join_rule") {
        Some(rule) => crate::util::str_eq(rule.as_str(), "restricted") || crate::util::str_eq(
            rule.as_str(),
            "knock_restricted",
        ),
        None => false,
    };
    if !restricted {
        return Ok(rooms);
    }
    let elems = match doc.get_array("allow") {
        Some(e) => e,
        None => {
            return Ok(rooms);
        },
    };
    let ghost elems_m = elems@.map_values(|x: ruma::CanonicalJsonValue| crate::json::json_model(x));
    let n = elems.len();
    let mut i: usize = 0;
    while i < n
        invariant
            n == elems@.len(),
            elems_m == elems@.map_values(
                |x: ruma::CanonicalJsonValue| crate::json::json_model(x),
            ),
            elems_m.len() == n,
            i <= n,
            crate::util::seq_views(rooms@) =~= spec_allow_rooms(elems_m.take(i as int)),
        decreases n - i,
    {
        proof {
            assert(elems_m.take(i + 1).drop_last() =~= elems_m.take(i as int));
            assert(elems_m.take(i + 1).last() == elems_m[i as int]);
            assert(elems_m[i as int] == crate::json::json_model(elems@[i as int]));
        }
        match crate::json::CanonicalDoc::value_as_doc(&elems[i]) {
            Some(entry) => {
                let is_membership = match entry.get_str("type") {
                    Some(t) => crate::util::str_eq(t.as_str(), "m.room_membership"),
                    None => false,
                };
                if is_membership {
                    match entry.get_str("room_id") {
                        Some(room_id) => {
                            let ghost prev = crate::util::seq_views(rooms@);
                            rooms.push(room_id);
                            proof {
                                assert(crate::util::seq_views(rooms@) =~= prev.push(
                                    rooms@.last()@,
                                ));
                            }
                        },
                        None => {},
                    }
                }
            },
            None => {},
        }
        i = i + 1;
    }
    proof {
        assert(elems_m.take(n as int) =~= elems_m);
    }
    Ok(rooms)
}

/// Whether any candidate server is not the local one.
pub fn any_remote_server(servers: &Vec<String>, local_server: &str) -> (r: bool)
    ensures
        r == exists|i: int|
            0 <= i < servers@.len() && crate::util::seq_views(servers@)[i] != local_server@,
{
    let n = servers.len();
    let mut i: usize = 0;
    while i < n
        invariant
            n == servers@.len(),
            i <= n,
            forall|j: int| 0 <= j < i ==> crate::util::seq_views(servers@)[j] == local_server@,
        decreases n - i,
    {
        if !crate::util::str_eq(servers[i].as_str(), local_server) {
            proof {
                assert(crate::util::seq_views(servers@)[i as int] != local_server@);
            }
            return true;
        }
        proof {
            assert(crate::util::seq_views(servers@)[i as int] == local_server@);
        }
        i = i + 1;
    }
    false
}

/// The first member that may issue the authorizing invite.
pub open spec fn spec_first_inviter(flags: Seq<bool>, from: int) -> Option<int>
    decreases flags.len() - from,
{
    if from < 0 || from >= flags.len() {
        None
    } else if flags[from] {
        Some(from)
    } else {
        spec_first_inviter(flags, from + 1)
    }
}

/// Picks the local user whose server will authorize a restricted join: the
/// first local member with the power to invite, and only when the joining
/// user already satisfies one of the restriction rooms.  `can_invite[i]` says
/// whether `local_members[i]` may invite the joining user.
pub fn pick_authorized_user(
    restriction_satisfied: bool,
    local_members: &Vec<String>,
    can_invite: &Vec<bool>,
) -> (r: Option<String>)
    requires
        local_members@.len() == can_invite@.len(),
    ensures
        !restriction_satisfied ==> r is None,
        restriction_satisfied ==> match spec_first_inviter(can_invite@, 0) {
            Some(j) => (r matches Some(u) && u@ == crate::util::seq_views(local_members@)[j]),
            None => r is None,
        },
{
    if !restriction_satisfied {
        return None;
    }
    let n = local_members.len();
    let mut i: usize = 0;
    while i < n
        invariant
            restriction_satisfied,
            n == local_members@.len(),
            n == can_invite@.len(),
            i <= n,
            spec_first_inviter(can_invite@, 0) == spec_first_inviter(can_invite@, i as int),
        decreases n - i,
    {
        if can_invite[i] {
            let user = String::from_str(local_members[i].as_str());
            proof {
                assert(crate::util::seq_views(local_members@)[i as int]
                    == local_members@[i as int]@);
            }
            return Some(user);
        }
        i = i + 1;
    }
    None
}

/// What follows a local join attempt.
#[derive(Clone, Copy, Debug, PartialEq, Eq, Structural)]
pub enum LocalJoinNext {
    /// The local append went through: the join is done.
    Done,
    /// The local append was rejected, the room gates joins on other rooms'
    /// membership, and a remote server can be asked: fall back to one
    /// remote-assisted negotiation.
    RemoteAssist,
    /// Nothing else applies: surface the local rejection unchanged.
    SurfaceError,
}

/// The fallback rule after a local join attempt.
pub open spec fn spec_local_join_next(
    append_ok: bool,
    has_restriction_rooms: bool,
    any_remote_candidate: bool,
) -> LocalJoinNext {
    if append_ok {
        LocalJoinNext::Done
    } else if has_restriction_rooms && any_remote_candidate {
        LocalJoinNext::RemoteAssist
    } else {
        LocalJoinNext::SurfaceError
    }
}

/// Decides what follows a local join attempt: success ends the join without
/// any network call; a rejected join in a restriction-gated room with a
/// remote candidate triggers the one remote-assisted negotiation; anything
/// else surfaces the rejection unchanged.
pub fn local_join_followup(
    append_ok: bool,
    has_restriction_rooms: bool,
    any_remote_candidate: bool,
) -> (r: LocalJoinNext)
    ensures
        r == spec_local_join_next(append_ok, has_restriction_rooms, any_remote_candidate),
{
    if append_ok {
        LocalJoinNext::Done
    } else if has_restriction_rooms && any_remote_candidate {
        LocalJoinNext::RemoteAssist
    } else {
        LocalJoinNext::SurfaceError
    }
}

/// The restricted-join fallback rule: a join whose local append succeeds is
/// done, with no remote negotiation; one that fails in a restriction-gated
/// room with at least one remote candidate triggers exactly the one
/// remote-assisted negotiation; and without restriction rooms or without a
/// remote candidate the local rejection is surfaced unchanged.
pub proof fn lemma_restricted_join_fallback(
    has_restriction_rooms: bool,
    any_remote_candidate: bool,
)
    ensures
        spec_local_join_next(true, has_restriction_rooms, any_remote_candidate)
            == LocalJoinNext::Done,
        spec_local_join_next(false, true, true) == LocalJoinNext::RemoteAssist,
        !has_restriction_rooms || !any_remote_candidate ==> spec_local_join_next(
            false,
            has_restriction_rooms,
            any_remote_candidate,
        ) == LocalJoinNext::SurfaceError,
{
}


/// The authorizing user a `prepare_join` stub names, when it names a
/// well-formed one.
pub open spec fn spec_jav_of(stub: Map<Seq<char>, JsonAbs>) -> Option<Seq<char>> {
    if stub.contains_key("content"@) && stub["content"@] is Obj {
        match str_field(stub["content"@]->Obj_0, "join_authorised_via_users_server"@) {
            Some(u) => if crypto::user_server_of(u) is Some {
                Some(u)
            } else {
                None
            },
            None => None,
        }
    } else {
        None
    }
}

/// Reads the authorizing user out of a join draft.
fn jav_of_stub(stub: &CanonicalDoc) -> (r: Option<String>)
    ensures
        opt_view(r) == spec_jav_of(doc_model(*stub)),
{
    match stub.get_doc("content") {
        Some(content) => match content.get_str("join_authorised_via_users_server") {
            Some(u) => {
                if crypto::user_server(u.as_str()).is_some() {
                    Some(u)
                } else {
                    None
                }
            },
            None => None,
        },
        None => None,
    }
}

/// The membership content a remote join overlays onto the draft.
pub open spec fn spec_join_content(
    displayname: Option<Seq<char>>,
    avatar_url: Option<Seq<char>>,
    blurhash: Option<Seq<char>>,
    reason: Option<Seq<char>>,
    jav: Option<Seq<char>>,
) -> MemberView {
    MemberView {
        membership: Membership::Join,
        displayname,
        avatar_url,
        is_direct: None,
        blurhash,
        reason,
        join_authorized_via_users_server: jav,
    }
}

/// A negotiated event, signed and ready to send.
pub struct PreparedRemoteEvent {
    pub ver: RoomVersion,
    pub event: SignedEvent,
    pub join_authorized: Option<String>,
}

/// Builds the signed join event out of a remote server's `prepare_join`
/// answer: the room version must be supported, the draft must be canonical
/// JSON, the joiner's profile and the draft's authorizing user become the
/// content, and the whole is stamped, signed and given its derived id.
pub fn prepare_remote_join(
    version_str: &str,
    stub_raw: &str,
    displayname: Option<String>,
    avatar_url: Option<String>,
    blurhash: Option<String>,
    reason: Option<String>,
    origin: &str,
    now_ms: u64,
    key: &ServerSigningKey,
) -> (r: Result<PreparedRemoteEvent, EngineError>)
    requires
        now_ms <= crate::signer::MAX_CANONICAL_INT,
    ensures
        match r {
            Ok(p) => RoomVersion::spec_parse(version_str@) == Some(p.ver) && (parsed_json_of(
                stub_raw@,
            ) matches Some(stub_m) && {
                let content_m = crate::member::member_content_model(
                    spec_join_content(
                        opt_view(displayname),
                        opt_view(avatar_url),
                        opt_view(blurhash),
                        opt_view(reason),
                        spec_jav_of(stub_m),
                    ),
                    p.ver,
                );
                &&& opt_view(p.join_authorized) == spec_jav_of(stub_m)
                &&& crate::signer::build_ok(stub_m, origin@, now_ms, Some(content_m), *key, p.ver)
                &&& p.event.event_id@ == crate::signer::derived_event_id(
                    stub_m,
                    origin@,
                    now_ms,
                    Some(content_m),
                    *key,
                    p.ver,
                )
                &&& doc_model(p.event.doc) == crate::signer::final_event_model(
                    stub_m,
                    origin@,
                    now_ms,
                    Some(content_m),
                    *key,
                    p.ver,
                )
            }),
            Err(e) => if RoomVersion::spec_parse(version_str@) is None {
                e == EngineError::UnsupportedRoomVersion
            } else if parsed_json_of(stub_raw@) is None {
                e == EngineError::BadServerResponse
            } else {
                let ver = RoomVersion::spec_parse(version_str@).unwrap();
                let stub_m = parsed_json_of(stub_raw@).unwrap();
                let content_m = crate::member::member_content_model(
                    spec_join_content(
                        opt_view(displayname),
                        opt_view(avatar_url),
                        opt_view(blurhash),
                        opt_view(reason),
                        spec_jav_of(stub_m),
                    ),
                    ver,
                );
                e == EngineError::InternalInvariant && !crate::signer::build_ok(
                    stub_m,
                    origin@,
                    now_ms,
                    Some(content_m),
                    *key,
                    ver,
                )
            },
        },
{
    let ver = match RoomVersion::parse(version_str) {
        Some(v) => v,
        None => {
            return Err(EngineError::UnsupportedRoomVersion);
        },
    };
    let stub = match CanonicalDoc::parse(stub_raw) {
        Some(d) => d,
        None => {
            return Err(EngineError::BadServerResponse);
        },
    };
    let join_authorized = jav_of_stub(&stub);
    let content = MemberContent {
        membership: Membership::Join,
        displayname,
        avatar_url,
        is_direct: None,
        blurhash,
        reason,
        join_authorized_via_users_server: match &join_authorized {
            Some(u) => Some(String::from_str(u.as_str())),
            None => None,
        },
    };
    let content_doc = crate::member::member_content_doc(&content, ver);
    let event = match build_signed_event(&stub, Some(&content_doc), origin, now_ms, key, ver) {
        Ok(se) => se,
        Err(e) => {
            return Err(e);
        },
    };
    Ok(PreparedRemoteEvent { ver, event, join_authorized })
}

/// Builds the signed leave event out of a remote server's `prepare_leave`
/// answer: the draft's own content is kept; only origin, timestamp and the
/// event id treatment are applied before signing.
pub fn prepare_remote_leave(
    version_str: &str,
    stub_raw: &str,
    origin: &str,
    now_ms: u64,
    key: &ServerSigningKey,
) -> (r: Result<PreparedRemoteEvent, EngineError>)
    requires
        now_ms <= crate::signer::MAX_CANONICAL_INT,
    ensures
        match r {
            Ok(p) => RoomVersion::spec_parse(version_str@) == Some(p.ver) && p.join_authorized
                is None && (parsed_json_of(stub_raw@) matches Some(stub_m) && {
                &&& crate::signer::build_ok(stub_m, origin@, now_ms, None, *key, p.ver)
                &&& p.event.event_id@ == crate::signer::derived_event_id(
                    stub_m,
                    origin@,
                    now_ms,
                    None,
                    *key,
                    p.ver,
                )
                &&& doc_model(p.event.doc) == crate::signer::final_event_model(
                    stub_m,
                    origin@,
                    now_ms,
                    None,
                    *key,
                    p.ver,
                )
            }),
            Err(e) => if RoomVersion::spec_parse(version_str@) is None {
                e == EngineError::UnsupportedRoomVersion
            } else if parsed_json_of(stub_raw@) is None {
                e == EngineError::BadServerResponse
            } else {
                e == EngineError::InternalInvariant && !crate::signer::build_ok(
                    parsed_json_of(stub_raw@).unwrap(),
                    origin@,
                    now_ms,
                    None,
                    *key,
                    RoomVersion::spec_parse(version_str@).unwrap(),
                )
            },
        },
{
    let ver = match RoomVersion::parse(version_str) {
        Some(v) => v,
        None => {
            return Err(EngineError::UnsupportedRoomVersion);
        },
    };
    let stub = match CanonicalDoc::parse(stub_raw) {
        Some(d) => d,
        None => {
            return Err(EngineError::BadServerResponse);
        },
    };
    let event = match build_signed_event(&stub, None, origin, now_ms, key, ver) {
        Ok(se) => se,
        Err(e) => {
            return Err(e);
        },
    };
    Ok(PreparedRemoteEvent { ver, event, join_authorized: None })
}

/// What merging the remote signature of a `send_join` answer does to our
/// event: when both sides carry a `signatures` object and the remote one has
/// an entry for the answering server, that entry is copied in; anything else
/// leaves our event as it was.
pub open spec fn spec_merge_signature(
    ours: Map<Seq<char>, JsonAbs>,
    server: Seq<char>,
    remote: Map<Seq<char>, JsonAbs>,
) -> Map<Seq<char>, JsonAbs> {
    if !(ours.contains_key("signatures"@) && ours["signatures"@] is Obj) {
        ours
    } else if !(remote.contains_key("signatures"@) && remote["signatures"@] is Obj) {
        ours
    } else {
        let rs = remote["signatures"@]->Obj_0;
        if !rs.contains_key(server) {
            ours
        } else {
            let os = ours["signatures"@]->Obj_0;
            ours.insert("signatures"@, JsonAbs::Obj(os.insert(server, rs[server])))
        }
    }
}

/// Handles the signed-back event of a restricted join: the answering server
/// must answer under the identical derived event id — a different id is a
/// protocol violation — and only its signature is taken from the answer, not
/// the answer's body.  An answer without a usable signature entry is ignored.
pub fn merge_restricted_join_signature(
    event: SignedEvent,
    ver: RoomVersion,
    remote_server: &str,
    signed_raw: &str,
) -> (r: Result<SignedEvent, EngineError>)
    ensures
        match r {
            Ok(se) => (parsed_json_of(signed_raw@) matches Some(rm) && crypto::event_id_ok(
                rm,
                ver.spec_as_str(),
            ) && seq!['$'] + crypto::event_id_hash_of(rm, ver.spec_as_str()) == event.event_id@
                && se.event_id@ == event.event_id@ && doc_model(se.doc) == spec_merge_signature(
                doc_model(event.doc),
                remote_server@,
                rm,
            )),
            Err(e) => if parsed_json_of(signed_raw@) is None {
                e == EngineError::BadCanonicalJson
            } else if !crypto::event_id_ok(parsed_json_of(signed_raw@).unwrap(), ver.spec_as_str()) {
                e == EngineError::BadCanonicalJson
            } else {
                e == EngineError::EventIdMismatch && seq!['$'] + crypto::event_id_hash_of(
                    parsed_json_of(signed_raw@).unwrap(),
                    ver.spec_as_str(),
                ) != event.event_id@
            },
        },
{
    let remote_doc = match CanonicalDoc::parse(signed_raw) {
        Some(d) => d,
        None => {
            return Err(EngineError::BadCanonicalJson);
        },
    };
    let remote_id = match crypto::derive_event_id(&remote_doc, ver.as_str()) {
        Some(id) => id,
        None => {
            return Err(EngineError::BadCanonicalJson);
        },
    };
    if !crate::util::str_eq(remote_id.as_str(), event.event_id.as_str()) {
        return Err(EngineError::EventIdMismatch);
    }
    let our_sigs = match event.doc.get_doc("signatures") {
        Some(s) => s,
        None => {
            return Ok(event);
        },
    };
    let remote_sigs = match remote_doc.get_doc("signatures") {
        Some(s) => s,
        None => {
            return Ok(event);
        },
    };
    let sig = match remote_sigs.get_value(remote_server) {
        Some(v) => v,
        None => {
            return Ok(event);
        },
    };
    let mut merged_sigs = our_sigs;
    merged_sigs.insert_value(remote_server, sig);
    let mut doc = event.doc;
    doc.insert_doc("signatures", &merged_sigs);
    Ok(SignedEvent { doc, event_id: event.event_id })
}

/// Inviting is blocked for non-admin targets when the server forbids
/// non-admin invites.
pub fn invite_policy_check(target_is_admin: bool, block_non_admin_invites: bool) -> (r: Result<
    (),
    EngineError,
>)
    ensures
        r is Err <==> !target_is_admin && block_non_admin_invites,
        r matches Err(e) ==> e == EngineError::InvitesBlocked,
{
    if !target_is_admin && block_non_admin_invites {
        Err(EngineError::InvitesBlocked)
    } else {
        Ok(())
    }
}

/// A local invite needs the sender inside the room.
pub fn local_invite_check(sender_joined: bool) -> (r: Result<(), EngineError>)
    ensures
        r is Err <==> !sender_joined,
        r matches Err(e) ==> e == EngineError::Forbidden,
{
    if sender_joined {
        Ok(())
    } else {
        Err(EngineError::Forbidden)
    }
}

/// A remote server's answer to `create_invite`: the event of record with its
/// derived id and claimed origin.  The answer, not the local draft, is what
/// the incoming-event path admits; its signature may differ from the draft's,
/// its derived event id may not.
pub struct InviteAnswer {
    pub event_id: String,
    pub doc: CanonicalDoc,
    pub origin: String,
}

/// Checks the signed-back invite event.  Its derived event id is computed
/// afresh — the remote's own claim is never trusted — and must equal the
/// local draft's id: an answer under any other id is a protocol violation.
/// The `origin` must be present; the document itself is handed on unchanged
/// for the generic incoming-event admission.
pub fn invite_response_check(our_event_id: &str, response_raw: &str, ver: RoomVersion) -> (r:
    Result<InviteAnswer, EngineError>)
    ensures
        r is Ok <==> (parsed_json_of(response_raw@) matches Some(m) && crypto::event_id_ok(
            m,
            ver.spec_as_str(),
        ) && seq!['$'] + crypto::event_id_hash_of(m, ver.spec_as_str()) == our_event_id@
            && str_field(m, "origin"@) is Some),
        match r {
            Ok(a) => (parsed_json_of(response_raw@) matches Some(m) && a.event_id@ == seq!['$']
                + crypto::event_id_hash_of(m, ver.spec_as_str()) && a.event_id@ == our_event_id@
                && doc_model(a.doc) == m && str_field(m, "origin"@) == Some(a.origin@)),
            Err(e) => if parsed_json_of(response_raw@) is None {
                e == EngineError::BadCanonicalJson
            } else if !crypto::event_id_ok(parsed_json_of(response_raw@).unwrap(), ver.spec_as_str()) {
                e == EngineError::BadCanonicalJson
            } else if seq!['$'] + crypto::event_id_hash_of(
                parsed_json_of(response_raw@).unwrap(),
                ver.spec_as_str(),
            ) != our_event_id@ {
                e == EngineError::EventIdMismatch
            } else {
                e == EngineError::InvalidParam && str_field(
                    parsed_json_of(response_raw@).unwrap(),
                    "origin"@,
                ) is None
            },
        },
{
    let doc = match CanonicalDoc::parse(response_raw) {
        Some(d) => d,
        None => {
            return Err(EngineError::BadCanonicalJson);
        },
    };
    let event_id = match crypto::derive_event_id(&doc, ver.as_str()) {
        Some(id) => id,
        None => {
            return Err(EngineError::BadCanonicalJson);
        },
    };
    if !crate::util::str_eq(event_id.as_str(), our_event_id) {
        return Err(EngineError::EventIdMismatch);
    }
    let origin = match doc.get_str("origin") {
        Some(o) => o,
        None => {
            return Err(EngineError::InvalidParam);
        },
    };
    Ok(InviteAnswer { event_id, doc, origin })
}


/// Everything an inbound federation invite is judged against, as read from
/// configuration and storage.
#[derive(Clone, Copy, Debug)]
pub struct InboundInvitePolicy {
    /// The inviting server passes the room's server ACL.
    pub origin_acl_ok: bool,
    /// The room's own server is on the forbidden list.
    pub room_server_forbidden: bool,
    /// The inviting server is on the forbidden list.
    pub origin_forbidden: bool,
    /// The invited user's server passes the room's server ACL.
    pub invited_acl_ok: bool,
    /// The room is banned on this server.
    pub room_banned: bool,
    /// The invited user is an admin here.
    pub invited_is_admin: bool,
    /// This server blocks invites for non-admins.
    pub block_non_admin_invites: bool,
    /// This server already participates in the room (the join will come over
    /// the normal event stream, so no membership write is needed here).
    pub server_in_room: bool,
}

/// When an inbound invite is accepted: every gate passes, in particular the
/// event parses, its `state_key` names a user of this server, the
/// countersignature and the derived event id exist, and a `sender` is named.
pub open spec fn spec_inbound_invite_accepted(
    version_str: Seq<char>,
    event: Option<Map<Seq<char>, JsonAbs>>,
    via_empty: Option<bool>,
    our_server: Seq<char>,
    policy: InboundInvitePolicy,
    key: ServerSigningKey,
) -> bool {
    &&& policy.origin_acl_ok
    &&& RoomVersion::spec_parse(version_str) is Some
    &&& !policy.room_server_forbidden
    &&& !policy.origin_forbidden
    &&& via_empty != Some(true)
    &&& event matches Some(m) && {
        let ver = RoomVersion::spec_parse(version_str).unwrap();
        let signed = crypto::signed_event_of(
            our_server,
            key.der@,
            key.version@,
            m,
            ver.spec_as_str(),
        );
        &&& (str_field(m, "state_key"@) matches Some(u) && crypto::user_server_of(u) == Some(
            our_server,
        ))
        &&& policy.invited_acl_ok
        &&& crypto::sign_ok(our_server, key.der@, key.version@, m, ver.spec_as_str())
        &&& crypto::event_id_ok(signed, ver.spec_as_str())
        &&& str_field(m, "sender"@) is Some
        &&& !(policy.room_banned && !policy.invited_is_admin)
        &&& !(policy.block_non_admin_invites && !policy.invited_is_admin)
    }
}

/// An accepted inbound invite: the countersigned event to answer with, the
/// invited user's membership write if one is due, and the parties involved.
pub struct InboundInvite {
    pub response_doc: CanonicalDoc,
    pub event_id: String,
    pub invited_user: String,
    pub sender: String,
    /// Whether to record the invite into local membership state.
    pub update_membership: bool,
}

/// Judges and countersigns an inbound federation invite.  The checks run in
/// a fixed order: the inviting server's ACL, the room version, the two ban
/// lists, a non-empty routing list, a parseable event whose `state_key` names
/// a user of this server, the invited server's ACL, the countersignature,
/// the event's `sender`, the room ban and the invite policy.
pub fn inbound_invite_check(
    version_str: &str,
    event_raw: &str,
    via_empty: Option<bool>,
    our_server: &str,
    policy: &InboundInvitePolicy,
    key: &ServerSigningKey,
) -> (r: Result<InboundInvite, EngineError>)
    ensures
        r is Ok <==> spec_inbound_invite_accepted(
            version_str@,
            parsed_json_of(event_raw@),
            via_empty,
            our_server@,
            *policy,
            *key,
        ),
        ({
            let ver_opt = RoomVersion::spec_parse(version_str@);
            let parsed = parsed_json_of(event_raw@);
            match r {
                Ok(a) => (parsed matches Some(m) && {
                    let ver = ver_opt.unwrap();
                    let signed = crypto::signed_event_of(
                        our_server@,
                        key.der@,
                        key.version@,
                        m,
                        ver.spec_as_str(),
                    );
                    &&& str_field(m, "state_key"@) == Some(a.invited_user@)
                    &&& crypto::user_server_of(a.invited_user@) == Some(our_server@)
                    &&& a.event_id@ == seq!['$'] + crypto::event_id_hash_of(
                        signed,
                        ver.spec_as_str(),
                    )
                    &&& doc_model(a.response_doc) == signed.insert(
                        "event_id"@,
                        JsonAbs::Str(a.event_id@),
                    )
                    &&& str_field(m, "sender"@) == Some(a.sender@)
                    &&& a.update_membership == !policy.server_in_room
                }),
                Err(e) => if !policy.origin_acl_ok {
                    e == EngineError::Forbidden
                } else if ver_opt is None {
                    e == EngineError::UnsupportedRoomVersion
                } else if policy.room_server_forbidden || policy.origin_forbidden {
                    e == EngineError::BannedServer
                } else if via_empty == Some(true) {
                    e == EngineError::InvalidParam
                } else if parsed is None {
                    e == EngineError::InvalidParam
                } else {
                    let m = parsed.unwrap();
                    let ver = ver_opt.unwrap();
                    let signed = crypto::signed_event_of(
                        our_server@,
                        key.der@,
                        key.version@,
                        m,
                        ver.spec_as_str(),
                    );
                    if !(str_field(m, "state_key"@) matches Some(u) && crypto::user_server_of(u)
                        == Some(our_server@)) {
                        e == EngineError::InvalidParam
                    } else if !policy.invited_acl_ok {
                        e == EngineError::Forbidden
                    } else if !(crypto::sign_ok(
                        our_server@,
                        key.der@,
                        key.version@,
                        m,
                        ver.spec_as_str(),
                    ) && crypto::event_id_ok(signed, ver.spec_as_str())) {
                        e == EngineError::InvalidParam
                    } else if str_field(m, "sender"@) is None {
                        e == EngineError::InvalidParam
                    } else if policy.room_banned && !policy.invited_is_admin {
                        e == EngineError::BannedRoom
                    } else {
                        e == EngineError::InvitesBlocked && policy.block_non_admin_invites
                            && !policy.invited_is_admin
                    }
                },
            }
        }),
{
    if !policy.origin_acl_ok {
        return Err(EngineError::Forbidden);
    }
    let ver = match RoomVersion::parse(version_str) {
        Some(v) => v,
        None => {
            return Err(EngineError::UnsupportedRoomVersion);
        },
    };
    if policy.room_server_forbidden || policy.origin_forbidden {
        return Err(EngineError::BannedServer);
    }
    if let Some(true) = via_empty {
        return Err(EngineError::InvalidParam);
    }
    let event_doc = match CanonicalDoc::parse(event_raw) {
        Some(d) => d,
        None => {
            return Err(EngineError::InvalidParam);
        },
    };
    let invited_user = match event_doc.get_str("state_key") {
        Some(u) => u,
        None => {
            return Err(EngineError::InvalidParam);
        },
    };
    let invited_server = match crypto::user_server(invited_user.as_str()) {
        Some(s) => s,
        None => {
            return Err(EngineError::InvalidParam);
        },
    };
    if !crate::util::str_eq(invited_server.as_str(), our_server) {
        return Err(EngineError::InvalidParam);
    }
    if !policy.invited_acl_ok {
        return Err(EngineError::Forbidden);
    }
    let signed = match crypto::sign_doc(&event_doc, our_server, key, ver.as_str()) {
        Some(s) => s,
        None => {
            return Err(EngineError::InvalidParam);
        },
    };
    let event_id = match crypto::derive_event_id(&signed, ver.as_str()) {
        Some(id) => id,
        None => {
            return Err(EngineError::InvalidParam);
        },
    };
    let mut response_doc = signed;
    response_doc.insert_str("event_id", event_id.as_str());
    let sender = match event_doc.get_str("sender") {
        Some(s) => s,
        None => {
            return Err(EngineError::InvalidParam);
        },
    };
    if policy.room_banned && !policy.invited_is_admin {
        return Err(EngineError::BannedRoom);
    }
    if policy.block_non_admin_invites && !policy.invited_is_admin {
        return Err(EngineError::InvitesBlocked);
    }
    Ok(InboundInvite {
        response_doc,
        event_id,
        invited_user,
        sender,
        update_membership: !policy.server_in_room,
    })
}

} // verus!
