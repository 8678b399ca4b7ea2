//! Membership event content and its transitions.
//!
//! A membership record carries the member's state (`join`, `invite`, `leave`,
//! `ban`, `knock`) and a handful of optional profile fields.  Kick, ban,
//! unban and leave are pure rewrites of such a record; this module defines
//! them and the canonical-JSON form of the record.

use vstd::prelude::*;

use crate::json::{doc_model, CanonicalDoc, JsonAbs};
use crate::errors::EngineError;
use crate::room_version::RoomVersion;

verus! {

/// A member's state in a room.
#[derive(Clone, Copy, Debug, PartialEq, Eq, Structural)]
pub enum Membership {
    Join,
    Invite,
    Leave,
    Ban,
    Knock,
}

impl Membership {
    /// The wire name of this state.
    pub open spec fn spec_name(self) -> Seq<char> {
        match self {
            Membership::Join => "join"@,
            Membership::Invite => "invite"@,
            Membership::Leave => "leave"@,
            Membership::Ban => "ban"@,
            Membership::Knock => "knock"@,
        }
    }

    pub fn name(&self) -> (r: &'static str)
        ensures
            r@ == self.spec_name(),
    {
        match self {
            Membership::Join => "join",
            Membership::Invite => "invite",
            Membership::Leave => "leave",
            Membership::Ban => "ban",
            Membership::Knock => "knock",
        }
    }
}

/// The content of a membership event.
pub struct MemberContent {
    pub membership: Membership,
    pub displayname: Option<String>,
    pub avatar_url: Option<String>,
    pub is_direct: Option<bool>,
    pub blurhash: Option<String>,
    pub reason: Option<String>,
    pub join_authorized_via_users_server: Option<String>,
}

/// The optional string fields as sequences, for contracts.
pub open spec fn opt_view(o: Option<String>) -> Option<Seq<char>> {
    match o {
        Some(s) => Some(s@),
        None => None,
    }
}


/// The ghost shape of a membership record: every field by its view.
pub struct MemberView {
    pub membership: Membership,
    pub displayname: Option<Seq<char>>,
    pub avatar_url: Option<Seq<char>>,
    pub is_direct: Option<bool>,
    pub blurhash: Option<Seq<char>>,
    pub reason: Option<Seq<char>>,
    pub join_authorized_via_users_server: Option<Seq<char>>,
}

impl MemberContent {
    /// The record's ghost shape.
    pub open spec fn view(&self) -> MemberView {
        MemberView {
            membership: self.membership,
            displayname: opt_view(self.displayname),
            avatar_url: opt_view(self.avatar_url),
            is_direct: self.is_direct,
            blurhash: opt_view(self.blurhash),
            reason: opt_view(self.reason),
            join_authorized_via_users_server: opt_view(self.join_authorized_via_users_server),
        }
    }
}

/// The record a kick produces.
pub open spec fn spec_kick(c: MemberContent, reason: Option<String>) -> MemberContent {
    MemberContent { membership: Membership::Leave, reason, ..c }
}

/// The record a ban over an existing record produces.
pub open spec fn spec_ban(
    c: MemberContent,
    blurhash: Option<String>,
    reason: Option<String>,
) -> MemberContent {
    MemberContent {
        membership: Membership::Ban,
        displayname: None,
        avatar_url: None,
        blurhash,
        reason,
        join_authorized_via_users_server: None,
        ..c
    }
}

/// The record a leave produces.
pub open spec fn spec_leave(c: MemberContent, reason: Option<String>) -> MemberContent {
    MemberContent { membership: Membership::Leave, reason, ..c }
}

impl MemberContent {
    /// A bare record holding nothing but the membership state.
    pub fn new(membership: Membership) -> (r: MemberContent)
        ensures
            r.membership == membership,
            r.displayname is None,
            r.avatar_url is None,
            r.is_direct is None,
            r.blurhash is None,
            r.reason is None,
            r.join_authorized_via_users_server is None,
    {
        MemberContent {
            membership,
            displayname: None,
            avatar_url: None,
            is_direct: None,
            blurhash: None,
            reason: None,
            join_authorized_via_users_server: None,
        }
    }

    /// A kick: the record turns to `leave` with the kicker's reason; the
    /// member's profile fields stay.
    pub fn kicked(self, reason: Option<String>) -> (r: MemberContent)
        ensures
            r == spec_kick(self, reason),
            r.membership == Membership::Leave,
            opt_view(r.reason) == opt_view(reason),
            r.displayname == self.displayname,
            r.avatar_url == self.avatar_url,
            r.is_direct == self.is_direct,
            r.blurhash == self.blurhash,
            r.join_authorized_via_users_server == self.join_authorized_via_users_server,
    {
        MemberContent { membership: Membership::Leave, reason, ..self }
    }

    /// A ban over an existing record: profile naming fields are dropped, the
    /// blurhash is refreshed, and any restricted-join authorization is
    /// cleared.
    pub fn banned(self, blurhash: Option<String>, reason: Option<String>) -> (r: MemberContent)
        ensures
            r == spec_ban(self, blurhash, reason),
            r.membership == Membership::Ban,
            r.displayname is None,
            r.avatar_url is None,
            opt_view(r.blurhash) == opt_view(blurhash),
            opt_view(r.reason) == opt_view(reason),
            r.join_authorized_via_users_server is None,
            r.is_direct == self.is_direct,
    {
        MemberContent {
            membership: Membership::Ban,
            displayname: None,
            avatar_url: None,
            blurhash,
            reason,
            join_authorized_via_users_server: None,
            ..self
        }
    }

    /// The ban record synthesized when the user has no membership record yet.
    pub fn synthesized_ban(blurhash: Option<String>, reason: Option<String>) -> (r: MemberContent)
        ensures
            r == spec_synthesized_ban(blurhash, reason),
            r.membership == Membership::Ban,
            r.displayname is None,
            r.avatar_url is None,
            r.is_direct is None,
            opt_view(r.blurhash) == opt_view(blurhash),
            opt_view(r.reason) == opt_view(reason),
            r.join_authorized_via_users_server is None,
    {
        MemberContent {
            membership: Membership::Ban,
            displayname: None,
            avatar_url: None,
            is_direct: None,
            blurhash,
            reason,
            join_authorized_via_users_server: None,
        }
    }

    /// An unban: the record turns to `leave` and the restricted-join
    /// authorization field is cleared.
    pub fn unbanned(self, reason: Option<String>) -> (r: MemberContent)
        ensures
            r == spec_unban(self, reason),
            r.membership == Membership::Leave,
            opt_view(r.reason) == opt_view(reason),
            r.join_authorized_via_users_server is None,
            r.displayname == self.displayname,
            r.avatar_url == self.avatar_url,
            r.is_direct == self.is_direct,
            r.blurhash == self.blurhash,
    {
        MemberContent {
            membership: Membership::Leave,
            reason,
            join_authorized_via_users_server: None,
            ..self
        }
    }

    /// A leave: the record turns to `leave` with the leaver's reason.
    pub fn left(self, reason: Option<String>) -> (r: MemberContent)
        ensures
            r == spec_leave(self, reason),
            r.membership == Membership::Leave,
            opt_view(r.reason) == opt_view(reason),
            r.displayname == self.displayname,
            r.avatar_url == self.avatar_url,
            r.is_direct == self.is_direct,
            r.blurhash == self.blurhash,
            r.join_authorized_via_users_server == self.join_authorized_via_users_server,
    {
        MemberContent { membership: Membership::Leave, reason, ..self }
    }
}

/// A ban followed at once by an unban of a user who had no record yields a
/// bare `leave` with no profile and no authorization fields set.
pub proof fn lemma_ban_then_unban_from_nothing(
    blurhash: Option<String>,
    ban_reason: Option<String>,
    unban_reason: Option<String>,
)
    ensures
        ({
            let banned = spec_synthesized_ban(blurhash, ban_reason);
            let unbanned = spec_unban(banned, unban_reason);
            &&& unbanned.membership == Membership::Leave
            &&& unbanned.join_authorized_via_users_server is None
            &&& unbanned.displayname is None
            &&& unbanned.avatar_url is None
            &&& unbanned.is_direct is None
        }),
{
}

/// The record `synthesized_ban` builds.
pub open spec fn spec_synthesized_ban(
    blurhash: Option<String>,
    reason: Option<String>,
) -> MemberContent {
    MemberContent {
        membership: Membership::Ban,
        displayname: None,
        avatar_url: None,
        is_direct: None,
        blurhash,
        reason,
        join_authorized_via_users_server: None,
    }
}

/// The record `unbanned` builds.
pub open spec fn spec_unban(c: MemberContent, reason: Option<String>) -> MemberContent {
    MemberContent {
        membership: Membership::Leave,
        reason,
        join_authorized_via_users_server: None,
        ..c
    }
}

/// The canonical-JSON contents of a membership record for a room version:
/// the membership name plus each optional field that is present, with the
/// restricted-join authorization kept only where the version knows it.
pub open spec fn member_content_model(c: MemberView, ver: RoomVersion) -> Map<
    Seq<char>,
    JsonAbs,
> {
    let m = map!["membership"@ => JsonAbs::Str(c.membership.spec_name())];
    let m = match c.displayname {
        Some(s) => m.insert("displayname"@, JsonAbs::Str(s)),
        None => m,
    };
    let m = match c.avatar_url {
        Some(s) => m.insert("avatar_url"@, JsonAbs::Str(s)),
        None => m,
    };
    let m = match c.is_direct {
        Some(b) => m.insert("is_direct"@, JsonAbs::Bool(b)),
        None => m,
    };
    let m = match c.blurhash {
        Some(s) => m.insert("blurhash"@, JsonAbs::Str(s)),
        None => m,
    };
    let m = match c.reason {
        Some(s) => m.insert("reason"@, JsonAbs::Str(s)),
        None => m,
    };
    if ver.spec_supports_restricted_join() {
        match c.join_authorized_via_users_server {
            Some(s) => m.insert("join_authorised_via_users_server"@, JsonAbs::Str(s)),
            None => m,
        }
    } else {
        m
    }
}

/// Serializes a membership record into a canonical content object.  The
/// restricted-join authorization field is cleared for room versions that do
/// not support it.
pub fn member_content_doc(c: &MemberContent, ver: RoomVersion) -> (r: CanonicalDoc)
    ensures
        doc_model(r) == member_content_model(c@, ver),
{
    let mut d = CanonicalDoc::new();
    d.insert_str("membership", c.membership.name());
    if let Some(s) = &c.displayname {
        d.insert_str("displayname", s.as_str());
    }
    if let Some(s) = &c.avatar_url {
        d.insert_str("avatar_url", s.as_str());
    }
    if let Some(b) = &c.is_direct {
        d.insert_bool("is_direct", *b);
    }
    if let Some(s) = &c.blurhash {
        d.insert_str("blurhash", s.as_str());
    }
    if let Some(s) = &c.reason {
        d.insert_str("reason", s.as_str());
    }
    if ver.supports_restricted_join() {
        if let Some(s) = &c.join_authorized_via_users_server {
            d.insert_str("join_authorised_via_users_server", s.as_str());
        }
    }
    proof {
        assert(doc_model(d) =~= member_content_model(c@, ver));
    }
    d
}

/// The membership state a wire name means, if it is a known one.
pub open spec fn spec_membership_parse(s: Seq<char>) -> Option<Membership> {
    if s == "join"@ {
        Some(Membership::Join)
    } else if s == "invite"@ {
        Some(Membership::Invite)
    } else if s == "leave"@ {
        Some(Membership::Leave)
    } else if s == "ban"@ {
        Some(Membership::Ban)
    } else if s == "knock"@ {
        Some(Membership::Knock)
    } else {
        None
    }
}

/// Parses a membership state's wire name.
pub fn membership_parse(s: &str) -> (r: Option<Membership>)
    ensures
        r == spec_membership_parse(s@),
{
    if crate::util::str_eq(s, "join") {
        Some(Membership::Join)
    } else if crate::util::str_eq(s, "invite") {
        Some(Membership::Invite)
    } else if crate::util::str_eq(s, "leave") {
        Some(Membership::Leave)
    } else if crate::util::str_eq(s, "ban") {
        Some(Membership::Ban)
    } else if crate::util::str_eq(s, "knock") {
        Some(Membership::Knock)
    } else {
        None
    }
}

/// Reads a stored membership record back out of its canonical content.  A
/// record without a known membership name is a storage corruption; the other
/// fields are kept where they hold the expected shape and dropped otherwise.
pub fn member_content_from_doc(d: &CanonicalDoc) -> (r: Result<MemberContent, EngineError>)
    ensures
        ({
            let m = doc_model(*d);
            match r {
                Ok(c) => {
                    &&& crate::json::str_field(m, "membership"@) matches Some(name)
                        && spec_membership_parse(name) == Some(c.membership)
                    &&& opt_view(c.displayname) == crate::json::str_field(m, "displayname"@)
                    &&& opt_view(c.avatar_url) == crate::json::str_field(m, "avatar_url"@)
                    &&& c.is_direct == crate::json::bool_field(m, "is_direct"@)
                    &&& opt_view(c.blurhash) == crate::json::str_field(m, "blurhash"@)
                    &&& opt_view(c.reason) == crate::json::str_field(m, "reason"@)
                    &&& opt_view(c.join_authorized_via_users_server) == crate::json::str_field(
                        m,
                        "join_authorised_via_users_server"@,
                    )
                },
                Err(e) => e == EngineError::BadDatabase && (match crate::json::str_field(
                    m,
                    "membership"@,
                ) {
                    Some(name) => spec_membership_parse(name) is None,
                    None => true,
                }),
            }
        }),
{
    let membership = match d.get_str("membership") {
        Some(name) => match membership_parse(name.as_str()) {
            Some(ms) => ms,
            None => {
                return Err(EngineError::BadDatabase);
            },
        },
        None => {
            return Err(EngineError::BadDatabase);
        },
    };
    Ok(MemberContent {
        membership,
        displayname: d.get_str("displayname"),
        avatar_url: d.get_str("avatar_url"),
        is_direct: d.get_bool("is_direct"),
        blurhash: d.get_str("blurhash"),
        reason: d.get_str("reason"),
        join_authorized_via_users_server: d.get_str("join_authorised_via_users_server"),
    })
}

} // verus!
