//! Room versions and the capabilities that depend on them.
//!
//! A room version is a capability tag.  It decides whether an event carries
//! its `event_id` inside the canonical document, whether restricted joins
//! (authorization through a co-member's server) exist, and whether the
//! version is supported at all.  Any version outside the supported set is a
//! hard negotiation failure.

use vstd::prelude::*;

verus! {

/// A supported room version.
#[derive(Clone, Copy, Debug, PartialEq, Eq, Structural)]
pub enum RoomVersion {
    V1,
    V2,
    V3,
    V4,
    V5,
    V6,
    V7,
    V8,
    V9,
    V10,
    V11,
}

impl RoomVersion {
    /// The two earliest versions keep the `event_id` key inside the
    /// canonical document; every later version derives it instead.
    pub open spec fn spec_keeps_event_id(self) -> bool {
        self == RoomVersion::V1 || self == RoomVersion::V2
    }

    /// Whether a join may be authorized through another user's server
    /// (restricted join rules).
    pub open spec fn spec_supports_restricted_join(self) -> bool {
        match self {
            RoomVersion::V8 | RoomVersion::V9 | RoomVersion::V10 | RoomVersion::V11 => true,
            _ => false,
        }
    }

    /// The wire name of this version.
    pub open spec fn spec_as_str(self) -> Seq<char> {
        match self {
            RoomVersion::V1 => "1"@,
            RoomVersion::V2 => "2"@,
            RoomVersion::V3 => "3"@,
            RoomVersion::V4 => "4"@,
            RoomVersion::V5 => "5"@,
            RoomVersion::V6 => "6"@,
            RoomVersion::V7 => "7"@,
            RoomVersion::V8 => "8"@,
            RoomVersion::V9 => "9"@,
            RoomVersion::V10 => "10"@,
            RoomVersion::V11 => "11"@,
        }
    }

    pub fn keeps_event_id(&self) -> (r: bool)
        ensures
            r == self.spec_keeps_event_id(),
    {
        matches!(self, RoomVersion::V1 | RoomVersion::V2)
    }

    pub fn supports_restricted_join(&self) -> (r: bool)
        ensures
            r == self.spec_supports_restricted_join(),
    {
        matches!(
            self,
            RoomVersion::V8 | RoomVersion::V9 | RoomVersion::V10 | RoomVersion::V11
        )
    }

    pub fn as_str(&self) -> (r: &'static str)
        ensures
            r@ == self.spec_as_str(),
    {
        match self {
            RoomVersion::V1 => "1",
            RoomVersion::V2 => "2",
            RoomVersion::V3 => "3",
            RoomVersion::V4 => "4",
            RoomVersion::V5 => "5",
            RoomVersion::V6 => "6",
            RoomVersion::V7 => "7",
            RoomVersion::V8 => "8",
            RoomVersion::V9 => "9",
            RoomVersion::V10 => "10",
            RoomVersion::V11 => "11",
        }
    }

    /// What `parse` yields for a given wire name.
    pub open spec fn spec_parse(s: Seq<char>) -> Option<RoomVersion> {
        if s == "1"@ {
            Some(RoomVersion::V1)
        } else if s == "2"@ {
            Some(RoomVersion::V2)
        } else if s == "3"@ {
            Some(RoomVersion::V3)
        } else if s == "4"@ {
            Some(RoomVersion::V4)
        } else if s == "5"@ {
            Some(RoomVersion::V5)
        } else if s == "6"@ {
            Some(RoomVersion::V6)
        } else if s == "7"@ {
            Some(RoomVersion::V7)
        } else if s == "8"@ {
            Some(RoomVersion::V8)
        } else if s == "9"@ {
            Some(RoomVersion::V9)
        } else if s == "10"@ {
            Some(RoomVersion::V10)
        } else if s == "11"@ {
            Some(RoomVersion::V11)
        } else {
            None
        }
    }

    /// Parses a wire name; an unknown name is an unsupported version.
    pub fn parse(s: &str) -> (r: Option<RoomVersion>)
        ensures
            r == RoomVersion::spec_parse(s@),
    {
        if crate::util::str_eq(s, "1") {
            Some(RoomVersion::V1)
        } else if crate::util::str_eq(s, "2") {
            Some(RoomVersion::V2)
        } else if crate::util::str_eq(s, "3") {
            Some(RoomVersion::V3)
        } else if crate::util::str_eq(s, "4") {
            Some(RoomVersion::V4)
        } else if crate::util::str_eq(s, "5") {
            Some(RoomVersion::V5)
        } else if crate::util::str_eq(s, "6") {
            Some(RoomVersion::V6)
        } else if crate::util::str_eq(s, "7") {
            Some(RoomVersion::V7)
        } else if crate::util::str_eq(s, "8") {
            Some(RoomVersion::V8)
        } else if crate::util::str_eq(s, "9") {
            Some(RoomVersion::V9)
        } else if crate::util::str_eq(s, "10") {
            Some(RoomVersion::V10)
        } else if crate::util::str_eq(s, "11") {
            Some(RoomVersion::V11)
        } else {
            None
        }
    }
}

} // verus!
