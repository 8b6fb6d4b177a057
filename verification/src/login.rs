//! What the lobby decides when a user asks to enter a room.
//!
//! The lobby itself, its pages and its cookies, belong to the web front end.
//! The rules it applies are here: which cookie names a user, how a user
//! appears on the page of a room, and who may bear the reserved name.

use crate::badges::{reserved_name, RUBY, USER_GRAY};
use crate::protocol::BadgeId;
use vstd::prelude::*;
use vstd::string::{StrSliceExecFns, StringExecFns};

verus! {

/// What a user fills in to enter a room.
#[derive(Debug, PartialEq, Eq)]
pub struct LoginData {
    pub nickname: String,
    pub avatar: u32,
    pub room: String,
}

/// The only network from which the reserved name may be used: addresses
/// that begin with these characters.
pub open spec fn home_network() -> Seq<char> {
    "192.168.1.1"@
}

/// Whether someone who connects from `remote` may bear the reserved name.
/// They may if their address is not known, or if it lies in the home
/// network.
pub open spec fn reserved_name_allowed(remote: Option<Seq<char>>) -> bool {
    match remote {
        None => true,
        Some(address) => home_network().is_prefix_of(address),
    }
}

impl LoginData {
    /// The cookie that names the user: nickname, a hyphen, the room.
    pub open spec fn spec_cookie(self) -> Seq<char> {
        self.nickname@ + "-"@ + self.room@
    }

    /// Whether the user asks for the reserved name.
    pub open spec fn is_reserved(self) -> bool {
        self.nickname@ == reserved_name()
    }

    /// The avatar under which the user appears on the page of a room.
    pub open spec fn spec_page_avatar(self) -> BadgeId {
        if self.is_reserved() {
            BadgeId(USER_GRAY)
        } else {
            BadgeId(self.avatar)
        }
    }

    /// The badges with which the user appears on the page of a room.
    pub open spec fn spec_page_badges(self) -> Seq<BadgeId> {
        if self.is_reserved() {
            seq![BadgeId(RUBY)]
        } else {
            Seq::empty()
        }
    }

    /// The cookie that names the user.
    pub fn cookie(&self) -> (cookie: String)
        ensures
            cookie@ == self.spec_cookie(),
    {
        let mut cookie = self.nickname.clone();
        cookie.append("-");
        cookie.append(self.room.as_str());
        cookie
    }

    /// Whether the user asks for the reserved name.
    pub fn asks_reserved_name(&self) -> (reserved: bool)
        ensures
            reserved == self.is_reserved(),
    {
        let reserved = String::from_str("tmtu");
        self.nickname == reserved
    }

    /// The avatar under which the user appears on the page of a room.
    pub fn page_avatar(&self) -> (avatar: BadgeId)
        ensures
            avatar == self.spec_page_avatar(),
    {
        if self.asks_reserved_name() {
            BadgeId(USER_GRAY)
        } else {
            BadgeId(self.avatar)
        }
    }

    /// The badges with which the user appears on the page of a room.
    pub fn page_badges(&self) -> (badges: Vec<BadgeId>)
        ensures
            badges@ == self.spec_page_badges(),
    {
        let mut badges: Vec<BadgeId> = Vec::new();
        if self.asks_reserved_name() {
            badges.push(BadgeId(RUBY));
        }
        badges
    }
}

/// Whether the identity of a session has to be set: it has, unless the
/// session already carries the cookie that is wanted.
pub fn must_remember(current: Option<&String>, wanted: &String) -> (remember: bool)
    ensures
        remember == !(current matches Some(cookie) && cookie@ == wanted@),
{
    match current {
        Some(cookie) => !(*cookie == *wanted),
        None => true,
    }
}

/// Whether someone who connects from `remote` may bear the reserved name.
pub fn may_use_reserved_name(remote: Option<&str>) -> (allowed: bool)
    ensures
        allowed == reserved_name_allowed(
            match remote {
                Some(address) => Some(address@),
                None => None,
            },
        ),
{
    match remote {
        None => true,
        Some(address) => {
            proof {
                reveal_strlit("192.168.1.1");
            }
            let home = "192.168.1.1";
            let length: usize = address.unicode_len();
            if length < 11 {
                false
            } else {
                let head = String::from_str(address.substring_char(0, 11));
                let wanted = String::from_str(home);
                proof {
                    assert(home@.len() == 11);
                    if head@ == wanted@ {
                        assert(home@ =~= address@.subrange(0, 11));
                    }
                    if home@.is_prefix_of(address@) {
                        assert(address@.subrange(0, 11) =~= home@);
                    }
                }
                head == wanted
            }
        },
    }
}

} // verus!
