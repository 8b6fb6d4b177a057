//! The catalog of display badges and the rule by which badges are awarded.
//!
//! A badge is known to clients by its place in the catalog, so the order of
//! the catalog never changes.

use crate::protocol::{BadgeData, BadgeId, UserId};
use vstd::prelude::*;
use vstd::string::StringExecFns;

verus! {

pub const USER_SUIT: u32 = 0;

pub const USER_GREEN: u32 = 1;

pub const USER_RED: u32 = 2;

pub const USER_ORANGE: u32 = 3;

pub const TICK: u32 = 4;

pub const CROSS: u32 = 5;

pub const HOURGLASS: u32 = 6;

pub const RUBY: u32 = 7;

pub const ROSETTE: u32 = 8;

pub const RAINBOW: u32 = 9;

pub const MEDAL_BRONZE: u32 = 10;

pub const MEDAL_SILVER: u32 = 11;

pub const MEDAL_GOLD: u32 = 12;

pub const CONTROL_PLAY: u32 = 13;

pub const CONTROL_PLAY_BLUE: u32 = 14;

pub const CONTROL_PAUSE: u32 = 15;

pub const CONTROL_PAUSE_BLUE: u32 = 16;

pub const USER_GRAY: u32 = 17;

pub const USER_FEMALE: u32 = 18;

/// The number of badges in the catalog.
pub const BADGE_COUNT: u32 = 19;

/// The catalog: the badge with identifier `i` stands at place `i`.
pub open spec fn catalog() -> Seq<BadgeData> {
    seq![
        BadgeData { name: "user_suit", tooltip: "Person in suit" },
        BadgeData { name: "user_green", tooltip: "Person in green" },
        BadgeData { name: "user_red", tooltip: "Person in red" },
        BadgeData { name: "user_orange", tooltip: "Person in orange" },
        BadgeData { name: "tick", tooltip: "User is ready" },
        BadgeData { name: "cross", tooltip: "User is not ready" },
        BadgeData { name: "hourglass", tooltip: "User is loading" },
        BadgeData { name: "ruby", tooltip: "This person is a gem" },
        BadgeData { name: "rosette", tooltip: "This person graduated from grade school" },
        BadgeData { name: "rainbow", tooltip: "This person loves colors" },
        BadgeData { name: "medal_bronze_1", tooltip: "This person came in 3rd place" },
        BadgeData { name: "medal_silver_1", tooltip: "This person came in 2nd place" },
        BadgeData { name: "medal_gold_1", tooltip: "This person came in 1st place" },
        BadgeData { name: "control_play", tooltip: "User is playing" },
        BadgeData { name: "control_play_blue", tooltip: "User is playing" },
        BadgeData { name: "control_pause", tooltip: "User is paused" },
        BadgeData { name: "control_pause_blue", tooltip: "User is paused" },
        BadgeData { name: "user_gray", tooltip: "Person" },
        BadgeData { name: "user_female", tooltip: "Person" },
    ]
}

/// The whole catalog, in the order of the identifiers.
pub fn badge_catalog() -> (all: Vec<BadgeData>)
    ensures
        all@ == catalog(),
{
    let all = vec![
        BadgeData::new("user_suit", "Person in suit"),
        BadgeData::new("user_green", "Person in green"),
        BadgeData::new("user_red", "Person in red"),
        BadgeData::new("user_orange", "Person in orange"),
        BadgeData::new("tick", "User is ready"),
        BadgeData::new("cross", "User is not ready"),
        BadgeData::new("hourglass", "User is loading"),
        BadgeData::new("ruby", "This person is a gem"),
        BadgeData::new("rosette", "This person graduated from grade school"),
        BadgeData::new("rainbow", "This person loves colors"),
        BadgeData::new("medal_bronze_1", "This person came in 3rd place"),
        BadgeData::new("medal_silver_1", "This person came in 2nd place"),
        BadgeData::new("medal_gold_1", "This person came in 1st place"),
        BadgeData::new("control_play", "User is playing"),
        BadgeData::new("control_play_blue", "User is playing"),
        BadgeData::new("control_pause", "User is paused"),
        BadgeData::new("control_pause_blue", "User is paused"),
        BadgeData::new("user_gray", "Person"),
        BadgeData::new("user_female", "Person"),
    ];
    assert(all@ =~= catalog());
    all
}

/// The catalog entry of a badge, if the catalog has one.
pub fn badge_data(id: BadgeId) -> (entry: Option<BadgeData>)
    ensures
        entry == if id.0 < BADGE_COUNT {
            Some(catalog()[id.0 as int])
        } else {
            None
        },
{
    if id.0 < BADGE_COUNT {
        let all = badge_catalog();
        Some(all[id.0 as usize])
    } else {
        None
    }
}

/// The display name that is awarded the rosette.
pub open spec fn reserved_name() -> Seq<char> {
    "tmtu"@
}

/// The medal of the first three users of a room: gold, silver, bronze.
pub open spec fn medal_of(user_id: UserId) -> Seq<BadgeId> {
    if user_id.0 == 0 {
        seq![BadgeId(MEDAL_GOLD)]
    } else if user_id.0 == 1 {
        seq![BadgeId(MEDAL_SILVER)]
    } else if user_id.0 == 2 {
        seq![BadgeId(MEDAL_BRONZE)]
    } else {
        Seq::empty()
    }
}

/// The badges that a participant is awarded on joining: the medal of their
/// rank among the users of the room, then the rosette if they bear the
/// reserved name.
pub open spec fn awarded_badges(user_id: UserId, name: Seq<char>) -> Seq<BadgeId> {
    if name == reserved_name() {
        medal_of(user_id).push(BadgeId(ROSETTE))
    } else {
        medal_of(user_id)
    }
}

/// Awards the badges of a participant who joins as `user_id` under `name`.
pub fn award_badges(user_id: UserId, name: &String) -> (badges: Vec<BadgeId>)
    ensures
        badges@ == awarded_badges(user_id, name@),
{
    let mut badges: Vec<BadgeId> = Vec::new();
    if user_id.0 == 0 {
        badges.push(BadgeId(MEDAL_GOLD));
    } else if user_id.0 == 1 {
        badges.push(BadgeId(MEDAL_SILVER));
    } else if user_id.0 == 2 {
        badges.push(BadgeId(MEDAL_BRONZE));
    }
    assert(badges@ =~= medal_of(user_id));
    let reserved = String::from_str("tmtu");
    if *name == reserved {
        badges.push(BadgeId(ROSETTE));
    }
    badges
}

} // verus!
