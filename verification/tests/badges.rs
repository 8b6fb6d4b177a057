use watch_room::badges::{
    award_badges, badge_catalog, badge_data, BADGE_COUNT, MEDAL_BRONZE, MEDAL_GOLD, MEDAL_SILVER,
    ROSETTE, RUBY, USER_FEMALE, USER_GRAY, USER_SUIT,
};
use watch_room::protocol::{BadgeData, BadgeId, UserId};

#[test]
fn badge_data_new_keeps_name_and_tooltip() {
    let badge = BadgeData::new("tick", "User is ready");
    assert_eq!(badge.name, "tick");
    assert_eq!(badge.tooltip, "User is ready");
}

#[test]
fn catalog_is_in_the_order_of_the_identifiers() {
    let all = badge_catalog();
    assert_eq!(all.len(), 19);
    assert_eq!(BADGE_COUNT, 19);
    let names: Vec<&str> = all.iter().map(|b| b.name).collect();
    assert_eq!(
        names,
        vec![
            "user_suit",
            "user_green",
            "user_red",
            "user_orange",
            "tick",
            "cross",
            "hourglass",
            "ruby",
            "rosette",
            "rainbow",
            "medal_bronze_1",
            "medal_silver_1",
            "medal_gold_1",
            "control_play",
            "control_play_blue",
            "control_pause",
            "control_pause_blue",
            "user_gray",
            "user_female",
        ]
    );
    assert_eq!(all[USER_SUIT as usize].tooltip, "Person in suit");
    assert_eq!(all[RUBY as usize].tooltip, "This person is a gem");
    assert_eq!(all[ROSETTE as usize].tooltip, "This person graduated from grade school");
    assert_eq!(all[MEDAL_BRONZE as usize].tooltip, "This person came in 3rd place");
    assert_eq!(all[MEDAL_SILVER as usize].tooltip, "This person came in 2nd place");
    assert_eq!(all[MEDAL_GOLD as usize].tooltip, "This person came in 1st place");
    assert_eq!(all[USER_GRAY as usize].name, "user_gray");
    assert_eq!(all[USER_FEMALE as usize].name, "user_female");
}

#[test]
fn badge_data_looks_badges_up() {
    assert_eq!(
        badge_data(BadgeId(12)),
        Some(BadgeData::new("medal_gold_1", "This person came in 1st place"))
    );
    assert_eq!(badge_data(BadgeId(0)), Some(BadgeData::new("user_suit", "Person in suit")));
    assert_eq!(badge_data(BadgeId(18)), Some(BadgeData::new("user_female", "Person")));
    assert_eq!(badge_data(BadgeId(19)), None);
    assert_eq!(badge_data(BadgeId(u32::MAX)), None);
}

#[test]
fn first_three_users_get_medals() {
    assert_eq!(award_badges(UserId(0), &"a".to_string()), vec![BadgeId(12)]);
    assert_eq!(award_badges(UserId(1), &"b".to_string()), vec![BadgeId(11)]);
    assert_eq!(award_badges(UserId(2), &"c".to_string()), vec![BadgeId(10)]);
    assert_eq!(award_badges(UserId(3), &"d".to_string()), vec![]);
    assert_eq!(award_badges(UserId(u32::MAX), &"e".to_string()), vec![]);
}

#[test]
fn reserved_name_gets_the_rosette() {
    assert_eq!(award_badges(UserId(0), &"tmtu".to_string()), vec![BadgeId(12), BadgeId(8)]);
    assert_eq!(award_badges(UserId(7), &"tmtu".to_string()), vec![BadgeId(8)]);
    assert_eq!(award_badges(UserId(7), &"Tmtu".to_string()), vec![]);
    assert_eq!(award_badges(UserId(7), &"tmtu ".to_string()), vec![]);
}
