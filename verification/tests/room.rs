use watch_room::effect::Effect;
use watch_room::media::{MediaStream, RoomMetadata, StreamMetadata};
use watch_room::protocol::{
    BadgeId, ClientMessage, ParticipantInfo, ParticipantUpdate, PlayState, Stream, StreamInfo,
    Time, ToSessionMessage, TransportId, UserId, UserMessage,
};
use watch_room::room::{GetRoomMeta, GetUserId, Room, SendPing};
use watch_room::time::{convert_time, ClientTime, MediaSpan, ServerTime};
use watch_room::time_mapping::TimeMapping;

fn instant(millis: i64) -> ServerTime {
    ServerTime(convert_time(Time(millis)))
}

fn message(user: u32, message: UserMessage, received: i64) -> ClientMessage {
    ClientMessage {
        from: UserId(user),
        cookie: format!("cookie-{}", user),
        addr: TransportId(500 + user as u64),
        message,
        server_time: instant(received),
    }
}

fn greeting(name: &str) -> UserMessage {
    UserMessage::Hello { name: name.to_string(), avatar: BadgeId(4), time: Time(900) }
}

fn state_report(duration: i64, duration_time: i64, state: PlayState, time: i64) -> UserMessage {
    UserMessage::State {
        duration: MediaSpan(duration),
        duration_time: Time(duration_time),
        state,
        state_time: Time(duration_time),
        buffered: MediaSpan(2_000),
        time: Time(time),
    }
}

fn delivery(user: u32, message: ToSessionMessage) -> Effect {
    Effect::Deliver { to: UserId(user), transport: TransportId(500 + user as u64), message }
}

fn reaches(effects: &[Effect], user: u32) -> bool {
    effects.iter().any(|e| matches!(e, Effect::Deliver { to, .. } if *to == UserId(user)))
}

fn movie() -> MediaStream {
    MediaStream {
        slug: "slug".to_string(),
        name: "Movie".to_string(),
        streams: vec![
            Stream { quality: 0, playlist: "master.m3u8".to_string() },
            Stream { quality: 720, playlist: "720.m3u8".to_string() },
        ],
        meta: StreamMetadata {
            title: "A Movie".to_string(),
            duration: "1h".to_string(),
            imdb: None,
        },
    }
}

/// A room with three participants. Users 0 and 1 have a mapping under which
/// their clock is the server's; user 2 has none.
fn crowded() -> Room {
    let mut room = Room::new_at("lounge".to_string(), Some(movie()), instant(0));
    for user in 0..3u32 {
        room.handle_at(message(user, greeting(&format!("user{}", user)), 1000), instant(1000));
    }
    for user in 0..2u32 {
        room.handle_send_ping_at(SendPing(UserId(user), 0), instant(2000));
        room.handle_at(
            message(user, state_report(0, 2000, PlayState::Pause, 2000), 2000),
            instant(2000),
        );
    }
    room
}

fn member(user: u32, medal: u32) -> ParticipantInfo {
    ParticipantInfo {
        user_id: UserId(user),
        name: format!("user{}", user),
        avatar: BadgeId(4),
        badges: vec![BadgeId(medal)],
    }
}

fn everyone() -> Vec<ParticipantInfo> {
    vec![member(0, 12), member(1, 11), member(2, 10)]
}

#[test]
fn new_room_is_empty_and_paused() {
    let room = Room::new_at("lounge".to_string(), None, instant(7000));
    assert_eq!(room.name(), "lounge");
    assert_eq!(room.room_state(), PlayState::Pause);
    assert_eq!(room.state_set(), instant(7000));
    assert_eq!(room.position_set(), instant(7000));
    assert_eq!(room.duration(), MediaSpan(0));
    assert_eq!(room.participant_infos(), vec![]);
    assert_eq!(room.get_stream_position(instant(99_000)), MediaSpan(0));
}

#[test]
fn new_room_by_the_wall_clock() {
    let room = Room::new("lounge".to_string(), Some(movie()));
    assert_eq!(room.name(), "lounge");
    assert_eq!(room.room_state(), PlayState::Pause);
    assert_eq!(room.state_set(), room.position_set());
    assert_eq!(room.duration(), MediaSpan(0));
    assert_eq!(room.participant_infos(), vec![]);
    assert!(room.state_set().0.secs > 1_600_000_000);
}

#[test]
fn cookie_keeps_its_user_id() {
    let mut room = Room::new_at("lounge".to_string(), None, instant(0));
    let first = room.handle_get_user_id(GetUserId("anna-lounge".to_string()));
    let again = room.handle_get_user_id(GetUserId("anna-lounge".to_string()));
    assert_eq!(first, Some(UserId(0)));
    assert_eq!(again, first);
}

#[test]
fn user_ids_count_up_with_each_new_cookie() {
    let mut room = Room::new_at("lounge".to_string(), None, instant(0));
    assert_eq!(room.handle_get_user_id(GetUserId("a".to_string())), Some(UserId(0)));
    assert_eq!(room.handle_get_user_id(GetUserId("b".to_string())), Some(UserId(1)));
    assert_eq!(room.handle_get_user_id(GetUserId("a".to_string())), Some(UserId(0)));
    assert_eq!(room.handle_get_user_id(GetUserId("c".to_string())), Some(UserId(2)));
    assert_eq!(room.handle_get_user_id(GetUserId("".to_string())), Some(UserId(3)));
    assert_eq!(room.handle_get_user_id(GetUserId("b".to_string())), Some(UserId(1)));
}

#[test]
fn user_id_survives_other_traffic() {
    let mut room = crowded();
    let id = room.handle_get_user_id(GetUserId("anna-lounge".to_string()));
    room.handle_at(message(0, UserMessage::Goodbye, 3000), instant(3000));
    room.handle_at(message(5, greeting("eve"), 3000), instant(3000));
    room.handle_get_user_id(GetUserId("bert-lounge".to_string()));
    assert_eq!(room.handle_get_user_id(GetUserId("anna-lounge".to_string())), id);
}

#[test]
fn room_meta_names_room_and_stream() {
    let room = Room::new_at("lounge".to_string(), Some(movie()), instant(0));
    assert_eq!(
        room.handle_get_room_meta(GetRoomMeta),
        Some(RoomMetadata {
            name: "lounge".to_string(),
            stream: StreamMetadata {
                title: "A Movie".to_string(),
                duration: "1h".to_string(),
                imdb: None,
            },
        })
    );
}

#[test]
fn room_without_stream_has_no_meta() {
    let room = Room::new_at("lounge".to_string(), None, instant(0));
    assert_eq!(room.handle_get_room_meta(GetRoomMeta), None);
}

#[test]
fn newcomer_is_told_where_the_stream_stands() {
    let mut room = Room::new_at("lounge".to_string(), Some(movie()), instant(0));
    let effects = room.handle_at(message(0, greeting("user0"), 1000), instant(1000));
    assert_eq!(
        effects,
        vec![
            delivery(
                0,
                ToSessionMessage::RoomState {
                    user_id: UserId(0),
                    participants: vec![everyone().remove(0)],
                    current_stream: Some(StreamInfo {
                        slug: "slug".to_string(),
                        name: "Movie".to_string(),
                        streams: vec![
                            Stream { quality: 0, playlist: "master.m3u8".to_string() },
                            Stream { quality: 720, playlist: "720.m3u8".to_string() },
                        ],
                        duration: MediaSpan(0),
                        state: PlayState::Pause,
                    }),
                },
            ),
            Effect::StartPing { user_id: UserId(0) },
        ]
    );
}

#[test]
fn hello_again_replaces_the_participant() {
    let mut room = crowded();
    let again = ClientMessage {
        from: UserId(1),
        cookie: "cookie-1".to_string(),
        addr: TransportId(777),
        message: UserMessage::Hello {
            name: "renamed".to_string(),
            avatar: BadgeId(9),
            time: Time(5000),
        },
        server_time: instant(5000),
    };
    let effects = room.handle_at(again, instant(5000));
    let renamed = ParticipantInfo {
        user_id: UserId(1),
        name: "renamed".to_string(),
        avatar: BadgeId(9),
        badges: vec![BadgeId(11)],
    };
    let announcement = ToSessionMessage::NewParticipant {
        user_id: UserId(1),
        name: "renamed".to_string(),
        avatar: BadgeId(9),
        badges: vec![BadgeId(11)],
    };
    let now_in_room = vec![everyone().remove(0), everyone().remove(2), renamed];
    assert_eq!(effects.len(), 5);
    assert_eq!(effects[0], Effect::StopPing { user_id: UserId(1) });
    assert_eq!(effects[1], delivery(0, announcement.clone()));
    assert_eq!(effects[2], delivery(2, announcement));
    match &effects[3] {
        Effect::Deliver {
            to,
            transport,
            message: ToSessionMessage::RoomState { user_id, participants, .. },
        } => {
            assert_eq!(*to, UserId(1));
            assert_eq!(*transport, TransportId(777));
            assert_eq!(*user_id, UserId(1));
            assert_eq!(*participants, now_in_room);
        },
        other => panic!("no room state for the newcomer: {:?}", other),
    }
    assert_eq!(effects[4], Effect::StartPing { user_id: UserId(1) });
    assert_eq!(room.participant_infos(), now_in_room);
    assert_eq!(room.get_time_mapping(UserId(1)), None);
}

#[test]
fn goodbye_tells_those_who_remain() {
    let mut room = crowded();
    let effects = room.handle_at(message(1, UserMessage::Goodbye, 3000), instant(3000));
    let bye = ToSessionMessage::ByeParticipant { user_id: UserId(1) };
    assert_eq!(
        effects,
        vec![Effect::StopPing { user_id: UserId(1) }, delivery(0, bye.clone()), delivery(2, bye)]
    );
    assert_eq!(room.participant_infos(), vec![everyone().remove(0), everyone().remove(2)]);
}

#[test]
fn goodbye_from_a_stranger_changes_nothing() {
    let mut room = crowded();
    let effects = room.handle_at(message(9, UserMessage::Goodbye, 3000), instant(3000));
    assert_eq!(effects, vec![]);
    assert_eq!(room.participant_infos(), everyone());
}

#[test]
fn nothing_reaches_who_has_left() {
    let mut room = crowded();
    room.handle_at(message(1, UserMessage::Goodbye, 3000), instant(3000));
    assert!(!room.has_participant(UserId(1)));
    let mut all: Vec<Effect> = Vec::new();
    let seek = |to: i64, at: i64| UserMessage::Seek { duration: MediaSpan(to), time: Time(at) };
    let play = UserMessage::SetState { state: PlayState::Play, time: Time(4300) };
    let playing = || state_report(1, 4400, PlayState::Play, 4400);
    all.extend(room.handle_at(message(3, greeting("late"), 4000), instant(4000)));
    all.extend(room.handle_at(message(0, seek(5, 4100), 4100), instant(4100)));
    all.extend(room.handle_at(message(1, seek(6, 4200), 4200), instant(4200)));
    all.extend(room.handle_at(message(2, play, 4300), instant(4300)));
    all.extend(room.handle_at(message(1, playing(), 4400), instant(4400)));
    all.extend(room.handle_at(message(0, playing(), 4400), instant(4400)));
    all.extend(room.handle_send_ping_at(SendPing(UserId(1), 8), instant(4500)));
    all.extend(room.handle_send_ping_at(SendPing(UserId(0), 8), instant(4500)));
    all.extend(room.handle_at(message(1, UserMessage::Goodbye, 4600), instant(4600)));
    all.extend(room.handle_at(message(2, UserMessage::Goodbye, 4700), instant(4700)));
    assert!(!all.is_empty());
    assert!(!reaches(&all, 1));
    assert!(!room.has_participant(UserId(1)));
}

#[test]
fn traffic_leaves_identities_alone() {
    let mut room = crowded();
    let seek = UserMessage::Seek { duration: MediaSpan(5), time: Time(4100) };
    let play = UserMessage::SetState { state: PlayState::Play, time: Time(4300) };
    room.handle_at(message(0, seek, 4100), instant(4100));
    room.handle_at(message(1, play, 4300), instant(4300));
    room.handle_at(message(2, state_report(1, 4400, PlayState::Play, 4400), 4400), instant(4400));
    room.handle_send_ping_at(SendPing(UserId(2), 1), instant(4500));
    room.handle_at(message(7, UserMessage::Goodbye, 4600), instant(4600));
    room.handle_get_user_id(GetUserId("someone".to_string()));
    assert_eq!(room.participant_infos(), everyone());
}

#[test]
fn seek_is_not_echoed() {
    let mut room = crowded();
    let seek = UserMessage::Seek { duration: MediaSpan(42_000), time: Time(3000) };
    let effects = room.handle_at(message(1, seek, 3050), instant(3100));
    let told = ToSessionMessage::DoSeek { user: UserId(1), duration: MediaSpan(42_000) };
    assert_eq!(effects, vec![delivery(0, told.clone()), delivery(2, told)]);
    assert!(!reaches(&effects, 1));
}

#[test]
fn seek_with_mapping_anchors_the_position() {
    let mut room = crowded();
    let effects = room.announce_seek(UserId(0), Time(3000), MediaSpan(42_000));
    assert_eq!(effects.len(), 2);
    assert_eq!(room.duration(), MediaSpan(42_000));
    assert_eq!(room.position_set(), instant(3000));
    assert_eq!(room.state_set(), instant(0));
}

#[test]
fn seek_without_mapping_leaves_the_anchor() {
    let mut room = crowded();
    let effects = room.announce_seek(UserId(2), Time(3000), MediaSpan(42_000));
    let told = ToSessionMessage::DoSeek { user: UserId(2), duration: MediaSpan(42_000) };
    assert_eq!(effects, vec![delivery(0, told.clone()), delivery(1, told)]);
    assert_eq!(room.duration(), MediaSpan(42_000));
    assert_eq!(room.position_set(), instant(0));
}

#[test]
fn seek_from_a_stranger_reaches_everyone() {
    let mut room = crowded();
    let effects = room.announce_seek(UserId(9), Time(3000), MediaSpan(42_000));
    let told = ToSessionMessage::DoSeek { user: UserId(9), duration: MediaSpan(42_000) };
    assert_eq!(
        effects,
        vec![delivery(0, told.clone()), delivery(1, told.clone()), delivery(2, told)]
    );
    assert_eq!(room.duration(), MediaSpan(42_000));
    assert_eq!(room.position_set(), instant(0));
}

#[test]
fn set_state_is_not_echoed() {
    let mut room = crowded();
    let play = UserMessage::SetState { state: PlayState::Play, time: Time(3000) };
    let effects = room.handle_at(message(0, play, 3050), instant(3100));
    let told = ToSessionMessage::SetState { user: UserId(0), state: PlayState::Play };
    assert_eq!(effects, vec![delivery(1, told.clone()), delivery(2, told)]);
    assert!(!reaches(&effects, 0));
}

#[test]
fn play_dates_the_change_and_keeps_the_position() {
    let mut room = crowded();
    room.announce_seek(UserId(0), Time(2500), MediaSpan(42_000));
    room.announce_state(UserId(0), Time(3000), PlayState::Play, instant(3100));
    assert_eq!(room.room_state(), PlayState::Play);
    assert_eq!(room.state_set(), instant(3000));
    assert_eq!(room.position_set(), instant(2500));
    assert_eq!(room.duration(), MediaSpan(42_000));
}

#[test]
fn pause_advances_the_position_by_the_time_played() {
    let mut room = crowded();
    room.announce_state(UserId(0), Time(3000), PlayState::Play, instant(3100));
    room.announce_state(UserId(1), Time(8500), PlayState::Pause, instant(8700));
    assert_eq!(room.room_state(), PlayState::Pause);
    assert_eq!(room.state_set(), instant(8500));
    assert_eq!(room.position_set(), instant(8700));
    assert_eq!(room.duration(), MediaSpan(5_500));
}

#[test]
fn set_state_without_mapping_changes_the_state_only() {
    let mut room = crowded();
    let effects = room.announce_state(UserId(2), Time(3000), PlayState::Play, instant(3100));
    let told = ToSessionMessage::SetState { user: UserId(2), state: PlayState::Play };
    assert_eq!(effects, vec![delivery(0, told.clone()), delivery(1, told)]);
    assert_eq!(room.room_state(), PlayState::Play);
    assert_eq!(room.state_set(), instant(0));
    assert_eq!(room.position_set(), instant(0));
    assert_eq!(room.duration(), MediaSpan(0));
}

#[test]
fn paused_room_holds_its_position() {
    let mut room = crowded();
    room.announce_state(UserId(0), Time(3000), PlayState::Play, instant(3100));
    room.announce_state(UserId(0), Time(8500), PlayState::Pause, instant(8700));
    // 5 500 ms played; the anchor lies 200 ms after the pause.
    assert_eq!(room.get_stream_position(instant(8700)), MediaSpan(5_300));
    assert_eq!(room.get_stream_position(instant(60_000)), MediaSpan(5_300));
}

#[test]
fn playing_room_advances_with_the_clock() {
    let mut room = crowded();
    room.announce_seek(UserId(0), Time(2500), MediaSpan(42_000));
    room.announce_state(UserId(0), Time(3000), PlayState::Play, instant(3100));
    assert_eq!(room.get_stream_position(instant(3000)), MediaSpan(42_000));
    assert_eq!(room.get_stream_position(instant(10_250)), MediaSpan(49_250));
    assert_eq!(room.get_stream_position(instant(2000)), MediaSpan(41_000));
}

#[test]
fn set_stream_position_sets_the_position() {
    let mut room = crowded();
    room.set_stream_position(MediaSpan(-3));
    assert_eq!(room.duration(), MediaSpan(-3));
    assert_eq!(room.position_set(), instant(0));
}

#[test]
fn report_from_a_stranger_is_ignored() {
    let mut room = crowded();
    let before = room.get_room_updates(instant(9000));
    let report = state_report(5, 3000, PlayState::Play, 3000);
    let effects = room.handle_at(message(9, report, 3000), instant(3000));
    assert_eq!(effects, vec![]);
    assert_eq!(room.participant_infos(), everyone());
    assert_eq!(room.get_room_updates(instant(9000)), before);
    assert_eq!(room.get_time_mapping(UserId(9)), None);
}

#[test]
fn report_is_answered_with_the_view_of_the_room() {
    let mut room = crowded();
    // User 1 reports that they play, at position 30 000 ms as of 3000 ms.
    let report = state_report(30_000, 3000, PlayState::Play, 3100);
    let effects = room.handle_at(message(1, report, 3200), instant(4000));
    let update = ToSessionMessage::RoomUpdate {
        participants: vec![
            ParticipantUpdate {
                user_id: UserId(0),
                duration: MediaSpan(0),
                buffered: MediaSpan(2_000),
                state: PlayState::Pause,
                badges: vec![BadgeId(12)],
            },
            ParticipantUpdate {
                user_id: UserId(1),
                // The mapping now sends 3100 ms on the client to 3200 ms on
                // the server, so the report dates from 3100 ms and 900 ms
                // have passed since.
                duration: MediaSpan(30_900),
                buffered: MediaSpan(2_000),
                state: PlayState::Play,
                badges: vec![BadgeId(11)],
            },
        ],
    };
    assert_eq!(
        effects,
        vec![delivery(0, update.clone()), delivery(1, update.clone()), delivery(2, update)]
    );
    assert_eq!(
        room.get_time_mapping(UserId(1)),
        Some(TimeMapping::new(instant(2000), instant(3200), ClientTime(convert_time(Time(3100)))))
    );
}

#[test]
fn room_updates_leave_out_who_has_no_mapping() {
    let room = crowded();
    let updates = room.get_room_updates(instant(5000));
    let users: Vec<UserId> = updates.iter().map(|u| u.user_id).collect();
    assert_eq!(users, vec![UserId(0), UserId(1)]);
}

#[test]
fn ping_marks_the_participant_and_is_delivered() {
    let mut room = crowded();
    let effects = room.handle_send_ping_at(SendPing(UserId(2), 0), instant(6000));
    assert_eq!(effects, vec![delivery(2, ToSessionMessage::Ping)]);
    assert_eq!(room.get_time_mapping(UserId(2)), None);
    room.handle_at(message(2, state_report(0, 6100, PlayState::Pause, 6150), 6200), instant(6300));
    assert_eq!(
        room.get_time_mapping(UserId(2)),
        Some(TimeMapping::new(instant(6000), instant(6200), ClientTime(convert_time(Time(6150)))))
    );
}

#[test]
fn ping_for_a_stranger_is_dropped() {
    let mut room = crowded();
    let effects = room.handle_send_ping_at(SendPing(UserId(9), 0), instant(6000));
    assert_eq!(effects, vec![]);
    assert_eq!(room.participant_infos(), everyone());
}

#[test]
fn ping_by_the_wall_clock() {
    let mut room = crowded();
    let effects = room.handle_send_ping(SendPing(UserId(2), 4));
    assert_eq!(effects, vec![delivery(2, ToSessionMessage::Ping)]);
    room.handle_at(message(2, state_report(0, 6100, PlayState::Pause, 6150), 6200), instant(6300));
    let mapping = room.get_time_mapping(UserId(2)).expect("a mapping after ping and reply");
    assert!(mapping.requested_time().0.secs > 1_600_000_000);
    assert_eq!(mapping.server_time(), instant(6200));
}

#[test]
fn client_message_by_the_wall_clock() {
    let mut room = Room::new_at("lounge".to_string(), None, instant(0));
    let effects = room.handle(message(0, greeting("user0"), 1000));
    assert_eq!(
        effects,
        vec![
            delivery(
                0,
                ToSessionMessage::RoomState {
                    user_id: UserId(0),
                    participants: vec![everyone().remove(0)],
                    current_stream: None,
                },
            ),
            Effect::StartPing { user_id: UserId(0) },
        ]
    );
    assert!(room.has_participant(UserId(0)));
}

#[test]
fn announcements_reach_every_participant() {
    let room = crowded();
    let bye = ToSessionMessage::ByeParticipant { user_id: UserId(6) };
    assert_eq!(
        room.announce_participant_left(UserId(6)),
        vec![delivery(0, bye.clone()), delivery(1, bye.clone()), delivery(2, bye)]
    );
    let chat = ToSessionMessage::Error("note".to_string());
    assert_eq!(
        room.announce_participant_new(chat.clone()),
        vec![delivery(0, chat.clone()), delivery(1, chat.clone()), delivery(2, chat)]
    );
    let update = ToSessionMessage::RoomUpdate { participants: vec![] };
    assert_eq!(
        room.announce_participant_updates(vec![]),
        vec![delivery(0, update.clone()), delivery(1, update.clone()), delivery(2, update)]
    );
}

#[test]
fn room_state_lists_everyone() {
    let room = crowded();
    match room.get_room_state_for_uid(UserId(2), instant(5000)) {
        ToSessionMessage::RoomState { user_id, participants, current_stream } => {
            assert_eq!(user_id, UserId(2));
            assert_eq!(participants, everyone());
            assert_eq!(current_stream.map(|s| s.duration), Some(MediaSpan(0)));
        },
        other => panic!("not a room state: {:?}", other),
    }
}
