use watch_room::effect::Effect;
use watch_room::media::{MediaStream, StreamMetadata};
use watch_room::protocol::{
    BadgeId, ClientMessage, ParticipantInfo, PlayState, Stream, StreamInfo, Time,
    ToSessionMessage, TransportId, UserId, UserMessage,
};
use watch_room::room::{GetUserId, Room, SendPing};
use watch_room::time::{convert_time, MediaSpan, ServerTime};
use watch_room::websocket_transport::WebsocketTransport;

fn at(millis: i64) -> ServerTime {
    ServerTime(convert_time(Time(millis)))
}

fn from_client(user: u32, message: UserMessage, received: i64) -> ClientMessage {
    ClientMessage {
        from: UserId(user),
        cookie: format!("cookie-{}", user),
        addr: TransportId(100 + user as u64),
        message,
        server_time: at(received),
    }
}

fn hello(name: &str, avatar: u32) -> UserMessage {
    UserMessage::Hello { name: name.to_string(), avatar: BadgeId(avatar), time: Time(1000) }
}

fn report(time: i64) -> UserMessage {
    UserMessage::State {
        duration: MediaSpan(0),
        duration_time: Time(time),
        state: PlayState::Pause,
        state_time: Time(time),
        buffered: MediaSpan(0),
        time: Time(time),
    }
}

fn info(user: u32, name: &str, avatar: u32, badges: Vec<u32>) -> ParticipantInfo {
    ParticipantInfo {
        user_id: UserId(user),
        name: name.to_string(),
        avatar: BadgeId(avatar),
        badges: badges.into_iter().map(BadgeId).collect(),
    }
}

fn to(user: u32, message: ToSessionMessage) -> Effect {
    Effect::Deliver { to: UserId(user), transport: TransportId(100 + user as u64), message }
}

fn film() -> MediaStream {
    MediaStream {
        slug: "test2".to_string(),
        name: "Mechazawa".to_string(),
        streams: vec![Stream { quality: 0, playlist: "master.m3u8".to_string() }],
        meta: StreamMetadata {
            title: "Infernal Affairs II".to_string(),
            duration: "1h 15m 2s".to_string(),
            imdb: Some("https://www.imdb.com/title/tt0369060/".to_string()),
        },
    }
}

/// Lets `user` join, pings them at `now` and takes in their reply, which
/// they say they sent at the instant it arrives: their clock is the
/// server's.
fn join_in_step(room: &mut Room, user: u32, name: &str, now: i64) {
    room.handle_at(from_client(user, hello(name, 1), now), at(now));
    room.handle_send_ping_at(SendPing(UserId(user), 0), at(now));
    room.handle_at(from_client(user, report(now), now), at(now));
}

#[test]
fn join_empty_room() {
    let mut room = Room::new_at("GZ4KQ".to_string(), None, at(0));
    let id = room.handle_get_user_id(GetUserId("cookie-0".to_string()));
    assert_eq!(id, Some(UserId(0)));
    let effects = room.handle_at(from_client(0, hello("a", 1), 1000), at(1000));
    assert_eq!(
        effects,
        vec![
            to(
                0,
                ToSessionMessage::RoomState {
                    user_id: UserId(0),
                    participants: vec![info(0, "a", 1, vec![12])],
                    current_stream: None,
                },
            ),
            Effect::StartPing { user_id: UserId(0) },
        ]
    );
}

#[test]
fn second_joiner_sees_first() {
    let mut room = Room::new_at("GZ4KQ".to_string(), None, at(0));
    assert_eq!(room.handle_get_user_id(GetUserId("cookie-0".to_string())), Some(UserId(0)));
    room.handle_at(from_client(0, hello("a", 1), 1000), at(1000));
    assert_eq!(room.handle_get_user_id(GetUserId("cookie-1".to_string())), Some(UserId(1)));
    let effects = room.handle_at(from_client(1, hello("b", 2), 2000), at(2000));
    assert_eq!(
        effects,
        vec![
            to(
                0,
                ToSessionMessage::NewParticipant {
                    user_id: UserId(1),
                    name: "b".to_string(),
                    avatar: BadgeId(2),
                    badges: vec![BadgeId(11)],
                },
            ),
            to(
                1,
                ToSessionMessage::RoomState {
                    user_id: UserId(1),
                    participants: vec![info(0, "a", 1, vec![12]), info(1, "b", 2, vec![11])],
                    current_stream: None,
                },
            ),
            Effect::StartPing { user_id: UserId(1) },
        ]
    );
}

#[test]
fn seek_fan_out_excludes_sender() {
    let mut room = Room::new_at("GZ4KQ".to_string(), None, at(0));
    join_in_step(&mut room, 0, "a", 1000);
    join_in_step(&mut room, 1, "b", 2000);
    join_in_step(&mut room, 2, "c", 3000);
    let seek = UserMessage::Seek { duration: MediaSpan(120_000), time: Time(5000) };
    let effects = room.handle_at(from_client(0, seek, 5001), at(5002));
    let told = ToSessionMessage::DoSeek { user: UserId(0), duration: MediaSpan(120_000) };
    assert_eq!(effects, vec![to(1, told.clone()), to(2, told)]);
    assert_eq!(room.duration(), MediaSpan(120_000));
    assert_eq!(room.position_set(), at(5000));
}

#[test]
fn pause_anchors_position() {
    let t0: i64 = 1_600_000_000_000;
    let mut room = Room::new_at("GZ4KQ".to_string(), Some(film()), at(t0 - 60_000));
    join_in_step(&mut room, 0, "a", t0 - 30_000);
    room.handle_at(from_client(1, hello("b", 2), t0 - 20_000), at(t0 - 20_000));
    let play = UserMessage::SetState { state: PlayState::Play, time: Time(t0) };
    room.handle_at(from_client(0, play, t0), at(t0));
    assert_eq!(room.room_state(), PlayState::Play);
    assert_eq!(room.state_set(), at(t0));
    assert_eq!(room.duration(), MediaSpan(0));

    let pause = UserMessage::SetState { state: PlayState::Pause, time: Time(t0 + 10_000) };
    let effects = room.handle_at(from_client(0, pause, t0 + 10_000), at(t0 + 10_000));
    assert_eq!(
        effects,
        vec![to(1, ToSessionMessage::SetState { user: UserId(0), state: PlayState::Pause })]
    );
    assert_eq!(room.state_set(), at(t0 + 10_000));
    assert_eq!(room.duration(), MediaSpan(10_000));

    let effects = room.handle_at(from_client(2, hello("c", 3), t0 + 15_000), at(t0 + 15_000));
    let expected = StreamInfo {
        slug: "test2".to_string(),
        name: "Mechazawa".to_string(),
        streams: vec![Stream { quality: 0, playlist: "master.m3u8".to_string() }],
        duration: MediaSpan(10_000),
        state: PlayState::Pause,
    };
    match &effects[2] {
        Effect::Deliver { to, message: ToSessionMessage::RoomState { current_stream, .. }, .. } => {
            assert_eq!(*to, UserId(2));
            assert_eq!(*current_stream, Some(expected));
        },
        other => panic!("no room state for the newcomer: {:?}", other),
    }
}

#[test]
fn pong_without_prior_ping() {
    let mut room = Room::new_at("GZ4KQ".to_string(), None, at(0));
    room.handle_at(from_client(0, hello("a", 1), 1000), at(1000));
    let early = UserMessage::State {
        duration: MediaSpan(7_500),
        duration_time: Time(1500),
        state: PlayState::Play,
        state_time: Time(1400),
        buffered: MediaSpan(30_000),
        time: Time(1600),
    };
    let effects = room.handle_at(from_client(0, early, 1700), at(1800));
    assert_eq!(effects, vec![to(0, ToSessionMessage::RoomUpdate { participants: vec![] })]);
    assert_eq!(room.get_time_mapping(UserId(0)), None);
    assert_eq!(room.get_room_updates(at(2000)), vec![]);
}

#[test]
fn dirty_disconnect() {
    let mut room = Room::new_at("GZ4KQ".to_string(), None, at(0));
    room.handle_at(from_client(0, hello("a", 1), 1000), at(1000));
    room.handle_at(from_client(1, hello("b", 2), 2000), at(2000));
    let transport = WebsocketTransport::new("cookie-0".to_string(), UserId(0));
    let goodbye = transport.stopped_at(TransportId(100), at(3000));
    assert_eq!(goodbye, from_client(0, UserMessage::Goodbye, 3000));
    let effects = room.handle_at(goodbye, at(3000));
    assert_eq!(
        effects,
        vec![
            Effect::StopPing { user_id: UserId(0) },
            to(1, ToSessionMessage::ByeParticipant { user_id: UserId(0) }),
        ]
    );
    assert!(!room.has_participant(UserId(0)));
    assert!(room.has_participant(UserId(1)));
}
