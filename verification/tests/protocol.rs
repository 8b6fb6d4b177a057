use watch_room::media::{MediaStream, StreamMetadata};
use watch_room::protocol::{
    clone_badges, clone_infos, clone_streams, clone_updates, BadgeId, ChatMessage,
    ParticipantInfo, ParticipantUpdate, PlayState, Stream, StreamInfo, ToSessionMessage, UserId,
};
use watch_room::time::MediaSpan;

fn some_info() -> ParticipantInfo {
    ParticipantInfo {
        user_id: UserId(3),
        name: "carl".to_string(),
        avatar: BadgeId(2),
        badges: vec![BadgeId(8), BadgeId(4)],
    }
}

fn some_update() -> ParticipantUpdate {
    ParticipantUpdate {
        user_id: UserId(3),
        duration: MediaSpan(1_250),
        buffered: MediaSpan(30_000),
        state: PlayState::Play,
        badges: vec![BadgeId(8)],
    }
}

fn some_stream_info() -> StreamInfo {
    StreamInfo {
        slug: "slug".to_string(),
        name: "Name".to_string(),
        streams: vec![
            Stream { quality: 1080, playlist: "1080.m3u8".to_string() },
            Stream { quality: 480, playlist: "480.m3u8".to_string() },
        ],
        duration: MediaSpan(-5),
        state: PlayState::Pause,
    }
}

#[test]
fn lists_are_copied_item_by_item() {
    assert_eq!(clone_badges(&vec![]), vec![]);
    assert_eq!(
        clone_badges(&vec![BadgeId(1), BadgeId(1), BadgeId(9)]),
        vec![BadgeId(1), BadgeId(1), BadgeId(9)]
    );
    assert_eq!(clone_infos(&vec![some_info(), some_info()]), vec![some_info(), some_info()]);
    assert_eq!(clone_updates(&vec![some_update()]), vec![some_update()]);
    assert_eq!(clone_streams(&some_stream_info().streams), some_stream_info().streams);
}

#[test]
fn copies_of_values_are_equal_to_them() {
    assert_eq!(some_info().clone(), some_info());
    assert_eq!(some_update().clone(), some_update());
    assert_eq!(some_stream_info().clone(), some_stream_info());
    let chat = ChatMessage { from: UserId(1), msg: "hi".to_string() };
    assert_eq!(chat.clone(), chat);
}

#[test]
fn copies_of_messages_are_equal_to_them() {
    let messages = vec![
        ToSessionMessage::RoomState {
            user_id: UserId(3),
            participants: vec![some_info()],
            current_stream: Some(some_stream_info()),
        },
        ToSessionMessage::RoomState {
            user_id: UserId(3),
            participants: vec![],
            current_stream: None,
        },
        ToSessionMessage::RoomUpdate { participants: vec![some_update(), some_update()] },
        ToSessionMessage::NewParticipant {
            user_id: UserId(3),
            name: "carl".to_string(),
            avatar: BadgeId(2),
            badges: vec![BadgeId(8)],
        },
        ToSessionMessage::ByeParticipant { user_id: UserId(3) },
        ToSessionMessage::NewStream(some_stream_info()),
        ToSessionMessage::SetState { user: UserId(3), state: PlayState::Play },
        ToSessionMessage::DoSeek { user: UserId(3), duration: MediaSpan(120_000) },
        ToSessionMessage::Ping,
        ToSessionMessage::ChatMessage(ChatMessage { from: UserId(1), msg: "hi".to_string() }),
        ToSessionMessage::Error("bad".to_string()),
    ];
    for message in &messages {
        assert_eq!(message.clone(), *message);
    }
}

#[test]
fn media_stream_describes_itself_to_a_newcomer() {
    let stream = MediaStream {
        slug: "slug".to_string(),
        name: "Name".to_string(),
        streams: vec![
            Stream { quality: 1080, playlist: "1080.m3u8".to_string() },
            Stream { quality: 480, playlist: "480.m3u8".to_string() },
        ],
        meta: StreamMetadata {
            title: "Title".to_string(),
            duration: "2h".to_string(),
            imdb: Some("https://www.imdb.com/title/tt0000001/".to_string()),
        },
    };
    assert_eq!(stream.clone(), stream);
    assert_eq!(stream.meta.clone(), stream.meta);
    assert_eq!(stream.to_stream_info(MediaSpan(-5), PlayState::Pause), some_stream_info());
}
