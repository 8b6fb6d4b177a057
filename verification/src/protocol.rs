//! The messages that clients and the server exchange, and the plain values
//! they are made of.

use crate::seq_facts::{lemma_take_next, lemma_views_push};
use crate::time::{MediaSpan, ServerTime};
use vstd::prelude::*;

verus! {

/// A badge of the catalog: the name of its icon and the text shown with it.
#[derive(Debug, Clone, Copy, PartialEq, Eq)]
pub struct BadgeData {
    pub name: &'static str,
    pub tooltip: &'static str,
}

impl BadgeData {
    /// A catalog entry with the given icon name and tooltip.
    pub fn new(name: &'static str, tooltip: &'static str) -> (badge: Self)
        ensures
            badge == (BadgeData { name, tooltip }),
    {
        BadgeData { name, tooltip }
    }
}

/// Identifier for a badge, used to display some status for a user.
#[derive(Debug, Clone, Copy, PartialEq, Eq, Structural)]
pub struct BadgeId(pub u32);

/// Unique identifier for a user. Handed out by the server.
#[derive(Debug, Clone, Copy, PartialEq, Eq, Structural)]
pub struct UserId(pub u32);

/// Handle of the session transport through which one client is reached. The
/// room never looks inside it: it stores the handle on `Hello` and names it
/// in every delivery.
#[derive(Debug, Clone, Copy, PartialEq, Eq, Structural)]
pub struct TransportId(pub u64);

/// Milliseconds since the Unix epoch, as a client writes them on the wire.
#[derive(Debug, Clone, Copy, PartialEq, Eq, Structural)]
pub struct Time(pub i64);

/// The state the media player can be in.
#[derive(Debug, Clone, Copy, PartialEq, Eq, Structural)]
pub enum PlayState {
    Play,
    Pause,
}

/// The views of the items of `s`, in the same order.
pub open spec fn views<T: View>(s: Seq<T>) -> Seq<T::V> {
    Seq::new(s.len(), |i: int| s[i]@)
}

/// The view of an optional value.
pub open spec fn option_view<T: View>(o: Option<T>) -> Option<T::V> {
    match o {
        Some(x) => Some(x@),
        None => None,
    }
}

/// Copies a list of badges.
pub fn clone_badges(badges: &Vec<BadgeId>) -> (copy: Vec<BadgeId>)
    ensures
        copy@ == badges@,
{
    let mut copy: Vec<BadgeId> = Vec::new();
    let mut i: usize = 0;
    while i < badges.len()
        invariant
            i <= badges.len(),
            copy@ == badges@.take(i as int),
        decreases badges.len() - i,
    {
        copy.push(badges[i]);
        i = i + 1;
    }
    copy
}

/// What every member of a room is told of a participant.
#[derive(Debug, PartialEq, Eq)]
pub struct ParticipantInfo {
    pub user_id: UserId,
    pub name: String,
    pub avatar: BadgeId,
    pub badges: Vec<BadgeId>,
}

/// The mathematical content of a [`ParticipantInfo`].
pub struct ParticipantInfoView {
    pub user_id: UserId,
    pub name: Seq<char>,
    pub avatar: BadgeId,
    pub badges: Seq<BadgeId>,
}

impl View for ParticipantInfo {
    type V = ParticipantInfoView;

    open spec fn view(&self) -> ParticipantInfoView {
        ParticipantInfoView {
            user_id: self.user_id,
            name: self.name@,
            avatar: self.avatar,
            badges: self.badges@,
        }
    }
}

impl Clone for ParticipantInfo {
    fn clone(&self) -> (copy: Self)
        ensures
            copy@ == self@,
    {
        ParticipantInfo {
            user_id: self.user_id,
            name: self.name.clone(),
            avatar: self.avatar,
            badges: clone_badges(&self.badges),
        }
    }
}

/// The projected playback of one participant, as broadcast to the room.
#[derive(Debug, PartialEq, Eq)]
pub struct ParticipantUpdate {
    pub user_id: UserId,
    pub duration: MediaSpan,
    pub buffered: MediaSpan,
    pub state: PlayState,
    pub badges: Vec<BadgeId>,
}

/// The mathematical content of a [`ParticipantUpdate`].
pub struct ParticipantUpdateView {
    pub user_id: UserId,
    pub duration: MediaSpan,
    pub buffered: MediaSpan,
    pub state: PlayState,
    pub badges: Seq<BadgeId>,
}

impl View for ParticipantUpdate {
    type V = ParticipantUpdateView;

    open spec fn view(&self) -> ParticipantUpdateView {
        ParticipantUpdateView {
            user_id: self.user_id,
            duration: self.duration,
            buffered: self.buffered,
            state: self.state,
            badges: self.badges@,
        }
    }
}

impl Clone for ParticipantUpdate {
    fn clone(&self) -> (copy: Self)
        ensures
            copy@ == self@,
    {
        ParticipantUpdate {
            user_id: self.user_id,
            duration: self.duration,
            buffered: self.buffered,
            state: self.state,
            badges: clone_badges(&self.badges),
        }
    }
}

/// Copies a list of participant descriptions.
pub fn clone_infos(infos: &Vec<ParticipantInfo>) -> (copy: Vec<ParticipantInfo>)
    ensures
        views(copy@) == views(infos@),
{
    let mut copy: Vec<ParticipantInfo> = Vec::new();
    let mut i: usize = 0;
    while i < infos.len()
        invariant
            i <= infos.len(),
            views(copy@) == views(infos@.take(i as int)),
        decreases infos.len() - i,
    {
        let item = infos[i].clone();
        proof {
            lemma_views_push(copy@, item);
            lemma_views_push(infos@.take(i as int), infos@[i as int]);
            lemma_take_next(infos@, i as int);
        }
        copy.push(item);
        i = i + 1;
    }
    assert(infos@.take(infos.len() as int) =~= infos@);
    copy
}

/// Copies a list of participant updates.
pub fn clone_updates(updates: &Vec<ParticipantUpdate>) -> (copy: Vec<ParticipantUpdate>)
    ensures
        views(copy@) == views(updates@),
{
    let mut copy: Vec<ParticipantUpdate> = Vec::new();
    let mut i: usize = 0;
    while i < updates.len()
        invariant
            i <= updates.len(),
            views(copy@) == views(updates@.take(i as int)),
        decreases updates.len() - i,
    {
        let item = updates[i].clone();
        proof {
            lemma_views_push(copy@, item);
            lemma_views_push(updates@.take(i as int), updates@[i as int]);
            lemma_take_next(updates@, i as int);
        }
        copy.push(item);
        i = i + 1;
    }
    assert(updates@.take(updates.len() as int) =~= updates@);
    copy
}

/// The announcement of a participant who has just joined.
#[derive(Debug, PartialEq, Eq)]
pub struct NewParticipant {
    pub user_id: UserId,
    pub name: String,
    pub avatar: BadgeId,
    pub badges: Vec<BadgeId>,
}

/// A line of chat. The wire format carries it; the room does not route it.
#[derive(Debug, PartialEq, Eq)]
pub struct ChatMessage {
    pub from: UserId,
    pub msg: String,
}

/// The mathematical content of a [`ChatMessage`].
pub struct ChatMessageView {
    pub from: UserId,
    pub msg: Seq<char>,
}

impl View for ChatMessage {
    type V = ChatMessageView;

    open spec fn view(&self) -> ChatMessageView {
        ChatMessageView { from: self.from, msg: self.msg@ }
    }
}

impl Clone for ChatMessage {
    fn clone(&self) -> (copy: Self)
        ensures
            copy@ == self@,
    {
        ChatMessage { from: self.from, msg: self.msg.clone() }
    }
}

/// One rendition of a media stream: a sortable quality number and the file
/// name of its HLS playlist.
#[derive(Debug, PartialEq, Eq)]
pub struct Stream {
    pub quality: u32,
    pub playlist: String,
}

/// The mathematical content of a [`Stream`].
pub struct StreamView {
    pub quality: u32,
    pub playlist: Seq<char>,
}

impl View for Stream {
    type V = StreamView;

    open spec fn view(&self) -> StreamView {
        StreamView { quality: self.quality, playlist: self.playlist@ }
    }
}

impl Clone for Stream {
    fn clone(&self) -> (copy: Self)
        ensures
            copy@ == self@,
    {
        Stream { quality: self.quality, playlist: self.playlist.clone() }
    }
}

/// Copies a list of renditions.
pub fn clone_streams(streams: &Vec<Stream>) -> (copy: Vec<Stream>)
    ensures
        views(copy@) == views(streams@),
{
    let mut copy: Vec<Stream> = Vec::new();
    let mut i: usize = 0;
    while i < streams.len()
        invariant
            i <= streams.len(),
            views(copy@) == views(streams@.take(i as int)),
        decreases streams.len() - i,
    {
        let item = streams[i].clone();
        proof {
            lemma_views_push(copy@, item);
            lemma_views_push(streams@.take(i as int), streams@[i as int]);
            lemma_take_next(streams@, i as int);
        }
        copy.push(item);
        i = i + 1;
    }
    assert(streams@.take(streams.len() as int) =~= streams@);
    copy
}

/// A media stream as a joining participant is told of it: the directory slug
/// of its data, its renditions, and where and how the room is playing it.
#[derive(Debug, PartialEq, Eq)]
pub struct StreamInfo {
    pub slug: String,
    pub name: String,
    pub streams: Vec<Stream>,
    pub duration: MediaSpan,
    pub state: PlayState,
}

/// The mathematical content of a [`StreamInfo`].
pub struct StreamInfoView {
    pub slug: Seq<char>,
    pub name: Seq<char>,
    pub streams: Seq<StreamView>,
    pub duration: MediaSpan,
    pub state: PlayState,
}

impl View for StreamInfo {
    type V = StreamInfoView;

    open spec fn view(&self) -> StreamInfoView {
        StreamInfoView {
            slug: self.slug@,
            name: self.name@,
            streams: views(self.streams@),
            duration: self.duration,
            state: self.state,
        }
    }
}

impl Clone for StreamInfo {
    fn clone(&self) -> (copy: Self)
        ensures
            copy@ == self@,
    {
        StreamInfo {
            slug: self.slug.clone(),
            name: self.name.clone(),
            streams: clone_streams(&self.streams),
            duration: self.duration,
            state: self.state,
        }
    }
}

/// A message from the room to one session.
#[allow(inconsistent_fields)]
#[derive(Debug, PartialEq, Eq)]
pub enum ToSessionMessage {
    /// Initial payload describing how the room looks like.
    RoomState {
        user_id: UserId,
        participants: Vec<ParticipantInfo>,
        current_stream: Option<StreamInfo>,
    },
    /// The projected playback of every participant whose clock is known.
    RoomUpdate { participants: Vec<ParticipantUpdate> },
    NewParticipant { user_id: UserId, name: String, avatar: BadgeId, badges: Vec<BadgeId> },
    ByeParticipant { user_id: UserId },
    NewStream(StreamInfo),
    SetState { user: UserId, state: PlayState },
    DoSeek { user: UserId, duration: MediaSpan },
    Ping,
    ChatMessage(ChatMessage),
    Error(String),
}

/// The mathematical content of a [`ToSessionMessage`].
#[allow(inconsistent_fields)]
pub enum ToSessionMessageView {
    RoomState {
        user_id: UserId,
        participants: Seq<ParticipantInfoView>,
        current_stream: Option<StreamInfoView>,
    },
    RoomUpdate { participants: Seq<ParticipantUpdateView> },
    NewParticipant { user_id: UserId, name: Seq<char>, avatar: BadgeId, badges: Seq<BadgeId> },
    ByeParticipant { user_id: UserId },
    NewStream(StreamInfoView),
    SetState { user: UserId, state: PlayState },
    DoSeek { user: UserId, duration: MediaSpan },
    Ping,
    ChatMessage(ChatMessageView),
    Error(Seq<char>),
}

impl View for ToSessionMessage {
    type V = ToSessionMessageView;

    open spec fn view(&self) -> ToSessionMessageView {
        match *self {
            ToSessionMessage::RoomState { user_id, participants, current_stream } => {
                ToSessionMessageView::RoomState {
                    user_id,
                    participants: views(participants@),
                    current_stream: option_view(current_stream),
                }
            },
            ToSessionMessage::RoomUpdate { participants } => ToSessionMessageView::RoomUpdate {
                participants: views(participants@),
            },
            ToSessionMessage::NewParticipant { user_id, name, avatar, badges } => {
                ToSessionMessageView::NewParticipant {
                    user_id,
                    name: name@,
                    avatar,
                    badges: badges@,
                }
            },
            ToSessionMessage::ByeParticipant { user_id } => ToSessionMessageView::ByeParticipant {
                user_id,
            },
            ToSessionMessage::NewStream(info) => ToSessionMessageView::NewStream(info@),
            ToSessionMessage::SetState { user, state } => ToSessionMessageView::SetState {
                user,
                state,
            },
            ToSessionMessage::DoSeek { user, duration } => ToSessionMessageView::DoSeek {
                user,
                duration,
            },
            ToSessionMessage::Ping => ToSessionMessageView::Ping,
            ToSessionMessage::ChatMessage(chat) => ToSessionMessageView::ChatMessage(chat@),
            ToSessionMessage::Error(text) => ToSessionMessageView::Error(text@),
        }
    }
}

impl Clone for ToSessionMessage {
    fn clone(&self) -> (copy: Self)
        ensures
            copy@ == self@,
    {
        match self {
            ToSessionMessage::RoomState { user_id, participants, current_stream } => {
                let stream = match current_stream {
                    Some(info) => Some(info.clone()),
                    None => None,
                };
                ToSessionMessage::RoomState {
                    user_id: *user_id,
                    participants: clone_infos(participants),
                    current_stream: stream,
                }
            },
            ToSessionMessage::RoomUpdate { participants } => ToSessionMessage::RoomUpdate {
                participants: clone_updates(participants),
            },
            ToSessionMessage::NewParticipant { user_id, name, avatar, badges } => {
                ToSessionMessage::NewParticipant {
                    user_id: *user_id,
                    name: name.clone(),
                    avatar: *avatar,
                    badges: clone_badges(badges),
                }
            },
            ToSessionMessage::ByeParticipant { user_id } => ToSessionMessage::ByeParticipant {
                user_id: *user_id,
            },
            ToSessionMessage::NewStream(info) => ToSessionMessage::NewStream(info.clone()),
            ToSessionMessage::SetState { user, state } => ToSessionMessage::SetState {
                user: *user,
                state: *state,
            },
            ToSessionMessage::DoSeek { user, duration } => ToSessionMessage::DoSeek {
                user: *user,
                duration: *duration,
            },
            ToSessionMessage::Ping => ToSessionMessage::Ping,
            ToSessionMessage::ChatMessage(chat) => ToSessionMessage::ChatMessage(chat.clone()),
            ToSessionMessage::Error(text) => ToSessionMessage::Error(text.clone()),
        }
    }
}

/// A message sent by the user to the server.
#[derive(Debug, PartialEq, Eq)]
pub enum UserMessage {
    /// First message sent by a user, indicating their name.
    Hello { name: String, avatar: BadgeId, time: Time },
    /// User has left the room.
    Goodbye,
    /// The state of how the user's player looks like. This is sent as a
    /// response to a server ping and whenever the position or the play state
    /// changes unexpectedly (for instance while buffering).
    State {
        /// The current position in the user's media.
        duration: MediaSpan,
        /// The time when that position was last updated.
        duration_time: Time,
        /// The current state of the user's media.
        state: PlayState,
        /// Time when the play state was set.
        state_time: Time,
        /// Amount of media buffered past the current position.
        buffered: MediaSpan,
        /// Time when the state was sent by the user.
        time: Time,
    },
    /// A user request to seek in the current media.
    Seek {
        /// The position the user wants to seek to.
        duration: MediaSpan,
        /// The time when the message was sent by the user.
        time: Time,
    },
    /// A user request to set the playing state of the current media.
    SetState {
        /// The state the user wants to change to.
        state: PlayState,
        /// The time when the message was sent by the user.
        time: Time,
    },
}

/// The mathematical content of a [`UserMessage`].
pub enum UserMessageView {
    Hello { name: Seq<char>, avatar: BadgeId, time: Time },
    Goodbye,
    State {
        duration: MediaSpan,
        duration_time: Time,
        state: PlayState,
        state_time: Time,
        buffered: MediaSpan,
        time: Time,
    },
    Seek { duration: MediaSpan, time: Time },
    SetState { state: PlayState, time: Time },
}

impl View for UserMessage {
    type V = UserMessageView;

    open spec fn view(&self) -> UserMessageView {
        match *self {
            UserMessage::Hello { name, avatar, time } => UserMessageView::Hello {
                name: name@,
                avatar,
                time,
            },
            UserMessage::Goodbye => UserMessageView::Goodbye,
            UserMessage::State { duration, duration_time, state, state_time, buffered, time } => {
                UserMessageView::State {
                    duration,
                    duration_time,
                    state,
                    state_time,
                    buffered,
                    time,
                }
            },
            UserMessage::Seek { duration, time } => UserMessageView::Seek { duration, time },
            UserMessage::SetState { state, time } => UserMessageView::SetState { state, time },
        }
    }
}

/// A user message on its way to the room, with what the session transport
/// knows of its sender.
#[derive(Debug, PartialEq, Eq)]
pub struct ClientMessage {
    /// Who sent the message.
    pub from: UserId,
    /// User cookie.
    pub cookie: String,
    /// The transport that replies can be sent to.
    pub addr: TransportId,
    /// The actual message.
    pub message: UserMessage,
    /// When the message was received on the server.
    pub server_time: ServerTime,
}

/// The mathematical content of a [`ClientMessage`].
pub struct ClientMessageView {
    pub from: UserId,
    pub cookie: Seq<char>,
    pub addr: TransportId,
    pub message: UserMessageView,
    pub server_time: int,
}

impl View for ClientMessage {
    type V = ClientMessageView;

    open spec fn view(&self) -> ClientMessageView {
        ClientMessageView {
            from: self.from,
            cookie: self.cookie@,
            addr: self.addr,
            message: self.message@,
            server_time: self.server_time@,
        }
    }
}

} // verus!
