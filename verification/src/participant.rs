//! One participant of a room.

use crate::effect::{Effect, EffectView};
use crate::protocol::{
    clone_badges, option_view, BadgeId, ParticipantInfo, ParticipantInfoView, ParticipantUpdate,
    ParticipantUpdateView, PlayState, Time, ToSessionMessage, ToSessionMessageView, TransportId,
    UserId,
};
use crate::time::{convert_time, instant_of, span_of, to_span, ClientTime, MediaSpan, ServerTime};
use crate::time_mapping::{TimeMapping, TimeMappingView, TimingInfo};
use vstd::prelude::*;

verus! {

/// A user attached to a room through a live session.
#[derive(Debug, PartialEq, Eq)]
pub struct Participant {
    user_id: UserId,
    name: String,
    avatar: BadgeId,
    badges: Vec<BadgeId>,
    cookie: String,
    duration: MediaSpan,
    duration_time: ClientTime,
    state: PlayState,
    state_time: ClientTime,
    buffered: MediaSpan,
    time: Option<TimingInfo>,
    mapping: Option<TimeMapping>,
    transport: TransportId,
    last_ping: Option<ServerTime>,
}

/// The mathematical content of a [`Participant`]. Instants are nanoseconds
/// since the epoch.
pub struct ParticipantView {
    pub user_id: UserId,
    pub name: Seq<char>,
    pub avatar: BadgeId,
    pub badges: Seq<BadgeId>,
    pub cookie: Seq<char>,
    /// The playback position last reported.
    pub duration: MediaSpan,
    /// The client instant of that report.
    pub duration_time: int,
    /// The play state last reported.
    pub state: PlayState,
    /// The client instant at which that state was set.
    pub state_time: int,
    /// The amount of media buffered, as last reported.
    pub buffered: MediaSpan,
    pub time: Option<TimingInfo>,
    /// Absent until the first reply to a ping has come in.
    pub mapping: Option<TimeMappingView>,
    pub transport: TransportId,
    /// The server instant at which the outstanding ping was sent.
    pub last_ping: Option<int>,
}

/// What stays the same of a participant for as long as they are in the room.
pub struct Identity {
    pub user_id: UserId,
    pub name: Seq<char>,
    pub avatar: BadgeId,
    pub badges: Seq<BadgeId>,
    pub cookie: Seq<char>,
    pub transport: TransportId,
}

impl ParticipantView {
    /// The participant as they are right after joining: paused at the start
    /// of the media, with no mapping and no ping outstanding.
    pub open spec fn joined(
        name: Seq<char>,
        avatar: BadgeId,
        badges: Seq<BadgeId>,
        cookie: Seq<char>,
        user_id: UserId,
        transport: TransportId,
        created: Time,
    ) -> ParticipantView {
        ParticipantView {
            user_id,
            name,
            avatar,
            badges,
            cookie,
            duration: MediaSpan(0),
            duration_time: instant_of(created.0 as int),
            state: PlayState::Pause,
            state_time: instant_of(created.0 as int),
            buffered: MediaSpan(0),
            time: None,
            mapping: None,
            transport,
            last_ping: None,
        }
    }

    /// What stays the same of the participant while they are in the room.
    pub open spec fn identity(self) -> Identity {
        Identity {
            user_id: self.user_id,
            name: self.name,
            avatar: self.avatar,
            badges: self.badges,
            cookie: self.cookie,
            transport: self.transport,
        }
    }

    /// What the members of the room are told of the participant.
    pub open spec fn info(self) -> ParticipantInfoView {
        ParticipantInfoView {
            user_id: self.user_id,
            name: self.name,
            avatar: self.avatar,
            badges: self.badges,
        }
    }

    /// The announcement that the participant has joined.
    pub open spec fn announce_message(self) -> ToSessionMessageView {
        ToSessionMessageView::NewParticipant {
            user_id: self.user_id,
            name: self.name,
            avatar: self.avatar,
            badges: self.badges,
        }
    }

    /// The effect that hands `message` to the participant.
    pub open spec fn delivery(self, message: ToSessionMessageView) -> EffectView {
        EffectView::Deliver { to: self.user_id, transport: self.transport, message }
    }

    /// Where the participant's playback stands at the server instant `now`.
    /// Without a mapping nothing can be said. A paused player stands where it
    /// last reported. A playing one has moved on by the time from that
    /// report, converted to server time, to `now`; that time may be
    /// negative.
    pub open spec fn playing_time(self, now: int) -> Option<MediaSpan> {
        match self.mapping {
            None => None,
            Some(mapping) => if self.state == PlayState::Pause {
                Some(self.duration)
            } else {
                let anchor = mapping.convert(self.duration_time);
                Some(self.duration.spec_plus(span_of(now - anchor).0 as int))
            },
        }
    }

    /// The participant's entry in a room update made at `now`, if they have
    /// a mapping.
    pub open spec fn update(self, now: int) -> Option<ParticipantUpdateView> {
        match self.playing_time(now) {
            None => None,
            Some(duration) => Some(
                ParticipantUpdateView {
                    user_id: self.user_id,
                    duration,
                    buffered: self.buffered,
                    state: self.state,
                    badges: self.badges,
                },
            ),
        }
    }

    /// The participant after a ping was sent to them at `now`.
    pub open spec fn pinged(self, now: int) -> ParticipantView {
        ParticipantView { last_ping: Some(now), ..self }
    }

    /// The participant after their report arrived at `server_time`. The
    /// report replaces position, play state and buffered amount. If a ping
    /// is outstanding the report also yields a new mapping: requested when
    /// the ping was sent, captured at `server_time` on the server and at
    /// `time` on the client.
    pub open spec fn reported(
        self,
        server_time: int,
        duration: MediaSpan,
        duration_time: Time,
        state: PlayState,
        state_time: Time,
        buffered: MediaSpan,
        time: Time,
    ) -> ParticipantView {
        ParticipantView {
            duration,
            duration_time: instant_of(duration_time.0 as int),
            state,
            state_time: instant_of(state_time.0 as int),
            buffered,
            mapping: match self.last_ping {
                Some(ping_time) => Some(
                    TimeMappingView {
                        requested_time: ping_time,
                        server_time,
                        client_time: instant_of(time.0 as int),
                    },
                ),
                None => self.mapping,
            },
            ..self
        }
    }
}

impl View for Participant {
    type V = ParticipantView;

    closed spec fn view(&self) -> ParticipantView {
        ParticipantView {
            user_id: self.user_id,
            name: self.name@,
            avatar: self.avatar,
            badges: self.badges@,
            cookie: self.cookie@,
            duration: self.duration,
            duration_time: self.duration_time@,
            state: self.state,
            state_time: self.state_time@,
            buffered: self.buffered,
            time: self.time,
            mapping: match self.mapping {
                Some(mapping) => Some(mapping@),
                None => None,
            },
            transport: self.transport,
            last_ping: match self.last_ping {
                Some(ping_time) => Some(ping_time@),
                None => None,
            },
        }
    }
}

impl Participant {
    /// A participant who joins at the client instant `created`.
    pub fn new(
        name: String,
        avatar: BadgeId,
        badges: Vec<BadgeId>,
        cookie: String,
        user_id: UserId,
        transport: TransportId,
        created: Time,
    ) -> (participant: Self)
        ensures
            participant@ == ParticipantView::joined(
                name@,
                avatar,
                badges@,
                cookie@,
                user_id,
                transport,
                created,
            ),
    {
        let created = ClientTime(convert_time(created));
        Self {
            user_id,
            name,
            avatar,
            badges,
            cookie,
            duration: MediaSpan(0),
            duration_time: created,
            state: PlayState::Pause,
            state_time: created,
            buffered: MediaSpan(0),
            time: None,
            mapping: None,
            transport,
            last_ping: None,
        }
    }

    /// The identifier under which the participant is in the room.
    pub fn user_id(&self) -> (user_id: UserId)
        ensures
            user_id == self@.user_id,
    {
        self.user_id
    }

    /// The mapping of the participant's clock, once a reply to a ping has
    /// come in.
    pub fn mapping(&self) -> (mapping: Option<TimeMapping>)
        ensures
            option_view(mapping) == self@.mapping,
    {
        self.mapping
    }

    /// What the members of the room are told of the participant.
    pub fn info(&self) -> (info: ParticipantInfo)
        ensures
            info@ == self@.info(),
    {
        ParticipantInfo {
            user_id: self.user_id,
            name: self.name.clone(),
            avatar: self.avatar,
            badges: clone_badges(&self.badges),
        }
    }

    /// The announcement that the participant has joined.
    pub fn get_announce_message(&self) -> (message: ToSessionMessage)
        ensures
            message@ == self@.announce_message(),
    {
        ToSessionMessage::NewParticipant {
            user_id: self.user_id,
            name: self.name.clone(),
            avatar: self.avatar,
            badges: clone_badges(&self.badges),
        }
    }

    /// The effect that hands `message` to the participant's transport.
    pub fn send_message(&self, message: ToSessionMessage) -> (effect: Effect)
        ensures
            effect@ == self@.delivery(message@),
    {
        Effect::Deliver { to: self.user_id, transport: self.transport, message }
    }

    /// Where the participant's playback stands at `at_time`, if they have a
    /// mapping.
    pub fn get_playing_time(&self, at_time: ServerTime) -> (position: Option<MediaSpan>)
        ensures
            position == self@.playing_time(at_time@),
    {
        match &self.mapping {
            None => None,
            Some(mapping) => {
                if self.state == PlayState::Pause {
                    Some(self.duration)
                } else {
                    let anchor = mapping.convert(self.duration_time);
                    let since = at_time.0.since(&anchor.0);
                    Some(self.duration.plus(to_span(since)))
                }
            },
        }
    }

    /// The participant's entry in a room update made at `now`, if they have
    /// a mapping.
    pub fn get_update(&self, now: ServerTime) -> (update: Option<ParticipantUpdate>)
        ensures
            option_view(update) == self@.update(now@),
    {
        match self.get_playing_time(now) {
            None => None,
            Some(duration) => Some(
                ParticipantUpdate {
                    user_id: self.user_id,
                    duration,
                    buffered: self.buffered,
                    state: self.state,
                    badges: clone_badges(&self.badges),
                },
            ),
        }
    }

    /// Records that a ping leaves for the participant at `now` and yields
    /// the effect that delivers it.
    pub fn send_ping(&mut self, _ping_id: u32, now: ServerTime) -> (effect: Effect)
        ensures
            final(self)@ == old(self)@.pinged(now@),
            effect@ == old(self)@.delivery(ToSessionMessageView::Ping),
    {
        self.last_ping = Some(now);
        Effect::Deliver {
            to: self.user_id,
            transport: self.transport,
            message: ToSessionMessage::Ping,
        }
    }

    /// Takes in the participant's report of their player, received at
    /// `server_time`.
    pub fn receive_state(
        &mut self,
        server_time: ServerTime,
        duration: MediaSpan,
        duration_time: Time,
        state: PlayState,
        state_time: Time,
        buffered: MediaSpan,
        time: Time,
    )
        ensures
            final(self)@ == old(self)@.reported(
                server_time@,
                duration,
                duration_time,
                state,
                state_time,
                buffered,
                time,
            ),
    {
        self.duration = duration;
        self.duration_time = ClientTime(convert_time(duration_time));
        self.state = state;
        self.state_time = ClientTime(convert_time(state_time));
        self.buffered = buffered;
        match self.last_ping {
            Some(ping_time) => {
                let client_time = ClientTime(convert_time(time));
                self.mapping = Some(TimeMapping::new(ping_time, server_time, client_time));
            },
            None => {},
        }
    }
}

} // verus!
