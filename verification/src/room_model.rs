//! The room as a mathematical state machine.
//!
//! A [`RoomView`] is the state of a room; each function below says what one
//! input makes of a state: the state that follows and the effects that leave
//! the room, in order. Instants are nanoseconds since the epoch.

use crate::badges::awarded_badges;
use crate::effect::EffectView;
use crate::media::{MediaStreamView, RoomMetadataView};
use crate::participant::{Identity, ParticipantView};
use crate::protocol::{
    BadgeId, ClientMessageView, ParticipantInfoView, ParticipantUpdateView, PlayState, Time,
    ToSessionMessageView, TransportId, UserId, UserMessageView,
};
use crate::seq_facts::{lemma_filter_all, lemma_filter_empty, lemma_filter_next};
use crate::time::{instant_of, span_of, MediaSpan};
use crate::time_mapping::TimeMappingView;
use vstd::prelude::*;

verus! {

/// Whether some member has the identifier `user_id`.
pub open spec fn present(members: Seq<ParticipantView>, user_id: UserId) -> bool {
    exists|i: int| 0 <= i < members.len() && (#[trigger] members[i]).user_id == user_id
}

/// Whether some member has the identifier `user_id` and is reached through
/// `transport`.
pub open spec fn reached_through(
    members: Seq<ParticipantView>,
    user_id: UserId,
    transport: TransportId,
) -> bool {
    exists|i: int|
        0 <= i < members.len() && (#[trigger] members[i]).user_id == user_id
            && members[i].transport == transport
}

/// Whether the first member with the identifier `user_id` stands at `i`.
pub open spec fn first_at(members: Seq<ParticipantView>, user_id: UserId, i: int) -> bool {
    &&& 0 <= i < members.len()
    &&& members[i].user_id == user_id
    &&& forall|j: int| 0 <= j < i ==> (#[trigger] members[j]).user_id != user_id
}

/// The place of the first member with the identifier `user_id`, if there is
/// one.
pub open spec fn place_of(members: Seq<ParticipantView>, user_id: UserId) -> int {
    choose|i: int| first_at(members, user_id, i)
}

/// The test that a member does not have the identifier `user_id`.
pub open spec fn is_not(user_id: UserId) -> spec_fn(ParticipantView) -> bool {
    |p: ParticipantView| p.user_id != user_id
}

/// The test that a member is reached when `except` is left out.
pub open spec fn is_other(except: Option<UserId>) -> spec_fn(ParticipantView) -> bool {
    |p: ParticipantView| Some(p.user_id) != except
}

/// The test that a member has a mapping.
pub open spec fn has_mapping() -> spec_fn(ParticipantView) -> bool {
    |p: ParticipantView| p.mapping is Some
}

/// The members without those that have the identifier `user_id`.
pub open spec fn without(members: Seq<ParticipantView>, user_id: UserId) -> Seq<ParticipantView> {
    members.filter(is_not(user_id))
}

/// The members that a message reaches when `except` is left out.
pub open spec fn others(members: Seq<ParticipantView>, except: Option<UserId>) -> Seq<
    ParticipantView,
> {
    members.filter(is_other(except))
}

/// The delivery of `message` to every member but `except`, in the order of
/// the members.
pub open spec fn fan_out(
    members: Seq<ParticipantView>,
    except: Option<UserId>,
    message: ToSessionMessageView,
) -> Seq<EffectView> {
    others(members, except).map_values(|p: ParticipantView| p.delivery(message))
}

/// What a joining participant is told of each member.
pub open spec fn infos(members: Seq<ParticipantView>) -> Seq<ParticipantInfoView> {
    members.map_values(|p: ParticipantView| p.info())
}

/// The projected playback at `now` of every member that has a mapping.
pub open spec fn room_updates(members: Seq<ParticipantView>, now: int) -> Seq<
    ParticipantUpdateView,
> {
    members.filter(has_mapping()).map_values(|p: ParticipantView| p.update(now)->0)
}

/// The identities of the members, in order.
pub open spec fn identities(members: Seq<ParticipantView>) -> Seq<Identity> {
    members.map_values(|p: ParticipantView| p.identity())
}

/// Whether no two members share an identifier.
pub open spec fn distinct(members: Seq<ParticipantView>) -> bool {
    forall|i: int, j: int|
        0 <= i < j < members.len() ==> (#[trigger] members[i]).user_id != (
        #[trigger] members[j]).user_id
}

/// The state of a room.
pub struct RoomView {
    pub name: Seq<char>,
    /// The identifier handed out for each cookie that ever asked for one.
    pub cookies: Map<Seq<char>, UserId>,
    pub participants: Seq<ParticipantView>,
    /// The next identifier to hand out.
    pub free_user_id: u32,
    pub current_stream: Option<MediaStreamView>,
    pub room_state: PlayState,
    /// The server instant of the last change of play state.
    pub state_set: int,
    /// The server instant at which `duration` was last anchored.
    pub position_set: int,
    /// The playback position of the room as of `position_set`.
    pub duration: MediaSpan,
}

impl RoomView {
    /// A room created at `now`: empty, paused at the start of its stream.
    pub open spec fn created(
        name: Seq<char>,
        stream: Option<MediaStreamView>,
        now: int,
    ) -> RoomView {
        RoomView {
            name,
            cookies: Map::empty(),
            participants: Seq::empty(),
            free_user_id: 0,
            current_stream: stream,
            room_state: PlayState::Pause,
            state_set: now,
            position_set: now,
            duration: MediaSpan(0),
        }
    }

    /// No two participants share an identifier.
    pub open spec fn distinct_participants(self) -> bool {
        distinct(self.participants)
    }

    /// Every identifier handed out is below the next one to hand out, and no
    /// two cookies were handed the same identifier.
    pub open spec fn distinct_cookies(self) -> bool {
        &&& forall|c: Seq<char>| #[trigger]
            self.cookies.contains_key(c) ==> self.cookies[c].0 < self.free_user_id
        &&& forall|c: Seq<char>, d: Seq<char>|
            #![trigger self.cookies[c], self.cookies[d]]
            self.cookies.contains_key(c) && self.cookies.contains_key(d) && c != d
                ==> self.cookies[c] != self.cookies[d]
    }

    /// The invariant of a room.
    pub open spec fn wf(self) -> bool {
        self.distinct_participants() && self.distinct_cookies()
    }

    /// The identifier of the user with the cookie `cookie`, and the state
    /// after it was asked for. A cookie seen before keeps its identifier. A
    /// new cookie is handed the next free one; when none is left it gets
    /// none and the state stays as it is.
    pub open spec fn user_id_for(self, cookie: Seq<char>) -> (RoomView, Option<UserId>) {
        if self.cookies.contains_key(cookie) {
            (self, Some(self.cookies[cookie]))
        } else if self.free_user_id < u32::MAX {
            (
                RoomView {
                    cookies: self.cookies.insert(cookie, UserId(self.free_user_id)),
                    free_user_id: (self.free_user_id + 1) as u32,
                    ..self
                },
                Some(UserId(self.free_user_id)),
            )
        } else {
            (self, None)
        }
    }

    /// The name of the room and what is shown of its stream, if it has one.
    pub open spec fn meta(self) -> Option<RoomMetadataView> {
        match self.current_stream {
            Some(stream) => Some(RoomMetadataView { name: self.name, stream: stream.meta }),
            None => None,
        }
    }

    /// The mapping of the first participant with the identifier `user_id`.
    pub open spec fn mapping_of(self, user_id: UserId) -> Option<TimeMappingView> {
        if present(self.participants, user_id) {
            self.participants[place_of(self.participants, user_id)].mapping
        } else {
            None
        }
    }

    /// Where the room's stream stands at `now`. A paused room holds at its
    /// anchored position plus the time from the anchor to the pause. A
    /// playing room has moved on from its position by the time since the
    /// last change of play state.
    pub open spec fn stream_position(self, now: int) -> MediaSpan {
        if self.room_state == PlayState::Pause {
            self.duration.spec_plus(span_of(self.state_set - self.position_set).0 as int)
        } else {
            self.duration.spec_plus(span_of(now - self.state_set).0 as int)
        }
    }

    /// What the participant `user_id` is told of the room at `now`: who is
    /// in it and where its stream stands.
    pub open spec fn state_for(self, user_id: UserId, now: int) -> ToSessionMessageView {
        ToSessionMessageView::RoomState {
            user_id,
            participants: infos(self.participants),
            current_stream: match self.current_stream {
                Some(stream) => Some(
                    stream.to_stream_info(self.stream_position(now), self.room_state),
                ),
                None => None,
            },
        }
    }

    /// A participant joins at `now`. Whoever was in the room under the same
    /// identifier is taken out first and their ping driver stopped. The
    /// others are told of the newcomer; the newcomer is told of the room,
    /// themselves included, and their ping driver is started.
    pub open spec fn joined(
        self,
        name: Seq<char>,
        avatar: BadgeId,
        cookie: Seq<char>,
        user_id: UserId,
        transport: TransportId,
        time: Time,
        now: int,
    ) -> (RoomView, Seq<EffectView>) {
        let newcomer = ParticipantView::joined(
            name,
            avatar,
            awarded_badges(user_id, name),
            cookie,
            user_id,
            transport,
            time,
        );
        let kept = without(self.participants, user_id);
        let stops = if present(self.participants, user_id) {
            seq![EffectView::StopPing { user_id }]
        } else {
            Seq::empty()
        };
        let next = RoomView { participants: kept.push(newcomer), ..self };
        (
            next,
            stops + fan_out(kept, None, newcomer.announce_message()) + seq![
                newcomer.delivery(next.state_for(user_id, now)),
                EffectView::StartPing { user_id },
            ],
        )
    }

    /// The participant `user_id` leaves: they are taken out, their ping
    /// driver is stopped and those who remain are told. A goodbye from
    /// someone who is not in the room changes nothing.
    pub open spec fn left(self, user_id: UserId) -> (RoomView, Seq<EffectView>) {
        if present(self.participants, user_id) {
            let kept = without(self.participants, user_id);
            (
                RoomView { participants: kept, ..self },
                seq![EffectView::StopPing { user_id }] + fan_out(
                    kept,
                    None,
                    ToSessionMessageView::ByeParticipant { user_id },
                ),
            )
        } else {
            (self, Seq::empty())
        }
    }

    /// `src` seeks to `duration` at the client instant `time`. The room
    /// takes the position; it anchors it at the conversion of `time` if
    /// `src` has a mapping and leaves the anchor alone if not. Everyone but
    /// `src` is told.
    pub open spec fn sought(self, src: UserId, time: Time, duration: MediaSpan) -> (
        RoomView,
        Seq<EffectView>,
    ) {
        let position_set = match self.mapping_of(src) {
            Some(mapping) => mapping.convert(instant_of(time.0 as int)),
            None => self.position_set,
        };
        (
            RoomView { duration, position_set, ..self },
            fan_out(
                self.participants,
                Some(src),
                ToSessionMessageView::DoSeek { user: src, duration },
            ),
        )
    }

    /// `src` sets the play state to `state` at the client instant `time`,
    /// handled at `now`. If `src` has a mapping, the change is dated at the
    /// conversion of `time`; a pause moreover advances the position by the
    /// time since the previous change and anchors it at `now`. Everyone but
    /// `src` is told.
    pub open spec fn state_changed(self, src: UserId, time: Time, state: PlayState, now: int) -> (
        RoomView,
        Seq<EffectView>,
    ) {
        let next = match self.mapping_of(src) {
            None => RoomView { room_state: state, ..self },
            Some(mapping) => {
                let state_set = mapping.convert(instant_of(time.0 as int));
                if state == PlayState::Pause {
                    RoomView {
                        room_state: state,
                        state_set,
                        position_set: now,
                        duration: self.duration.spec_plus(
                            span_of(state_set - self.state_set).0 as int,
                        ),
                        ..self
                    }
                } else {
                    RoomView { room_state: state, state_set, ..self }
                }
            },
        };
        (
            next,
            fan_out(
                self.participants,
                Some(src),
                ToSessionMessageView::SetState { user: src, state },
            ),
        )
    }

    /// The report of `user_id` on their player arrives at `server_time` and
    /// is handled at `now`. The participant takes it in and everyone is sent
    /// the projected playback of the room. A report from someone who is not
    /// in the room changes nothing.
    pub open spec fn reported(
        self,
        server_time: int,
        user_id: UserId,
        duration: MediaSpan,
        duration_time: Time,
        state: PlayState,
        state_time: Time,
        buffered: MediaSpan,
        time: Time,
        now: int,
    ) -> (RoomView, Seq<EffectView>) {
        if present(self.participants, user_id) {
            let place = place_of(self.participants, user_id);
            let members = self.participants.update(
                place,
                self.participants[place].reported(
                    server_time,
                    duration,
                    duration_time,
                    state,
                    state_time,
                    buffered,
                    time,
                ),
            );
            (
                RoomView { participants: members, ..self },
                fan_out(
                    members,
                    None,
                    ToSessionMessageView::RoomUpdate { participants: room_updates(members, now) },
                ),
            )
        } else {
            (self, Seq::empty())
        }
    }

    /// A ping for `user_id` is due at `now`: the participant is marked and
    /// the ping delivered. A ping for someone who is not in the room changes
    /// nothing.
    pub open spec fn pinged(self, user_id: UserId, now: int) -> (RoomView, Seq<EffectView>) {
        if present(self.participants, user_id) {
            let place = place_of(self.participants, user_id);
            (
                RoomView {
                    participants: self.participants.update(
                        place,
                        self.participants[place].pinged(now),
                    ),
                    ..self
                },
                seq![self.participants[place].delivery(ToSessionMessageView::Ping)],
            )
        } else {
            (self, Seq::empty())
        }
    }

    /// What the client message `msg`, handled at `now`, makes of the room.
    pub open spec fn step(self, msg: ClientMessageView, now: int) -> (RoomView, Seq<EffectView>) {
        match msg.message {
            UserMessageView::Hello { name, avatar, time } => self.joined(
                name,
                avatar,
                msg.cookie,
                msg.from,
                msg.addr,
                time,
                now,
            ),
            UserMessageView::Goodbye => self.left(msg.from),
            UserMessageView::Seek { duration, time } => self.sought(msg.from, time, duration),
            UserMessageView::SetState { state, time } => self.state_changed(
                msg.from,
                time,
                state,
                now,
            ),
            UserMessageView::State {
                duration,
                duration_time,
                state,
                state_time,
                buffered,
                time,
            } => self.reported(
                msg.server_time,
                msg.from,
                duration,
                duration_time,
                state,
                state_time,
                buffered,
                time,
                now,
            ),
        }
    }
}

/// The first member with an identifier is a member with that identifier, and
/// the place of the first is the only place that is the first.
pub proof fn lemma_first_at(members: Seq<ParticipantView>, user_id: UserId, i: int)
    requires
        first_at(members, user_id, i),
    ensures
        present(members, user_id),
        place_of(members, user_id) == i,
{
    let chosen = place_of(members, user_id);
    assert(first_at(members, user_id, chosen));
    if chosen < i {
        assert(members[chosen].user_id != user_id);
    }
    if i < chosen {
        assert(members[i].user_id != user_id);
    }
}

/// Where a member with an identifier exists, a first one exists.
pub proof fn lemma_present_has_first(members: Seq<ParticipantView>, user_id: UserId)
    requires
        present(members, user_id),
    ensures
        first_at(members, user_id, place_of(members, user_id)),
{
    let some = choose|i: int| 0 <= i < members.len() && (#[trigger] members[i]).user_id == user_id;
    lemma_first_below(members, user_id, some);
}

/// Where the member at `bound` has an identifier, the first member with it
/// stands at `bound` or before.
proof fn lemma_first_below(members: Seq<ParticipantView>, user_id: UserId, bound: int)
    requires
        0 <= bound < members.len(),
        members[bound].user_id == user_id,
    ensures
        exists|i: int| first_at(members, user_id, i),
    decreases bound,
{
    if forall|j: int| 0 <= j < bound ==> (#[trigger] members[j]).user_id != user_id {
        assert(first_at(members, user_id, bound));
    } else {
        let earlier = choose|j: int| 0 <= j < bound && (#[trigger] members[j]).user_id == user_id;
        lemma_first_below(members, user_id, earlier);
    }
}

/// Taking one more member into account: they stay if their identifier is not
/// the one taken out.
pub proof fn lemma_without_next(members: Seq<ParticipantView>, user_id: UserId, i: int)
    requires
        0 <= i < members.len(),
    ensures
        without(members.take(i + 1), user_id) == if members[i].user_id != user_id {
            without(members.take(i), user_id).push(members[i])
        } else {
            without(members.take(i), user_id)
        },
{
    lemma_filter_next(members, is_not(user_id), i);
}

/// Taking out an identifier that no member has leaves the members as they
/// are.
pub proof fn lemma_without_absent(members: Seq<ParticipantView>, user_id: UserId)
    requires
        !present(members, user_id),
    ensures
        without(members, user_id) == members,
{
    assert forall|i: int| 0 <= i < members.len() implies is_not(user_id)(#[trigger] members[i]) by {
        assert(members[i].user_id != user_id);
    }
    lemma_filter_all(members, is_not(user_id));
}

/// Taking one more member into account: the message goes to them too, unless
/// they are the one left out.
pub proof fn lemma_fan_out_next(
    members: Seq<ParticipantView>,
    except: Option<UserId>,
    message: ToSessionMessageView,
    i: int,
)
    requires
        0 <= i < members.len(),
    ensures
        fan_out(members.take(i + 1), except, message) == if Some(members[i].user_id) != except {
            fan_out(members.take(i), except, message).push(members[i].delivery(message))
        } else {
            fan_out(members.take(i), except, message)
        },
{
    lemma_filter_next(members, is_other(except), i);
    if Some(members[i].user_id) != except {
        assert(fan_out(members.take(i + 1), except, message) =~= fan_out(
            members.take(i),
            except,
            message,
        ).push(members[i].delivery(message)));
    }
}

/// Nothing is delivered in a room without members.
pub proof fn lemma_fan_out_none(except: Option<UserId>, message: ToSessionMessageView)
    ensures
        fan_out(Seq::empty(), except, message) == Seq::<EffectView>::empty(),
{
    lemma_filter_empty(is_other(except));
    assert(fan_out(Seq::empty(), except, message) =~= Seq::<EffectView>::empty());
}

/// Taking one more member into account adds what is told of them.
pub proof fn lemma_infos_next(members: Seq<ParticipantView>, i: int)
    requires
        0 <= i < members.len(),
    ensures
        infos(members.take(i + 1)) == infos(members.take(i)).push(members[i].info()),
{
    assert(infos(members.take(i + 1)) =~= infos(members.take(i)).push(members[i].info()));
}

/// Taking one more member into account adds their projected playback, if
/// they have a mapping.
pub proof fn lemma_room_updates_next(members: Seq<ParticipantView>, now: int, i: int)
    requires
        0 <= i < members.len(),
    ensures
        room_updates(members.take(i + 1), now) == if members[i].mapping is Some {
            room_updates(members.take(i), now).push(members[i].update(now)->0)
        } else {
            room_updates(members.take(i), now)
        },
{
    lemma_filter_next(members, has_mapping(), i);
    if members[i].mapping is Some {
        assert(room_updates(members.take(i + 1), now) =~= room_updates(members.take(i), now).push(
            members[i].update(now)->0,
        ));
    }
}

/// No projected playback comes of a room without members.
pub proof fn lemma_room_updates_none(now: int)
    ensures
        room_updates(Seq::empty(), now) == Seq::<ParticipantUpdateView>::empty(),
{
    lemma_filter_empty(has_mapping());
    assert(room_updates(Seq::empty(), now) =~= Seq::<ParticipantUpdateView>::empty());
}

} // verus!
