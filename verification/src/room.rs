//! The room: the state machine behind one synchronized playback.
//!
//! A room is driven by one input at a time. It reads no socket and sends
//! nothing: each input yields the effects that the runtime has to carry out,
//! and [`crate::room_model::RoomView`] says which.

use crate::badges::award_badges;
use crate::effect::{Effect, EffectView};
use crate::media::{MediaStream, RoomMetadata};
use crate::participant::Participant;
use crate::protocol::{
    option_view, views, BadgeId, ClientMessage, ParticipantInfo, ParticipantUpdate, PlayState,
    Time, ToSessionMessage, ToSessionMessageView, TransportId, UserId, UserMessage,
};
use crate::room_model::{
    fan_out, first_at, infos, is_not, lemma_fan_out_next, lemma_fan_out_none, lemma_first_at,
    lemma_infos_next, lemma_room_updates_next, lemma_room_updates_none, lemma_without_absent,
    lemma_without_next, present, room_updates, without, RoomView,
};
use crate::seq_facts::{
    lemma_filter_empty, lemma_take_all, lemma_views_add, lemma_views_push, lemma_views_remove,
    lemma_views_update,
};
use crate::time::{convert_time, to_span, wall_clock, ClientTime, MediaSpan, ServerTime};
use crate::time_mapping::TimeMapping;
use vstd::hash_map::StringHashMap;
use vstd::prelude::*;

verus! {

/// Asks a room to ping one of its participants. The second field numbers the
/// pings of one driver.
#[derive(Debug, Clone, Copy, PartialEq, Eq)]
pub struct SendPing(pub UserId, pub u32);

/// Asks a room for its name and what is shown of its stream.
#[derive(Debug, Clone, Copy, PartialEq, Eq)]
pub struct GetRoomMeta;

/// Asks a room for the identifier of the user with the given cookie.
#[derive(Debug, PartialEq, Eq)]
pub struct GetUserId(pub String);

/// The place of the first member with the identifier `user_id`.
fn find_participant(members: &Vec<Participant>, user_id: UserId) -> (place: Option<usize>)
    ensures
        match place {
            Some(i) => first_at(views(members@), user_id, i as int),
            None => !present(views(members@), user_id),
        },
{
    let mut i: usize = 0;
    while i < members.len()
        invariant
            i <= members.len(),
            forall|j: int| 0 <= j < i ==> (#[trigger] views(members@)[j]).user_id != user_id,
        decreases members.len() - i,
    {
        if members[i].user_id() == user_id {
            return Some(i);
        }
        i = i + 1;
    }
    None
}

/// Takes every member with the identifier `user_id` out of `members` and
/// says whether there was one.
fn evict(members: &mut Vec<Participant>, user_id: UserId) -> (found: bool)
    ensures
        views(final(members)@) == without(views(old(members)@), user_id),
        found == present(views(old(members)@), user_id),
{
    let ghost before = views(members@);
    let ghost mut done: int = 0;
    let mut found = false;
    let mut i: usize = 0;
    proof {
        lemma_filter_empty(is_not(user_id));
        assert(before.take(0) =~= Seq::empty());
        assert(before.skip(0) =~= before);
        assert(without(before.take(0), user_id) + before.skip(0) =~= before);
    }
    while i < members.len()
        invariant
            0 <= done <= before.len(),
            i == without(before.take(done), user_id).len(),
            views(members@) == without(before.take(done), user_id) + before.skip(done),
            found == present(before.take(done), user_id),
        decreases before.len() - done,
    {
        proof {
            lemma_without_next(before, user_id, done);
            assert(views(members@)[i as int] == before[done]);
        }
        if members[i].user_id() == user_id {
            proof {
                lemma_views_remove(members@, i as int);
                assert(views(members@).remove(i as int) =~= without(before.take(done), user_id)
                    + before.skip(done + 1));
                assert(before.take(done + 1)[done] == before[done]);
            }
            members.remove(i);
            found = true;
        } else {
            proof {
                assert(without(before.take(done), user_id) + before.skip(done) =~= without(
                    before.take(done),
                    user_id,
                ).push(before[done]) + before.skip(done + 1));
                if present(before.take(done + 1), user_id) {
                    let k = choose|k: int|
                        0 <= k < before.take(done + 1).len() && (#[trigger] before.take(
                            done + 1,
                        )[k]).user_id == user_id;
                    assert(before.take(done)[k].user_id == user_id);
                }
                if present(before.take(done), user_id) {
                    let k = choose|k: int|
                        0 <= k < before.take(done).len() && (#[trigger] before.take(
                            done,
                        )[k]).user_id == user_id;
                    assert(before.take(done + 1)[k].user_id == user_id);
                }
            }
            i = i + 1;
        }
        proof {
            done = done + 1;
        }
    }
    proof {
        assert(done == before.len()) by {
            if done < before.len() {
                assert((without(before.take(done), user_id) + before.skip(done)).len() == i
                    + before.len() - done);
            }
        }
        lemma_take_all(before);
        assert(without(before, user_id) + before.skip(done) =~= without(before, user_id));
    }
    found
}

/// The effects that hand a copy of `message` to every member but `except`.
fn deliver_to_all(
    members: &Vec<Participant>,
    except: Option<UserId>,
    message: &ToSessionMessage,
) -> (effects: Vec<Effect>)
    ensures
        views(effects@) == fan_out(views(members@), except, message@),
{
    let ghost all = views(members@);
    let mut effects: Vec<Effect> = Vec::new();
    let mut i: usize = 0;
    proof {
        lemma_fan_out_none(except, message@);
        assert(all.take(0) =~= Seq::empty());
        assert(views(effects@) =~= Seq::empty());
    }
    while i < members.len()
        invariant
            i <= members.len(),
            all == views(members@),
            views(effects@) == fan_out(all.take(i as int), except, message@),
        decreases members.len() - i,
    {
        proof {
            lemma_fan_out_next(all, except, message@, i as int);
        }
        let reached = match except {
            Some(left_out) => members[i].user_id() != left_out,
            None => true,
        };
        if reached {
            let effect = members[i].send_message(message.clone());
            proof {
                lemma_views_push(effects@, effect);
            }
            effects.push(effect);
        }
        i = i + 1;
    }
    proof {
        lemma_take_all(all);
    }
    effects
}

/// What a joining participant is told of each member.
fn collect_infos(members: &Vec<Participant>) -> (list: Vec<ParticipantInfo>)
    ensures
        views(list@) == infos(views(members@)),
{
    let ghost all = views(members@);
    let mut list: Vec<ParticipantInfo> = Vec::new();
    let mut i: usize = 0;
    proof {
        assert(views(list@) =~= infos(all.take(0)));
    }
    while i < members.len()
        invariant
            i <= members.len(),
            all == views(members@),
            views(list@) == infos(all.take(i as int)),
        decreases members.len() - i,
    {
        let info = members[i].info();
        proof {
            lemma_infos_next(all, i as int);
            lemma_views_push(list@, info);
        }
        list.push(info);
        i = i + 1;
    }
    proof {
        lemma_take_all(all);
    }
    list
}

/// The projected playback at `now` of every member that has a mapping.
fn collect_updates(members: &Vec<Participant>, now: ServerTime) -> (list: Vec<
    ParticipantUpdate,
>)
    ensures
        views(list@) == room_updates(views(members@), now@),
{
    let ghost all = views(members@);
    let mut list: Vec<ParticipantUpdate> = Vec::new();
    let mut i: usize = 0;
    proof {
        lemma_room_updates_none(now@);
        assert(all.take(0) =~= Seq::empty());
        assert(views(list@) =~= Seq::empty());
    }
    while i < members.len()
        invariant
            i <= members.len(),
            all == views(members@),
            views(list@) == room_updates(all.take(i as int), now@),
        decreases members.len() - i,
    {
        proof {
            lemma_room_updates_next(all, now@, i as int);
        }
        match members[i].get_update(now) {
            Some(update) => {
                proof {
                    lemma_views_push(list@, update);
                }
                list.push(update);
            },
            None => {},
        }
        i = i + 1;
    }
    proof {
        lemma_take_all(all);
    }
    list
}

/// A synchronized-playback session: the participants, the stream and where
/// and how it is playing.
pub struct Room {
    name: String,
    cookies: StringHashMap<UserId>,
    participants: Vec<Participant>,
    free_user_id: u32,
    current_stream: Option<MediaStream>,
    room_state: PlayState,
    state_set: ServerTime,
    position_set: ServerTime,
    duration: MediaSpan,
}

impl View for Room {
    type V = RoomView;

    closed spec fn view(&self) -> RoomView {
        RoomView {
            name: self.name@,
            cookies: self.cookies@,
            participants: views(self.participants@),
            free_user_id: self.free_user_id,
            current_stream: option_view(self.current_stream),
            room_state: self.room_state,
            state_set: self.state_set@,
            position_set: self.position_set@,
            duration: self.duration,
        }
    }
}

impl Room {
    /// A room created at `now`: empty, paused at the start of its stream.
    pub fn new_at(name: String, stream: Option<MediaStream>, now: ServerTime) -> (room: Self)
        ensures
            room@ == RoomView::created(name@, option_view(stream), now@),
            room@.wf(),
    {
        let room = Self {
            name,
            cookies: StringHashMap::new(),
            participants: Vec::new(),
            free_user_id: 0,
            current_stream: stream,
            room_state: PlayState::Pause,
            state_set: now,
            position_set: now,
            duration: MediaSpan(0),
        };
        assert(room@.participants =~= Seq::empty());
        room
    }

    /// A room created at the instant the wall clock shows.
    pub fn new(name: String, stream: Option<MediaStream>) -> (room: Self)
        ensures
            exists|now: ServerTime|
                room@ == #[trigger] RoomView::created(name@, option_view(stream), now@),
            room@.wf(),
    {
        let now = wall_clock();
        Self::new_at(name, stream, now)
    }

    /// The name of the room.
    pub fn name(&self) -> (name: &String)
        ensures
            name@ == self@.name,
    {
        &self.name
    }

    /// Whether the room is playing or paused.
    pub fn room_state(&self) -> (state: PlayState)
        ensures
            state == self@.room_state,
    {
        self.room_state
    }

    /// The server instant of the last change of play state.
    pub fn state_set(&self) -> (instant: ServerTime)
        ensures
            instant@ == self@.state_set,
    {
        self.state_set
    }

    /// The server instant at which the position was last anchored.
    pub fn position_set(&self) -> (instant: ServerTime)
        ensures
            instant@ == self@.position_set,
    {
        self.position_set
    }

    /// The playback position of the room as of its anchor.
    pub fn duration(&self) -> (duration: MediaSpan)
        ensures
            duration == self@.duration,
    {
        self.duration
    }

    /// Whether someone is in the room under the identifier `user_id`.
    pub fn has_participant(&self, user_id: UserId) -> (found: bool)
        ensures
            found == present(self@.participants, user_id),
    {
        match find_participant(&self.participants, user_id) {
            Some(place) => {
                proof {
                    lemma_first_at(self@.participants, user_id, place as int);
                }
                true
            },
            None => false,
        }
    }

    /// What a joining participant would be told of each participant.
    pub fn participant_infos(&self) -> (list: Vec<ParticipantInfo>)
        ensures
            views(list@) == infos(self@.participants),
    {
        collect_infos(&self.participants)
    }

    /// Sets the playback position of the room.
    pub fn set_stream_position(&mut self, duration: MediaSpan)
        ensures
            final(self)@ == (RoomView { duration, ..old(self)@ }),
            old(self)@.wf() ==> final(self)@.wf(),
    {
        self.duration = duration;
    }

    /// Where the room's stream stands at `now`.
    pub fn get_stream_position(&self, now: ServerTime) -> (position: MediaSpan)
        ensures
            position == self@.stream_position(now@),
    {
        if self.room_state == PlayState::Pause {
            let since = self.state_set.0.since(&self.position_set.0);
            self.duration.plus(to_span(since))
        } else {
            let since = now.0.since(&self.state_set.0);
            self.duration.plus(to_span(since))
        }
    }

    /// The effects that tell every participant of a newcomer.
    pub fn announce_participant_new(&self, message: ToSessionMessage) -> (effects: Vec<Effect>)
        ensures
            views(effects@) == fan_out(self@.participants, None, message@),
    {
        deliver_to_all(&self.participants, None, &message)
    }

    /// The effects that tell every participant that `user_id` has left.
    pub fn announce_participant_left(&self, user_id: UserId) -> (effects: Vec<Effect>)
        ensures
            views(effects@) == fan_out(
                self@.participants,
                None,
                ToSessionMessageView::ByeParticipant { user_id },
            ),
    {
        let message = ToSessionMessage::ByeParticipant { user_id };
        deliver_to_all(&self.participants, None, &message)
    }

    /// The effects that send everyone the projected playback of the room.
    pub fn announce_participant_updates(&self, updates: Vec<ParticipantUpdate>) -> (effects:
        Vec<Effect>)
        ensures
            views(effects@) == fan_out(
                self@.participants,
                None,
                ToSessionMessageView::RoomUpdate { participants: views(updates@) },
            ),
    {
        let message = ToSessionMessage::RoomUpdate { participants: updates };
        deliver_to_all(&self.participants, None, &message)
    }

    /// The mapping of the first participant with the identifier `user_id`.
    pub fn get_time_mapping(&self, user_id: UserId) -> (mapping: Option<TimeMapping>)
        ensures
            option_view(mapping) == self@.mapping_of(user_id),
    {
        match find_participant(&self.participants, user_id) {
            Some(place) => {
                proof {
                    lemma_first_at(self@.participants, user_id, place as int);
                }
                self.participants[place].mapping()
            },
            None => None,
        }
    }

    /// The projected playback at `now` of every participant that has a
    /// mapping.
    pub fn get_room_updates(&self, now: ServerTime) -> (updates: Vec<ParticipantUpdate>)
        ensures
            views(updates@) == room_updates(self@.participants, now@),
    {
        collect_updates(&self.participants, now)
    }

    /// What the participant `user_id` is told of the room at `now`.
    pub fn get_room_state_for_uid(&self, user_id: UserId, now: ServerTime) -> (message:
        ToSessionMessage)
        ensures
            message@ == self@.state_for(user_id, now@),
    {
        let current_stream = match &self.current_stream {
            Some(stream) => Some(
                stream.to_stream_info(self.get_stream_position(now), self.room_state),
            ),
            None => None,
        };
        ToSessionMessage::RoomState {
            user_id,
            participants: collect_infos(&self.participants),
            current_stream,
        }
    }

    /// `src` seeks to `duration` at the client instant `time`.
    pub fn announce_seek(&mut self, src: UserId, time: Time, duration: MediaSpan) -> (effects:
        Vec<Effect>)
        ensures
            (final(self)@, views(effects@)) == old(self)@.sought(src, time, duration),
            old(self)@.wf() ==> final(self)@.wf(),
    {
        self.set_stream_position(duration);
        match self.get_time_mapping(src) {
            Some(mapping) => {
                self.position_set = mapping.convert(ClientTime(convert_time(time)));
            },
            None => {},
        }
        let message = ToSessionMessage::DoSeek { user: src, duration };
        deliver_to_all(&self.participants, Some(src), &message)
    }

    /// `src` sets the play state to `state` at the client instant `time`;
    /// the room handles it at `now`.
    pub fn announce_state(
        &mut self,
        src: UserId,
        time: Time,
        state: PlayState,
        now: ServerTime,
    ) -> (effects: Vec<Effect>)
        ensures
            (final(self)@, views(effects@)) == old(self)@.state_changed(src, time, state, now@),
            old(self)@.wf() ==> final(self)@.wf(),
    {
        self.room_state = state;
        let prev = self.state_set;
        match self.get_time_mapping(src) {
            Some(mapping) => {
                self.state_set = mapping.convert(ClientTime(convert_time(time)));
                if state == PlayState::Pause {
                    let since = self.state_set.0.since(&prev.0);
                    self.position_set = now;
                    self.set_stream_position(self.duration.plus(to_span(since)));
                }
            },
            None => {},
        }
        let message = ToSessionMessage::SetState { user: src, state };
        deliver_to_all(&self.participants, Some(src), &message)
    }

    /// The report of `user_id` on their player, received at `server_time`
    /// and handled at `now`.
    pub fn update_participant_state(
        &mut self,
        server_time: ServerTime,
        user_id: UserId,
        duration: MediaSpan,
        duration_time: Time,
        state: PlayState,
        state_time: Time,
        buffered: MediaSpan,
        time: Time,
        now: ServerTime,
    ) -> (effects: Vec<Effect>)
        ensures
            (final(self)@, views(effects@)) == old(self)@.reported(
                server_time@,
                user_id,
                duration,
                duration_time,
                state,
                state_time,
                buffered,
                time,
                now@,
            ),
            old(self)@.wf() ==> final(self)@.wf(),
    {
        proof {
            if self@.wf() {
                self@.lemma_reported_wf(
                    server_time@,
                    user_id,
                    duration,
                    duration_time,
                    state,
                    state_time,
                    buffered,
                    time,
                    now@,
                );
            }
        }
        match find_participant(&self.participants, user_id) {
            Some(place) => {
                proof {
                    lemma_first_at(self@.participants, user_id, place as int);
                }
                let ghost before = self.participants@;
                self.participants[place].receive_state(
                    server_time,
                    duration,
                    duration_time,
                    state,
                    state_time,
                    buffered,
                    time,
                );
                proof {
                    lemma_views_update(before, place as int, self.participants@[place as int]);
                }
                let updates = self.get_room_updates(now);
                self.announce_participant_updates(updates)
            },
            None => Vec::new(),
        }
    }

    /// A participant joins at `now`.
    pub fn add_participant(
        &mut self,
        name: String,
        avatar: BadgeId,
        cookie: String,
        user_id: UserId,
        transport: TransportId,
        time: Time,
        now: ServerTime,
    ) -> (effects: Vec<Effect>)
        ensures
            (final(self)@, views(effects@)) == old(self)@.joined(
                name@,
                avatar,
                cookie@,
                user_id,
                transport,
                time,
                now@,
            ),
            old(self)@.wf() ==> final(self)@.wf(),
    {
        proof {
            if self@.wf() {
                self@.lemma_joined_wf(name@, avatar, cookie@, user_id, transport, time, now@);
            }
        }
        let mut effects: Vec<Effect> = Vec::new();
        if evict(&mut self.participants, user_id) {
            effects.push(Effect::StopPing { user_id });
        }
        let ghost stops = views(effects@);
        let ghost kept = views(self.participants@);
        let badges = award_badges(user_id, &name);
        let participant = Participant::new(name, avatar, badges, cookie, user_id, transport, time);
        let ghost newcomer = participant@;
        let mut told = self.announce_participant_new(participant.get_announce_message());
        proof {
            lemma_views_add(effects@, told@);
            lemma_views_push(self.participants@, participant);
        }
        effects.append(&mut told);
        self.participants.push(participant);
        let state = self.get_room_state_for_uid(user_id, now);
        let last = self.participants.len() - 1;
        let welcome = self.participants[last].send_message(state);
        proof {
            lemma_views_push(effects@, welcome);
            lemma_views_push(effects@.push(welcome), Effect::StartPing { user_id });
        }
        effects.push(welcome);
        effects.push(Effect::StartPing { user_id });
        proof {
            assert(views(effects@) =~= stops + fan_out(kept, None, newcomer.announce_message())
                + seq![welcome@, EffectView::StartPing { user_id }]);
            assert(stops =~= if present(old(self)@.participants, user_id) {
                seq![EffectView::StopPing { user_id }]
            } else {
                Seq::empty()
            });
        }
        effects
    }

    /// The participant `user_id` leaves.
    pub fn remove_participant(&mut self, user_id: UserId) -> (effects: Vec<Effect>)
        ensures
            (final(self)@, views(effects@)) == old(self)@.left(user_id),
            old(self)@.wf() ==> final(self)@.wf(),
    {
        proof {
            if self@.wf() {
                self@.lemma_left_wf(user_id);
            }
        }
        let mut effects: Vec<Effect> = Vec::new();
        if evict(&mut self.participants, user_id) {
            effects.push(Effect::StopPing { user_id });
            let mut told = self.announce_participant_left(user_id);
            proof {
                lemma_views_add(effects@, told@);
                assert(views(effects@) =~= seq![EffectView::StopPing { user_id }]);
            }
            effects.append(&mut told);
        } else {
            proof {
                lemma_without_absent(old(self)@.participants, user_id);
                assert(views(effects@) =~= Seq::empty());
            }
        }
        effects
    }

    /// A ping for `user_id` is due at `now`.
    pub fn send_participant_ping(
        &mut self,
        user_id: UserId,
        ping_id: u32,
        now: ServerTime,
    ) -> (effects: Vec<Effect>)
        ensures
            (final(self)@, views(effects@)) == old(self)@.pinged(user_id, now@),
            old(self)@.wf() ==> final(self)@.wf(),
    {
        proof {
            if self@.wf() {
                self@.lemma_ping_wf(user_id, now@);
            }
        }
        let mut effects: Vec<Effect> = Vec::new();
        match find_participant(&self.participants, user_id) {
            Some(place) => {
                proof {
                    lemma_first_at(self@.participants, user_id, place as int);
                }
                let ghost before = self.participants@;
                let ping = self.participants[place].send_ping(ping_id, now);
                proof {
                    lemma_views_update(before, place as int, self.participants@[place as int]);
                    lemma_views_push(effects@, ping);
                }
                effects.push(ping);
                proof {
                    assert(views(effects@) =~= seq![ping@]);
                }
            },
            None => {
                proof {
                    assert(views(effects@) =~= Seq::empty());
                }
            },
        }
        effects
    }

    /// Handles a client message at `now`.
    pub fn handle_at(&mut self, msg: ClientMessage, now: ServerTime) -> (effects: Vec<Effect>)
        ensures
            (final(self)@, views(effects@)) == old(self)@.step(msg@, now@),
            old(self)@.wf() ==> final(self)@.wf(),
    {
        match msg.message {
            UserMessage::Hello { name, avatar, time } => self.add_participant(
                name,
                avatar,
                msg.cookie,
                msg.from,
                msg.addr,
                time,
                now,
            ),
            UserMessage::Goodbye => self.remove_participant(msg.from),
            UserMessage::Seek { duration, time } => self.announce_seek(msg.from, time, duration),
            UserMessage::SetState { state, time } => self.announce_state(
                msg.from,
                time,
                state,
                now,
            ),
            UserMessage::State { duration, duration_time, state, state_time, buffered, time } => {
                self.update_participant_state(
                    msg.server_time,
                    msg.from,
                    duration,
                    duration_time,
                    state,
                    state_time,
                    buffered,
                    time,
                    now,
                )
            },
        }
    }

    /// Handles a client message at the instant the wall clock shows.
    pub fn handle(&mut self, msg: ClientMessage) -> (effects: Vec<Effect>)
        ensures
            exists|now: ServerTime|
                (final(self)@, views(effects@)) == #[trigger] old(self)@.step(msg@, now@),
            old(self)@.wf() ==> final(self)@.wf(),
    {
        let now = wall_clock();
        self.handle_at(msg, now)
    }

    /// Handles the request to ping a participant at `now`.
    pub fn handle_send_ping_at(&mut self, msg: SendPing, now: ServerTime) -> (effects: Vec<Effect>)
        ensures
            (final(self)@, views(effects@)) == old(self)@.pinged(msg.0, now@),
            old(self)@.wf() ==> final(self)@.wf(),
    {
        self.send_participant_ping(msg.0, msg.1, now)
    }

    /// Handles the request to ping a participant at the instant the wall
    /// clock shows.
    pub fn handle_send_ping(&mut self, msg: SendPing) -> (effects: Vec<Effect>)
        ensures
            exists|now: ServerTime|
                (final(self)@, views(effects@)) == #[trigger] old(self)@.pinged(msg.0, now@),
            old(self)@.wf() ==> final(self)@.wf(),
    {
        let now = wall_clock();
        self.handle_send_ping_at(msg, now)
    }

    /// The name of the room and what is shown of its stream, if it has one.
    pub fn handle_get_room_meta(&self, _msg: GetRoomMeta) -> (meta: Option<RoomMetadata>)
        ensures
            option_view(meta) == self@.meta(),
    {
        match &self.current_stream {
            Some(stream) => Some(
                RoomMetadata { name: self.name.clone(), stream: stream.meta.clone() },
            ),
            None => None,
        }
    }

    /// The identifier of the user with the given cookie.
    pub fn handle_get_user_id(&mut self, msg: GetUserId) -> (user_id: Option<UserId>)
        ensures
            (final(self)@, user_id) == old(self)@.user_id_for(msg.0@),
            old(self)@.wf() ==> final(self)@.wf(),
    {
        proof {
            if self@.wf() {
                self@.lemma_user_id_for_wf(msg.0@);
            }
        }
        let known = match self.cookies.get(msg.0.as_str()) {
            Some(uid) => Some(*uid),
            None => None,
        };
        match known {
            Some(uid) => Some(uid),
            None => {
                if self.free_user_id < u32::MAX {
                    let uid = UserId(self.free_user_id);
                    self.free_user_id = self.free_user_id + 1;
                    self.cookies.insert(msg.0, uid);
                    Some(uid)
                } else {
                    None
                }
            },
        }
    }
}

} // verus!
