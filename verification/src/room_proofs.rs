//! What holds of every room, proved of the model in [`crate::room_model`].

use crate::effect::EffectView;
use crate::media::MediaStreamView;
use crate::participant::ParticipantView;
use crate::protocol::{
    BadgeId, ClientMessageView, PlayState, Time, ToSessionMessageView, TransportId, UserId,
    UserMessageView,
};
use crate::room_model::{
    distinct, fan_out, first_at, identities, is_not, is_other, lemma_present_has_first,
    lemma_without_absent, others, place_of, present, reached_through, without, RoomView,
};
use crate::seq_facts::lemma_filter_kept;
use crate::time::MediaSpan;
use vstd::prelude::*;

verus! {

/// Whoever remains after an identifier was taken out does not have it and
/// was a member before.
pub proof fn lemma_without_kept(members: Seq<ParticipantView>, user_id: UserId, i: int)
    requires
        0 <= i < without(members, user_id).len(),
    ensures
        without(members, user_id)[i].user_id != user_id,
        members.contains(without(members, user_id)[i]),
{
    lemma_filter_kept(members, is_not(user_id), i);
}

/// Nobody with the identifier that was taken out remains.
pub proof fn lemma_without_absent_after(members: Seq<ParticipantView>, user_id: UserId)
    ensures
        !present(without(members, user_id), user_id),
{
    if present(without(members, user_id), user_id) {
        let i = choose|i: int|
            0 <= i < without(members, user_id).len() && (#[trigger] without(
                members,
                user_id,
            )[i]).user_id == user_id;
        lemma_without_kept(members, user_id, i);
    }
}

/// Whoever was not a member is not one after an identifier was taken out.
pub proof fn lemma_without_stays_absent(
    members: Seq<ParticipantView>,
    user_id: UserId,
    other: UserId,
)
    requires
        !present(members, other),
    ensures
        !present(without(members, user_id), other),
{
    if present(without(members, user_id), other) {
        let i = choose|i: int|
            0 <= i < without(members, user_id).len() && (#[trigger] without(
                members,
                user_id,
            )[i]).user_id == other;
        lemma_without_kept(members, user_id, i);
        let p = without(members, user_id)[i];
        let k = choose|k: int| 0 <= k < members.len() && members[k] == p;
        assert(members[k].user_id == other);
    }
}

/// Taking an identifier out of members with distinct identifiers leaves
/// members with distinct identifiers.
pub proof fn lemma_without_distinct(members: Seq<ParticipantView>, user_id: UserId)
    requires
        distinct(members),
    ensures
        distinct(without(members, user_id)),
    decreases members.len(),
{
    reveal(Seq::filter);
    if members.len() > 0 {
        let rest = members.drop_last();
        assert forall|i: int, j: int| 0 <= i < j < rest.len() implies (#[trigger] rest[i]).user_id
            != (#[trigger] rest[j]).user_id by {
            assert(members[i].user_id != members[j].user_id);
        }
        lemma_without_distinct(rest, user_id);
        let kept = without(rest, user_id);
        if members.last().user_id != user_id {
            let all = without(members, user_id);
            assert(all == kept.push(members.last()));
            assert forall|i: int, j: int| 0 <= i < j < all.len() implies (#[trigger] all[i]).user_id
                != (#[trigger] all[j]).user_id by {
                if j < kept.len() {
                    assert(kept[i].user_id != kept[j].user_id);
                } else {
                    lemma_without_kept(rest, user_id, i);
                    let k = choose|k: int| 0 <= k < rest.len() && rest[k] == kept[i];
                    assert(members[k].user_id != members[members.len() - 1].user_id);
                }
            }
        }
    }
}

/// Every delivery of a fan-out goes to a member other than the one left out,
/// through that member's transport, and carries the message.
pub proof fn lemma_fan_out_reaches(
    members: Seq<ParticipantView>,
    except: Option<UserId>,
    message: ToSessionMessageView,
    i: int,
)
    requires
        0 <= i < fan_out(members, except, message).len(),
    ensures
        fan_out(members, except, message)[i] matches EffectView::Deliver {
            to,
            transport,
            message: carried,
        } && Some(to) != except && carried == message && reached_through(
            members,
            to,
            transport,
        ),
{
    lemma_filter_kept(members, is_other(except), i);
    let p = others(members, except)[i];
    let k = choose|k: int| 0 <= k < members.len() && members[k] == p;
    assert(members[k].user_id == p.user_id && members[k].transport == p.transport);
}

/// Who is reached through a transport is a member.
pub proof fn lemma_reached_is_present(
    members: Seq<ParticipantView>,
    user_id: UserId,
    transport: TransportId,
)
    requires
        reached_through(members, user_id, transport),
    ensures
        present(members, user_id),
{
    let k = choose|k: int|
        0 <= k < members.len() && (#[trigger] members[k]).user_id == user_id
            && members[k].transport == transport;
    assert(members[k].user_id == user_id);
}

impl RoomView {
    /// A room that was just created meets the invariant.
    pub proof fn lemma_created_wf(name: Seq<char>, stream: Option<MediaStreamView>, now: int)
        ensures
            RoomView::created(name, stream, now).wf(),
    {
    }

    /// Handing out an identifier keeps the invariant.
    pub proof fn lemma_user_id_for_wf(self, cookie: Seq<char>)
        requires
            self.wf(),
        ensures
            self.user_id_for(cookie).0.wf(),
    {
        let next = self.user_id_for(cookie).0;
        if !self.cookies.contains_key(cookie) && self.free_user_id < u32::MAX {
            assert forall|c: Seq<char>| #[trigger]
                next.cookies.contains_key(c) implies next.cookies[c].0 < next.free_user_id by {
                if c != cookie {
                    assert(self.cookies.contains_key(c));
                }
            }
            assert forall|c: Seq<char>, d: Seq<char>|
                #![trigger next.cookies[c], next.cookies[d]]
                next.cookies.contains_key(c) && next.cookies.contains_key(d) && c != d
                implies next.cookies[c] != next.cookies[d] by {
                if c != cookie {
                    assert(self.cookies.contains_key(c));
                }
                if d != cookie {
                    assert(self.cookies.contains_key(d));
                }
            }
        }
    }

    /// Asking twice in a row for the identifier of one cookie gives the same
    /// answer twice, and the second question changes nothing.
    pub proof fn lemma_user_id_repeat(self, cookie: Seq<char>)
        ensures
            ({
                let (first, id) = self.user_id_for(cookie);
                first.user_id_for(cookie) == (first, id)
            }),
    {
    }

    /// A cookie keeps its identifier when another cookie asks for one.
    pub proof fn lemma_user_id_kept(self, cookie: Seq<char>, other: Seq<char>)
        requires
            self.cookies.contains_key(cookie),
        ensures
            ({
                let next = self.user_id_for(other).0;
                next.cookies.contains_key(cookie) && next.cookies[cookie] == self.cookies[cookie]
            }),
    {
    }

    /// The identifier handed to a cookie that was not seen before is the next
    /// free one, and it is above every identifier handed out earlier.
    pub proof fn lemma_user_id_fresh(self, cookie: Seq<char>)
        requires
            self.wf(),
            !self.cookies.contains_key(cookie),
            self.free_user_id < u32::MAX,
        ensures
            self.user_id_for(cookie).1 == Some(UserId(self.free_user_id)),
            self.user_id_for(cookie).0.free_user_id == self.free_user_id + 1,
            forall|other: Seq<char>| #[trigger]
                self.cookies.contains_key(other) ==> self.cookies[other].0 < self.free_user_id,
    {
    }

    /// No client message changes the cookies of a room or the next
    /// identifier to hand out.
    pub proof fn lemma_step_keeps_cookies(self, msg: ClientMessageView, now: int)
        ensures
            self.step(msg, now).0.cookies == self.cookies,
            self.step(msg, now).0.free_user_id == self.free_user_id,
    {
    }

    /// No ping changes the cookies of a room or the next identifier to hand
    /// out.
    pub proof fn lemma_ping_keeps_cookies(self, user_id: UserId, now: int)
        ensures
            self.pinged(user_id, now).0.cookies == self.cookies,
            self.pinged(user_id, now).0.free_user_id == self.free_user_id,
    {
    }

    /// A newcomer replaces whoever was in the room under their identifier:
    /// afterwards they stand last, nobody before them has their identifier,
    /// and if somebody had it, the first effect stops that one's ping
    /// driver.
    pub proof fn lemma_join_replaces(
        self,
        name: Seq<char>,
        avatar: BadgeId,
        cookie: Seq<char>,
        user_id: UserId,
        transport: TransportId,
        time: Time,
        now: int,
    )
        ensures
            ({
                let (next, effects) = self.joined(
                    name,
                    avatar,
                    cookie,
                    user_id,
                    transport,
                    time,
                    now,
                );
                &&& first_at(next.participants, user_id, next.participants.len() - 1)
                &&& next.participants.last().transport == transport
                &&& next.participants.last().name == name
                &&& present(self.participants, user_id) ==> effects[0] == (EffectView::StopPing {
                    user_id,
                })
                &&& effects.last() == (EffectView::StartPing { user_id })
            }),
    {
        let kept = without(self.participants, user_id);
        assert forall|j: int| 0 <= j < kept.len() implies (#[trigger] kept[j]).user_id
            != user_id by {
            lemma_without_kept(self.participants, user_id, j);
        }
    }

    /// Who has left is no longer in the room.
    pub proof fn lemma_left_is_absent(self, user_id: UserId)
        ensures
            !present(self.left(user_id).0.participants, user_id),
    {
        lemma_without_absent_after(self.participants, user_id);
    }

    /// A seek is never echoed: no effect of it reaches the one who sought.
    /// Each effect hands the seek to another member, through that member's
    /// transport.
    pub proof fn lemma_seek_spares_sender(self, src: UserId, time: Time, duration: MediaSpan)
        ensures
            forall|i: int|
                0 <= i < self.sought(src, time, duration).1.len() ==> {
                    let effect = #[trigger] self.sought(src, time, duration).1[i];
                    &&& !effect.reaches(src)
                    &&& effect matches EffectView::Deliver { to, transport, message }
                    &&& reached_through(self.participants, to, transport)
                    &&& message == (ToSessionMessageView::DoSeek { user: src, duration })
                },
    {
        let message = ToSessionMessageView::DoSeek { user: src, duration };
        assert forall|i: int| 0 <= i < self.sought(src, time, duration).1.len() implies {
            let effect = #[trigger] self.sought(src, time, duration).1[i];
            &&& !effect.reaches(src)
            &&& effect matches EffectView::Deliver { to, transport, message: carried }
            &&& reached_through(self.participants, to, transport)
            &&& carried == message
        } by {
            lemma_fan_out_reaches(self.participants, Some(src), message, i);
        }
    }

    /// A change of play state is never echoed: no effect of it reaches the
    /// one who made it. Each effect hands the change to another member,
    /// through that member's transport.
    pub proof fn lemma_state_spares_sender(
        self,
        src: UserId,
        time: Time,
        state: PlayState,
        now: int,
    )
        ensures
            forall|i: int|
                0 <= i < self.state_changed(src, time, state, now).1.len() ==> {
                    let effect = #[trigger] self.state_changed(src, time, state, now).1[i];
                    &&& !effect.reaches(src)
                    &&& effect matches EffectView::Deliver { to, transport, message }
                    &&& reached_through(self.participants, to, transport)
                    &&& message == (ToSessionMessageView::SetState { user: src, state })
                },
    {
        let message = ToSessionMessageView::SetState { user: src, state };
        assert forall|i: int| 0 <= i < self.state_changed(src, time, state, now).1.len() implies {
            let effect = #[trigger] self.state_changed(src, time, state, now).1[i];
            &&& !effect.reaches(src)
            &&& effect matches EffectView::Deliver { to, transport, message: carried }
            &&& reached_through(self.participants, to, transport)
            &&& carried == message
        } by {
            lemma_fan_out_reaches(self.participants, Some(src), message, i);
        }
    }

    /// A report from someone who is not in the room is ignored: the room
    /// stays as it is and nothing leaves it.
    pub proof fn lemma_report_from_stranger(
        self,
        server_time: int,
        user_id: UserId,
        duration: MediaSpan,
        duration_time: Time,
        state: PlayState,
        state_time: Time,
        buffered: MediaSpan,
        time: Time,
        now: int,
    )
        requires
            !present(self.participants, user_id),
        ensures
            self.reported(
                server_time,
                user_id,
                duration,
                duration_time,
                state,
                state_time,
                buffered,
                time,
                now,
            ) == (self, Seq::<EffectView>::empty()),
    {
    }

    /// A ping changes the identity of nobody: the participants keep their
    /// places and their identities.
    pub proof fn lemma_ping_keeps_identities(self, user_id: UserId, now: int)
        ensures
            identities(self.pinged(user_id, now).0.participants) == identities(self.participants),
    {
        if present(self.participants, user_id) {
            lemma_present_has_first(self.participants, user_id);
            assert(identities(self.pinged(user_id, now).0.participants) =~= identities(
                self.participants,
            ));
        }
    }

    /// A participant keeps their identifier, name, avatar, badges, cookie
    /// and transport for as long as they are in the room. A `Hello` takes
    /// out whoever had the sender's identifier and puts the newcomer last; a
    /// `Goodbye` takes out whoever had the sender's identifier; every other
    /// message leaves the participants at their places with their
    /// identities.
    pub proof fn lemma_step_keeps_identities(self, msg: ClientMessageView, now: int)
        ensures
            ({
                let next = self.step(msg, now).0;
                match msg.message {
                    UserMessageView::Hello { .. } => identities(next.participants).drop_last()
                        == identities(without(self.participants, msg.from))
                        && identities(next.participants).last().user_id == msg.from,
                    UserMessageView::Goodbye => identities(next.participants) == identities(
                        without(self.participants, msg.from),
                    ),
                    _ => identities(next.participants) == identities(self.participants),
                }
            }),
    {
        let next = self.step(msg, now).0;
        match msg.message {
            UserMessageView::Hello { .. } => {
                assert(identities(next.participants).drop_last() =~= identities(
                    without(self.participants, msg.from),
                ));
            },
            UserMessageView::Goodbye => {
                if !present(self.participants, msg.from) {
                    lemma_without_absent(self.participants, msg.from);
                }
            },
            UserMessageView::State { .. } => {
                if present(self.participants, msg.from) {
                    lemma_present_has_first(self.participants, msg.from);
                    assert(identities(next.participants) =~= identities(self.participants));
                }
            },
            _ => {},
        }
    }

    /// The message that a ping hands out goes to the one who is pinged,
    /// through the transport under which they are in the room.
    pub proof fn lemma_ping_reaches_members(self, user_id: UserId, now: int)
        ensures
            forall|i: int|
                0 <= i < self.pinged(user_id, now).1.len() ==> (#[trigger] self.pinged(
                    user_id,
                    now,
                ).1[i] matches EffectView::Deliver { to, transport, .. } && to == user_id
                    && reached_through(self.pinged(user_id, now).0.participants, to, transport)),
    {
        if present(self.participants, user_id) {
            lemma_present_has_first(self.participants, user_id);
            let place = place_of(self.participants, user_id);
            let next = self.pinged(user_id, now).0;
            assert(next.participants[place].user_id == user_id);
            assert(next.participants[place].transport == self.participants[place].transport);
        }
    }

    /// Every message that leaves the room on a client message goes to
    /// someone who is in the room once the message is handled, through the
    /// transport under which they are in the room.
    pub proof fn lemma_step_reaches_members(self, msg: ClientMessageView, now: int)
        ensures
            forall|i: int|
                0 <= i < self.step(msg, now).1.len() ==> ((#[trigger] self.step(msg, now).1[i])
                    matches EffectView::Deliver { to, transport, .. } ==> reached_through(
                    self.step(msg, now).0.participants,
                    to,
                    transport,
                )),
    {
        let (next, effects) = self.step(msg, now);
        assert forall|i: int| 0 <= i < effects.len() implies ((#[trigger] effects[i])
            matches EffectView::Deliver { to, transport, .. } ==> reached_through(
            next.participants,
            to,
            transport,
        )) by {
            match msg.message {
                UserMessageView::Hello { .. } => {
                    let kept = without(self.participants, msg.from);
                    let stops: int = if present(self.participants, msg.from) {
                        1
                    } else {
                        0
                    };
                    let newcomer = next.participants.last();
                    let told = fan_out(kept, None, newcomer.announce_message());
                    if stops <= i < stops + told.len() {
                        lemma_fan_out_reaches(kept, None, newcomer.announce_message(), i - stops);
                        assert(effects[i] == told[i - stops]);
                        let to = effects[i]->Deliver_to;
                        let transport = effects[i]->Deliver_transport;
                        let k = choose|k: int|
                            0 <= k < kept.len() && (#[trigger] kept[k]).user_id == to
                                && kept[k].transport == transport;
                        assert(next.participants[k].user_id == to);
                        assert(next.participants[k].transport == transport);
                    } else if i == stops + told.len() {
                        let last = next.participants.len() - 1;
                        assert(next.participants[last].user_id == msg.from);
                        assert(next.participants[last].transport == msg.addr);
                    }
                },
                UserMessageView::Goodbye => {
                    if present(self.participants, msg.from) {
                        let kept = without(self.participants, msg.from);
                        let message = ToSessionMessageView::ByeParticipant { user_id: msg.from };
                        if i >= 1 {
                            lemma_fan_out_reaches(kept, None, message, i - 1);
                            assert(effects[i] == fan_out(kept, None, message)[i - 1]);
                        }
                    }
                },
                UserMessageView::Seek { duration, time } => {
                    self.lemma_seek_spares_sender(msg.from, time, duration);
                },
                UserMessageView::SetState { state, time } => {
                    self.lemma_state_spares_sender(msg.from, time, state, now);
                },
                UserMessageView::State { .. } => {
                    if present(self.participants, msg.from) {
                        let message = effects[i]->Deliver_message;
                        lemma_fan_out_reaches(next.participants, None, message, i);
                    }
                },
            }
        }
    }

    /// Who is not in the room stays out of it until they say `Hello`.
    pub proof fn lemma_stranger_stays_out(self, msg: ClientMessageView, now: int, user_id: UserId)
        requires
            !present(self.participants, user_id),
            !(msg.message is Hello && msg.from == user_id),
        ensures
            !present(self.step(msg, now).0.participants, user_id),
    {
        let next = self.step(msg, now).0;
        match msg.message {
            UserMessageView::Hello { .. } => {
                let kept = without(self.participants, msg.from);
                lemma_without_stays_absent(self.participants, msg.from, user_id);
                if present(next.participants, user_id) {
                    let k = choose|k: int|
                        0 <= k < next.participants.len() && (
                        #[trigger] next.participants[k]).user_id == user_id;
                    assert(kept[k].user_id == user_id);
                }
            },
            UserMessageView::Goodbye => {
                lemma_without_stays_absent(self.participants, msg.from, user_id);
            },
            UserMessageView::State { .. } => {
                if present(self.participants, msg.from) {
                    lemma_present_has_first(self.participants, msg.from);
                    if present(next.participants, user_id) {
                        let k = choose|k: int|
                            0 <= k < next.participants.len() && (
                            #[trigger] next.participants[k]).user_id == user_id;
                        assert(self.participants[k].user_id == user_id);
                    }
                }
            },
            _ => {},
        }
    }

    /// A ping brings nobody into the room and reaches nobody who is not in
    /// it.
    pub proof fn lemma_ping_spares_strangers(self, target: UserId, now: int, user_id: UserId)
        requires
            !present(self.participants, user_id),
        ensures
            !present(self.pinged(target, now).0.participants, user_id),
            forall|i: int|
                0 <= i < self.pinged(target, now).1.len() ==> !(#[trigger] self.pinged(
                    target,
                    now,
                ).1[i]).reaches(user_id),
    {
        let pinged = self.pinged(target, now).0;
        if present(self.participants, target) {
            lemma_present_has_first(self.participants, target);
            if present(pinged.participants, user_id) {
                let k = choose|k: int|
                    0 <= k < pinged.participants.len() && (
                    #[trigger] pinged.participants[k]).user_id == user_id;
                assert(self.participants[k].user_id == user_id);
            }
        }
        self.lemma_ping_reaches_members(target, now);
        let effects = self.pinged(target, now).1;
        assert forall|i: int| 0 <= i < effects.len() implies !(#[trigger] effects[i]).reaches(
            user_id,
        ) by {
            if effects[i].reaches(user_id) {
                lemma_reached_is_present(
                    pinged.participants,
                    user_id,
                    effects[i]->Deliver_transport,
                );
            }
        }
    }

    /// Once someone has left, nothing more is handed to them: as long as
    /// they are not in the room and do not say `Hello`, no message reaches
    /// them, whatever the room handles.
    pub proof fn lemma_stranger_not_reached(self, msg: ClientMessageView, now: int, user_id: UserId)
        requires
            !present(self.participants, user_id),
            !(msg.message is Hello && msg.from == user_id),
        ensures
            forall|i: int|
                0 <= i < self.step(msg, now).1.len() ==> !(#[trigger] self.step(
                    msg,
                    now,
                ).1[i]).reaches(user_id),
    {
        self.lemma_stranger_stays_out(msg, now, user_id);
        self.lemma_step_reaches_members(msg, now);
        let (next, effects) = self.step(msg, now);
        assert forall|i: int| 0 <= i < effects.len() implies !(#[trigger] effects[i]).reaches(
            user_id,
        ) by {
            if effects[i].reaches(user_id) {
                lemma_reached_is_present(next.participants, user_id, effects[i]->Deliver_transport);
            }
        }
    }

    /// A newcomer keeps the invariant of the room.
    pub proof fn lemma_joined_wf(
        self,
        name: Seq<char>,
        avatar: BadgeId,
        cookie: Seq<char>,
        user_id: UserId,
        transport: TransportId,
        time: Time,
        now: int,
    )
        requires
            self.wf(),
        ensures
            self.joined(name, avatar, cookie, user_id, transport, time, now).0.wf(),
    {
        let next = self.joined(name, avatar, cookie, user_id, transport, time, now).0;
        let kept = without(self.participants, user_id);
        lemma_without_distinct(self.participants, user_id);
        assert forall|i: int, j: int| 0 <= i < j < next.participants.len() implies (
        #[trigger] next.participants[i]).user_id != (#[trigger] next.participants[j]).user_id by {
            if j < kept.len() {
                assert(kept[i].user_id != kept[j].user_id);
            } else {
                lemma_without_kept(self.participants, user_id, i);
            }
        }
    }

    /// A departure keeps the invariant of the room.
    pub proof fn lemma_left_wf(self, user_id: UserId)
        requires
            self.wf(),
        ensures
            self.left(user_id).0.wf(),
    {
        lemma_without_distinct(self.participants, user_id);
    }

    /// A report keeps the invariant of the room.
    pub proof fn lemma_reported_wf(
        self,
        server_time: int,
        user_id: UserId,
        duration: MediaSpan,
        duration_time: Time,
        state: PlayState,
        state_time: Time,
        buffered: MediaSpan,
        time: Time,
        now: int,
    )
        requires
            self.wf(),
        ensures
            self.reported(
                server_time,
                user_id,
                duration,
                duration_time,
                state,
                state_time,
                buffered,
                time,
                now,
            ).0.wf(),
    {
        let next = self.reported(
            server_time,
            user_id,
            duration,
            duration_time,
            state,
            state_time,
            buffered,
            time,
            now,
        ).0;
        if present(self.participants, user_id) {
            lemma_present_has_first(self.participants, user_id);
            assert forall|i: int, j: int| 0 <= i < j < next.participants.len() implies (
            #[trigger] next.participants[i]).user_id != (
            #[trigger] next.participants[j]).user_id by {
                assert(self.participants[i].user_id != self.participants[j].user_id);
            }
        }
    }

    /// Every client message keeps the invariant of the room.
    pub proof fn lemma_step_wf(self, msg: ClientMessageView, now: int)
        requires
            self.wf(),
        ensures
            self.step(msg, now).0.wf(),
    {
        match msg.message {
            UserMessageView::Hello { name, avatar, time } => {
                self.lemma_joined_wf(name, avatar, msg.cookie, msg.from, msg.addr, time, now);
            },
            UserMessageView::Goodbye => {
                self.lemma_left_wf(msg.from);
            },
            UserMessageView::State {
                duration,
                duration_time,
                state,
                state_time,
                buffered,
                time,
            } => {
                self.lemma_reported_wf(
                    msg.server_time,
                    msg.from,
                    duration,
                    duration_time,
                    state,
                    state_time,
                    buffered,
                    time,
                    now,
                );
            },
            _ => {},
        }
    }

    /// Every ping keeps the invariant of the room.
    pub proof fn lemma_ping_wf(self, user_id: UserId, now: int)
        requires
            self.wf(),
        ensures
            self.pinged(user_id, now).0.wf(),
    {
        let pinged = self.pinged(user_id, now).0;
        if present(self.participants, user_id) {
            lemma_present_has_first(self.participants, user_id);
            assert forall|i: int, j: int| 0 <= i < j < pinged.participants.len() implies (
            #[trigger] pinged.participants[i]).user_id != (
            #[trigger] pinged.participants[j]).user_id by {
                assert(self.participants[i].user_id != self.participants[j].user_id);
            }
        }
    }
}

} // verus!
