//! The ping driver of one participant.
//!
//! The driver is a loop that never ends by itself: ask the room to ping the
//! participant, wait, and again. Here it is cut into turns. The runtime
//! delivers the request of a turn to the room, sleeps for as long as the
//! turn says and takes the next turn, until the participant has left.

use crate::protocol::UserId;
use crate::room::SendPing;
use vstd::prelude::*;

verus! {

/// The time between two pings, in milliseconds.
pub const PING_PERIOD_MILLIS: u64 = 5000;

/// One turn of the loop: the request for the room and the time to wait
/// before the next turn.
#[derive(Debug, Clone, Copy, PartialEq, Eq)]
pub struct PingTurn {
    pub request: SendPing,
    pub sleep_millis: u64,
}

/// The state of the ping driver of one participant.
#[derive(Debug, Clone, Copy, PartialEq, Eq)]
pub struct PingLoop {
    pub user_id: UserId,
    /// The number of the next ping.
    pub ping_num: u32,
}

/// The ping driver of the participant `user_id`, before its first turn.
pub fn participant_ping_loop(user_id: UserId) -> (driver: PingLoop)
    ensures
        driver == (PingLoop { user_id, ping_num: 0 }),
{
    PingLoop { user_id, ping_num: 0 }
}

impl PingLoop {
    /// The number that follows `ping_num`; after the last `u32` the count
    /// starts again at zero.
    pub open spec fn following(ping_num: u32) -> u32 {
        if ping_num == u32::MAX {
            0
        } else {
            (ping_num + 1) as u32
        }
    }

    /// Takes one turn: the request carries the participant and the number of
    /// this ping, the next turn will carry the number after it, and the wait
    /// is the ping period.
    pub fn turn(&mut self) -> (turn: PingTurn)
        ensures
            turn.request == SendPing(old(self).user_id, old(self).ping_num),
            turn.sleep_millis == PING_PERIOD_MILLIS,
            final(self).user_id == old(self).user_id,
            final(self).ping_num == Self::following(old(self).ping_num),
    {
        let request = SendPing(self.user_id, self.ping_num);
        self.ping_num = if self.ping_num == u32::MAX {
            0
        } else {
            self.ping_num + 1
        };
        PingTurn { request, sleep_millis: PING_PERIOD_MILLIS }
    }
}

/// The instant, in milliseconds, at which turn `k` of a driver falls due
/// when the first turn is taken at `start` and every later turn right after
/// the wait of the turn before it.
pub open spec fn due(start: int, k: int) -> int {
    start + k * PING_PERIOD_MILLIS
}

/// The number of turns of such a driver that fall due before `instant`.
pub open spec fn turns_before(start: int, instant: int) -> int {
    if instant <= start {
        0
    } else {
        (instant - start + PING_PERIOD_MILLIS - 1) / (PING_PERIOD_MILLIS as int)
    }
}

/// [`turns_before`] counts the turns that fall due before an instant.
pub proof fn lemma_turns_before(start: int, instant: int, k: int)
    requires
        0 <= k,
    ensures
        due(start, k) < instant <==> k < turns_before(start, instant),
{
}

/// Over a stretch of `span` milliseconds in the life of a driver, the turns
/// that fall due number the whole periods in the stretch, or one more.
pub proof fn lemma_cadence(start: int, from: int, span: int)
    requires
        start <= from,
        0 <= span,
    ensures
        span / (PING_PERIOD_MILLIS as int) <= turns_before(start, from + span) - turns_before(
            start,
            from,
        ) <= span / (PING_PERIOD_MILLIS as int) + 1,
{
}

} // verus!
