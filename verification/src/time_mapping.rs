//! The conversion of one participant's clock into the server's.

use crate::time::{ClientTime, Elapsed, MediaSpan, ServerTime, Timestamp};
use vstd::prelude::*;

verus! {

/// Timing of a single exchange with a client. No message fills it in any
/// more; a participant carries the place for it.
#[derive(Debug, Clone, Copy, PartialEq, Eq)]
pub struct TimingInfo {
    current_time: MediaSpan,
    sent_from_client: ClientTime,
    received_on_server: ServerTime,
}

/// What the server learnt of a participant's clock when their last reply to
/// a ping came in: the ping was requested at `requested_time`, the reply
/// arrived at `server_time`, and the client says it sent it at `client_time`.
#[derive(Debug, Clone, Copy, PartialEq, Eq)]
pub struct TimeMapping {
    requested_time: ServerTime,
    server_time: ServerTime,
    client_time: ClientTime,
}

/// The mathematical content of a [`TimeMapping`]: three instants in
/// nanoseconds since the epoch.
pub struct TimeMappingView {
    pub requested_time: int,
    pub server_time: int,
    pub client_time: int,
}

impl TimeMappingView {
    /// Where the client instant `client` falls on the server's clock, before
    /// the result is held to what a [`Timestamp`] can store.
    pub open spec fn shifted(self, client: int) -> int {
        self.server_time + (client - self.client_time)
    }

    /// Whether the conversion of `client` fits a [`Timestamp`] as it is.
    pub open spec fn fits(self, client: int) -> bool {
        Timestamp::earliest() <= self.shifted(client) <= Timestamp::latest()
    }

    /// The server instant that the client instant `client` is converted to.
    pub open spec fn convert(self, client: int) -> int {
        Timestamp::saturate(self.shifted(client))
    }

    /// The span from the arrival of the reply to the server instant `server`.
    pub open spec fn time_since(self, server: int) -> int {
        server - self.server_time
    }
}

impl View for TimeMapping {
    type V = TimeMappingView;

    closed spec fn view(&self) -> TimeMappingView {
        TimeMappingView {
            requested_time: self.requested_time@,
            server_time: self.server_time@,
            client_time: self.client_time@,
        }
    }
}

impl TimeMapping {
    /// The mapping captured by one ping and its reply.
    pub fn new(
        requested_time: ServerTime,
        server_time: ServerTime,
        client_time: ClientTime,
    ) -> (mapping: Self)
        ensures
            mapping@ == (TimeMappingView {
                requested_time: requested_time@,
                server_time: server_time@,
                client_time: client_time@,
            }),
    {
        Self { requested_time, server_time, client_time }
    }

    /// The server instant at which the ping was requested.
    pub fn requested_time(&self) -> (instant: ServerTime)
        ensures
            instant@ == self@.requested_time,
    {
        self.requested_time
    }

    /// The server instant at which the reply arrived.
    pub fn server_time(&self) -> (instant: ServerTime)
        ensures
            instant@ == self@.server_time,
    {
        self.server_time
    }

    /// The client instant at which the client says it sent the reply.
    pub fn client_time(&self) -> (instant: ClientTime)
        ensures
            instant@ == self@.client_time,
    {
        self.client_time
    }

    /// Converts an instant of the client's clock into the server's.
    pub fn convert(&self, time: ClientTime) -> (server: ServerTime)
        ensures
            server@ == self@.convert(time@),
    {
        let diff = time.0.since(&self.client_time.0);
        ServerTime(self.server_time.0.plus(diff))
    }

    /// The span from the arrival of the reply to `time`.
    pub fn time_since(&self, time: ServerTime) -> (elapsed: Elapsed)
        ensures
            elapsed.nanos == self@.time_since(time@),
    {
        time.0.since(&self.server_time.0)
    }

    /// The client instant at which a mapping was captured is converted to
    /// the server instant at which it was captured.
    pub proof fn lemma_convert_anchor(self)
        ensures
            self@.convert(self@.client_time) == self@.server_time,
    {
    }

    /// Conversion keeps distances: moving a client instant by `delta` moves
    /// its conversion by `delta`, as long as neither conversion is cut off
    /// at the bounds of what a [`Timestamp`] holds.
    pub proof fn lemma_convert_linear(self, time: ClientTime, delta: int)
        requires
            delta == 0 || (self@.fits(time@) && self@.fits(time@ + delta)),
        ensures
            self@.convert(time@ + delta) == self@.convert(time@) + delta,
    {
    }

    /// Outside the condition of [`Self::lemma_convert_linear`] conversion
    /// does not keep distances.
    pub proof fn lemma_convert_cut_off(self, time: ClientTime, delta: int)
        requires
            delta != 0,
            !self@.fits(time@) || !self@.fits(time@ + delta),
        ensures
            self@.convert(time@ + delta) != self@.convert(time@) + delta,
    {
    }
}

} // verus!
