//! The session transport: what stands between one client's socket and the
//! room.
//!
//! The transport decides; the runtime reads and writes the socket. Each
//! frame that comes in is turned into a [`TransportAction`] for the runtime
//! to carry out.

use crate::protocol::{
    ClientMessage, ClientMessageView, ToSessionMessage, ToSessionMessageView, TransportId, UserId,
    UserMessage, UserMessageView,
};
use crate::time::{wall_clock, ServerTime};
use vstd::prelude::*;

verus! {

/// Why a session is closed: the close code and what the peer says of it.
#[derive(Debug, PartialEq, Eq)]
pub struct CloseReason {
    pub code: u16,
    pub description: Option<String>,
}

/// The mathematical content of a [`CloseReason`].
pub struct CloseReasonView {
    pub code: u16,
    pub description: Option<Seq<char>>,
}

impl View for CloseReason {
    type V = CloseReasonView;

    open spec fn view(&self) -> CloseReasonView {
        CloseReasonView {
            code: self.code,
            description: match self.description {
                Some(text) => Some(text@),
                None => None,
            },
        }
    }
}

/// The view of an optional close reason.
pub open spec fn reason_view(reason: Option<CloseReason>) -> Option<CloseReasonView> {
    match reason {
        Some(r) => Some(r@),
        None => None,
    }
}

/// A frame from the client, as far as the transport tells frames apart.
#[derive(Debug, PartialEq, Eq)]
pub enum Incoming {
    /// A text frame that holds a user message.
    Message(UserMessage),
    /// A text frame that could not be read as a user message, with the
    /// description of what is wrong with it.
    Malformed(String),
    /// A close frame.
    Close(Option<CloseReason>),
    /// Any other frame, or a violation of the framing protocol.
    Other,
}

/// The mathematical content of an [`Incoming`].
pub enum IncomingView {
    Message(UserMessageView),
    Malformed(Seq<char>),
    Close(Option<CloseReasonView>),
    Other,
}

impl View for Incoming {
    type V = IncomingView;

    open spec fn view(&self) -> IncomingView {
        match *self {
            Incoming::Message(message) => IncomingView::Message(message@),
            Incoming::Malformed(text) => IncomingView::Malformed(text@),
            Incoming::Close(reason) => IncomingView::Close(reason_view(reason)),
            Incoming::Other => IncomingView::Other,
        }
    }
}

/// What the runtime is to do about a frame.
#[derive(Debug, PartialEq, Eq)]
pub enum TransportAction {
    /// Deliver the message to the room.
    Forward(ClientMessage),
    /// Send the message back to the client. The session goes on.
    Reply(ToSessionMessage),
    /// Answer the close frame with a close frame and end the session.
    Close(Option<CloseReason>),
    /// Nothing.
    Ignore,
}

/// The mathematical content of a [`TransportAction`].
pub enum TransportActionView {
    Forward(ClientMessageView),
    Reply(ToSessionMessageView),
    Close(Option<CloseReasonView>),
    Ignore,
}

impl View for TransportAction {
    type V = TransportActionView;

    open spec fn view(&self) -> TransportActionView {
        match *self {
            TransportAction::Forward(message) => TransportActionView::Forward(message@),
            TransportAction::Reply(message) => TransportActionView::Reply(message@),
            TransportAction::Close(reason) => TransportActionView::Close(reason_view(reason)),
            TransportAction::Ignore => TransportActionView::Ignore,
        }
    }
}

/// The session of one client: who they are in the room.
#[derive(Debug, PartialEq, Eq)]
pub struct WebsocketTransport {
    user_id: UserId,
    cookie: String,
}

/// The mathematical content of a [`WebsocketTransport`].
pub struct WebsocketTransportView {
    pub user_id: UserId,
    pub cookie: Seq<char>,
}

impl WebsocketTransportView {
    /// The client message that carries `message` to the room: it names the
    /// sender, their cookie, the transport `addr` to answer to, and the
    /// instant `server_time` at which the frame was received.
    pub open spec fn client_message(
        self,
        server_time: int,
        message: UserMessageView,
        addr: TransportId,
    ) -> ClientMessageView {
        ClientMessageView { from: self.user_id, cookie: self.cookie, addr, message, server_time }
    }

    /// What is done about a text frame received at `now`: a user message is
    /// forwarded to the room; a frame that is none is answered with an error
    /// that describes what is wrong, and the room is not told.
    pub open spec fn on_text(
        self,
        parsed: Result<UserMessageView, Seq<char>>,
        addr: TransportId,
        now: int,
    ) -> TransportActionView {
        match parsed {
            Ok(message) => TransportActionView::Forward(self.client_message(now, message, addr)),
            Err(text) => TransportActionView::Reply(ToSessionMessageView::Error(text)),
        }
    }

    /// What is done about a frame received at `now`. Text frames are handled
    /// as [`Self::on_text`] says, a close frame ends the session, every
    /// other frame is ignored.
    pub open spec fn on_frame(
        self,
        frame: IncomingView,
        addr: TransportId,
        now: int,
    ) -> TransportActionView {
        match frame {
            IncomingView::Message(message) => self.on_text(Ok(message), addr, now),
            IncomingView::Malformed(text) => self.on_text(Err(text), addr, now),
            IncomingView::Close(reason) => TransportActionView::Close(reason),
            IncomingView::Other => TransportActionView::Ignore,
        }
    }

    /// The message that tells the room, at `now`, that the session is over.
    pub open spec fn farewell(self, addr: TransportId, now: int) -> ClientMessageView {
        self.client_message(now, UserMessageView::Goodbye, addr)
    }
}

impl View for WebsocketTransport {
    type V = WebsocketTransportView;

    closed spec fn view(&self) -> WebsocketTransportView {
        WebsocketTransportView { user_id: self.user_id, cookie: self.cookie@ }
    }
}

/// The view of the outcome of reading a text frame.
pub open spec fn parsed_view(parsed: Result<UserMessage, String>) -> Result<
    UserMessageView,
    Seq<char>,
> {
    match parsed {
        Ok(message) => Ok(message@),
        Err(text) => Err(text@),
    }
}

impl WebsocketTransport {
    /// The session of the user `user_id`, known by `cookie`.
    pub fn new(cookie: String, user_id: UserId) -> (transport: Self)
        ensures
            transport@ == (WebsocketTransportView { user_id, cookie: cookie@ }),
    {
        Self { user_id, cookie }
    }

    /// The identifier of the user of this session.
    pub fn user_id(&self) -> (user_id: UserId)
        ensures
            user_id == self@.user_id,
    {
        self.user_id
    }

    /// Wraps a user message received at `server_time` for the room.
    pub fn handle_message(
        &self,
        server_time: ServerTime,
        message: UserMessage,
        addr: TransportId,
    ) -> (wrapped: ClientMessage)
        ensures
            wrapped@ == self@.client_message(server_time@, message@, addr),
    {
        ClientMessage {
            from: self.user_id,
            cookie: self.cookie.clone(),
            message,
            addr,
            server_time,
        }
    }

    /// Decides what to do about a text frame received at `now`, given the
    /// outcome of reading it as a user message.
    pub fn handle_websocket_text_at(
        &self,
        parsed: Result<UserMessage, String>,
        addr: TransportId,
        now: ServerTime,
    ) -> (action: TransportAction)
        ensures
            action@ == self@.on_text(parsed_view(parsed), addr, now@),
            parsed is Err ==> action@ == TransportActionView::Reply(
                ToSessionMessageView::Error(parsed->Err_0@),
            ),
    {
        match parsed {
            Ok(message) => TransportAction::Forward(self.handle_message(now, message, addr)),
            Err(text) => TransportAction::Reply(ToSessionMessage::Error(text)),
        }
    }

    /// Decides what to do about a text frame received at the instant the
    /// wall clock shows.
    pub fn handle_websocket_text(
        &self,
        parsed: Result<UserMessage, String>,
        addr: TransportId,
    ) -> (action: TransportAction)
        ensures
            exists|now: ServerTime|
                action@ == #[trigger] self@.on_text(parsed_view(parsed), addr, now@),
            parsed is Err ==> action@ == TransportActionView::Reply(
                ToSessionMessageView::Error(parsed->Err_0@),
            ),
    {
        let now = wall_clock();
        self.handle_websocket_text_at(parsed, addr, now)
    }

    /// Decides what to do about a frame received at `now`.
    pub fn handle_at(&self, frame: Incoming, addr: TransportId, now: ServerTime) -> (action:
        TransportAction)
        ensures
            action@ == self@.on_frame(frame@, addr, now@),
            frame matches Incoming::Malformed(text) ==> action@ == TransportActionView::Reply(
                ToSessionMessageView::Error(text@),
            ),
    {
        match frame {
            Incoming::Message(message) => self.handle_websocket_text_at(Ok(message), addr, now),
            Incoming::Malformed(text) => self.handle_websocket_text_at(Err(text), addr, now),
            Incoming::Close(reason) => TransportAction::Close(reason),
            Incoming::Other => TransportAction::Ignore,
        }
    }

    /// Decides what to do about a frame received at the instant the wall
    /// clock shows.
    pub fn handle(&self, frame: Incoming, addr: TransportId) -> (action: TransportAction)
        ensures
            exists|now: ServerTime| action@ == #[trigger] self@.on_frame(frame@, addr, now@),
            frame matches Incoming::Malformed(text) ==> action@ == TransportActionView::Reply(
                ToSessionMessageView::Error(text@),
            ),
    {
        let now = wall_clock();
        self.handle_at(frame, addr, now)
    }

    /// The message that tells the room, at `now`, that the session is over.
    pub fn stopped_at(&self, addr: TransportId, now: ServerTime) -> (goodbye: ClientMessage)
        ensures
            goodbye@ == self@.farewell(addr, now@),
    {
        self.handle_message(now, UserMessage::Goodbye, addr)
    }

    /// The message that tells the room that the session is over, dated at
    /// the instant the wall clock shows.
    pub fn stopped(&self, addr: TransportId) -> (goodbye: ClientMessage)
        ensures
            exists|now: ServerTime| goodbye@ == #[trigger] self@.farewell(addr, now@),
    {
        let now = wall_clock();
        self.stopped_at(addr, now)
    }
}

} // verus!
