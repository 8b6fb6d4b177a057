//! What a room asks of the runtime that hosts it.
//!
//! A room performs no input or output. Each message it handles yields a list
//! of effects, and the runtime carries them out in the order of the list.

use crate::protocol::{ToSessionMessage, ToSessionMessageView, TransportId, UserId};
use vstd::prelude::*;

verus! {

/// One thing for the runtime to do.
#[derive(Debug, PartialEq, Eq)]
pub enum Effect {
    /// Hand `message` to `transport`, the session transport of the
    /// participant `to`.
    Deliver { to: UserId, transport: TransportId, message: ToSessionMessage },
    /// Start the ping driver of a participant who has joined.
    StartPing { user_id: UserId },
    /// Stop the ping driver of a participant who is no longer in the room.
    StopPing { user_id: UserId },
}

/// The mathematical content of an [`Effect`].
pub enum EffectView {
    Deliver { to: UserId, transport: TransportId, message: ToSessionMessageView },
    StartPing { user_id: UserId },
    StopPing { user_id: UserId },
}

impl View for Effect {
    type V = EffectView;

    open spec fn view(&self) -> EffectView {
        match *self {
            Effect::Deliver { to, transport, message } => EffectView::Deliver {
                to,
                transport,
                message: message@,
            },
            Effect::StartPing { user_id } => EffectView::StartPing { user_id },
            Effect::StopPing { user_id } => EffectView::StopPing { user_id },
        }
    }
}

impl EffectView {
    /// Whether the effect hands a message to the participant `user_id`.
    pub open spec fn reaches(self, user_id: UserId) -> bool {
        self matches EffectView::Deliver { to, .. } && to == user_id
    }
}

} // verus!
