//! The registry of rooms: from the code of a room to the handle of the room.
//!
//! The registry stores handles and hands them back; it never looks inside
//! one, so the type of the handle is left to the runtime.

use vstd::hash_map::StringHashMap;
use vstd::prelude::*;

verus! {

/// Asks for the room registered under a code.
#[derive(Debug, PartialEq, Eq)]
pub struct FindRoom(pub String);

/// Registers a room under a code.
#[derive(Debug, PartialEq, Eq)]
pub struct RegisterRoom<H>(pub String, pub H);

/// Takes the room registered under a code out of the registry.
#[derive(Debug, PartialEq, Eq)]
pub struct RemoveRoom(pub String);

/// The rooms of the server, by their code.
#[verifier::reject_recursive_types(H)]
pub struct RoomRepository<H> {
    rooms: StringHashMap<H>,
}

impl<H> View for RoomRepository<H> {
    type V = Map<Seq<char>, H>;

    closed spec fn view(&self) -> Map<Seq<char>, H> {
        self.rooms@
    }
}

impl<H> Default for RoomRepository<H> {
    /// A registry without rooms.
    fn default() -> (repository: Self)
        ensures
            repository@ == Map::<Seq<char>, H>::empty(),
    {
        RoomRepository { rooms: StringHashMap::new() }
    }
}

impl<H> RoomRepository<H> {
    /// The handle registered under the code, if there is one.
    pub fn handle_find_room(&self, msg: &FindRoom) -> (room: Option<&H>)
        ensures
            match room {
                Some(handle) => self@.contains_key(msg.0@) && *handle == self@[msg.0@],
                None => !self@.contains_key(msg.0@),
            },
    {
        self.rooms.get(msg.0.as_str())
    }

    /// Registers the handle under the code, in place of any handle that was
    /// registered under it.
    pub fn handle_register_room(&mut self, msg: RegisterRoom<H>)
        ensures
            final(self)@ == old(self)@.insert(msg.0@, msg.1),
    {
        self.rooms.insert(msg.0, msg.1);
    }

    /// Takes the code out of the registry. The room itself is not touched.
    pub fn handle_remove_room(&mut self, msg: RemoveRoom)
        ensures
            final(self)@ == old(self)@.remove(msg.0@),
    {
        self.rooms.remove(msg.0.as_str());
    }
}

} // verus!
