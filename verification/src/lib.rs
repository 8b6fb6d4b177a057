//! The room engine of a synchronized video-watching service.
//!
//! Clients watch one stream together. Each of them reports where their
//! player stands and asks for play, pause and seek; the engine keeps the
//! shared state of the room and tells everyone else.
//!
//! The engine does no input or output. A [`room::Room`] takes one message at
//! a time and answers with the [`effect::Effect`]s that its runtime has to
//! carry out; a [`websocket_transport::WebsocketTransport`] decides what a
//! frame from a client means; a [`ping::PingLoop`] says when the next ping
//! is due. What each of them does is stated over mathematical models:
//! [`room_model`] holds the model of the room, [`room_proofs`] what
//! holds of every room.
//!
//! Clients and server do not share a clock. Every instant that a client
//! names is converted into server time through the sender's
//! [`time_mapping::TimeMapping`], which each reply to a ping renews.

pub mod badges;
pub mod effect;
pub mod login;
pub mod media;
pub mod participant;
pub mod ping;
pub mod protocol;
pub mod room;
pub mod room_model;
pub mod room_proofs;
pub mod room_repository;
pub mod seq_facts;
pub mod time;
pub mod time_mapping;
pub mod websocket_transport;
