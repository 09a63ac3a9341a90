//! MeshBoard: the core of a bulletin board on a packet-radio mesh, free of
//! input and output.
//!
//! The connection to the radio is a state machine ([`service`]) over a shared
//! state of nodes and messages ([`state`]); it takes events and answers with
//! actions ([`events`]), and [`laws`] says what holds of every run of it.
//! Callers decide through [`handler`]; [`router`] captures the identifier of
//! a packet just sent. The calls into the radio protocol's codec are in
//! [`codec`]. Around the connection stand the bulletin board ([`bbs`]), the
//! bridge to a chat ([`bridge`]), the interactive tool ([`repl`]) and the
//! display ([`screen`]).

pub mod bbs;
pub mod bridge;
pub mod codec;
pub mod events;
pub mod handler;
pub mod inbound;
pub mod laws;
pub mod packet;
pub mod repl;
pub mod router;
pub mod screen;
pub mod service;
pub mod state;
pub mod text;
pub mod types;
